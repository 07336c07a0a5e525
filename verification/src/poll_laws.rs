//! What holds of every poll: which values the registry holds afterwards and
//! which alerts a validator can raise.

use crate::alerts::{jailed_flag, stake_changed_alert, AlertKind, AlertView};
use crate::gauges::{series_key, series_value};
use crate::metrics::{
    count_alerts, jail_alerts, poll_alerts, poll_state, record_alerts, records_alerts,
    records_state, stake_alerts, stake_sum, MetricsView, ValidatorGauge,
};
use crate::types::validator::ValidatorView;
use vstd::prelude::*;

verus! {

/// How many alerts of a sequence meet `p`.
pub open spec fn count_where(alerts: Seq<AlertView>, p: spec_fn(AlertView) -> bool) -> nat
    decreases alerts.len(),
{
    if alerts.len() == 0 {
        0
    } else {
        count_where(alerts.drop_last(), p) + if p(alerts.last()) {
            1nat
        } else {
            0nat
        }
    }
}

/// An alert that the validator at `address` is jailed now.
pub open spec fn is_jailed_alert(alert: AlertView, address: Seq<char>) -> bool {
    alert.kind is ValidatorJailed && alert.address == Some(address)
}

/// An alert that the validator at `address` is not jailed any more.
pub open spec fn is_unjailed_alert(alert: AlertView, address: Seq<char>) -> bool {
    alert.kind is ValidatorUnjailed && alert.address == Some(address)
}

/// An alert that the stake of the validator at `address` has changed.
pub open spec fn is_stake_alert(alert: AlertView, address: Seq<char>) -> bool {
    alert.kind is StakeChanged && alert.address == Some(address)
}

/// Whether the record at `i` is the only one of the snapshot in its series:
/// no other record has its address, or an address that the registry files
/// under the same key.
pub open spec fn alone_in_series(vs: Seq<ValidatorView>, i: int) -> bool {
    forall|j: int|
        0 <= j < vs.len() && j != i ==> series_key(#[trigger] vs[j].address) != series_key(
            vs[i].address,
        )
}

/// The sum of all stakes of a snapshot.
pub open spec fn total_stake(vs: Seq<ValidatorView>) -> nat
    decreases vs.len(),
{
    if vs.len() == 0 {
        0
    } else {
        total_stake(vs.drop_last()) + vs.last().stake as nat
    }
}

proof fn count_where_concat(a: Seq<AlertView>, b: Seq<AlertView>, p: spec_fn(AlertView) -> bool)
    ensures
        count_where(a + b, p) == count_where(a, p) + count_where(b, p),
    decreases b.len(),
{
    if b.len() == 0 {
        assert(a + b =~= a);
    } else {
        assert((a + b).drop_last() =~= a + b.drop_last());
        count_where_concat(a, b.drop_last(), p);
    }
}

proof fn count_where_none(a: Seq<AlertView>, p: spec_fn(AlertView) -> bool)
    requires
        forall|k: int| 0 <= k < a.len() ==> !p(#[trigger] a[k]),
    ensures
        count_where(a, p) == 0,
    decreases a.len(),
{
    if a.len() > 0 {
        count_where_none(a.drop_last(), p);
    }
}

/// A series that no record of a snapshot touches holds after the records
/// what it held before.
pub proof fn untouched_series_keeps_value(s: MetricsView, vs: Seq<ValidatorView>, key: u64)
    requires
        forall|j: int| 0 <= j < vs.len() ==> series_key(#[trigger] vs[j].address) != key,
    ensures
        series_value(records_state(s, vs).recent_blocks, key) == series_value(
            s.recent_blocks,
            key,
        ),
        series_value(records_state(s, vs).is_jailed, key) == series_value(s.is_jailed, key),
        series_value(records_state(s, vs).stake, key) == series_value(s.stake, key),
    decreases vs.len(),
{
    if vs.len() > 0 {
        let head = vs.drop_last();
        assert forall|j: int| 0 <= j < head.len() implies series_key(
            #[trigger] head[j].address,
        ) != key by {
            assert(head[j] == vs[j]);
        }
        untouched_series_keeps_value(s, head, key);
        assert(series_key(vs[vs.len() - 1].address) != key);
    }
}

/// After a poll the gauges of an address hold the values of the last record
/// of the snapshot that is filed under the address's series.
pub proof fn poll_records_last_of_series(s: MetricsView, vs: Seq<ValidatorView>, i: int)
    requires
        0 <= i < vs.len(),
        forall|j: int|
            i < j < vs.len() ==> series_key(#[trigger] vs[j].address) != series_key(
                vs[i].address,
            ),
    ensures
        poll_state(s, vs).get(ValidatorGauge::Stake, vs[i].address) == vs[i].stake,
        poll_state(s, vs).get(ValidatorGauge::IsJailed, vs[i].address) == jailed_flag(
            vs[i].jailed,
        ),
        poll_state(s, vs).get(ValidatorGauge::RecentBlocks, vs[i].address)
            == vs[i].recent_blocks as u64,
    decreases vs.len(),
{
    let head = vs.drop_last();
    if i < vs.len() - 1 {
        assert forall|j: int| i < j < head.len() implies series_key(#[trigger] head[j].address)
            != series_key(head[i].address) by {
            assert(head[j] == vs[j]);
        }
        poll_records_last_of_series(s, head, i);
        assert(series_key(vs[vs.len() - 1].address) != series_key(vs[i].address));
    }
}

/// After a poll in which a validator's record is alone in its series, the
/// stake gauge of the validator's address holds the record's stake, the
/// jailed gauge its jailed state as one or zero, and the gauge of recent
/// blocks its number of recent blocks.
pub proof fn poll_records_validator(s: MetricsView, vs: Seq<ValidatorView>, i: int)
    requires
        0 <= i < vs.len(),
        alone_in_series(vs, i),
    ensures
        poll_state(s, vs).get(ValidatorGauge::Stake, vs[i].address) == vs[i].stake,
        poll_state(s, vs).get(ValidatorGauge::IsJailed, vs[i].address) == jailed_flag(
            vs[i].jailed,
        ),
        poll_state(s, vs).get(ValidatorGauge::RecentBlocks, vs[i].address)
            == vs[i].recent_blocks as u64,
{
    poll_records_last_of_series(s, vs, i);
}

/// Every alert that a record raises carries the record's address.
pub proof fn record_alerts_carry_address(s: MetricsView, v: ValidatorView, k: int)
    requires
        0 <= k < record_alerts(s, v).len(),
    ensures
        record_alerts(s, v)[k].address == Some(v.address),
{
}

/// Of the alerts of the records of a snapshot, those about the address of a
/// record that is alone in its series are the alerts of that record, held
/// against the registry as the records before it left it.
pub proof fn alerts_about_validator(
    s: MetricsView,
    vs: Seq<ValidatorView>,
    i: int,
    p: spec_fn(AlertView) -> bool,
)
    requires
        0 <= i < vs.len(),
        alone_in_series(vs, i),
        forall|alert: AlertView| #[trigger] p(alert) ==> alert.address == Some(vs[i].address),
    ensures
        count_where(records_alerts(s, vs), p) == count_where(
            record_alerts(records_state(s, vs.take(i)), vs[i]),
            p,
        ),
    decreases vs.len(),
{
    let head = vs.drop_last();
    let last = vs.last();
    let tail = record_alerts(records_state(s, head), last);
    count_where_concat(records_alerts(s, head), tail, p);
    if i == vs.len() - 1 {
        assert(vs.take(i) =~= head);
        foreign_alerts_do_not_count(s, head, vs[i].address, p);
    } else {
        assert(series_key(vs[vs.len() - 1].address) != series_key(vs[i].address));
        assert forall|k: int| 0 <= k < tail.len() implies !p(#[trigger] tail[k]) by {
            record_alerts_carry_address(records_state(s, head), last, k);
        }
        count_where_none(tail, p);
        assert forall|j: int| 0 <= j < head.len() && j != i implies series_key(
            #[trigger] head[j].address,
        ) != series_key(head[i].address) by {
            assert(head[j] == vs[j]);
        }
        alerts_about_validator(s, head, i, p);
        assert(head.take(i) =~= vs.take(i));
    }
}

proof fn foreign_alerts_do_not_count(
    s: MetricsView,
    vs: Seq<ValidatorView>,
    address: Seq<char>,
    p: spec_fn(AlertView) -> bool,
)
    requires
        forall|j: int|
            0 <= j < vs.len() ==> series_key(#[trigger] vs[j].address) != series_key(address),
        forall|alert: AlertView| #[trigger] p(alert) ==> alert.address == Some(address),
    ensures
        count_where(records_alerts(s, vs), p) == 0,
    decreases vs.len(),
{
    if vs.len() > 0 {
        let head = vs.drop_last();
        let tail = record_alerts(records_state(s, head), vs.last());
        count_where_concat(records_alerts(s, head), tail, p);
        assert forall|j: int| 0 <= j < head.len() implies series_key(
            #[trigger] head[j].address,
        ) != series_key(address) by {
            assert(head[j] == vs[j]);
        }
        foreign_alerts_do_not_count(s, head, address, p);
        assert(series_key(vs[vs.len() - 1].address) != series_key(address));
        assert forall|k: int| 0 <= k < tail.len() implies !p(#[trigger] tail[k]) by {
            record_alerts_carry_address(records_state(s, head), vs.last(), k);
        }
        count_where_none(tail, p);
    }
}

/// The alerts that the validator at `address` is jailed now.
pub open spec fn jailed_alerts_of(address: Seq<char>) -> spec_fn(AlertView) -> bool {
    |alert: AlertView| is_jailed_alert(alert, address)
}

/// The alerts that the validator at `address` is not jailed any more.
pub open spec fn unjailed_alerts_of(address: Seq<char>) -> spec_fn(AlertView) -> bool {
    |alert: AlertView| is_unjailed_alert(alert, address)
}

/// The alerts that the stake of the validator at `address` has changed.
pub open spec fn stake_alerts_of(address: Seq<char>) -> spec_fn(AlertView) -> bool {
    |alert: AlertView| is_stake_alert(alert, address)
}

/// Of the alerts of a poll, those about the address of a record that is
/// alone in its series are the alerts of that record, held against the
/// registry as the poll found it.
pub proof fn poll_alerts_about_validator(
    s: MetricsView,
    vs: Seq<ValidatorView>,
    i: int,
    p: spec_fn(AlertView) -> bool,
)
    requires
        0 <= i < vs.len(),
        alone_in_series(vs, i),
        forall|alert: AlertView| #[trigger] p(alert) ==> alert.address == Some(vs[i].address),
    ensures
        count_where(poll_alerts(s, vs), p) == count_where(record_alerts(s, vs[i]), p),
{
    let before = records_state(s, vs.take(i));
    let key = series_key(vs[i].address);
    count_where_concat(records_alerts(s, vs), count_alerts(s, vs), p);
    assert forall|k: int| 0 <= k < count_alerts(s, vs).len() implies !p(
        #[trigger] count_alerts(s, vs)[k],
    ) by {
        assert(count_alerts(s, vs)[k].address is None);
    }
    count_where_none(count_alerts(s, vs), p);
    alerts_about_validator(s, vs, i, p);
    assert forall|j: int| 0 <= j < vs.take(i).len() implies series_key(
        #[trigger] vs.take(i)[j].address,
    ) != key by {
        assert(vs.take(i)[j] == vs[j]);
    }
    untouched_series_keeps_value(s, vs.take(i), key);
    assert(jail_alerts(before, vs[i]) == jail_alerts(s, vs[i]));
    assert(stake_alerts(before, vs[i]) == stake_alerts(s, vs[i]));
}

/// The first observation of a validator raises no alert on its stake,
/// whatever the stake is: where the stake gauge of a validator's address
/// holds zero, a poll in which the validator's record is alone in its series
/// raises no `StakeChanged` alert about the address.
pub proof fn first_observation_raises_no_stake_alert(
    s: MetricsView,
    vs: Seq<ValidatorView>,
    i: int,
)
    requires
        0 <= i < vs.len(),
        alone_in_series(vs, i),
        s.get(ValidatorGauge::Stake, vs[i].address) == 0,
    ensures
        count_where(poll_alerts(s, vs), stake_alerts_of(vs[i].address)) == 0,
{
    let p = stake_alerts_of(vs[i].address);
    let raised = record_alerts(s, vs[i]);
    poll_alerts_about_validator(s, vs, i, p);
    assert(stake_alerts(s, vs[i]) =~= Seq::empty());
    assert forall|k: int| 0 <= k < raised.len() implies !p(#[trigger] raised[k]) by {}
    count_where_none(raised, p);
}

/// A validator that one poll records as not jailed and that the next poll
/// finds jailed raises exactly one `ValidatorJailed` alert in that poll, and
/// no `ValidatorUnjailed` alert. The validator's record is alone in its
/// series in both polls.
pub proof fn jailing_raises_one_jailed_alert(
    s: MetricsView,
    first: Seq<ValidatorView>,
    second: Seq<ValidatorView>,
    i: int,
    j: int,
)
    requires
        0 <= i < first.len(),
        0 <= j < second.len(),
        alone_in_series(first, i),
        alone_in_series(second, j),
        first[i].address == second[j].address,
        !first[i].jailed,
        second[j].jailed,
    ensures
        count_where(
            poll_alerts(poll_state(s, first), second),
            jailed_alerts_of(second[j].address),
        ) == 1,
        count_where(
            poll_alerts(poll_state(s, first), second),
            unjailed_alerts_of(second[j].address),
        ) == 0,
{
    let address = second[j].address;
    let between = poll_state(s, first);
    poll_records_validator(s, first, i);
    assert(between.get(ValidatorGauge::IsJailed, address) == 0);
    let jailed = jailed_alerts_of(address);
    let unjailed = unjailed_alerts_of(address);
    let jail = jail_alerts(between, second[j]);
    let stake = stake_alerts(between, second[j]);
    poll_alerts_about_validator(between, second, j, jailed);
    poll_alerts_about_validator(between, second, j, unjailed);
    assert(jail.len() == 1);
    assert(jailed(jail[0]));
    count_where_concat(jail, stake, jailed);
    count_where_concat(jail, stake, unjailed);
    assert forall|k: int| 0 <= k < stake.len() implies !jailed(#[trigger] stake[k]) && !unjailed(
        stake[k],
    ) by {}
    count_where_none(stake, jailed);
    count_where_none(stake, unjailed);
    assert forall|k: int| 0 <= k < jail.len() implies !unjailed(#[trigger] jail[k]) by {}
    count_where_none(jail, unjailed);
    assert(jail.drop_last() =~= Seq::empty());
    assert(count_where(jail.drop_last(), jailed) == 0);
}

/// A validator that one poll records as jailed and that the next poll finds
/// not jailed raises exactly one `ValidatorUnjailed` alert in that poll, and
/// no `ValidatorJailed` alert. The validator's record is alone in its
/// series in both polls.
pub proof fn unjailing_raises_one_unjailed_alert(
    s: MetricsView,
    first: Seq<ValidatorView>,
    second: Seq<ValidatorView>,
    i: int,
    j: int,
)
    requires
        0 <= i < first.len(),
        0 <= j < second.len(),
        alone_in_series(first, i),
        alone_in_series(second, j),
        first[i].address == second[j].address,
        first[i].jailed,
        !second[j].jailed,
    ensures
        count_where(
            poll_alerts(poll_state(s, first), second),
            unjailed_alerts_of(second[j].address),
        ) == 1,
        count_where(
            poll_alerts(poll_state(s, first), second),
            jailed_alerts_of(second[j].address),
        ) == 0,
{
    let address = second[j].address;
    let between = poll_state(s, first);
    poll_records_validator(s, first, i);
    assert(between.get(ValidatorGauge::IsJailed, address) == 1);
    let jailed = jailed_alerts_of(address);
    let unjailed = unjailed_alerts_of(address);
    let jail = jail_alerts(between, second[j]);
    let stake = stake_alerts(between, second[j]);
    poll_alerts_about_validator(between, second, j, jailed);
    poll_alerts_about_validator(between, second, j, unjailed);
    assert(jail.len() == 1);
    assert(unjailed(jail[0]));
    count_where_concat(jail, stake, jailed);
    count_where_concat(jail, stake, unjailed);
    assert forall|k: int| 0 <= k < stake.len() implies !jailed(#[trigger] stake[k]) && !unjailed(
        stake[k],
    ) by {}
    count_where_none(stake, jailed);
    count_where_none(stake, unjailed);
    assert forall|k: int| 0 <= k < jail.len() implies !jailed(#[trigger] jail[k]) by {}
    count_where_none(jail, jailed);
    assert(jail.drop_last() =~= Seq::empty());
    assert(count_where(jail.drop_last(), unjailed) == 0);
}

/// A validator whose recorded stake is neither zero nor the stake that a
/// poll finds raises exactly one `StakeChanged` alert in that poll. It
/// carries the new stake minus the recorded one. The validator's record is
/// alone in its series.
pub proof fn stake_change_raises_one_alert(s: MetricsView, vs: Seq<ValidatorView>, i: int)
    requires
        0 <= i < vs.len(),
        alone_in_series(vs, i),
        s.get(ValidatorGauge::Stake, vs[i].address) != 0,
        s.get(ValidatorGauge::Stake, vs[i].address) != vs[i].stake,
    ensures
        count_where(poll_alerts(s, vs), stake_alerts_of(vs[i].address)) == 1,
        stake_alerts(s, vs[i]) == seq![
            stake_changed_alert(vs[i], s.get(ValidatorGauge::Stake, vs[i].address)),
        ],
        stake_alerts(s, vs[i])[0].kind == AlertKind::StakeChanged(
            (vs[i].stake - s.get(ValidatorGauge::Stake, vs[i].address)) as i128,
        ),
{
    let p = stake_alerts_of(vs[i].address);
    let jail = jail_alerts(s, vs[i]);
    let stake = stake_alerts(s, vs[i]);
    poll_alerts_about_validator(s, vs, i, p);
    count_where_concat(jail, stake, p);
    assert forall|k: int| 0 <= k < jail.len() implies !p(#[trigger] jail[k]) by {}
    count_where_none(jail, p);
    assert(p(stake[0]));
    assert(stake.drop_last() =~= Seq::empty());
    assert(count_where(stake.drop_last(), p) == 0);
}

/// How many alerts a poll raises on the stake of a validator whose record
/// is alone in its series: one if the recorded stake is neither zero nor the
/// stake that the poll finds, none otherwise.
pub proof fn stake_alerts_of_a_record(s: MetricsView, vs: Seq<ValidatorView>, i: int)
    requires
        0 <= i < vs.len(),
        alone_in_series(vs, i),
    ensures
        count_where(poll_alerts(s, vs), stake_alerts_of(vs[i].address)) == (if s.get(
            ValidatorGauge::Stake,
            vs[i].address,
        ) != 0 && s.get(ValidatorGauge::Stake, vs[i].address) != vs[i].stake {
            1nat
        } else {
            0nat
        }),
{
    let last = s.get(ValidatorGauge::Stake, vs[i].address);
    if last != 0 && last != vs[i].stake {
        stake_change_raises_one_alert(s, vs, i);
    } else {
        let p = stake_alerts_of(vs[i].address);
        let raised = record_alerts(s, vs[i]);
        poll_alerts_about_validator(s, vs, i, p);
        assert(stake_alerts(s, vs[i]) =~= Seq::empty());
        assert forall|k: int| 0 <= k < raised.len() implies !p(#[trigger] raised[k]) by {}
        count_where_none(raised, p);
    }
}

/// How many alerts a poll raises on the jailed state of a validator whose
/// record is alone in its series. A jailed record raises one
/// `ValidatorJailed` alert unless the recorded flag is one, and no
/// `ValidatorUnjailed` alert. A record that is not jailed raises one
/// `ValidatorUnjailed` alert unless the recorded flag is zero, and no
/// `ValidatorJailed` alert. No record raises both.
pub proof fn jail_alerts_of_a_record(s: MetricsView, vs: Seq<ValidatorView>, i: int)
    requires
        0 <= i < vs.len(),
        alone_in_series(vs, i),
    ensures
        count_where(poll_alerts(s, vs), jailed_alerts_of(vs[i].address)) == (if vs[i].jailed
            && s.get(ValidatorGauge::IsJailed, vs[i].address) != 1 {
            1nat
        } else {
            0nat
        }),
        count_where(poll_alerts(s, vs), unjailed_alerts_of(vs[i].address)) == (if !vs[i].jailed
            && s.get(ValidatorGauge::IsJailed, vs[i].address) != 0 {
            1nat
        } else {
            0nat
        }),
{
    let jailed = jailed_alerts_of(vs[i].address);
    let unjailed = unjailed_alerts_of(vs[i].address);
    let jail = jail_alerts(s, vs[i]);
    let stake = stake_alerts(s, vs[i]);
    poll_alerts_about_validator(s, vs, i, jailed);
    poll_alerts_about_validator(s, vs, i, unjailed);
    count_where_concat(jail, stake, jailed);
    count_where_concat(jail, stake, unjailed);
    assert forall|k: int| 0 <= k < stake.len() implies !jailed(#[trigger] stake[k]) && !unjailed(
        stake[k],
    ) by {}
    count_where_none(stake, jailed);
    count_where_none(stake, unjailed);
    if jail.len() == 0 {
        count_where_none(jail, jailed);
        count_where_none(jail, unjailed);
    } else {
        assert(jail.len() == 1);
        assert(jail.drop_last() =~= Seq::empty());
        assert(count_where(jail.drop_last(), jailed) == 0);
        assert(count_where(jail.drop_last(), unjailed) == 0);
        assert(jailed(jail[0]) == vs[i].jailed);
        assert(unjailed(jail[0]) == !vs[i].jailed);
    }
}

/// An alert about the validator at `address`, of whatever kind.
pub open spec fn alerts_of(address: Seq<char>) -> spec_fn(AlertView) -> bool {
    |alert: AlertView| alert.address == Some(address)
}

/// A validator that a poll finds as the registry recorded it, jailed state
/// and stake, raises no alert in that poll. The validator's record is
/// alone in its series.
pub proof fn unchanged_validator_raises_no_alert(s: MetricsView, vs: Seq<ValidatorView>, i: int)
    requires
        0 <= i < vs.len(),
        alone_in_series(vs, i),
        s.get(ValidatorGauge::IsJailed, vs[i].address) == jailed_flag(vs[i].jailed),
        s.get(ValidatorGauge::Stake, vs[i].address) == vs[i].stake,
    ensures
        count_where(poll_alerts(s, vs), alerts_of(vs[i].address)) == 0,
{
    let p = alerts_of(vs[i].address);
    poll_alerts_about_validator(s, vs, i, p);
    assert(record_alerts(s, vs[i]) =~= Seq::empty());
}

/// Whether every record of a snapshot is alone in its series.
pub open spec fn distinct_series(vs: Seq<ValidatorView>) -> bool {
    forall|i: int| 0 <= i < vs.len() ==> alone_in_series(vs, i)
}

proof fn recorded_prefix_raises_no_alert(s: MetricsView, vs: Seq<ValidatorView>, n: int)
    requires
        distinct_series(vs),
        0 <= n <= vs.len(),
    ensures
        records_alerts(poll_state(s, vs), vs.take(n)) == Seq::<AlertView>::empty(),
    decreases n,
{
    let recorded = poll_state(s, vs);
    if n > 0 {
        let head = vs.take(n - 1);
        let v = vs[n - 1];
        let key = series_key(v.address);
        recorded_prefix_raises_no_alert(s, vs, n - 1);
        assert(vs.take(n).drop_last() =~= head);
        assert(vs.take(n).last() == v);
        assert(alone_in_series(vs, n - 1));
        assert forall|j: int| 0 <= j < head.len() implies series_key(#[trigger] head[j].address)
            != key by {
            assert(head[j] == vs[j]);
        }
        untouched_series_keeps_value(recorded, head, key);
        poll_records_validator(s, vs, n - 1);
        assert(record_alerts(records_state(recorded, head), v) =~= Seq::empty());
        assert(records_alerts(recorded, vs.take(n)) =~= Seq::empty());
    }
}

/// No alert is raised twice: a poll with the snapshot that the poll before
/// it recorded raises no alert at all. Every record of the snapshot is
/// alone in its series, and the snapshot's length fits a gauge.
pub proof fn repeated_snapshot_raises_no_alert(s: MetricsView, vs: Seq<ValidatorView>)
    requires
        distinct_series(vs),
        vs.len() <= u64::MAX,
    ensures
        poll_alerts(poll_state(s, vs), vs) == Seq::<AlertView>::empty(),
{
    recorded_prefix_raises_no_alert(s, vs, vs.len() as int);
    assert(vs.take(vs.len() as int) =~= vs);
    assert(count_alerts(poll_state(s, vs), vs) =~= Seq::empty());
}

/// The two stake sums of a snapshot part the sum of all its stakes.
pub proof fn stake_sums_partition(vs: Seq<ValidatorView>)
    ensures
        stake_sum(vs, false) + stake_sum(vs, true) == total_stake(vs),
    decreases vs.len(),
{
    if vs.len() > 0 {
        stake_sums_partition(vs.drop_last());
    }
}

/// After a poll the gauge of the active stake holds the sum of the stakes of
/// the records that are not jailed, the gauge of the jailed stake the sum of
/// the stakes of the jailed records, and the two add up to the sum of all
/// stakes of the snapshot. The sum of all stakes fits a gauge.
pub proof fn totals_partition_stake(s: MetricsView, vs: Seq<ValidatorView>)
    requires
        total_stake(vs) <= u64::MAX,
    ensures
        poll_state(s, vs).total_active_stake == stake_sum(vs, false),
        poll_state(s, vs).total_jailed_stake == stake_sum(vs, true),
        poll_state(s, vs).total_active_stake + poll_state(s, vs).total_jailed_stake
            == total_stake(vs),
{
    stake_sums_partition(vs);
}

} // verus!
