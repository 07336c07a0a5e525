//! The metrics registry and the engine that updates it from a validator
//! snapshot.

use crate::alerts::{
    alert_views, count_alerts_against, jail_alerts_against, jailed_flag, jailed_value,
    stake_alerts_against, AlertEvent, AlertView,
};
use crate::descriptor_ids::gauge_ids_are_distinct;
use crate::gauges::{
    descriptor_id, encode_registry, encoded_registry, error_text, family_get, family_handle,
    family_labels, family_series, family_set, family_size, family_states, filed, gauge_get,
    gauge_handle, gauge_reading, gauge_set, gauge_states, handles_of, holds_gauges_only,
    new_family, new_gauge, new_registry, new_text_encoder, no_handles, no_labels, no_series,
    register_family, register_gauge, registered_handles, registry_handles, series_key,
    series_value, valid_name, FamilyState, Gauge, GaugeFamily, GaugeState, Handle,
};
use crate::types::hypermon_error::HypermonError;
use crate::types::validator::{snapshots, Validator, ValidatorView};
use vstd::prelude::*;
use vstd::utf8::encode_utf8;

verus! {

/// A gauge that the registry keeps for each validator, by its address.
#[derive(Clone, Copy, Debug, PartialEq, Eq, Structural)]
pub enum ValidatorGauge {
    /// The number of recent blocks that the validator produced.
    RecentBlocks,
    /// One if the validator is jailed, zero if not.
    IsJailed,
    /// The validator's stake.
    Stake,
}

/// A gauge that the registry keeps once, for the whole network.
#[derive(Clone, Copy, Debug, PartialEq, Eq, Structural)]
pub enum NetworkGauge {
    /// The sum of the stakes of the validators that are not jailed.
    TotalActiveStake,
    /// The sum of the stakes of the jailed validators.
    TotalJailedStake,
    /// The number of validators.
    TotalValidators,
    /// The time that the validator source took to answer.
    RequestTime,
}

/// The label by which the series of a per-validator gauge differ.
pub open spec fn address_label() -> Seq<char> {
    "address"@
}

/// The name of a per-validator gauge in the exposition.
pub open spec fn family_name(metric: ValidatorGauge) -> Seq<char> {
    match metric {
        ValidatorGauge::RecentBlocks => "hyperliquid_validator_recent_blocks"@,
        ValidatorGauge::IsJailed => "hyperliquid_validator_is_jailed"@,
        ValidatorGauge::Stake => "hyperliquid_validator_stake"@,
    }
}

/// The help text of a per-validator gauge in the exposition.
pub open spec fn family_help(metric: ValidatorGauge) -> Seq<char> {
    match metric {
        ValidatorGauge::RecentBlocks => "Recent blocks produced"@,
        ValidatorGauge::IsJailed => "Is a validator jailed?"@,
        ValidatorGauge::Stake => "Stake of a validator"@,
    }
}

/// The name of a network gauge in the exposition.
pub open spec fn gauge_name(gauge: NetworkGauge) -> Seq<char> {
    match gauge {
        NetworkGauge::TotalActiveStake => "hyperliquid_network_total_active_stake"@,
        NetworkGauge::TotalJailedStake => "hyperliquid_network_total_jailed_stake"@,
        NetworkGauge::TotalValidators => "hyperliquid_network_total_validators"@,
        NetworkGauge::RequestTime => "hyperliquid_request_time"@,
    }
}

/// The help text of a network gauge in the exposition.
pub open spec fn gauge_help(gauge: NetworkGauge) -> Seq<char> {
    match gauge {
        NetworkGauge::TotalActiveStake => "Active stake of the whole network"@,
        NetworkGauge::TotalJailedStake => "Jailed stake of the whole network"@,
        NetworkGauge::TotalValidators => "Total amount of validators on the network"@,
        NetworkGauge::RequestTime => "The time it takes to get a response from the info endpoint"@,
    }
}

impl ValidatorGauge {
    /// The gauge's name in the exposition.
    pub fn name(self) -> (name: &'static str)
        ensures
            name@ == family_name(self),
    {
        match self {
            ValidatorGauge::RecentBlocks => "hyperliquid_validator_recent_blocks",
            ValidatorGauge::IsJailed => "hyperliquid_validator_is_jailed",
            ValidatorGauge::Stake => "hyperliquid_validator_stake",
        }
    }

    /// The gauge's help text in the exposition.
    pub fn help(self) -> (help: &'static str)
        ensures
            help@ == family_help(self),
    {
        match self {
            ValidatorGauge::RecentBlocks => "Recent blocks produced",
            ValidatorGauge::IsJailed => "Is a validator jailed?",
            ValidatorGauge::Stake => "Stake of a validator",
        }
    }
}

impl NetworkGauge {
    /// The gauge's name in the exposition.
    pub fn name(self) -> (name: &'static str)
        ensures
            name@ == gauge_name(self),
    {
        match self {
            NetworkGauge::TotalActiveStake => "hyperliquid_network_total_active_stake",
            NetworkGauge::TotalJailedStake => "hyperliquid_network_total_jailed_stake",
            NetworkGauge::TotalValidators => "hyperliquid_network_total_validators",
            NetworkGauge::RequestTime => "hyperliquid_request_time",
        }
    }

    /// The gauge's help text in the exposition.
    pub fn help(self) -> (help: &'static str)
        ensures
            help@ == gauge_help(self),
    {
        match self {
            NetworkGauge::TotalActiveStake => "Active stake of the whole network",
            NetworkGauge::TotalJailedStake => "Jailed stake of the whole network",
            NetworkGauge::TotalValidators => "Total amount of validators on the network",
            NetworkGauge::RequestTime => "The time it takes to get a response from the info endpoint",
        }
    }
}

/// The label of the per-validator gauges can name a label.
pub proof fn label_is_well_named()
    ensures
        valid_name(address_label(), false),
{
    reveal_strlit("address");
}

/// A per-validator gauge has a name that can name a metric and a help text
/// that is not empty.
pub proof fn family_is_well_named(metric: ValidatorGauge)
    ensures
        valid_name(family_name(metric), true),
        family_help(metric).len() > 0,
{
    match metric {
        ValidatorGauge::RecentBlocks => {
            reveal_strlit("hyperliquid_validator_recent_blocks");
            reveal_strlit("Recent blocks produced");
        },
        ValidatorGauge::IsJailed => {
            reveal_strlit("hyperliquid_validator_is_jailed");
            reveal_strlit("Is a validator jailed?");
        },
        ValidatorGauge::Stake => {
            reveal_strlit("hyperliquid_validator_stake");
            reveal_strlit("Stake of a validator");
        },
    }
}

/// A network gauge has a name that can name a metric and a help text that
/// is not empty.
pub proof fn gauge_is_well_named(gauge: NetworkGauge)
    ensures
        valid_name(gauge_name(gauge), true),
        gauge_help(gauge).len() > 0,
{
    match gauge {
        NetworkGauge::TotalActiveStake => {
            reveal_strlit("hyperliquid_network_total_active_stake");
            reveal_strlit("Active stake of the whole network");
        },
        NetworkGauge::TotalJailedStake => {
            reveal_strlit("hyperliquid_network_total_jailed_stake");
            reveal_strlit("Jailed stake of the whole network");
        },
        NetworkGauge::TotalValidators => {
            reveal_strlit("hyperliquid_network_total_validators");
            reveal_strlit("Total amount of validators on the network");
        },
        NetworkGauge::RequestTime => {
            reveal_strlit("hyperliquid_request_time");
            reveal_strlit("The time it takes to get a response from the info endpoint");
        },
    }
}

/// The `prometheus` registry that writes the gauges in the exposition
/// format, and how many of the gauges are registered with it.
struct Exposition {
    registry: prometheus::Registry,
    exposed: usize,
}

/// The registry: every gauge of the monitor, and what writes them in the
/// exposition format.
pub struct Metrics {
    recent_blocks: GaugeFamily,
    is_jailed: GaugeFamily,
    stake: GaugeFamily,
    total_active_stake: Gauge,
    total_jailed_stake: Gauge,
    total_validators: Gauge,
    request_time: Gauge,
    exposition: Exposition,
}

/// What a registry holds. A gauge family is given by its series: the value
/// of each series that exists, by the key of its address, and by the
/// address under which each series stands in the exposition: the one with
/// which it was made. `registered` says whether the gauges are registered
/// for the exposition: all are, or none.
pub struct MetricsView {
    pub recent_blocks: Map<u64, u64>,
    pub is_jailed: Map<u64, u64>,
    pub stake: Map<u64, u64>,
    pub total_active_stake: u64,
    pub total_jailed_stake: u64,
    pub total_validators: u64,
    pub request_time: u64,
    pub recent_blocks_labels: Map<u64, Seq<char>>,
    pub is_jailed_labels: Map<u64, Seq<char>>,
    pub stake_labels: Map<u64, Seq<char>>,
    pub registered: bool,
}

impl MetricsView {
    /// The series of a per-validator gauge.
    pub open spec fn series(self, metric: ValidatorGauge) -> Map<u64, u64> {
        match metric {
            ValidatorGauge::RecentBlocks => self.recent_blocks,
            ValidatorGauge::IsJailed => self.is_jailed,
            ValidatorGauge::Stake => self.stake,
        }
    }

    /// The value of a per-validator gauge for an address: the value last
    /// set, zero if the address was never seen.
    pub open spec fn get(self, metric: ValidatorGauge, address: Seq<char>) -> u64 {
        series_value(self.series(metric), series_key(address))
    }

    /// The registry after a per-validator gauge is set for an address. A
    /// series that is made for it stands under the address.
    pub open spec fn set(self, metric: ValidatorGauge, address: Seq<char>, value: u64) -> Self {
        let key = series_key(address);
        match metric {
            ValidatorGauge::RecentBlocks => MetricsView {
                recent_blocks: self.recent_blocks.insert(key, value),
                recent_blocks_labels: filed(self.recent_blocks_labels, key, address),
                ..self
            },
            ValidatorGauge::IsJailed => MetricsView {
                is_jailed: self.is_jailed.insert(key, value),
                is_jailed_labels: filed(self.is_jailed_labels, key, address),
                ..self
            },
            ValidatorGauge::Stake => MetricsView {
                stake: self.stake.insert(key, value),
                stake_labels: filed(self.stake_labels, key, address),
                ..self
            },
        }
    }

    /// The addresses under which the series of a per-validator gauge stand
    /// in the exposition, by the key of the series.
    pub open spec fn labels(self, metric: ValidatorGauge) -> Map<u64, Seq<char>> {
        match metric {
            ValidatorGauge::RecentBlocks => self.recent_blocks_labels,
            ValidatorGauge::IsJailed => self.is_jailed_labels,
            ValidatorGauge::Stake => self.stake_labels,
        }
    }

    /// The value of a network gauge.
    pub open spec fn reading(self, gauge: NetworkGauge) -> u64 {
        match gauge {
            NetworkGauge::TotalActiveStake => self.total_active_stake,
            NetworkGauge::TotalJailedStake => self.total_jailed_stake,
            NetworkGauge::TotalValidators => self.total_validators,
            NetworkGauge::RequestTime => self.request_time,
        }
    }
}

/// What is set is what the next reading returns: after a gauge is set for an
/// address, it holds the value for that address. No other gauge changes, and
/// the gauge holds what it held for every address of another series.
pub proof fn set_then_get(
    s: MetricsView,
    metric: ValidatorGauge,
    address: Seq<char>,
    value: u64,
    other_metric: ValidatorGauge,
    other_address: Seq<char>,
)
    ensures
        s.set(metric, address, value).get(metric, address) == value,
        other_metric != metric ==> s.set(metric, address, value).get(other_metric, other_address)
            == s.get(other_metric, other_address),
        series_key(other_address) != series_key(address) ==> s.set(metric, address, value).get(
            metric,
            other_address,
        ) == s.get(metric, other_address),
        forall|gauge: NetworkGauge|
            s.set(metric, address, value).reading(gauge) == s.reading(gauge),
{
}

/// A reading changes no value: reading a gauge for an address makes the
/// series of the address, and every gauge holds for every address what it
/// held before.
pub proof fn get_keeps_values(
    s: MetricsView,
    metric: ValidatorGauge,
    address: Seq<char>,
    other_metric: ValidatorGauge,
    other_address: Seq<char>,
)
    ensures
        s.set(metric, address, s.get(metric, address)).get(other_metric, other_address) == s.get(
            other_metric,
            other_address,
        ),
{
}

/// The registry at the start of the process: no series, every network gauge
/// at zero, no gauge registered.
pub open spec fn initial_metrics() -> MetricsView {
    MetricsView {
        recent_blocks: no_series(),
        is_jailed: no_series(),
        stake: no_series(),
        total_active_stake: 0,
        total_jailed_stake: 0,
        total_validators: 0,
        request_time: 0,
        recent_blocks_labels: no_labels(),
        is_jailed_labels: no_labels(),
        stake_labels: no_labels(),
        registered: false,
    }
}

/// The jail alert that one record raises against the registry `s`.
pub open spec fn jail_alerts(s: MetricsView, v: ValidatorView) -> Seq<AlertView> {
    jail_alerts_against(s.get(ValidatorGauge::IsJailed, v.address), v)
}

/// The stake alert that one record raises against the registry `s`.
pub open spec fn stake_alerts(s: MetricsView, v: ValidatorView) -> Seq<AlertView> {
    stake_alerts_against(s.get(ValidatorGauge::Stake, v.address), v)
}

/// The alerts that one record raises against the registry `s`: the jail
/// alert first, then the stake alert.
pub open spec fn record_alerts(s: MetricsView, v: ValidatorView) -> Seq<AlertView> {
    jail_alerts(s, v) + stake_alerts(s, v)
}

/// The registry after one record: the three gauges of the record's address
/// hold the record's values. A series that is made for them stands under
/// the record's address.
pub open spec fn record_update(s: MetricsView, v: ValidatorView) -> MetricsView {
    let key = series_key(v.address);
    MetricsView {
        recent_blocks: s.recent_blocks.insert(key, v.recent_blocks as u64),
        is_jailed: s.is_jailed.insert(key, jailed_flag(v.jailed)),
        stake: s.stake.insert(key, v.stake),
        recent_blocks_labels: filed(s.recent_blocks_labels, key, v.address),
        is_jailed_labels: filed(s.is_jailed_labels, key, v.address),
        stake_labels: filed(s.stake_labels, key, v.address),
        ..s
    }
}

/// The registry after the records of a snapshot, taken in order.
pub open spec fn records_state(s: MetricsView, vs: Seq<ValidatorView>) -> MetricsView
    decreases vs.len(),
{
    if vs.len() == 0 {
        s
    } else {
        record_update(records_state(s, vs.drop_last()), vs.last())
    }
}

/// The alerts that the records of a snapshot raise, in the snapshot's order:
/// each record is held against the registry as the records before it left it.
pub open spec fn records_alerts(s: MetricsView, vs: Seq<ValidatorView>) -> Seq<AlertView>
    decreases vs.len(),
{
    if vs.len() == 0 {
        Seq::empty()
    } else {
        records_alerts(s, vs.drop_last()) + record_alerts(
            records_state(s, vs.drop_last()),
            vs.last(),
        )
    }
}

/// The sum of the stakes of the records that are jailed (`jailed`) or not
/// jailed (`!jailed`).
pub open spec fn stake_sum(vs: Seq<ValidatorView>, jailed: bool) -> nat
    decreases vs.len(),
{
    if vs.len() == 0 {
        0
    } else {
        stake_sum(vs.drop_last(), jailed) + if vs.last().jailed == jailed {
            vs.last().stake as nat
        } else {
            0nat
        }
    }
}

/// What a gauge holds of a quantity: the quantity, or the largest value of a
/// gauge where the quantity is larger.
pub open spec fn saturated(n: nat) -> u64 {
    if n > u64::MAX {
        u64::MAX
    } else {
        n as u64
    }
}

/// The alert that a snapshot raises on the number of validators, against
/// the number recorded in `s`.
pub open spec fn count_alerts(s: MetricsView, vs: Seq<ValidatorView>) -> Seq<AlertView> {
    count_alerts_against(s.total_validators, saturated(vs.len()))
}

/// The registry after a poll with the snapshot `vs`.
pub open spec fn poll_state(s: MetricsView, vs: Seq<ValidatorView>) -> MetricsView {
    MetricsView {
        total_active_stake: saturated(stake_sum(vs, false)),
        total_jailed_stake: saturated(stake_sum(vs, true)),
        total_validators: saturated(vs.len()),
        ..records_state(s, vs)
    }
}

/// The alerts of a poll with the snapshot `vs`: those of the records, then
/// the alert on the number of validators.
pub open spec fn poll_alerts(s: MetricsView, vs: Seq<ValidatorView>) -> Seq<AlertView> {
    records_alerts(s, vs) + count_alerts(s, vs)
}

/// The records of a snapshot change no network gauge.
pub proof fn records_keep_network_gauges(s: MetricsView, vs: Seq<ValidatorView>)
    ensures
        forall|gauge: NetworkGauge| records_state(s, vs).reading(gauge) == s.reading(gauge),
    decreases vs.len(),
{
    if vs.len() > 0 {
        records_keep_network_gauges(s, vs.drop_last());
    }
    assert forall|gauge: NetworkGauge| records_state(s, vs).reading(gauge) == s.reading(
        gauge,
    ) by {
        if vs.len() > 0 {
            assert(records_state(s, vs.drop_last()).reading(gauge) == s.reading(gauge));
        }
    }
}

/// The metadata of a per-validator gauge in the exposition: the line of
/// its help text and the line of its type.
pub open spec fn family_metadata(metric: ValidatorGauge) -> Seq<char> {
    "# HELP "@ + family_name(metric) + " "@ + family_help(metric) + "\n# TYPE "@ + family_name(
        metric,
    ) + " gauge\n"@
}

/// The metadata of `metric` if the gauges are registered in `s` and it has
/// no series; nothing otherwise.
pub open spec fn metadata_if_empty(s: MetricsView, metric: ValidatorGauge) -> Seq<char> {
    if s.registered && s.series(metric) == no_series() {
        family_metadata(metric)
    } else {
        Seq::empty()
    }
}

/// The metadata of the registered per-validator gauges that have no series,
/// by name.
pub open spec fn empty_families(s: MetricsView) -> Seq<char> {
    metadata_if_empty(s, ValidatorGauge::IsJailed) + metadata_if_empty(
        s,
        ValidatorGauge::RecentBlocks,
    ) + metadata_if_empty(s, ValidatorGauge::Stake)
}

/// What the exposition shows of a per-validator gauge.
pub open spec fn exposed_family(s: MetricsView, metric: ValidatorGauge) -> FamilyState {
    FamilyState {
        name: family_name(metric),
        help: family_help(metric),
        label: address_label(),
        series: s.series(metric),
        labels: s.labels(metric),
    }
}

/// What the exposition shows of a network gauge.
pub open spec fn exposed_gauge(s: MetricsView, gauge: NetworkGauge) -> GaugeState {
    GaugeState { name: gauge_name(gauge), help: gauge_help(gauge), reading: s.reading(gauge) }
}

/// What the exposition shows of the per-validator gauges, in the order in
/// which they are registered.
pub open spec fn exposed_families(s: MetricsView) -> Seq<FamilyState> {
    seq![
        exposed_family(s, ValidatorGauge::RecentBlocks),
        exposed_family(s, ValidatorGauge::IsJailed),
        exposed_family(s, ValidatorGauge::Stake),
    ]
}

/// What the exposition shows of the network gauges, in the order in which
/// they are registered.
pub open spec fn exposed_gauges(s: MetricsView) -> Seq<GaugeState> {
    seq![
        exposed_gauge(s, NetworkGauge::TotalActiveStake),
        exposed_gauge(s, NetworkGauge::TotalJailedStake),
        exposed_gauge(s, NetworkGauge::TotalValidators),
        exposed_gauge(s, NetworkGauge::RequestTime),
    ]
}

/// The exposition of the registry: what the encoder writes for the gauges
/// if they are registered, then the metadata of each per-validator gauge
/// that has no series.
pub open spec fn registry_exposition(s: MetricsView) -> Seq<u8> {
    encoded_registry(s.registered, exposed_families(s), exposed_gauges(s)) + encode_utf8(
        empty_families(s),
    )
}

fn push_metadata(out: &mut String, metric: ValidatorGauge)
    ensures
        final(out)@ == old(out)@ + family_metadata(metric),
{
    out.append("# HELP ");
    out.append(metric.name());
    out.append(" ");
    out.append(metric.help());
    out.append("\n# TYPE ");
    out.append(metric.name());
    out.append(" gauge\n");
    assert(out@ =~= old(out)@ + family_metadata(metric));
}

/// The names under which the gauges stand in the exposition, in the order
/// in which they are registered.
pub open spec fn exposed_names() -> Seq<Seq<char>> {
    seq![
        family_name(ValidatorGauge::RecentBlocks),
        family_name(ValidatorGauge::IsJailed),
        family_name(ValidatorGauge::Stake),
        gauge_name(NetworkGauge::TotalActiveStake),
        gauge_name(NetworkGauge::TotalJailedStake),
        gauge_name(NetworkGauge::TotalValidators),
        gauge_name(NetworkGauge::RequestTime),
    ]
}

/// The descriptor ids of the first `count` gauges.
pub open spec fn ids_of_first(count: int) -> Set<u64>
    decreases count,
{
    if count <= 0 {
        Set::empty()
    } else {
        ids_of_first(count - 1).insert(descriptor_id(exposed_names()[count - 1]))
    }
}

/// Whether the registry accepts the gauge at `position` when its turn
/// comes, the gauges before it being registered: it does unless one of
/// them has the same descriptor id.
pub open spec fn is_accepted(position: int) -> bool {
    !ids_of_first(position).contains(descriptor_id(exposed_names()[position]))
}

/// Whether no two gauges have the same descriptor id.
pub open spec fn distinct_ids() -> bool {
    forall|i: int, j: int|
        0 <= i < j < exposed_names().len() ==> descriptor_id(#[trigger] exposed_names()[i])
            != descriptor_id(#[trigger] exposed_names()[j])
}

/// The registry with the gauges registered, and the values it has.
pub open spec fn with_gauges_registered(s: MetricsView) -> MetricsView {
    MetricsView { registered: true, ..s }
}

/// The ids of the first gauges are the ids of the gauges at the places
/// before `count`.
pub proof fn ids_of_first_are(count: int, id: u64)
    requires
        0 <= count <= exposed_names().len(),
    ensures
        ids_of_first(count).contains(id) <==> exists|k: int|
            0 <= k < count && descriptor_id(#[trigger] exposed_names()[k]) == id,
    decreases count,
{
    if count > 0 {
        ids_of_first_are(count - 1, id);
        if descriptor_id(exposed_names()[count - 1]) != id && ids_of_first(count).contains(id) {
            let k = choose|k: int|
                0 <= k < count - 1 && descriptor_id(#[trigger] exposed_names()[k]) == id;
            assert(0 <= k < count && descriptor_id(exposed_names()[k]) == id);
        }
    }
}

/// Whether a handle is that of a per-validator gauge: it has the gauge's
/// name and help text, and the address as its label.
pub open spec fn is_family_handle(handle: Handle, metric: ValidatorGauge) -> bool {
    &&& handle.name == family_name(metric)
    &&& handle.help == family_help(metric)
    &&& handle.label == address_label()
}

/// Whether a handle is that of a network gauge: it has the gauge's name and
/// help text.
pub open spec fn is_gauge_handle(handle: Handle, gauge: NetworkGauge) -> bool {
    &&& handle.name == gauge_name(gauge)
    &&& handle.help == gauge_help(gauge)
}

/// Whether the handles are those of the gauges: each has the name of the
/// gauge at its place.
pub open spec fn are_gauge_handles(handles: Seq<Handle>) -> bool {
    &&& handles.len() == exposed_names().len()
    &&& forall|k: int| 0 <= k < handles.len() ==> (#[trigger] handles[k]).name == exposed_names()[k]
}

/// A registry that has accepted the first gauges holds a collector under
/// the id of each of them, and under no other id.
pub proof fn registered_handles_have_ids(handles: Seq<Handle>, count: int, id: u64)
    requires
        are_gauge_handles(handles),
        0 <= count <= handles.len(),
    ensures
        registered_handles(handles, count).contains_key(id) <==> ids_of_first(count).contains(id),
    decreases count,
{
    if count > 0 {
        registered_handles_have_ids(handles, count - 1, id);
        assert(handles[count - 1].name == exposed_names()[count - 1]);
    }
}

/// Among the ids of the first gauges is the id of each of them.
pub proof fn ids_of_first_holds(count: int, position: int)
    requires
        0 <= position < count <= exposed_names().len(),
    ensures
        ids_of_first(count).contains(descriptor_id(exposed_names()[position])),
{
    ids_of_first_are(count, descriptor_id(exposed_names()[position]));
}

/// The registry accepts every gauge when its turn comes, the gauges before
/// it being registered: no two gauges have the same descriptor id.
pub proof fn every_gauge_is_accepted(position: int)
    requires
        0 <= position < exposed_names().len(),
    ensures
        is_accepted(position),
{
    gauge_ids_are_distinct();
    ids_of_first_are(position, descriptor_id(exposed_names()[position]));
}

/// The names of the gauges as they stand in the registry's fields, in the
/// order in which they are registered.
pub open spec fn gauge_fields() -> Seq<Seq<char>> {
    seq![
        "recent_blocks"@,
        "is_jailed"@,
        "stake"@,
        "total_active_stake"@,
        "total_jailed_stake"@,
        "total_validators"@,
        "request_time"@,
    ]
}

/// What is said of a step that failed: the step, then the cause.
pub open spec fn failure_detail(context: Seq<char>, cause: Seq<char>) -> Seq<char> {
    context + ": "@ + cause
}

/// The error of a gauge, named `field`, that the registry refused.
pub open spec fn is_register_failure(error: HypermonError, field: Seq<char>) -> bool {
    error matches HypermonError::RegisterError(detail) && exists|cause: Seq<char>|
        detail@ == failure_detail("Couldn't register "@ + field, cause)
}

/// The error of an exposition that the encoder could not write.
pub open spec fn is_encode_failure(error: HypermonError) -> bool {
    error matches HypermonError::EncodeError(detail) && exists|cause: Seq<char>|
        detail@ == failure_detail("Couldn't encode metric families"@, cause)
}

fn failure_text(context: String, cause: &str) -> (detail: String)
    ensures
        detail@ == failure_detail(context@, cause@),
{
    let mut detail = context;
    detail.append(": ");
    detail.append(cause);
    detail
}

/// What the registration of the gauge named `field` comes to, given the
/// registry's answer: success where the registry accepted the gauge, a
/// `RegisterError` that names the gauge where it refused.
pub fn registered(answer: Result<(), prometheus::Error>, field: &str) -> (outcome: Result<
    (),
    HypermonError,
>)
    ensures
        answer is Ok <==> outcome is Ok,
        outcome matches Err(error) ==> is_register_failure(error, field@),
{
    match answer {
        Ok(()) => Ok(()),
        Err(refusal) => {
            let mut context = String::from_str("Couldn't register ");
            context.append(field);
            let cause = error_text(&refusal);
            let detail = failure_text(context, cause.as_str());
            assert(detail@ == failure_detail("Couldn't register "@ + field@, cause@));
            Err(HypermonError::RegisterError(detail))
        },
    }
}

/// What an encoding comes to, given the encoder's answer: the bytes where
/// it wrote them, an `EncodeError` where it failed.
pub fn encoded_buffer(answer: Result<Vec<u8>, prometheus::Error>) -> (outcome: Result<
    Vec<u8>,
    HypermonError,
>)
    ensures
        answer matches Ok(bytes) ==> outcome == Ok::<Vec<u8>, HypermonError>(bytes),
        answer is Err ==> outcome is Err,
        outcome matches Err(error) ==> is_encode_failure(error),
{
    match answer {
        Ok(bytes) => Ok(bytes),
        Err(failure) => {
            let cause = error_text(&failure);
            let detail = failure_text(
                String::from_str("Couldn't encode metric families"),
                cause.as_str(),
            );
            assert(detail@ == failure_detail("Couldn't encode metric families"@, cause@));
            Err(HypermonError::EncodeError(detail))
        },
    }
}

fn saturate(n: u128) -> (value: u64)
    ensures
        value == saturated(n as nat),
{
    if n > u64::MAX as u128 {
        u64::MAX
    } else {
        n as u64
    }
}

impl View for Metrics {
    type V = MetricsView;

    closed spec fn view(&self) -> MetricsView {
        MetricsView {
            recent_blocks: family_series(self.recent_blocks),
            is_jailed: family_series(self.is_jailed),
            stake: family_series(self.stake),
            total_active_stake: gauge_reading(self.total_active_stake),
            total_jailed_stake: gauge_reading(self.total_jailed_stake),
            total_validators: gauge_reading(self.total_validators),
            request_time: gauge_reading(self.request_time),
            recent_blocks_labels: family_labels(self.recent_blocks),
            is_jailed_labels: family_labels(self.is_jailed),
            stake_labels: family_labels(self.stake),
            registered: self.exposition.exposed == exposed_names().len(),
        }
    }
}

impl Exposition {
    /// The registry has dealt with the gauges only, and holds the first
    /// `exposed` of them.
    spec fn sound(&self, handles: Seq<Handle>) -> bool {
        &&& holds_gauges_only(self.registry)
        &&& self.exposed <= exposed_names().len()
        &&& registry_handles(self.registry) == registered_handles(handles, self.exposed as int)
    }

    fn fresh() -> (exposition: Exposition)
        ensures
            forall|handles: Seq<Handle>| exposition.sound(handles),
            exposition.exposed == 0,
    {
        Exposition { registry: new_registry(), exposed: 0 }
    }

    /// Offers the family at `position` to the registry. The registry
    /// accepts it exactly when the gauges before it are registered, it is
    /// not, and none of them has its descriptor id.
    fn expose_family(
        &mut self,
        family: &GaugeFamily,
        position: usize,
        field: &str,
        Ghost(handles): Ghost<Seq<Handle>>,
    ) -> (outcome: Result<(), HypermonError>)
        requires
            old(self).sound(handles),
            are_gauge_handles(handles),
            position < handles.len(),
            position <= old(self).exposed,
            family_handle(*family) == handles[position as int],
            field@ == gauge_fields()[position as int],
        ensures
            final(self).sound(handles),
            outcome is Ok <==> old(self).exposed == position && is_accepted(position as int),
            outcome is Ok ==> final(self).exposed == position + 1,
            outcome is Err ==> final(self).exposed == old(self).exposed,
            outcome matches Err(error) ==> is_register_failure(error, field@),
    {
        proof {
            registered_handles_have_ids(
                handles,
                self.exposed as int,
                descriptor_id(exposed_names()[position as int]),
            );
            if position < self.exposed {
                ids_of_first_holds(self.exposed as int, position as int);
            }
        }
        let outcome = registered(register_family(&mut self.registry, family), field);
        if outcome.is_ok() {
            self.exposed = position + 1;
        }
        outcome
    }

    /// Offers the gauge at `position` to the registry. The registry accepts
    /// it exactly when the gauges before it are registered, it is not, and
    /// none of them has its descriptor id.
    fn expose_gauge(
        &mut self,
        gauge: &Gauge,
        position: usize,
        field: &str,
        Ghost(handles): Ghost<Seq<Handle>>,
    ) -> (outcome: Result<(), HypermonError>)
        requires
            old(self).sound(handles),
            are_gauge_handles(handles),
            position < handles.len(),
            position <= old(self).exposed,
            gauge_handle(*gauge) == handles[position as int],
            field@ == gauge_fields()[position as int],
        ensures
            final(self).sound(handles),
            outcome is Ok <==> old(self).exposed == position && is_accepted(position as int),
            outcome is Ok ==> final(self).exposed == position + 1,
            outcome is Err ==> final(self).exposed == old(self).exposed,
            outcome matches Err(error) ==> is_register_failure(error, field@),
    {
        proof {
            registered_handles_have_ids(
                handles,
                self.exposed as int,
                descriptor_id(exposed_names()[position as int]),
            );
            if position < self.exposed {
                ids_of_first_holds(self.exposed as int, position as int);
            }
        }
        let outcome = registered(register_gauge(&mut self.registry, gauge), field);
        if outcome.is_ok() {
            self.exposed = position + 1;
        }
        outcome
    }
}

impl Metrics {
    /// The handles of the gauges, in the order in which they are
    /// registered.
    spec fn handles(&self) -> Seq<Handle> {
        seq![
            family_handle(self.recent_blocks),
            family_handle(self.is_jailed),
            family_handle(self.stake),
            gauge_handle(self.total_active_stake),
            gauge_handle(self.total_jailed_stake),
            gauge_handle(self.total_validators),
            gauge_handle(self.request_time),
        ]
    }

    #[verifier::type_invariant]
    spec fn well_formed(&self) -> bool {
        &&& self.exposition.sound(self.handles())
        &&& self.exposition.exposed == 0 || self.exposition.exposed == exposed_names().len()
        &&& is_family_handle(family_handle(self.recent_blocks), ValidatorGauge::RecentBlocks)
        &&& is_family_handle(family_handle(self.is_jailed), ValidatorGauge::IsJailed)
        &&& is_family_handle(family_handle(self.stake), ValidatorGauge::Stake)
        &&& is_gauge_handle(gauge_handle(self.total_active_stake), NetworkGauge::TotalActiveStake)
        &&& is_gauge_handle(gauge_handle(self.total_jailed_stake), NetworkGauge::TotalJailedStake)
        &&& is_gauge_handle(gauge_handle(self.total_validators), NetworkGauge::TotalValidators)
        &&& is_gauge_handle(gauge_handle(self.request_time), NetworkGauge::RequestTime)
    }

    /// Makes the registry: every gauge under its name, no series yet, every
    /// network gauge at zero, no gauge registered for the exposition.
    pub fn new() -> (metrics: Metrics)
        ensures
            metrics@ == initial_metrics(),
    {
        Metrics {
            recent_blocks: Self::family(ValidatorGauge::RecentBlocks),
            is_jailed: Self::family(ValidatorGauge::IsJailed),
            stake: Self::family(ValidatorGauge::Stake),
            total_active_stake: Self::gauge(NetworkGauge::TotalActiveStake),
            total_jailed_stake: Self::gauge(NetworkGauge::TotalJailedStake),
            total_validators: Self::gauge(NetworkGauge::TotalValidators),
            request_time: Self::gauge(NetworkGauge::RequestTime),
            exposition: Exposition::fresh(),
        }
    }

    fn family(metric: ValidatorGauge) -> (family: GaugeFamily)
        ensures
            family_series(family) == no_series(),
            family_labels(family) == no_labels(),
            is_family_handle(family_handle(family), metric),
    {
        proof {
            family_is_well_named(metric);
            label_is_well_named();
        }
        new_family(metric.name(), metric.help(), "address").unwrap()
    }

    fn gauge(gauge: NetworkGauge) -> (made: Gauge)
        ensures
            gauge_reading(made) == 0,
            is_gauge_handle(gauge_handle(made), gauge),
    {
        proof {
            gauge_is_well_named(gauge);
        }
        new_gauge(gauge.name(), gauge.help()).unwrap()
    }

    /// The value of a per-validator gauge for an address: the value last
    /// set, zero if the address was never seen. The series of the address
    /// exists afterwards.
    pub fn get(&mut self, metric: ValidatorGauge, address: &str) -> (value: u64)
        ensures
            value == old(self)@.get(metric, address@),
            final(self)@ == old(self)@.set(metric, address@, value),
    {
        proof {
            use_type_invariant(&*self);
        }
        match metric {
            ValidatorGauge::RecentBlocks => family_get(&mut self.recent_blocks, address),
            ValidatorGauge::IsJailed => family_get(&mut self.is_jailed, address),
            ValidatorGauge::Stake => family_get(&mut self.stake, address),
        }
    }

    /// Sets a per-validator gauge for an address.
    pub fn set(&mut self, metric: ValidatorGauge, address: &str, value: u64)
        ensures
            final(self)@ == old(self)@.set(metric, address@, value),
    {
        proof {
            use_type_invariant(&*self);
        }
        match metric {
            ValidatorGauge::RecentBlocks => family_set(&mut self.recent_blocks, address, value),
            ValidatorGauge::IsJailed => family_set(&mut self.is_jailed, address, value),
            ValidatorGauge::Stake => family_set(&mut self.stake, address, value),
        }
    }

    /// Runs one poll: holds every record of the snapshot against the
    /// registry, in the snapshot's order, records its values, and then the
    /// totals and the number of validators. Returns the alerts to send, in
    /// the order in which they were raised. It never fails.
    pub fn update_for_validators(&mut self, validators: Vec<Validator>) -> (alerts: Vec<AlertEvent>)
        ensures
            final(self)@ == poll_state(old(self)@, snapshots(validators@)),
            alert_views(alerts@) == poll_alerts(old(self)@, snapshots(validators@)),
    {
        proof {
            use_type_invariant(&*self);
        }
        let ghost start = self@;
        let ghost records = snapshots(validators@);
        let mut alerts: Vec<AlertEvent> = Vec::new();
        let mut total_active_stake: u128 = 0;
        let mut total_jailed_stake: u128 = 0;
        let count = validators.len();
        assert(alert_views(alerts@) =~= records_alerts(start, records.take(0)));
        let mut i: usize = 0;
        while i < count
            invariant
                count == validators.len(),
                records == snapshots(validators@),
                i <= count,
                self.well_formed(),
                self@ == records_state(start, records.take(i as int)),
                alert_views(alerts@) == records_alerts(start, records.take(i as int)),
                total_active_stake == stake_sum(records.take(i as int), false),
                total_jailed_stake == stake_sum(records.take(i as int), true),
                total_active_stake <= i * u64::MAX,
                total_jailed_stake <= i * u64::MAX,
            decreases count - i,
        {
            let validator = &validators[i];
            let ghost before = self@;
            let ghost raised = alert_views(alerts@);
            proof {
                assert(records.take(i + 1).drop_last() =~= records.take(i as int));
                assert(records.take(i + 1).last() == validator@);
            }
            let address = validator.validator.as_str();
            let is_jailed = jailed_value(validator.is_jailed);

            let last_jailed = family_get(&mut self.is_jailed, address);
            let last_stake = family_get(&mut self.stake, address);
            let mut found = AlertEvent::against(validator, last_jailed, last_stake);
            alerts.append(&mut found);
            assert(alert_views(alerts@) =~= raised + record_alerts(before, validator@));

            family_set(&mut self.recent_blocks, address, validator.n_recent_blocks as u64);
            family_set(&mut self.is_jailed, address, is_jailed);
            family_set(&mut self.stake, address, validator.stake);
            proof {
                let after = record_update(before, validator@);
                assert(self@.recent_blocks =~= after.recent_blocks);
                assert(self@.is_jailed =~= after.is_jailed);
                assert(self@.stake =~= after.stake);
                assert(i * u64::MAX + u64::MAX == (i + 1) * u64::MAX) by (nonlinear_arith);
                assert((i + 1) * u64::MAX <= u128::MAX) by (nonlinear_arith)
                    requires
                        i + 1 <= u64::MAX,
                ;
            }
            if !validator.is_jailed {
                total_active_stake = total_active_stake + validator.stake as u128;
            } else {
                total_jailed_stake = total_jailed_stake + validator.stake as u128;
            }
            i += 1;
        }
        proof {
            assert(records.take(count as int) =~= records);
            records_keep_network_gauges(start, records);
        }

        let total_validators = count as u64;
        let last_count = gauge_get(&self.total_validators);
        let mut found = AlertEvent::against_count(last_count, total_validators);
        alerts.append(&mut found);
        proof {
            assert(self@.reading(NetworkGauge::TotalValidators) == start.reading(
                NetworkGauge::TotalValidators,
            ));
            assert(alert_views(alerts@) =~= poll_alerts(start, records));
        }

        gauge_set(&mut self.total_active_stake, saturate(total_active_stake));
        gauge_set(&mut self.total_jailed_stake, saturate(total_jailed_stake));
        gauge_set(&mut self.total_validators, total_validators);
        alerts
    }

    /// Registers the gauges for the exposition, one after the other in the
    /// order of `exposed_names`.
    ///
    /// The registry refuses a gauge exactly when it holds a gauge of the
    /// same descriptor id, and no two gauges have the same
    /// (`gauge_ids_are_distinct`). So the registration succeeds exactly
    /// when the gauges are not registered yet. Where they are, as after a
    /// registration that succeeded, the first gauge is refused: the outcome
    /// is a `RegisterError` that names it, and nothing changes. Either way
    /// the gauges are registered afterwards, and no value of a gauge
    /// changes.
    pub fn register(&mut self) -> (outcome: Result<(), HypermonError>)
        ensures
            final(self)@ == with_gauges_registered(old(self)@),
            outcome is Ok <==> !old(self)@.registered,
            outcome matches Err(error) ==> is_register_failure(error, gauge_fields()[0]),
    {
        proof {
            use_type_invariant(&*self);
        }
        let mut exposition = Exposition::fresh();
        core::mem::swap(&mut self.exposition, &mut exposition);
        let outcome = self.expose(&mut exposition);
        core::mem::swap(&mut self.exposition, &mut exposition);
        outcome
    }

    /// Offers the gauges to the registry of `exposition`, one after the
    /// other. The registry accepts them all if it holds none of them, and
    /// refuses the first if it holds them all.
    fn expose(&self, exposition: &mut Exposition) -> (outcome: Result<(), HypermonError>)
        requires
            old(exposition).sound(self.handles()),
            old(exposition).exposed == 0 || old(exposition).exposed == exposed_names().len(),
        ensures
            final(exposition).sound(self.handles()),
            final(exposition).exposed == exposed_names().len(),
            outcome is Ok <==> old(exposition).exposed == 0,
            outcome matches Err(error) ==> is_register_failure(error, gauge_fields()[0]),
    {
        let ghost handles = self.handles();
        proof {
            use_type_invariant(self);
            every_gauge_is_accepted(0);
            every_gauge_is_accepted(1);
            every_gauge_is_accepted(2);
            every_gauge_is_accepted(3);
            every_gauge_is_accepted(4);
            every_gauge_is_accepted(5);
            every_gauge_is_accepted(6);
            assert(are_gauge_handles(handles));
        }
        let recent_blocks = exposition.expose_family(
            &self.recent_blocks,
            0,
            "recent_blocks",
            Ghost(handles),
        );
        if recent_blocks.is_err() {
            return recent_blocks;
        }
        let is_jailed = exposition.expose_family(&self.is_jailed, 1, "is_jailed", Ghost(handles));
        if is_jailed.is_err() {
            return is_jailed;
        }
        let stake = exposition.expose_family(&self.stake, 2, "stake", Ghost(handles));
        if stake.is_err() {
            return stake;
        }
        let total_active_stake = exposition.expose_gauge(
            &self.total_active_stake,
            3,
            "total_active_stake",
            Ghost(handles),
        );
        if total_active_stake.is_err() {
            return total_active_stake;
        }
        let total_jailed_stake = exposition.expose_gauge(
            &self.total_jailed_stake,
            4,
            "total_jailed_stake",
            Ghost(handles),
        );
        if total_jailed_stake.is_err() {
            return total_jailed_stake;
        }
        let total_validators = exposition.expose_gauge(
            &self.total_validators,
            5,
            "total_validators",
            Ghost(handles),
        );
        if total_validators.is_err() {
            return total_validators;
        }
        let request_time = exposition.expose_gauge(
            &self.request_time,
            6,
            "request_time",
            Ghost(handles),
        );
        if request_time.is_err() {
            return request_time;
        }
        Ok(())
    }

    /// Writes the registry in the text exposition format: what the encoder
    /// writes for the gauges if they are registered, then the metadata of
    /// each per-validator gauge that has no series, if the gauges are
    /// registered. Returns the encoder, which knows the format's content
    /// type, and the bytes. It does not fail: the encoder has nothing to
    /// refuse in a registry of gauges.
    pub fn get_encoder_and_buffer(&self) -> (outcome: Result<
        (prometheus::TextEncoder, Vec<u8>),
        HypermonError,
    >)
        ensures
            outcome is Ok,
            outcome matches Ok((_, buffer)) ==> buffer@ == registry_exposition(self@),
    {
        proof {
            use_type_invariant(self);
        }
        let mut families: Vec<&GaugeFamily> = Vec::new();
        families.push(&self.recent_blocks);
        families.push(&self.is_jailed);
        families.push(&self.stake);
        let mut gauges: Vec<&Gauge> = Vec::new();
        gauges.push(&self.total_active_stake);
        gauges.push(&self.total_jailed_stake);
        gauges.push(&self.total_validators);
        gauges.push(&self.request_time);
        let registered = self.exposition.exposed == 7;
        proof {
            assert(handles_of(families@, gauges@) =~= self.handles());
            assert(family_states(families@) =~= exposed_families(self@));
            assert(gauge_states(gauges@) =~= exposed_gauges(self@));
            if registered {
                let last = self.handles()[6];
                assert(registry_handles(self.exposition.registry).contains_key(
                    descriptor_id(last.name),
                ));
            }
            assert(registered == (registry_handles(self.exposition.registry) != no_handles()));
        }
        let encoder = new_text_encoder();
        let encoded = encode_registry(&encoder, &self.exposition.registry, &families, &gauges);
        match encoded_buffer(encoded) {
            Ok(buffer) => {
                let mut buffer = buffer;
                let ghost written = buffer@;
                let mut metadata = String::new();
                if registered && family_size(&self.is_jailed) == 0 {
                    push_metadata(&mut metadata, ValidatorGauge::IsJailed);
                }
                if registered && family_size(&self.recent_blocks) == 0 {
                    push_metadata(&mut metadata, ValidatorGauge::RecentBlocks);
                }
                if registered && family_size(&self.stake) == 0 {
                    push_metadata(&mut metadata, ValidatorGauge::Stake);
                }
                assert(metadata@ =~= empty_families(self@));
                buffer.extend_from_slice(metadata.as_str().as_bytes());
                assert(buffer@ =~= written + encode_utf8(empty_families(self@)));
                Ok((encoder, buffer))
            },
            Err(error) => Err(error),
        }
    }

    /// The value of a network gauge.
    pub fn reading(&self, gauge: NetworkGauge) -> (value: u64)
        ensures
            value == self@.reading(gauge),
    {
        match gauge {
            NetworkGauge::TotalActiveStake => gauge_get(&self.total_active_stake),
            NetworkGauge::TotalJailedStake => gauge_get(&self.total_jailed_stake),
            NetworkGauge::TotalValidators => gauge_get(&self.total_validators),
            NetworkGauge::RequestTime => gauge_get(&self.request_time),
        }
    }
}

} // verus!
