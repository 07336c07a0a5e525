//! The alerts that a poll raises, and their messages.

use crate::helpers::escape_for_telegram_markdown_v2::{escape_for_telegram_markdown_v2, escaped};
use crate::text::{decimal, push_decimal, push_signed_decimal, signed_decimal};
use crate::types::validator::{Validator, ValidatorView};
use vstd::prelude::*;

verus! {

/// What an alert reports.
#[derive(Clone, Copy, Debug, PartialEq, Eq, Structural)]
pub enum AlertKind {
    /// A validator that was not jailed is jailed now.
    ValidatorJailed,
    /// A validator that was jailed is not jailed any more.
    ValidatorUnjailed,
    /// A validator's stake differs from the stake recorded before; the value
    /// is the new stake minus the old one.
    StakeChanged(i128),
    /// The number of validators differs from the number recorded before; the
    /// value is the new number.
    ValidatorCountChanged(u64),
}

/// One alert: what it reports, the address of the validator it is about
/// (none for an alert on the whole network), and the message for the
/// notification channel, escaped for MarkdownV2.
#[derive(Debug)]
pub struct AlertEvent {
    pub kind: AlertKind,
    pub address: Option<String>,
    pub text: String,
}

/// An alert as plain values.
pub struct AlertView {
    pub kind: AlertKind,
    pub address: Option<Seq<char>>,
    pub text: Seq<char>,
}

impl View for AlertEvent {
    type V = AlertView;

    open spec fn view(&self) -> AlertView {
        AlertView {
            kind: self.kind,
            address: match self.address {
                Some(address) => Some(address@),
                None => None,
            },
            text: self.text@,
        }
    }
}

/// The alerts of a list as plain values, in the list's order.
pub open spec fn alert_views(alerts: Seq<AlertEvent>) -> Seq<AlertView> {
    alerts.map_values(|alert: AlertEvent| alert@)
}

/// The message that a validator named `name` is jailed now.
pub open spec fn jailed_text(name: Seq<char>) -> Seq<char> {
    "\u{1F6A8} *"@ + escaped(name) + "* is now __jailed__\\!"@
}

/// The message that a validator named `name` is not jailed any more.
pub open spec fn unjailed_text(name: Seq<char>) -> Seq<char> {
    "\u{2705} *"@ + escaped(name) + "* is now __unjailed__\\!"@
}

/// The message that the stake of a validator named `name` changed by `delta`
/// to `stake`. The numbers stand as decimal texts: they hold no `.` that
/// would need escaping, and the sign of a negative difference stands as it
/// is.
pub open spec fn stake_changed_text(name: Seq<char>, delta: int, stake: nat) -> Seq<char> {
    "\u{1F969} *"@ + escaped(name) + "* stake changed by __"@ + signed_decimal(delta) + "__ to *"@
        + decimal(stake) + "*\\!"@
}

/// The message that the network now has `count` validators.
pub open spec fn validator_count_text(count: nat) -> Seq<char> {
    "\\#\u{FE0F}\u{20E3} Total validators on the network: __"@ + decimal(count) + "__\\!"@
}

/// The message sent when the monitor starts.
pub open spec fn starting_text() -> Seq<char> {
    "\u{25B6}\u{FE0F} Starting Hypermon\\!"@
}

/// The alert that `v` is jailed now.
pub open spec fn jailed_alert(v: ValidatorView) -> AlertView {
    AlertView {
        kind: AlertKind::ValidatorJailed,
        address: Some(v.address),
        text: jailed_text(v.name),
    }
}

/// The alert that `v` is not jailed any more.
pub open spec fn unjailed_alert(v: ValidatorView) -> AlertView {
    AlertView {
        kind: AlertKind::ValidatorUnjailed,
        address: Some(v.address),
        text: unjailed_text(v.name),
    }
}

/// The alert that the stake of `v` was `last` and is `v.stake` now.
pub open spec fn stake_changed_alert(v: ValidatorView, last: u64) -> AlertView {
    AlertView {
        kind: AlertKind::StakeChanged((v.stake - last) as i128),
        address: Some(v.address),
        text: stake_changed_text(v.name, v.stake - last, v.stake as nat),
    }
}

/// The alert that the network now has `count` validators.
pub open spec fn validator_count_alert(count: u64) -> AlertView {
    AlertView {
        kind: AlertKind::ValidatorCountChanged(count),
        address: None,
        text: validator_count_text(count as nat),
    }
}

/// The value of the jailed gauge: one for jailed, zero for not jailed.
pub open spec fn jailed_flag(jailed: bool) -> u64 {
    if jailed {
        1
    } else {
        0
    }
}

/// The jail alert that a record raises against the jailed flag recorded for
/// its address: one alert if the record's jailed state differs from the
/// flag, none if not. A validator never seen has the flag zero: it raises an
/// alert if it is jailed when first seen.
pub open spec fn jail_alerts_against(last_jailed: u64, v: ValidatorView) -> Seq<AlertView> {
    if last_jailed != jailed_flag(v.jailed) {
        if v.jailed {
            seq![jailed_alert(v)]
        } else {
            seq![unjailed_alert(v)]
        }
    } else {
        Seq::empty()
    }
}

/// The stake alert that a record raises against the stake recorded for its
/// address: one alert if the record's stake differs from the recorded stake
/// and the recorded stake is not zero, the value that stands for "never
/// observed"; none otherwise.
pub open spec fn stake_alerts_against(last_stake: u64, v: ValidatorView) -> Seq<AlertView> {
    if last_stake != v.stake && last_stake != 0 {
        seq![stake_changed_alert(v, last_stake)]
    } else {
        Seq::empty()
    }
}

/// The alerts that a record raises against the values recorded for its
/// address: the jail alert first, then the stake alert.
pub open spec fn alerts_against(last_jailed: u64, last_stake: u64, v: ValidatorView) -> Seq<
    AlertView,
> {
    jail_alerts_against(last_jailed, v) + stake_alerts_against(last_stake, v)
}

/// The alert on the number of validators: one alert if the number differs
/// from the recorded one, none if not.
pub open spec fn count_alerts_against(last_count: u64, count: u64) -> Seq<AlertView> {
    if last_count != count {
        seq![validator_count_alert(count)]
    } else {
        Seq::empty()
    }
}

/// The value of the jailed gauge for a jailed state.
pub fn jailed_value(jailed: bool) -> (flag: u64)
    ensures
        flag == jailed_flag(jailed),
{
    if jailed {
        1
    } else {
        0
    }
}

impl AlertEvent {
    /// The alerts that `validator` raises against the values recorded for
    /// its address, the flag `last_jailed` and the stake `last_stake`.
    pub fn against(validator: &Validator, last_jailed: u64, last_stake: u64) -> (alerts: Vec<
        AlertEvent,
    >)
        ensures
            alert_views(alerts@) == alerts_against(last_jailed, last_stake, validator@),
    {
        let mut alerts: Vec<AlertEvent> = Vec::new();
        if last_jailed != jailed_value(validator.is_jailed) {
            if validator.is_jailed {
                alerts.push(AlertEvent::jailed(validator));
            } else {
                alerts.push(AlertEvent::unjailed(validator));
            }
        }
        assert(alert_views(alerts@) =~= jail_alerts_against(last_jailed, validator@));
        if last_stake != validator.stake && last_stake != 0 {
            alerts.push(AlertEvent::stake_changed(validator, last_stake));
        }
        assert(alert_views(alerts@) =~= alerts_against(last_jailed, last_stake, validator@));
        alerts
    }

    /// The alerts that a network of `count` validators raises against the
    /// recorded number of validators.
    pub fn against_count(last_count: u64, count: u64) -> (alerts: Vec<AlertEvent>)
        ensures
            alert_views(alerts@) == count_alerts_against(last_count, count),
    {
        let mut alerts: Vec<AlertEvent> = Vec::new();
        if last_count != count {
            alerts.push(AlertEvent::validator_count_changed(count));
        }
        assert(alert_views(alerts@) =~= count_alerts_against(last_count, count));
        alerts
    }

    /// The alert that `validator` is jailed now.
    pub fn jailed(validator: &Validator) -> (alert: AlertEvent)
        ensures
            alert@ == jailed_alert(validator@),
    {
        let name = escape_for_telegram_markdown_v2(validator.name.as_str());
        let mut text = String::from_str("\u{1F6A8} *");
        text.append(name.as_str());
        text.append("* is now __jailed__\\!");
        AlertEvent {
            kind: AlertKind::ValidatorJailed,
            address: Some(validator.validator.clone()),
            text,
        }
    }

    /// The alert that `validator` is not jailed any more.
    pub fn unjailed(validator: &Validator) -> (alert: AlertEvent)
        ensures
            alert@ == unjailed_alert(validator@),
    {
        let name = escape_for_telegram_markdown_v2(validator.name.as_str());
        let mut text = String::from_str("\u{2705} *");
        text.append(name.as_str());
        text.append("* is now __unjailed__\\!");
        AlertEvent {
            kind: AlertKind::ValidatorUnjailed,
            address: Some(validator.validator.clone()),
            text,
        }
    }

    /// The alert that the stake of `validator`, recorded as `last`, has
    /// changed to the stake it reports now.
    pub fn stake_changed(validator: &Validator, last: u64) -> (alert: AlertEvent)
        ensures
            alert@ == stake_changed_alert(validator@, last),
    {
        let delta: i128 = validator.stake as i128 - last as i128;
        let name = escape_for_telegram_markdown_v2(validator.name.as_str());
        let mut text = String::from_str("\u{1F969} *");
        text.append(name.as_str());
        text.append("* stake changed by __");
        push_signed_decimal(&mut text, delta);
        text.append("__ to *");
        push_decimal(&mut text, validator.stake as u128);
        text.append("*\\!");
        AlertEvent {
            kind: AlertKind::StakeChanged(delta),
            address: Some(validator.validator.clone()),
            text,
        }
    }

    /// The alert that the network now has `count` validators.
    pub fn validator_count_changed(count: u64) -> (alert: AlertEvent)
        ensures
            alert@ == validator_count_alert(count),
    {
        let mut text = String::from_str("\\#\u{FE0F}\u{20E3} Total validators on the network: __");
        push_decimal(&mut text, count as u128);
        text.append("__\\!");
        AlertEvent { kind: AlertKind::ValidatorCountChanged(count), address: None, text }
    }
}

/// The message sent when the monitor starts.
pub fn starting_message() -> (text: String)
    ensures
        text@ == starting_text(),
{
    String::from_str("\u{25B6}\u{FE0F} Starting Hypermon\\!")
}

} // verus!
