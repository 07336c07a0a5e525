use hypermon::alerts::{jailed_value, AlertEvent, AlertKind};
use hypermon::types::Validator;

fn validator(stake: u64, jailed: bool) -> Validator {
    Validator {
        validator: "0xabc".to_string(),
        name: "Val-1 (main)".to_string(),
        description: String::new(),
        n_recent_blocks: 1,
        stake,
        is_jailed: jailed,
    }
}

fn kinds(alerts: &[AlertEvent]) -> Vec<AlertKind> {
    alerts.iter().map(|alert| alert.kind).collect()
}

#[test]
fn jailed_flag_is_one_or_zero() {
    assert_eq!(jailed_value(true), 1);
    assert_eq!(jailed_value(false), 0);
}

#[test]
fn record_that_matches_the_recorded_values_raises_nothing() {
    assert!(AlertEvent::against(&validator(100, false), 0, 100).is_empty());
    assert!(AlertEvent::against(&validator(100, true), 1, 100).is_empty());
}

#[test]
fn recorded_stake_of_zero_raises_no_stake_alert() {
    assert!(AlertEvent::against(&validator(100, false), 0, 0).is_empty());
    assert!(AlertEvent::against(&validator(0, false), 0, 0).is_empty());
}

#[test]
fn change_of_jailed_state_raises_one_alert() {
    assert_eq!(
        kinds(&AlertEvent::against(&validator(100, true), 0, 100)),
        vec![AlertKind::ValidatorJailed]
    );
    assert_eq!(
        kinds(&AlertEvent::against(&validator(100, false), 1, 100)),
        vec![AlertKind::ValidatorUnjailed]
    );
}

#[test]
fn change_of_stake_raises_one_alert_with_the_difference() {
    assert_eq!(
        kinds(&AlertEvent::against(&validator(150, false), 0, 100)),
        vec![AlertKind::StakeChanged(50)]
    );
    assert_eq!(
        kinds(&AlertEvent::against(&validator(0, false), 0, 100)),
        vec![AlertKind::StakeChanged(-100)]
    );
    assert_eq!(
        kinds(&AlertEvent::against(&validator(u64::MAX, true), 0, 1)),
        vec![
            AlertKind::ValidatorJailed,
            AlertKind::StakeChanged(u64::MAX as i128 - 1)
        ]
    );
}

#[test]
fn messages_are_written_in_markdown() {
    let v = validator(150, true);
    assert_eq!(
        AlertEvent::jailed(&v).text,
        "\u{1F6A8} *Val\\-1 \\(main\\)* is now __jailed__\\!"
    );
    assert_eq!(
        AlertEvent::unjailed(&v).text,
        "\u{2705} *Val\\-1 \\(main\\)* is now __unjailed__\\!"
    );
    assert_eq!(
        AlertEvent::stake_changed(&v, 100).text,
        "\u{1F969} *Val\\-1 \\(main\\)* stake changed by __50__ to *150*\\!"
    );
    assert_eq!(
        AlertEvent::validator_count_changed(12).text,
        "\\#\u{FE0F}\u{20E3} Total validators on the network: __12__\\!"
    );
}

#[test]
fn alerts_carry_the_address_of_their_validator() {
    let v = validator(150, true);
    assert_eq!(AlertEvent::jailed(&v).address.as_deref(), Some("0xabc"));
    assert_eq!(AlertEvent::unjailed(&v).address.as_deref(), Some("0xabc"));
    assert_eq!(
        AlertEvent::stake_changed(&v, 1).address.as_deref(),
        Some("0xabc")
    );
    assert_eq!(AlertEvent::validator_count_changed(1).address, None);
}

#[test]
fn change_of_the_number_of_validators_raises_one_alert() {
    assert!(AlertEvent::against_count(3, 3).is_empty());
    assert_eq!(
        kinds(&AlertEvent::against_count(3, 4)),
        vec![AlertKind::ValidatorCountChanged(4)]
    );
    assert_eq!(
        kinds(&AlertEvent::against_count(3, 0)),
        vec![AlertKind::ValidatorCountChanged(0)]
    );
}
