use hypermon::alerts::{AlertEvent, AlertKind};
use hypermon::types::Validator;
use hypermon::{Metrics, NetworkGauge, ValidatorGauge};

fn validator(address: &str, stake: u64, jailed: bool, blocks: usize) -> Validator {
    Validator {
        validator: address.to_string(),
        name: format!("name of {}", address),
        description: String::new(),
        n_recent_blocks: blocks,
        stake,
        is_jailed: jailed,
    }
}

fn kinds(alerts: &[AlertEvent]) -> Vec<AlertKind> {
    alerts.iter().map(|alert| alert.kind).collect()
}

#[test]
fn fresh_registry_holds_zero_everywhere() {
    let mut metrics = Metrics::new();
    assert_eq!(metrics.get(ValidatorGauge::Stake, "A"), 0);
    assert_eq!(metrics.get(ValidatorGauge::IsJailed, "A"), 0);
    assert_eq!(metrics.get(ValidatorGauge::RecentBlocks, "A"), 0);
    assert_eq!(metrics.reading(NetworkGauge::TotalActiveStake), 0);
    assert_eq!(metrics.reading(NetworkGauge::TotalJailedStake), 0);
    assert_eq!(metrics.reading(NetworkGauge::TotalValidators), 0);
    assert_eq!(metrics.reading(NetworkGauge::RequestTime), 0);
}

#[test]
fn set_is_visible_to_the_next_get() {
    let mut metrics = Metrics::new();
    metrics.set(ValidatorGauge::Stake, "A", 7);
    metrics.set(ValidatorGauge::Stake, "B", 9);
    metrics.set(ValidatorGauge::Stake, "A", 8);
    assert_eq!(metrics.get(ValidatorGauge::Stake, "A"), 8);
    assert_eq!(metrics.get(ValidatorGauge::Stake, "B"), 9);
    assert_eq!(metrics.get(ValidatorGauge::IsJailed, "A"), 0);
}

#[test]
fn poll_records_every_validator() {
    let mut metrics = Metrics::new();
    metrics.update_for_validators(vec![
        validator("A", 100, false, 5),
        validator("B", 0, true, 0),
        validator("C", u64::MAX, true, 12),
    ]);
    assert_eq!(metrics.get(ValidatorGauge::Stake, "A"), 100);
    assert_eq!(metrics.get(ValidatorGauge::IsJailed, "A"), 0);
    assert_eq!(metrics.get(ValidatorGauge::RecentBlocks, "A"), 5);
    assert_eq!(metrics.get(ValidatorGauge::Stake, "B"), 0);
    assert_eq!(metrics.get(ValidatorGauge::IsJailed, "B"), 1);
    assert_eq!(metrics.get(ValidatorGauge::Stake, "C"), u64::MAX);
    assert_eq!(metrics.get(ValidatorGauge::IsJailed, "C"), 1);
    assert_eq!(metrics.get(ValidatorGauge::RecentBlocks, "C"), 12);
    assert_eq!(metrics.reading(NetworkGauge::TotalValidators), 3);
}

#[test]
fn first_observation_raises_no_stake_alert() {
    let mut metrics = Metrics::new();
    let alerts = metrics.update_for_validators(vec![
        validator("A", 100, false, 5),
        validator("B", 0, false, 5),
    ]);
    assert_eq!(kinds(&alerts), vec![AlertKind::ValidatorCountChanged(2)]);
}

#[test]
fn stake_change_raises_one_alert_with_the_delta() {
    let mut metrics = Metrics::new();
    metrics.update_for_validators(vec![validator("A", 100, false, 5)]);
    let alerts = metrics.update_for_validators(vec![validator("A", 150, false, 6)]);
    assert_eq!(kinds(&alerts), vec![AlertKind::StakeChanged(50)]);
    assert_eq!(alerts[0].address.as_deref(), Some("A"));
    assert_eq!(
        alerts[0].text,
        "\u{1F969} *name of A* stake changed by __50__ to *150*\\!"
    );
    assert_eq!(metrics.get(ValidatorGauge::Stake, "A"), 150);
    assert_eq!(metrics.get(ValidatorGauge::RecentBlocks, "A"), 6);
}

#[test]
fn stake_loss_has_a_negative_delta() {
    let mut metrics = Metrics::new();
    metrics.update_for_validators(vec![validator("A", 150, false, 5)]);
    let alerts = metrics.update_for_validators(vec![validator("A", 20, false, 5)]);
    assert_eq!(kinds(&alerts), vec![AlertKind::StakeChanged(-130)]);
    assert_eq!(
        alerts[0].text,
        "\u{1F969} *name of A* stake changed by __-130__ to *20*\\!"
    );
}

#[test]
fn largest_stake_change_is_exact() {
    let mut metrics = Metrics::new();
    metrics.update_for_validators(vec![validator("A", u64::MAX, false, 5)]);
    let alerts = metrics.update_for_validators(vec![validator("A", 1, false, 5)]);
    assert_eq!(
        kinds(&alerts),
        vec![AlertKind::StakeChanged(1 - (u64::MAX as i128))]
    );
    assert_eq!(
        alerts[0].text,
        "\u{1F969} *name of A* stake changed by __-18446744073709551614__ to *1*\\!"
    );
}

#[test]
fn stake_that_fell_to_zero_raises_no_further_alert() {
    let mut metrics = Metrics::new();
    metrics.update_for_validators(vec![validator("A", 100, false, 5)]);
    let fall = metrics.update_for_validators(vec![validator("A", 0, false, 5)]);
    assert_eq!(kinds(&fall), vec![AlertKind::StakeChanged(-100)]);
    let rise = metrics.update_for_validators(vec![validator("A", 70, false, 5)]);
    assert_eq!(kinds(&rise), Vec::<AlertKind>::new());
    assert_eq!(metrics.get(ValidatorGauge::Stake, "A"), 70);
}

#[test]
fn jailing_raises_exactly_one_jailed_alert() {
    let mut metrics = Metrics::new();
    metrics.update_for_validators(vec![
        validator("A", 100, false, 5),
        validator("B", 30, false, 1),
    ]);
    let alerts = metrics.update_for_validators(vec![
        validator("A", 100, true, 5),
        validator("B", 30, false, 1),
    ]);
    assert_eq!(kinds(&alerts), vec![AlertKind::ValidatorJailed]);
    assert_eq!(alerts[0].address.as_deref(), Some("A"));
    assert_eq!(alerts[0].text, "\u{1F6A8} *name of A* is now __jailed__\\!");
    assert_eq!(metrics.get(ValidatorGauge::IsJailed, "A"), 1);
}

#[test]
fn unjailing_raises_exactly_one_unjailed_alert() {
    let mut metrics = Metrics::new();
    metrics.update_for_validators(vec![validator("A", 100, true, 5)]);
    let alerts = metrics.update_for_validators(vec![validator("A", 100, false, 5)]);
    assert_eq!(kinds(&alerts), vec![AlertKind::ValidatorUnjailed]);
    assert_eq!(alerts[0].text, "\u{2705} *name of A* is now __unjailed__\\!");
    assert_eq!(metrics.get(ValidatorGauge::IsJailed, "A"), 0);
}

#[test]
fn jailed_on_first_observation_raises_jailed_and_count_alerts() {
    let mut metrics = Metrics::new();
    let empty = metrics.update_for_validators(Vec::new());
    assert_eq!(kinds(&empty), Vec::<AlertKind>::new());
    let alerts = metrics.update_for_validators(vec![validator("A", 0, true, 0)]);
    assert_eq!(
        kinds(&alerts),
        vec![AlertKind::ValidatorJailed, AlertKind::ValidatorCountChanged(1)]
    );
    assert_eq!(alerts[1].address, None);
    assert_eq!(
        alerts[1].text,
        "\\#\u{FE0F}\u{20E3} Total validators on the network: __1__\\!"
    );
    assert_eq!(metrics.reading(NetworkGauge::TotalValidators), 1);
}

#[test]
fn jail_alert_comes_before_stake_alert_of_the_same_validator() {
    let mut metrics = Metrics::new();
    metrics.update_for_validators(vec![
        validator("A", 100, false, 5),
        validator("B", 40, false, 5),
    ]);
    let alerts = metrics.update_for_validators(vec![
        validator("A", 90, true, 5),
        validator("B", 45, false, 5),
    ]);
    assert_eq!(
        kinds(&alerts),
        vec![
            AlertKind::ValidatorJailed,
            AlertKind::StakeChanged(-10),
            AlertKind::StakeChanged(5),
        ]
    );
    assert_eq!(alerts[2].address.as_deref(), Some("B"));
}

#[test]
fn totals_partition_the_stake_by_jailed() {
    let mut metrics = Metrics::new();
    metrics.update_for_validators(vec![
        validator("A", 100, false, 5),
        validator("B", 30, true, 1),
        validator("C", 7, false, 1),
        validator("D", 12, true, 1),
    ]);
    assert_eq!(metrics.reading(NetworkGauge::TotalActiveStake), 107);
    assert_eq!(metrics.reading(NetworkGauge::TotalJailedStake), 42);
    assert_eq!(
        metrics.reading(NetworkGauge::TotalActiveStake)
            + metrics.reading(NetworkGauge::TotalJailedStake),
        100 + 30 + 7 + 12
    );
}

#[test]
fn totals_are_overwritten_by_each_poll() {
    let mut metrics = Metrics::new();
    metrics.update_for_validators(vec![validator("A", 100, false, 5)]);
    metrics.update_for_validators(vec![validator("B", 30, true, 1)]);
    assert_eq!(metrics.reading(NetworkGauge::TotalActiveStake), 0);
    assert_eq!(metrics.reading(NetworkGauge::TotalJailedStake), 30);
    assert_eq!(metrics.reading(NetworkGauge::TotalValidators), 1);
}

#[test]
fn total_larger_than_a_gauge_saturates() {
    let mut metrics = Metrics::new();
    metrics.update_for_validators(vec![
        validator("A", u64::MAX, false, 5),
        validator("B", 2, false, 1),
        validator("C", 3, true, 1),
    ]);
    assert_eq!(metrics.reading(NetworkGauge::TotalActiveStake), u64::MAX);
    assert_eq!(metrics.reading(NetworkGauge::TotalJailedStake), 3);
}

#[test]
fn vanished_validator_keeps_its_last_values() {
    let mut metrics = Metrics::new();
    metrics.update_for_validators(vec![
        validator("A", 100, true, 5),
        validator("B", 30, false, 1),
    ]);
    let alerts = metrics.update_for_validators(vec![validator("B", 30, false, 2)]);
    assert_eq!(kinds(&alerts), vec![AlertKind::ValidatorCountChanged(1)]);
    assert_eq!(metrics.get(ValidatorGauge::Stake, "A"), 100);
    assert_eq!(metrics.get(ValidatorGauge::IsJailed, "A"), 1);
    assert_eq!(metrics.get(ValidatorGauge::RecentBlocks, "A"), 5);
}

#[test]
fn unchanged_snapshot_raises_nothing() {
    let mut metrics = Metrics::new();
    metrics.update_for_validators(vec![validator("A", 100, true, 5)]);
    let alerts = metrics.update_for_validators(vec![validator("A", 100, true, 9)]);
    assert_eq!(kinds(&alerts), Vec::<AlertKind>::new());
}

#[test]
fn name_is_escaped_once_in_an_alert() {
    let mut metrics = Metrics::new();
    let mut jailed = validator("A", 100, true, 5);
    jailed.name = "node_1.example".to_string();
    let alerts = metrics.update_for_validators(vec![jailed]);
    assert_eq!(
        alerts[0].text,
        "\u{1F6A8} *node\\_1\\.example* is now __jailed__\\!"
    );
}
