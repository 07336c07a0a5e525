use hypermon::alerts::AlertKind;
use hypermon::metrics::{encoded_buffer, registered};
use hypermon::server::start::{url_metrics_text, with_url_metrics};
use hypermon::server::{get_metrics, Scrape};
use hypermon::types::{HypermonError, Validator};
use hypermon::{Metrics, NetworkGauge, ValidatorGauge};

fn validator(address: &str, stake: u64, jailed: bool, blocks: usize) -> Validator {
    Validator {
        validator: address.to_string(),
        name: address.to_string(),
        description: String::new(),
        n_recent_blocks: blocks,
        stake,
        is_jailed: jailed,
    }
}

fn text_of(response: Result<(prometheus::TextEncoder, Vec<u8>), HypermonError>) -> String {
    match response {
        Ok((_, bytes)) => String::from_utf8(bytes).unwrap(),
        Err(error) => panic!("no exposition: {}", error.message()),
    }
}

const NETWORK_ZERO: &str = "# HELP hyperliquid_network_total_active_stake Active stake of the whole network
# TYPE hyperliquid_network_total_active_stake gauge
hyperliquid_network_total_active_stake 0
# HELP hyperliquid_network_total_jailed_stake Jailed stake of the whole network
# TYPE hyperliquid_network_total_jailed_stake gauge
hyperliquid_network_total_jailed_stake 0
# HELP hyperliquid_network_total_validators Total amount of validators on the network
# TYPE hyperliquid_network_total_validators gauge
hyperliquid_network_total_validators 0
# HELP hyperliquid_request_time The time it takes to get a response from the info endpoint
# TYPE hyperliquid_request_time gauge
hyperliquid_request_time 0
";

const EMPTY_FAMILIES: &str = "# HELP hyperliquid_validator_is_jailed Is a validator jailed?
# TYPE hyperliquid_validator_is_jailed gauge
# HELP hyperliquid_validator_recent_blocks Recent blocks produced
# TYPE hyperliquid_validator_recent_blocks gauge
# HELP hyperliquid_validator_stake Stake of a validator
# TYPE hyperliquid_validator_stake gauge
";

const AFTER_ONE_POLL: &str = "# HELP hyperliquid_network_total_active_stake Active stake of the whole network
# TYPE hyperliquid_network_total_active_stake gauge
hyperliquid_network_total_active_stake 150
# HELP hyperliquid_network_total_jailed_stake Jailed stake of the whole network
# TYPE hyperliquid_network_total_jailed_stake gauge
hyperliquid_network_total_jailed_stake 7
# HELP hyperliquid_network_total_validators Total amount of validators on the network
# TYPE hyperliquid_network_total_validators gauge
hyperliquid_network_total_validators 2
# HELP hyperliquid_request_time The time it takes to get a response from the info endpoint
# TYPE hyperliquid_request_time gauge
hyperliquid_request_time 0
# HELP hyperliquid_validator_is_jailed Is a validator jailed?
# TYPE hyperliquid_validator_is_jailed gauge
hyperliquid_validator_is_jailed{address=\"A\"} 0
hyperliquid_validator_is_jailed{address=\"B\"} 1
# HELP hyperliquid_validator_recent_blocks Recent blocks produced
# TYPE hyperliquid_validator_recent_blocks gauge
hyperliquid_validator_recent_blocks{address=\"A\"} 6
hyperliquid_validator_recent_blocks{address=\"B\"} 0
# HELP hyperliquid_validator_stake Stake of a validator
# TYPE hyperliquid_validator_stake gauge
hyperliquid_validator_stake{address=\"A\"} 150
hyperliquid_validator_stake{address=\"B\"} 7
";

const URLS: &str = "# HELP hyperliquid_info_url The Hyperliquid Info URL being used
# TYPE hyperliquid_info_url gauge
hyperliquid_info_url{url=\"https://source.example/info\"} 1
# HELP hyperliquid_rpc_url The Hyperliquid RPC URL being used
# TYPE hyperliquid_rpc_url gauge
hyperliquid_rpc_url{url=\"https://rpc.example\"} 1
";

#[test]
fn registration_succeeds_once() {
    let mut metrics = Metrics::new();
    assert!(metrics.register().is_ok());
}

#[test]
fn second_registration_is_refused() {
    let mut metrics = Metrics::new();
    metrics.register().unwrap();
    match metrics.register() {
        Err(HypermonError::RegisterError(detail)) => assert_eq!(
            detail,
            "Couldn't register recent_blocks: Duplicate metrics collector registration attempted"
        ),
        other => panic!("unexpected outcome: {:?}", other),
    }
}

#[test]
fn registration_changes_no_value() {
    let mut metrics = Metrics::new();
    metrics.update_for_validators(vec![validator("A", 150, true, 6)]);
    metrics.register().unwrap();
    assert_eq!(metrics.get(ValidatorGauge::Stake, "A"), 150);
    assert_eq!(metrics.get(ValidatorGauge::IsJailed, "A"), 1);
    assert_eq!(metrics.reading(NetworkGauge::TotalJailedStake), 150);
    assert!(metrics.register().is_err());
    assert_eq!(metrics.get(ValidatorGauge::RecentBlocks, "A"), 6);
    assert_eq!(metrics.reading(NetworkGauge::TotalValidators), 1);
}

#[test]
fn registered_maps_the_answer_of_the_registry() {
    assert!(registered(Ok(()), "stake").is_ok());
    match registered(Err(prometheus::Error::AlreadyReg), "stake") {
        Err(HypermonError::RegisterError(detail)) => assert_eq!(
            detail,
            "Couldn't register stake: Duplicate metrics collector registration attempted"
        ),
        other => panic!("unexpected outcome: {:?}", other),
    }
}

#[test]
fn encoded_buffer_maps_the_answer_of_the_encoder() {
    assert_eq!(encoded_buffer(Ok(vec![1, 2, 3])).unwrap(), vec![1, 2, 3]);
    match encoded_buffer(Err(prometheus::Error::Msg("no name".to_string()))) {
        Err(HypermonError::EncodeError(detail)) => {
            assert_eq!(detail, "Couldn't encode metric families: Error: no name")
        }
        other => panic!("unexpected outcome: {:?}", other),
    }
}

#[test]
fn fresh_registry_exposes_every_family() {
    let mut metrics = Metrics::new();
    metrics.register().unwrap();
    let text = text_of(metrics.get_encoder_and_buffer());
    assert_eq!(text, format!("{}{}", NETWORK_ZERO, EMPTY_FAMILIES));
}

#[test]
fn unregistered_registry_exposes_nothing() {
    let mut metrics = Metrics::new();
    assert_eq!(text_of(metrics.get_encoder_and_buffer()), "");
    metrics.update_for_validators(vec![validator("A", 150, false, 6)]);
    assert_eq!(text_of(metrics.get_encoder_and_buffer()), "");
}

#[test]
fn refused_registration_changes_nothing() {
    let mut metrics = Metrics::new();
    metrics.register().unwrap();
    let before = text_of(metrics.get_encoder_and_buffer());
    assert!(metrics.register().is_err());
    assert_eq!(text_of(metrics.get_encoder_and_buffer()), before);
}

#[test]
fn exposition_is_the_same_when_nothing_was_written() {
    let mut metrics = Metrics::new();
    metrics.register().unwrap();
    metrics.update_for_validators(vec![validator("A", 150, false, 6)]);
    let first = text_of(metrics.get_encoder_and_buffer());
    let second = text_of(metrics.get_encoder_and_buffer());
    assert_eq!(first, second);
    assert_eq!(metrics.get(ValidatorGauge::Stake, "A"), 150);
}

#[test]
fn exposition_shows_the_polled_values() {
    let mut metrics = Metrics::new();
    metrics.register().unwrap();
    metrics.update_for_validators(vec![
        validator("B", 7, true, 0),
        validator("A", 150, false, 6),
    ]);
    assert_eq!(text_of(metrics.get_encoder_and_buffer()), AFTER_ONE_POLL);
}

#[test]
fn encoder_names_the_text_format() {
    let mut metrics = Metrics::new();
    metrics.register().unwrap();
    let (encoder, _) = metrics.get_encoder_and_buffer().unwrap();
    assert_eq!(
        prometheus::Encoder::format_type(&encoder),
        "text/plain; version=0.0.4"
    );
}

#[test]
fn reading_a_series_makes_it() {
    let mut metrics = Metrics::new();
    metrics.register().unwrap();
    assert_eq!(metrics.get(ValidatorGauge::Stake, "A"), 0);
    let text = text_of(metrics.get_encoder_and_buffer());
    assert!(text.contains("hyperliquid_validator_stake{address=\"A\"} 0\n"));
    assert!(text.ends_with(
        "# HELP hyperliquid_validator_is_jailed Is a validator jailed?
# TYPE hyperliquid_validator_is_jailed gauge
# HELP hyperliquid_validator_recent_blocks Recent blocks produced
# TYPE hyperliquid_validator_recent_blocks gauge
"
    ));
}

#[test]
fn url_samples_follow_the_registry() {
    assert_eq!(
        url_metrics_text("https://source.example/info", Some("https://rpc.example")),
        URLS
    );
    assert_eq!(
        url_metrics_text("u", None),
        "# HELP hyperliquid_info_url The Hyperliquid Info URL being used
# TYPE hyperliquid_info_url gauge
hyperliquid_info_url{url=\"u\"} 1
"
    );
    assert_eq!(
        with_url_metrics(b"x 1\n".to_vec(), "https://source.example/info", Some("https://rpc.example")),
        format!("x 1\n{}", URLS).into_bytes()
    );
}

#[test]
fn scrape_polls_and_exposes() {
    let mut metrics = Metrics::new();
    metrics.register().unwrap();
    let Scrape { alerts, response } = get_metrics(
        &mut metrics,
        Ok(vec![validator("B", 7, true, 0), validator("A", 150, false, 6)]),
        "https://source.example/info",
        Some("https://rpc.example"),
    );
    let kinds: Vec<AlertKind> = alerts.iter().map(|alert| alert.kind).collect();
    assert_eq!(
        kinds,
        vec![AlertKind::ValidatorJailed, AlertKind::ValidatorCountChanged(2)]
    );
    assert_eq!(text_of(response), format!("{}{}", AFTER_ONE_POLL, URLS));
}

#[test]
fn failed_fetch_leaves_the_registry_as_it_was() {
    let mut metrics = Metrics::new();
    metrics.register().unwrap();
    let first = get_metrics(
        &mut metrics,
        Ok(vec![validator("B", 7, true, 0), validator("A", 150, false, 6)]),
        "https://source.example/info",
        Some("https://rpc.example"),
    );
    let before = text_of(first.response);

    let failed = get_metrics(
        &mut metrics,
        Err(HypermonError::ResponseError("status 500".to_string())),
        "https://source.example/info",
        Some("https://rpc.example"),
    );
    assert!(failed.alerts.is_empty());
    match failed.response {
        Err(HypermonError::ResponseError(detail)) => assert_eq!(detail, "status 500"),
        _ => panic!("the failure of the source is the answer"),
    }
    assert_eq!(metrics.get(ValidatorGauge::Stake, "A"), 150);
    assert_eq!(metrics.get(ValidatorGauge::IsJailed, "B"), 1);
    assert_eq!(metrics.reading(NetworkGauge::TotalActiveStake), 150);
    assert_eq!(metrics.reading(NetworkGauge::TotalJailedStake), 7);
    assert_eq!(metrics.reading(NetworkGauge::TotalValidators), 2);

    let next = get_metrics(
        &mut metrics,
        Ok(vec![validator("B", 7, true, 0), validator("A", 150, false, 6)]),
        "https://source.example/info",
        Some("https://rpc.example"),
    );
    assert!(next.alerts.is_empty());
    assert_eq!(text_of(next.response), before);
}

#[test]
fn failed_deserialization_is_the_answer_too() {
    let mut metrics = Metrics::new();
    let failed = get_metrics(
        &mut metrics,
        Err(HypermonError::DeserializationError("not a list".to_string())),
        "u",
        None,
    );
    match failed.response {
        Err(error) => {
            assert_eq!(error.status_code(), 500);
            assert_eq!(error.message(), "Deserialization Error: not a list");
        }
        Ok(_) => panic!("the failure of the source is the answer"),
    }
}

#[test]
fn series_stands_under_the_address_it_was_made_with() {
    let mut metrics = Metrics::new();
    metrics.register().unwrap();
    metrics.set(ValidatorGauge::Stake, "0xabc", 5);
    metrics.set(ValidatorGauge::Stake, "0xabc", 6);
    let text = text_of(metrics.get_encoder_and_buffer());
    assert!(text.contains("hyperliquid_validator_stake{address=\"0xabc\"} 6\n"));
    assert!(!text.contains("} 5\n"));
}

#[test]
fn scrapes_from_equal_registries_answer_alike() {
    let poll = || vec![validator("B", 7, true, 0), validator("A", 150, false, 6)];
    let mut one = Metrics::new();
    one.register().unwrap();
    let mut other = Metrics::new();
    other.register().unwrap();
    let first = get_metrics(&mut one, Ok(poll()), "u", Some("r"));
    let second = get_metrics(&mut other, Ok(poll()), "u", Some("r"));
    assert_eq!(text_of(first.response), text_of(second.response));
}
