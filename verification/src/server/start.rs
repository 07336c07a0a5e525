//! One scrape of the exposition endpoint: a poll of the registry with what
//! the validator source returned, and the exposition of the registry.

use crate::alerts::{alert_views, AlertEvent, AlertView};
use crate::metrics::{poll_alerts, poll_state, registry_exposition, Metrics, MetricsView};
use crate::types::hypermon_error::HypermonError;
use crate::types::validator::{snapshots, Validator};
use vstd::prelude::*;
use vstd::utf8::encode_utf8;

verus! {

/// The sample that names the validator source: a gauge of constant value
/// one, labelled with the source's URL. It does not end its last line.
pub open spec fn info_url_metric(info_url: Seq<char>) -> Seq<char> {
    "# HELP hyperliquid_info_url The Hyperliquid Info URL being used\n# TYPE hyperliquid_info_url gauge\nhyperliquid_info_url{url=\""@
        + info_url + "\"} 1"@
}

/// The sample that names the RPC endpoint. It ends the line before it and
/// its own last line.
pub open spec fn rpc_url_metric(rpc_url: Seq<char>) -> Seq<char> {
    "\n# HELP hyperliquid_rpc_url The Hyperliquid RPC URL being used\n# TYPE hyperliquid_rpc_url gauge\nhyperliquid_rpc_url{url=\""@
        + rpc_url + "\"} 1\n"@
}

/// The samples that follow the registry's gauges in the exposition: the
/// validator source's URL, then the RPC endpoint's URL where the monitor
/// has one, else only the end of the line.
pub open spec fn url_metrics(info_url: Seq<char>, rpc_url: Option<Seq<char>>) -> Seq<char> {
    info_url_metric(info_url) + match rpc_url {
        Some(rpc_url) => rpc_url_metric(rpc_url),
        None => "\n"@,
    }
}

/// The exposition of a scrape: what was written for the registry, then the
/// URL samples as UTF-8.
pub open spec fn exposition(
    encoded: Seq<u8>,
    info_url: Seq<char>,
    rpc_url: Option<Seq<char>>,
) -> Seq<u8> {
    encoded + encode_utf8(url_metrics(info_url, rpc_url))
}

/// The URL of an endpoint that may be missing, as plain values.
pub open spec fn url_view(url: Option<&str>) -> Option<Seq<char>> {
    match url {
        Some(url) => Some(url@),
        None => None,
    }
}

/// The text of the URL samples.
pub fn url_metrics_text(info_url: &str, rpc_url: Option<&str>) -> (text: String)
    ensures
        text@ == url_metrics(info_url@, url_view(rpc_url)),
{
    let mut text = String::from_str(
        "# HELP hyperliquid_info_url The Hyperliquid Info URL being used\n# TYPE hyperliquid_info_url gauge\nhyperliquid_info_url{url=\"",
    );
    text.append(info_url);
    text.append("\"} 1");
    match rpc_url {
        Some(rpc_url) => {
            text.append(
                "\n# HELP hyperliquid_rpc_url The Hyperliquid RPC URL being used\n# TYPE hyperliquid_rpc_url gauge\nhyperliquid_rpc_url{url=\"",
            );
            text.append(rpc_url);
            text.append("\"} 1\n");
        },
        None => {
            text.append("\n");
        },
    }
    text
}

/// Appends the URL samples to what was written for the registry.
pub fn with_url_metrics(encoded: Vec<u8>, info_url: &str, rpc_url: Option<&str>) -> (body: Vec<u8>)
    ensures
        body@ == exposition(encoded@, info_url@, url_view(rpc_url)),
{
    let mut body = encoded;
    let text = url_metrics_text(info_url, rpc_url);
    body.extend_from_slice(text.as_str().as_bytes());
    assert(body@ =~= exposition(encoded@, info_url@, url_view(rpc_url)));
    body
}

/// What a scrape comes to: the alerts to send, and the answer to the
/// scraper, which is the encoder with the exposition or the error that
/// ended the poll cycle.
pub struct Scrape {
    pub alerts: Vec<AlertEvent>,
    pub response: Result<(prometheus::TextEncoder, Vec<u8>), HypermonError>,
}

/// The registry after a scrape: unchanged where the validator source
/// failed, polled with the fetched snapshot where it answered.
pub open spec fn scraped_state(
    s: MetricsView,
    fetched: Result<Vec<Validator>, HypermonError>,
) -> MetricsView {
    match fetched {
        Ok(validators) => poll_state(s, snapshots(validators@)),
        Err(_) => s,
    }
}

/// The alerts of a scrape: none where the validator source failed, those
/// of the poll where it answered.
pub open spec fn scraped_alerts(
    s: MetricsView,
    fetched: Result<Vec<Validator>, HypermonError>,
) -> Seq<AlertView> {
    match fetched {
        Ok(validators) => poll_alerts(s, snapshots(validators@)),
        Err(_) => Seq::empty(),
    }
}

/// Answers one scrape. `fetched` is what the validator source returned.
/// Where it failed, the registry keeps the values of the poll before, no
/// alert is raised and the failure is the answer. Where it delivered a
/// snapshot, the registry is polled with it, and the answer is the
/// registry's exposition followed by the URL samples.
pub fn get_metrics(
    metrics: &mut Metrics,
    fetched: Result<Vec<Validator>, HypermonError>,
    info_url: &str,
    rpc_url: Option<&str>,
) -> (scrape: Scrape)
    ensures
        final(metrics)@ == scraped_state(old(metrics)@, fetched),
        alert_views(scrape.alerts@) == scraped_alerts(old(metrics)@, fetched),
        fetched matches Err(failure) ==> scrape.response == Err::<
            (prometheus::TextEncoder, Vec<u8>),
            HypermonError,
        >(failure),
        fetched is Ok ==> scrape.response is Ok,
        scrape.response matches Ok((_, body)) ==> body@ == exposition(
            registry_exposition(final(metrics)@),
            info_url@,
            url_view(rpc_url),
        ),
{
    match fetched {
        Err(failure) => {
            let alerts: Vec<AlertEvent> = Vec::new();
            assert(alert_views(alerts@) =~= Seq::empty());
            Scrape { alerts, response: Err(failure) }
        },
        Ok(validators) => {
            let alerts = metrics.update_for_validators(validators);
            let response = match metrics.get_encoder_and_buffer() {
                Ok((encoder, encoded)) => {
                    let body = with_url_metrics(encoded, info_url, rpc_url);
                    Ok((encoder, body))
                },
                Err(error) => Err(error),
            };
            Scrape { alerts, response }
        },
    }
}

} // verus!
