//! A monitor of the validators of a proof-of-stake network.
//!
//! On every scrape the monitor is handed the validators that the network's
//! source reports. It holds each of them against the gauges that the poll
//! before left in its registry, raises an alert for every change of a jailed
//! state, of a stake and of the number of validators, records the new values
//! and writes the registry in the text exposition format.
//!
//! - [`metrics`] holds the registry, [`metrics::Metrics`], and the poll,
//!   [`metrics::Metrics::update_for_validators`]. What a poll does is given by
//!   [`metrics::poll_state`] and [`metrics::poll_alerts`].
//! - [`poll_laws`] proves what follows for every poll: which values a
//!   validator's gauges hold afterwards, and which alerts it can raise.
//! - [`alerts`] holds the alerts and their messages, which are written in
//!   MarkdownV2; [`helpers`] holds the escaping of names, the request that
//!   delivers a message, and the order of a fetched validator set.
//! - [`server`] holds what one scrape comes to, [`commands`] and [`table`]
//!   the table that shows the validators, [`types`] the data of the
//!   validator source and the errors.
//! - [`gauges`] holds the gauges themselves. They are those of the
//!   `prometheus` crate, with unsigned 64-bit values; what the library
//!   relies on of them is stated there and not proved. [`descriptor_ids`]
//!   works out the ids by which a registry knows the gauges, and proves
//!   that it accepts them all.
//!
//! The exposition is the encoder's text of what the gauges hold,
//! [`metrics::registry_exposition`]: equal registries are written alike.
//!
//! Two things follow from the gauges. A gauge family files the series of an
//! address under a 64-bit key of the address, so two addresses with one key
//! share their gauges: the laws of a poll speak of records that are alone in
//! their series. And a gauge holds no more than `u64::MAX`: a total above it
//! is recorded as `u64::MAX`.
//!
//! Nothing here reads or writes outside the process. The caller fetches the
//! validators, posts the requests that deliver the alerts and serves the
//! exposition.

pub mod alerts;
pub mod commands;
pub mod descriptor_ids;
pub mod gauges;
pub mod helpers;
pub mod metrics;
pub mod poll_laws;
pub mod server;
pub mod table;
pub mod text;
pub mod types;

pub use metrics::{Metrics, NetworkGauge, ValidatorGauge};
