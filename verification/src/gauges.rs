//! The gauges of the registry. They are kept by the `prometheus` crate; this
//! module states what the library relies on and proves nothing of it.
//!
//! The gauges hold unsigned 64-bit values. A gauge family keeps one gauge, a
//! series, for each value of its label, and finds it by a 64-bit hash of the
//! value: what a family holds is given here by that key, not by the label.
//! A registry knows a gauge by a hash of its name. Both hashes are FNV-1a
//! as the crate `fnv` computes it; `fnv_step` and `fnv_prefix` write it
//! out, which is a statement about that crate like the others here.
//!
//! A registry holds handles of the gauges that are registered with it. A
//! handle shares what its gauge holds, so what the registry writes changes
//! with the gauges, though nothing changes the registry: `Handle` says
//! which gauge a handle stands for, and the text that the encoder writes is
//! given by what the gauges hold, `encoded_gauges`.

use vstd::prelude::*;
use vstd::utf8::encode_utf8;

verus! {

#[verifier::external_type_specification]
#[verifier::external_body]
pub struct ExRegistry(prometheus::Registry);

#[verifier::external_type_specification]
#[verifier::external_body]
pub struct ExTextEncoder(prometheus::TextEncoder);

#[verifier::external_type_specification]
#[verifier::external_body]
pub struct ExPrometheusError(prometheus::Error);

/// A gauge without labels that holds an unsigned 64-bit value: a
/// `GenericGauge` of `prometheus`, which `new_gauge` made.
#[verifier::external_body]
pub struct Gauge {
    inner: prometheus::core::GenericGauge<prometheus::core::AtomicU64>,
}

/// A family of gauges of one name, one gauge (a series) for each value of
/// the family's single label. It holds a `GenericGaugeVec` of `prometheus`,
/// which `new_family` made with exactly one label name: there is no other
/// way to make a value of this type.
#[verifier::external_body]
pub struct GaugeFamily {
    inner: prometheus::core::GenericGaugeVec<prometheus::core::AtomicU64>,
}

/// The value that a gauge holds: what `GenericGauge::get` returns.
pub uninterp spec fn gauge_reading(gauge: Gauge) -> u64;

/// The value with which the 64-bit FNV-1a hash begins.
pub open spec fn fnv_offset() -> u64 {
    0xcbf29ce484222325
}

/// One step of the 64-bit FNV-1a hash: the byte is folded into the hash,
/// and the hash is multiplied, all but its lowest 64 bits dropped.
pub open spec fn fnv_step(hash: u64, byte: u8) -> u64 {
    (((hash ^ (byte as u64)) * 0x100000001b3) % 0x1_0000_0000_0000_0000) as u64
}

/// The 64-bit FNV-1a hash of the first `count` bytes.
pub open spec fn fnv_prefix(bytes: Seq<u8>, count: int) -> u64
    decreases count,
{
    if count <= 0 {
        fnv_offset()
    } else {
        fnv_step(fnv_prefix(bytes, count - 1), bytes[count - 1])
    }
}

/// The 64-bit FNV-1a hash of a text's UTF-8 bytes, as `FnvHasher` of the
/// crate `fnv` computes it.
pub open spec fn fnv_text(text: Seq<char>) -> u64 {
    fnv_prefix(encode_utf8(text), encode_utf8(text).len() as int)
}

/// The key under which a gauge family files the series of a label value:
/// the hash of the value. Two label values with one key share a series.
#[verifier::opaque]
pub open spec fn series_key(label: Seq<char>) -> u64 {
    fnv_text(label)
}

/// The series of a gauge family: the value of each series that exists, by
/// its key.
pub uninterp spec fn family_series(family: GaugeFamily) -> Map<u64, u64>;

/// Whether a registry has dealt with gauges of this module only: every
/// collector that was ever offered to it is one that `new_gauge` or
/// `new_family` made, which has one descriptor, a valid name and no constant
/// labels, and none was taken out of it again.
pub uninterp spec fn holds_gauges_only(registry: prometheus::Registry) -> bool;

/// The id of the descriptor of a gauge or gauge family with the given name
/// and no constant labels: the hash of the name and a separator byte. A
/// registry knows a collector by this id.
#[verifier::opaque]
pub open spec fn descriptor_id(name: Seq<char>) -> u64 {
    fnv_step(fnv_text(name), 0xff)
}

/// What stays of a gauge or a gauge family whatever it holds: the name and
/// the help text that it was made with, for a family the name of its label,
/// and which gauge it is. A handle that `clone` makes is the gauge that it
/// was cloned from and shares what that holds; every gauge that `new_gauge`
/// or `new_family` makes is another one.
pub struct Handle {
    pub name: Seq<char>,
    pub help: Seq<char>,
    pub label: Seq<char>,
    pub cell: int,
}

/// The handle of a gauge.
pub uninterp spec fn gauge_handle(gauge: Gauge) -> Handle;

/// The handle of a gauge family.
pub uninterp spec fn family_handle(family: GaugeFamily) -> Handle;

/// The label value of each series of a gauge family, by the key of the
/// series: the value with which the series was made.
pub uninterp spec fn family_labels(family: GaugeFamily) -> Map<u64, Seq<char>>;

/// The collectors that are registered with a registry: the handle of each,
/// by the id of its descriptor.
pub uninterp spec fn registry_handles(registry: prometheus::Registry) -> Map<u64, Handle>;

/// What the exposition shows of a gauge family: its name, help text and
/// label name, and the value and label value of each series.
pub struct FamilyState {
    pub name: Seq<char>,
    pub help: Seq<char>,
    pub label: Seq<char>,
    pub series: Map<u64, u64>,
    pub labels: Map<u64, Seq<char>>,
}

/// What the exposition shows of a gauge: its name, help text and value.
pub struct GaugeState {
    pub name: Seq<char>,
    pub help: Seq<char>,
    pub reading: u64,
}

/// The text that `TextEncoder` writes for what `Registry::gather` returns
/// of a registry that holds the given families and gauges. It writes the
/// families that have a series and the gauges, ordered by name, each after
/// its help and type lines, and the series of a family ordered by label
/// value.
pub uninterp spec fn encoded_gauges(families: Seq<FamilyState>, gauges: Seq<GaugeState>) -> Seq<u8>;

/// What the exposition shows of a gauge family.
pub open spec fn family_state(family: GaugeFamily) -> FamilyState {
    FamilyState {
        name: family_handle(family).name,
        help: family_handle(family).help,
        label: family_handle(family).label,
        series: family_series(family),
        labels: family_labels(family),
    }
}

/// What the exposition shows of a gauge.
pub open spec fn gauge_state(gauge: Gauge) -> GaugeState {
    GaugeState {
        name: gauge_handle(gauge).name,
        help: gauge_handle(gauge).help,
        reading: gauge_reading(gauge),
    }
}

/// What the exposition shows of a list of gauge families.
pub open spec fn family_states(families: Seq<&GaugeFamily>) -> Seq<FamilyState> {
    families.map_values(|family: &GaugeFamily| family_state(*family))
}

/// What the exposition shows of a list of gauges.
pub open spec fn gauge_states(gauges: Seq<&Gauge>) -> Seq<GaugeState> {
    gauges.map_values(|gauge: &Gauge| gauge_state(*gauge))
}

/// The handles of a list of gauge families and a list of gauges, the
/// families first.
pub open spec fn handles_of(families: Seq<&GaugeFamily>, gauges: Seq<&Gauge>) -> Seq<Handle> {
    families.map_values(|family: &GaugeFamily| family_handle(*family)) + gauges.map_values(
        |gauge: &Gauge| gauge_handle(*gauge),
    )
}

/// A registry without collectors.
pub open spec fn no_handles() -> Map<u64, Handle> {
    Map::empty()
}

/// What a registry holds that has accepted the first `count` of the given
/// handles, one after the other.
pub open spec fn registered_handles(handles: Seq<Handle>, count: int) -> Map<u64, Handle>
    decreases count,
{
    if count <= 0 {
        no_handles()
    } else {
        registered_handles(handles, count - 1).insert(
            descriptor_id(handles[count - 1].name),
            handles[count - 1],
        )
    }
}

/// The label values of a family after a series is asked for under `key`
/// with the label value `label`: a series that exists keeps its label
/// value, one that is made gets `label`.
pub open spec fn filed(labels: Map<u64, Seq<char>>, key: u64, label: Seq<char>) -> Map<
    u64,
    Seq<char>,
> {
    if labels.contains_key(key) {
        labels
    } else {
        labels.insert(key, label)
    }
}

/// A family without series has no label values.
pub open spec fn no_labels() -> Map<u64, Seq<char>> {
    Map::empty()
}

/// The text that the encoder writes for a registry: nothing if no gauge is
/// registered, the text of the gauges if they are.
pub open spec fn encoded_registry(
    registered: bool,
    families: Seq<FamilyState>,
    gauges: Seq<GaugeState>,
) -> Seq<u8> {
    if registered {
        encoded_gauges(families, gauges)
    } else {
        Seq::empty()
    }
}

/// A letter of the ASCII alphabet.
pub open spec fn is_ascii_letter(c: char) -> bool {
    ('a' <= c && c <= 'z') || ('A' <= c && c <= 'Z')
}

/// A character with which a name may begin: a letter or an underscore, in a
/// metric name also a colon.
pub open spec fn is_name_start(c: char, metric: bool) -> bool {
    is_ascii_letter(c) || c == '_' || (metric && c == ':')
}

/// A character that may follow in a name: one with which it may begin, or a digit.
pub open spec fn is_name_char(c: char, metric: bool) -> bool {
    is_name_start(c, metric) || ('0' <= c && c <= '9')
}

/// Whether `name` can name a metric (`metric`) or a label (`!metric`).
pub open spec fn valid_name(name: Seq<char>, metric: bool) -> bool {
    &&& name.len() > 0
    &&& is_name_start(name[0], metric)
    &&& forall|i: int| 0 < i < name.len() ==> is_name_char(#[trigger] name[i], metric)
}

/// A family without series.
pub open spec fn no_series() -> Map<u64, u64> {
    Map::empty()
}

/// The value of the series filed under `key`; zero where there is none.
pub open spec fn series_value(series: Map<u64, u64>, key: u64) -> u64 {
    if series.contains_key(key) {
        series[key]
    } else {
        0
    }
}

/// `GenericGauge::new`: makes a gauge of the given name and help text that
/// holds zero. It fails exactly when the help text is empty or the name is
/// no valid metric name.
#[verifier::external_body]
pub(crate) fn new_gauge(name: &str, help: &str) -> (made: Result<Gauge, prometheus::Error>)
    ensures
        (made is Ok) == (help@.len() > 0 && valid_name(name@, true)),
        made is Ok ==> gauge_reading(made->Ok_0) == 0,
        made is Ok ==> gauge_handle(made->Ok_0).name == name@,
        made is Ok ==> gauge_handle(made->Ok_0).help == help@,
{
    prometheus::core::GenericGauge::new(name, help).map(|inner| Gauge { inner })
}

/// `GenericGaugeVec::new` with the options of `Opts::new` and one label
/// name: makes a family of the given name, help text and label name
/// without series. It fails exactly when the help text is empty, the name is
/// no valid metric name or the label's name is no valid label name.
#[verifier::external_body]
pub(crate) fn new_family(name: &str, help: &str, label: &str) -> (made: Result<GaugeFamily, prometheus::Error>)
    ensures
        (made is Ok) == (help@.len() > 0 && valid_name(name@, true) && valid_name(label@, false)),
        made is Ok ==> family_series(made->Ok_0) == no_series(),
        made is Ok ==> family_labels(made->Ok_0) == no_labels(),
        made is Ok ==> family_handle(made->Ok_0).name == name@,
        made is Ok ==> family_handle(made->Ok_0).help == help@,
        made is Ok ==> family_handle(made->Ok_0).label == label@,
{
    let opts = prometheus::Opts::new(name, help);
    prometheus::core::GenericGaugeVec::new(opts, &[label]).map(|inner| GaugeFamily { inner })
}

/// `GenericGauge::get`.
#[verifier::external_body]
pub(crate) fn gauge_get(gauge: &Gauge) -> (value: u64)
    ensures
        value == gauge_reading(*gauge),
{
    gauge.inner.get()
}

/// `GenericGauge::set`: the gauge then holds `value`. Its handle stays.
#[verifier::external_body]
pub(crate) fn gauge_set(gauge: &mut Gauge, value: u64)
    ensures
        gauge_reading(*final(gauge)) == value,
        gauge_handle(*final(gauge)) == gauge_handle(*old(gauge)),
    no_unwind
{
    gauge.inner.set(value)
}

/// `MetricVec::with_label_values` and `GenericGauge::get` on its result: the
/// value of the series of `label`. A series that did not exist is made
/// with `label` as its label value, and holds zero. The family's handle
/// stays. The one label value answers the family's one label name, so the
/// lookup does not fail.
#[verifier::external_body]
pub(crate) fn family_get(family: &mut GaugeFamily, label: &str) -> (value: u64)
    ensures
        value == series_value(family_series(*old(family)), series_key(label@)),
        family_series(*final(family)) == family_series(*old(family)).insert(
            series_key(label@),
            value,
        ),
        family_labels(*final(family)) == filed(family_labels(*old(family)), series_key(label@), label@),
        family_handle(*final(family)) == family_handle(*old(family)),
    no_unwind
{
    family.inner.with_label_values(&[label]).get()
}

/// `MetricVec::with_label_values` and `GenericGauge::set` on its result: the
/// series of `label` then holds `value`; no other series changes. A series
/// that did not exist is made with `label` as its label value. The family's
/// handle stays. The one label value answers the family's one label name,
/// so the lookup does not fail.
#[verifier::external_body]
pub(crate) fn family_set(family: &mut GaugeFamily, label: &str, value: u64)
    ensures
        family_series(*final(family)) == family_series(*old(family)).insert(
            series_key(label@),
            value,
        ),
        family_labels(*final(family)) == filed(family_labels(*old(family)), series_key(label@), label@),
        family_handle(*final(family)) == family_handle(*old(family)),
    no_unwind
{
    family.inner.with_label_values(&[label]).set(value)
}

/// `Collector::collect` on the family, and the number of metrics of the
/// one family that it returns: how many series the family has. It is zero
/// exactly for a family without series.
#[verifier::external_body]
pub(crate) fn family_size(family: &GaugeFamily) -> (size: usize)
    ensures
        (size == 0) == (family_series(*family) == no_series()),
{
    prometheus::core::Collector::collect(&family.inner)[0].get_metric().len()
}

/// `Registry::new`: a registry without collectors.
#[verifier::external_body]
pub(crate) fn new_registry() -> (registry: prometheus::Registry)
    ensures
        holds_gauges_only(registry),
        registry_handles(registry) == no_handles(),
{
    prometheus::Registry::new()
}

/// `Registry::register` on a handle of `gauge`. A registry that has dealt
/// with gauges of this module only refuses the gauge exactly when it holds
/// a collector under the id of the gauge's descriptor: one of the same name,
/// or of a name with the same id. Where it accepts the gauge, it holds the
/// gauge's handle under that id afterwards; where it refuses, it holds what
/// it held. It does not panic.
#[verifier::external_body]
pub(crate) fn register_gauge(registry: &mut prometheus::Registry, gauge: &Gauge) -> (outcome: Result<(), prometheus::Error>)
    requires
        holds_gauges_only(*old(registry)),
    ensures
        (outcome is Err) == registry_handles(*old(registry)).contains_key(descriptor_id(gauge_handle(*gauge).name)),
        outcome is Ok ==> registry_handles(*final(registry)) == registry_handles(*old(registry)).insert(descriptor_id(gauge_handle(*gauge).name), gauge_handle(*gauge)),
        outcome is Err ==> registry_handles(*final(registry)) == registry_handles(*old(registry)),
        holds_gauges_only(*final(registry)),
    no_unwind
{
    registry.register(Box::new(gauge.inner.clone()))
}

/// `Registry::register` on a handle of `family`. A registry that has dealt
/// with gauges of this module only refuses the family exactly when it holds
/// a collector under the id of the family's descriptor: one of the same
/// name, or of a name with the same id. Where it accepts the family, it
/// holds the family's handle under that id afterwards; where it refuses, it
/// holds what it held. It does not panic.
#[verifier::external_body]
pub(crate) fn register_family(registry: &mut prometheus::Registry, family: &GaugeFamily) -> (outcome: Result<(), prometheus::Error>)
    requires
        holds_gauges_only(*old(registry)),
    ensures
        (outcome is Err) == registry_handles(*old(registry)).contains_key(descriptor_id(family_handle(*family).name)),
        outcome is Ok ==> registry_handles(*final(registry)) == registry_handles(*old(registry)).insert(descriptor_id(family_handle(*family).name), family_handle(*family)),
        outcome is Err ==> registry_handles(*final(registry)) == registry_handles(*old(registry)),
        holds_gauges_only(*final(registry)),
    no_unwind
{
    registry.register(Box::new(family.inner.clone()))
}

/// `TextEncoder::new`.
#[verifier::external_body]
pub(crate) fn new_text_encoder() -> prometheus::TextEncoder {
    prometheus::TextEncoder::new()
}

/// `Registry::gather`, then `Encoder::encode` of the text encoder into an
/// empty buffer: the buffer.
///
/// The registry holds no collector, or the handles of exactly the given
/// families and gauges. So what it gathers is what these hold, and the text
/// is that of `encoded_gauges`; of a registry without collectors it is
/// empty.
///
/// For a registry that has dealt with gauges of this module only the
/// encoder does not fail: it refuses a family without metrics or without a
/// name, but `gather` leaves out the families without metrics and every
/// gauge has a name; it has no answer for a family that is neither counter,
/// gauge, histogram nor summary, and there is none; and writing to a vector
/// does not fail.
#[allow(unused_variables)]
#[verifier::external_body]
pub(crate) fn encode_registry(encoder: &prometheus::TextEncoder, registry: &prometheus::Registry, families: &Vec<&GaugeFamily>, gauges: &Vec<&Gauge>) -> (encoded: Result<Vec<u8>, prometheus::Error>)
    requires
        holds_gauges_only(*registry),
        registry_handles(*registry) == no_handles() || registry_handles(*registry)
            == registered_handles(
            handles_of(families@, gauges@),
            handles_of(families@, gauges@).len() as int,
        ),
    ensures
        encoded is Ok,
        registry_handles(*registry) != no_handles() ==> encoded is Ok && (encoded->Ok_0)@ == encoded_gauges(family_states(families@), gauge_states(gauges@)),
        registry_handles(*registry) == no_handles() ==> encoded is Ok && (encoded->Ok_0)@.len() == 0,
{
    let mut buffer = Vec::new();
    let gathered = registry.gather();
    prometheus::Encoder::encode(encoder, &gathered, &mut buffer).map(|_| buffer)
}

/// The `Display` text of an error of `prometheus`.
#[verifier::external_body]
pub(crate) fn error_text(error: &prometheus::Error) -> String {
    error.to_string()
}

} // verus!
