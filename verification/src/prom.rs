//! The boundary with the `prometheus` crate and with the standard library.
//!
//! Every external item here is trusted: its contract is believed without proof. Each
//! doc comment names the outside function and says what the contract claims.

use vstd::prelude::*;
use vstd::utf8::{decode_utf8, encode_utf8, valid_utf8};
use prometheus::{CounterVec, Encoder, GaugeVec, HistogramOpts, HistogramVec, Opts, Registry, TextEncoder};
use crate::definition::{accepts_opts, label_views, MetricOpts};
use crate::exposition::is_exposition;
use crate::registration::Family;

verus! {

/// `prometheus::Registry`: a set of registered collectors, shared behind an `Arc`.
#[verifier::external_type_specification]
#[verifier::external_body]
pub struct ExRegistry(Registry);

/// `prometheus::Error`, the error type of the crate's fallible calls.
#[verifier::external_type_specification]
#[verifier::external_body]
pub struct ExPrometheusError(prometheus::Error);

/// A `prometheus::CounterVec`: a collection of counters that share a name and
/// differ in the values of their labels. (The vector's builder type is not
/// exported by the crate, so the vector type cannot be declared; it is held here.)
#[verifier::external_body]
pub struct CounterFamily {
    pub vec: CounterVec,
}

/// A `prometheus::GaugeVec`, held as `CounterFamily` holds its vector.
#[verifier::external_body]
pub struct GaugeFamily {
    pub vec: GaugeVec,
}

/// A `prometheus::HistogramVec`, held as `CounterFamily` holds its vector.
#[verifier::external_body]
pub struct HistogramFamily {
    pub vec: HistogramVec,
}

/// The options (name, help, label names) that a counter vector was created with.
pub uninterp spec fn counter_family_opts(family: CounterFamily) -> MetricOpts;

/// The options (name, help, label names) that a gauge vector was created with.
pub uninterp spec fn gauge_family_opts(family: GaugeFamily) -> MetricOpts;

/// The options (name, help, label names) that a histogram vector was created with.
pub uninterp spec fn histogram_family_opts(family: HistogramFamily) -> MetricOpts;

/// The bucket bounds, in ten-thousandths, that a histogram vector was created with.
pub uninterp spec fn histogram_family_buckets(family: HistogramFamily) -> Seq<u64>;

/// The FNV-1a step that `fnv::FnvHasher::write` applies to each byte.
pub open spec fn fnv_step(hash: u64, byte: u8) -> u64 {
    (((hash ^ (byte as u64)) as int * 0x100000001b3) % 0x1_0000_0000_0000_0000) as u64
}

/// The FNV-1a hash state after feeding `bytes[i..]` to a hasher in state `hash`.
pub open spec fn fnv_from(bytes: Seq<u8>, i: nat, hash: u64) -> u64
    decreases bytes.len() - i,
{
    if i >= bytes.len() {
        hash
    } else {
        fnv_from(bytes, i + 1, fnv_step(hash, bytes[i as int]))
    }
}

/// The id that `Desc::new` gives the descriptor of a metric vector without
/// constant labels: the FNV-1a hash (from the hasher's initial state) of the
/// name's UTF-8 bytes followed by the separator byte `0xff`.
pub open spec fn desc_id(name: Seq<char>) -> u64 {
    fnv_from(encode_utf8(name).push(0xffu8), 0, 0xcbf29ce484222325)
}


/// A Prometheus registry that holds only metric vectors of this library. The
/// `prometheus::Registry` inside is never handed out: it is created empty, and
/// vectors enter it only through `registry_register`.
pub struct MetricsRegistry {
    registry: Registry,
}

/// The metric vectors registered in a registry, each under its name.
pub uninterp spec fn registered_metrics(registry: MetricsRegistry) -> Map<Seq<char>, Family>;

impl MetricsRegistry {
    /// The registered vectors, by name.
    pub open spec fn metrics(self) -> Map<Seq<char>, Family> {
        registered_metrics(self)
    }
}

/// The contents of a registry that holds no metric.
pub open spec fn no_metrics() -> Map<Seq<char>, Family> {
    Map::empty()
}

/// Calls `prometheus::Registry::new`. Claims that the new registry holds no metric.
#[verifier::external_body]
pub(crate) fn registry_new() -> (created: MetricsRegistry)
    ensures
        registered_metrics(created) == no_metrics(),
{
    MetricsRegistry { registry: Registry::new() }
}

/// Calls `prometheus::CounterVec::new` with `Opts::new(name, help)` and the label
/// names. Claims what `Desc::new` checks: the call succeeds exactly when the help
/// text is not empty, the name is a valid metric name and the label names are
/// valid and distinct; the vector then carries these options.
#[verifier::external_body]
pub(crate) fn counter_family_new(name: &str, help: &str, labels: &[&str]) -> (res: Result<
    CounterFamily,
    prometheus::Error,
>)
    ensures
        res is Ok <==> accepts_opts(
            MetricOpts { name: name@, help: help@, labels: label_views(labels@) },
        ),
        res matches Ok(family) ==> counter_family_opts(family) == (MetricOpts {
            name: name@,
            help: help@,
            labels: label_views(labels@),
        }),
{
    CounterVec::new(Opts::new(name, help), labels).map(|vec| CounterFamily { vec })
}

/// Calls `prometheus::GaugeVec::new` with `Opts::new(name, help)` and the label
/// names. Claims the same as `counter_family_new` does of `CounterVec::new`.
#[verifier::external_body]
pub(crate) fn gauge_family_new(name: &str, help: &str, labels: &[&str]) -> (res: Result<
    GaugeFamily,
    prometheus::Error,
>)
    ensures
        res is Ok <==> accepts_opts(
            MetricOpts { name: name@, help: help@, labels: label_views(labels@) },
        ),
        res matches Ok(family) ==> gauge_family_opts(family) == (MetricOpts {
            name: name@,
            help: help@,
            labels: label_views(labels@),
        }),
{
    GaugeVec::new(Opts::new(name, help), labels).map(|vec| GaugeFamily { vec })
}

/// Calls `prometheus::HistogramVec::new` with `HistogramOpts::new(name, help)`
/// whose buckets are set to the given bounds; a bound `b`, in ten-thousandths, is
/// handed over as the float that the text `{b}e-4` denotes. Claims the same as
/// `counter_family_new` does (the vector's creation does not look at the
/// buckets), and that the vector carries these bounds.
#[verifier::external_body]
pub(crate) fn histogram_family_new(name: &str, help: &str, labels: &[&str], buckets: &[u64]) -> (res:
    Result<HistogramFamily, prometheus::Error>)
    ensures
        res is Ok <==> accepts_opts(
            MetricOpts { name: name@, help: help@, labels: label_views(labels@) },
        ),
        res matches Ok(family) ==> histogram_family_opts(family) == (MetricOpts {
            name: name@,
            help: help@,
            labels: label_views(labels@),
        }),
        res matches Ok(family) ==> histogram_family_buckets(family) == buckets@,
{
    let bounds = buckets.iter().map(|b| format!("{}e-4", b).parse().unwrap()).collect();
    HistogramVec::new(HistogramOpts::new(name, help).buckets(bounds), labels).map(
        |vec| HistogramFamily { vec },
    )
}

/// Calls `prometheus::Registry::register` with a clone of the family's vector.
/// Claims what `RegistryCore::register` does with a vector of one descriptor and
/// no constant labels, in a registry that holds only such vectors: it refuses
/// the vector exactly when the id of its name equals the id of a registered
/// name (`Error::AlreadyReg`), and otherwise records it. On a refusal nothing
/// changes. What the registry records is a clone of the vector, which shares the
/// vector's state, so the family itself is recorded under its name. (The outside
/// method takes `&self`; the wrapper takes `&mut` so that the change is seen.)
#[verifier::external_body]
pub(crate) fn registry_register(registry: &mut MetricsRegistry, family: &Family) -> (res: Result<
    (),
    prometheus::Error,
>)
    ensures
        res is Ok <==> forall|n: Seq<char>|
            #[trigger] registered_metrics(*old(registry)).dom().contains(n) ==> desc_id(n)
                != desc_id(family.name()),
        res is Ok ==> registered_metrics(*final(registry)) == registered_metrics(
            *old(registry),
        ).insert(family.name(), *family),
        res is Err ==> registered_metrics(*final(registry)) == registered_metrics(*old(registry)),
{
    let registry = &registry.registry;
    match family {
        Family::Counter(f) => registry.register(Box::new(f.vec.clone())),
        Family::Gauge(f) => registry.register(Box::new(f.vec.clone())),
        Family::Histogram(f) => registry.register(Box::new(f.vec.clone())),
    }
}

/// Calls `prometheus::Registry::gather` and then `Encoder::encode` of
/// `prometheus::TextEncoder` into a new byte buffer. Claims that this succeeds and
/// gives valid UTF-8 text in the shape that `is_exposition` describes. The
/// registry holds only counter, gauge and histogram vectors with valid names and
/// non-empty help texts, and `gather` leaves out families without series, so the
/// encoder's checks pass and it never reaches its `unimplemented!` for untyped
/// families; it writes nothing but the bytes of `str` values into a `Vec`, which
/// cannot fail. `gather` orders the families by name, and the encoder writes for
/// each its `# HELP` line (help escaped), its `# TYPE` line and one line per
/// sample, whose label values are escaped so that no line break is written
/// inside a line. Which families have series, their label values and the sample
/// values are not claimed: they depend on what the metrics hold when it is called.
#[verifier::external_body]
pub(crate) fn registry_exposition(registry: &MetricsRegistry) -> (res: Result<
    Vec<u8>,
    prometheus::Error,
>)
    ensures
        res is Ok,
        res matches Ok(bytes) ==> valid_utf8(bytes@) && is_exposition(
            decode_utf8(bytes@),
            registered_metrics(*registry),
        ),
{
    let mut buffer = Vec::new();
    TextEncoder::new().encode(&registry.registry.gather(), &mut buffer).map(|()| buffer)
}

/// Calls `std::string::String::from_utf8`. Claims what its documentation says:
/// the bytes are accepted exactly when they are valid UTF-8, and the string then
/// holds the characters they encode.
#[verifier::external_body]
pub(crate) fn string_from_utf8(bytes: Vec<u8>) -> (res: Option<String>)
    ensures
        res is Some <==> valid_utf8(bytes@),
        res matches Some(s) ==> s@ == decode_utf8(bytes@),
{
    String::from_utf8(bytes).ok()
}

/// A record that one counter series was incremented once. Only
/// `counter_family_inc` makes one.
pub struct Increment {
    series: Ghost<(Family, Seq<Seq<char>>)>,
}

impl Increment {
    /// The counter vector that was incremented.
    pub closed spec fn family(self) -> Family {
        self.series@.0
    }

    /// The label values of the series that was incremented.
    pub closed spec fn labels(self) -> Seq<Seq<char>> {
        self.series@.1
    }
}

/// Calls `MetricVec::with_label_values` on the counter vector, which panics unless
/// as many values as label names are given, and `GenericCounter::inc` on the
/// counter it returns. Claims only which series was incremented: the vector and
/// the label values it was given. The count itself is a float held behind a
/// shared handle, of which nothing is claimed.
#[verifier::external_body]
pub(crate) fn counter_family_inc(family: &CounterFamily, label_values: &[&str]) -> (counted: Increment)
    requires
        label_values@.len() == counter_family_opts(*family).labels.len(),
    ensures
        counted.family() == Family::Counter(*family),
        counted.labels() == label_views(label_values@),
{
    family.vec.with_label_values(label_values).inc();
    Increment { series: Ghost((Family::Counter(*family), label_views(label_values@))) }
}

} // verus!
