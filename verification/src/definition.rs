//! What a metric is made of: its kind, fully-qualified name, help text,
//! label names and, for histograms, bucket bounds; and the naming rules that
//! Prometheus and this project's conventions put on them.

use vstd::prelude::*;

verus! {

/// The three metric families this project exports.
#[derive(Clone, Copy, Debug, PartialEq, Eq, Structural)]
pub enum MetricKind {
    Counter,
    Gauge,
    Histogram,
}

#[verifier::ext_equal]
/// The options a metric vector is created with: the fully-qualified name,
/// the help text and the names of its variable labels.
pub struct MetricOpts {
    pub name: Seq<char>,
    pub help: Seq<char>,
    pub labels: Seq<Seq<char>>,
}

#[verifier::ext_equal]
/// The mathematical model of one metric definition.
///
/// Histogram bucket bounds are exact decimals, counted in ten-thousandths
/// (`50` stands for `0.005`); they are empty for counters and gauges.
pub struct MetricDef {
    pub kind: MetricKind,
    pub opts: MetricOpts,
    pub buckets: Seq<u64>,
}

/// The namespace prefix shared by every metric of this project.
pub open spec fn namespace_prefix() -> Seq<char> {
    "aframp_"@
}

pub open spec fn is_ascii_letter(c: char) -> bool {
    ('a' <= c && c <= 'z') || ('A' <= c && c <= 'Z')
}

pub open spec fn is_ascii_digit(c: char) -> bool {
    '0' <= c && c <= '9'
}

/// `[a-zA-Z_]`, and `:` too where `colon` holds.
pub open spec fn is_ident_start(c: char, colon: bool) -> bool {
    is_ascii_letter(c) || c == '_' || (colon && c == ':')
}

/// `^[a-zA-Z_][a-zA-Z_0-9]*$`, with `:` allowed anywhere where `colon` holds.
pub open spec fn is_ident(s: Seq<char>, colon: bool) -> bool {
    &&& s.len() > 0
    &&& is_ident_start(s[0], colon)
    &&& forall|i: int|
        1 <= i < s.len() ==> is_ident_start(#[trigger] s[i], colon) || is_ascii_digit(s[i])
}

/// A name that Prometheus accepts for a metric.
pub open spec fn is_valid_metric_name(s: Seq<char>) -> bool {
    is_ident(s, true)
}

/// A name that Prometheus accepts for a label.
pub open spec fn is_valid_label_name(s: Seq<char>) -> bool {
    is_ident(s, false)
}

/// The options that Prometheus accepts when a metric vector is created:
/// a non-empty help text, a valid metric name, and valid label names none of
/// which occurs twice.
pub open spec fn accepts_opts(opts: MetricOpts) -> bool {
    &&& opts.help.len() > 0
    &&& is_valid_metric_name(opts.name)
    &&& forall|i: int| 0 <= i < opts.labels.len() ==> is_valid_label_name(#[trigger] opts.labels[i])
    &&& opts.labels.no_duplicates()
}

pub open spec fn is_snake_char(c: char) -> bool {
    ('a' <= c && c <= 'z') || is_ascii_digit(c) || c == '_'
}

/// snake_case: lower-case ASCII letters, digits and underscores, starting with a letter.
pub open spec fn is_snake_case(s: Seq<char>) -> bool {
    &&& s.len() > 0
    &&& 'a' <= s[0] && s[0] <= 'z'
    &&& forall|i: int| 0 <= i < s.len() ==> is_snake_char(#[trigger] s[i])
}

/// `s` begins with `p`.
pub open spec fn has_prefix(s: Seq<char>, p: Seq<char>) -> bool {
    p.len() <= s.len() && forall|i: int| 0 <= i < p.len() ==> #[trigger] s[i] == p[i]
}

/// `s` ends with `p`.
pub open spec fn has_suffix(s: Seq<char>, p: Seq<char>) -> bool {
    p.len() <= s.len() && forall|i: int|
        0 <= i < p.len() ==> #[trigger] s[s.len() - p.len() + i] == p[i]
}

/// The first two characters after the `aframp_` prefix; they tell the
/// subsystems of the project apart.
pub open spec fn subsystem_key(name: Seq<char>) -> (char, char) {
    (name[7], name[8])
}

/// Bucket bounds that Prometheus accepts: positive and strictly increasing.
pub open spec fn buckets_increasing(b: Seq<u64>) -> bool {
    &&& b.len() > 0
    &&& b[0] > 0
    &&& forall|i: int, j: int| 0 <= i < j < b.len() ==> b[i] < b[j]
}

impl MetricDef {
    pub open spec fn counter(name: Seq<char>, help: Seq<char>, labels: Seq<Seq<char>>) -> MetricDef {
        MetricDef {
            kind: MetricKind::Counter,
            opts: MetricOpts { name, help, labels },
            buckets: Seq::empty(),
        }
    }

    pub open spec fn gauge(name: Seq<char>, help: Seq<char>, labels: Seq<Seq<char>>) -> MetricDef {
        MetricDef { kind: MetricKind::Gauge, opts: MetricOpts { name, help, labels }, buckets: Seq::empty() }
    }

    pub open spec fn histogram(
        name: Seq<char>,
        help: Seq<char>,
        labels: Seq<Seq<char>>,
        buckets: Seq<u64>,
    ) -> MetricDef {
        MetricDef { kind: MetricKind::Histogram, opts: MetricOpts { name, help, labels }, buckets }
    }

    /// The project's conventions for one definition: the `aframp_` namespace, a
    /// snake_case name that Prometheus accepts together with the rest of the
    /// options, `_total` at the end of every counter, a unit at the end of
    /// every histogram, and increasing buckets for histograms only.
    pub open spec fn follows_conventions(self) -> bool {
        &&& has_prefix(self.opts.name, namespace_prefix())
        &&& is_snake_case(self.opts.name)
        &&& accepts_opts(self.opts)
        &&& self.kind == MetricKind::Counter ==> has_suffix(self.opts.name, "_total"@)
        &&& self.kind == MetricKind::Histogram ==> {
            &&& has_suffix(self.opts.name, "_seconds"@) || has_suffix(self.opts.name, "_ngn"@)
            &&& buckets_increasing(self.buckets)
        }
        &&& self.kind != MetricKind::Histogram ==> self.buckets.len() == 0
    }
}

/// Every definition of `defs` follows the conventions, and no two share a name.
pub open spec fn well_formed_definitions(defs: Seq<MetricDef>) -> bool {
    &&& forall|i: int| 0 <= i < defs.len() ==> (#[trigger] defs[i]).follows_conventions()
    &&& forall|i: int, j: int|
        0 <= i < defs.len() && 0 <= j < defs.len() && i != j ==> (#[trigger] defs[i]).opts.name
            != (#[trigger] defs[j]).opts.name
}

/// An executable metric definition, as a table of this crate lists it.
pub struct Definition {
    pub kind: MetricKind,
    pub name: &'static str,
    pub help: &'static str,
    pub labels: Vec<&'static str>,
    pub buckets: Vec<u64>,
}

pub open spec fn label_views(labels: Seq<&str>) -> Seq<Seq<char>> {
    labels.map_values(|l: &str| l@)
}

impl View for Definition {
    type V = MetricDef;

    open spec fn view(&self) -> MetricDef {
        MetricDef {
            kind: self.kind,
            opts: MetricOpts { name: self.name@, help: self.help@, labels: label_views(self.labels@) },
            buckets: self.buckets@,
        }
    }
}

pub open spec fn definition_views(table: Seq<Definition>) -> Seq<MetricDef> {
    table.map_values(|d: Definition| d@)
}

} // verus!
