//! The Prometheus text exposition of a registry.

use vstd::prelude::*;
use vstd::utf8::{decode_utf8, valid_utf8};
use crate::definition::{has_prefix, MetricKind};
use crate::error::MetricsError;
use crate::prom::{registry_exposition, string_from_utf8, MetricsRegistry};
use crate::registration::Family;

verus! {

/// A help text as the exposition writes it: each backslash doubled and each
/// line break written as a backslash and `n`.
pub open spec fn escape_help(s: Seq<char>) -> Seq<char>
    decreases s.len(),
{
    if s.len() == 0 {
        Seq::empty()
    } else {
        let c = s[0];
        let escaped = if c == '\\' {
            seq!['\\', '\\']
        } else if c == '\n' {
            seq!['\\', 'n']
        } else {
            seq![c]
        };
        escaped + escape_help(s.drop_first())
    }
}

/// The word that names a kind in a `# TYPE` line.
pub open spec fn kind_word(kind: MetricKind) -> Seq<char> {
    match kind {
        MetricKind::Counter => seq!['c', 'o', 'u', 'n', 't', 'e', 'r'],
        MetricKind::Gauge => seq!['g', 'a', 'u', 'g', 'e'],
        MetricKind::Histogram => seq!['h', 'i', 's', 't', 'o', 'g', 'r', 'a', 'm'],
    }
}

/// What may follow the metric name in a sample line: nothing for a counter or a
/// gauge, and `_bucket`, `_sum` or `_count` for a histogram.
pub open spec fn sample_suffix(kind: MetricKind, suffix: Seq<char>) -> bool {
    if kind == MetricKind::Histogram {
        ||| suffix == seq!['_', 'b', 'u', 'c', 'k', 'e', 't']
        ||| suffix == seq!['_', 's', 'u', 'm']
        ||| suffix == seq!['_', 'c', 'o', 'u', 'n', 't']
    } else {
        suffix.len() == 0
    }
}

/// A sample line of the metric `name` of kind `kind`: the name and its suffix,
/// then the label set in braces or a space before the value, all on one line.
pub open spec fn is_sample_line(line: Seq<char>, name: Seq<char>, kind: MetricKind) -> bool {
    &&& !line.contains('\n')
    &&& exists|suffix: Seq<char>|
        #![trigger sample_suffix(kind, suffix)]
        {
            let head = name + suffix;
            &&& sample_suffix(kind, suffix)
            &&& has_prefix(line, head)
            &&& line.len() > head.len()
            &&& (line[head.len() as int] == ' ' || line[head.len() as int] == '{')
        }
}

/// Lines, each followed by a line break.
pub open spec fn lines_text(lines: Seq<Seq<char>>) -> Seq<char>
    decreases lines.len(),
{
    if lines.len() == 0 {
        Seq::empty()
    } else {
        lines[0] + seq!['\n'] + lines_text(lines.drop_first())
    }
}

/// The block of one metric: its `# HELP` line with the escaped help text, its
/// `# TYPE` line, and its sample lines.
pub open spec fn block_text(name: Seq<char>, family: Family, samples: Seq<Seq<char>>) -> Seq<char> {
    let help = seq!['#', ' ', 'H', 'E', 'L', 'P', ' '] + name + seq![' '] + escape_help(
        family.def().opts.help,
    );
    let kind = seq!['#', ' ', 'T', 'Y', 'P', 'E', ' '] + name + seq![' '] + kind_word(
        family.def().kind,
    );
    lines_text(seq![help, kind]) + lines_text(samples)
}

/// The blocks one after the other; each block is a metric name with its sample
/// lines, and the family registered under that name gives its help and kind.
pub open spec fn blocks_text(
    blocks: Seq<(Seq<char>, Seq<Seq<char>>)>,
    metrics: Map<Seq<char>, Family>,
) -> Seq<char>
    decreases blocks.len(),
{
    if blocks.len() == 0 {
        Seq::empty()
    } else {
        block_text(blocks[0].0, metrics[blocks[0].0], blocks[0].1) + blocks_text(
            blocks.drop_first(),
            metrics,
        )
    }
}

/// `a` comes before `b` in the order of their characters' code points.
pub open spec fn name_before(a: Seq<char>, b: Seq<char>) -> bool {
    exists|k: int|
        #![trigger a.take(k), b.take(k)]
        0 <= k <= a.len() && k <= b.len() && a.take(k) == b.take(k) && ((k == a.len() && k
            < b.len()) || (k < a.len() && k < b.len() && (a[k] as u32) < (b[k] as u32)))
}

/// `text` is a text exposition of the registered `metrics`: a block for each of
/// some of them, in the order of their names, each with at least one sample line
/// of that metric.
pub open spec fn is_exposition(text: Seq<char>, metrics: Map<Seq<char>, Family>) -> bool {
    exists|blocks: Seq<(Seq<char>, Seq<Seq<char>>)>|
        #![trigger blocks_text(blocks, metrics)]
        {
            &&& text == blocks_text(blocks, metrics)
            &&& forall|i: int|
                #![trigger blocks[i]]
                0 <= i < blocks.len() ==> {
                    &&& metrics.dom().contains(blocks[i].0)
                    &&& blocks[i].1.len() > 0
                    &&& forall|j: int|
                        0 <= j < blocks[i].1.len() ==> is_sample_line(
                            #[trigger] blocks[i].1[j],
                            blocks[i].0,
                            metrics[blocks[i].0].def().kind,
                        )
                }
            &&& forall|i: int, j: int|
                0 <= i < j < blocks.len() ==> name_before(
                    (#[trigger] blocks[i]).0,
                    (#[trigger] blocks[j]).0,
                )
        }
}

/// Turns the bytes of an encoded exposition into its text.
pub fn exposition_text(encoded: Vec<u8>) -> (res: Result<String, MetricsError>)
    ensures
        res is Ok <==> valid_utf8(encoded@),
        res matches Ok(text) ==> text@ == decode_utf8(encoded@),
        res matches Err(e) ==> e is NotUtf8,
{
    match string_from_utf8(encoded) {
        Some(text) => Ok(text),
        None => Err(MetricsError::NotUtf8),
    }
}

/// Renders every metric of the registry in the Prometheus text exposition format.
/// It always succeeds. Which metrics appear, and the sample lines, depend on the
/// series the metrics hold when it is rendered.
pub fn render(registry: &MetricsRegistry) -> (text: String)
    ensures
        is_exposition(text@, registry.metrics()),
{
    match registry_exposition(registry) {
        Ok(encoded) => match exposition_text(encoded) {
            Ok(text) => text,
            Err(_) => unreached(),
        },
        Err(_) => unreached(),
    }
}

/// The exposition of a registry that holds no metric is empty.
pub proof fn law_empty_registry_renders_nothing(text: Seq<char>)
    requires
        is_exposition(text, Map::empty()),
    ensures
        text.len() == 0,
{
    let blocks = choose|blocks: Seq<(Seq<char>, Seq<Seq<char>>)>|
        #![trigger blocks_text(blocks, Map::<Seq<char>, Family>::empty())]
        {
            &&& text == blocks_text(blocks, Map::empty())
            &&& forall|i: int|
                #![trigger blocks[i]]
                0 <= i < blocks.len() ==> {
                    &&& Map::<Seq<char>, Family>::empty().dom().contains(blocks[i].0)
                    &&& blocks[i].1.len() > 0
                    &&& forall|j: int|
                        0 <= j < blocks[i].1.len() ==> is_sample_line(
                            #[trigger] blocks[i].1[j],
                            blocks[i].0,
                            Map::<Seq<char>, Family>::empty()[blocks[i].0].def().kind,
                        )
                }
            &&& forall|i: int, j: int|
                0 <= i < j < blocks.len() ==> name_before(
                    (#[trigger] blocks[i]).0,
                    (#[trigger] blocks[j]).0,
                )
        };
    if blocks.len() > 0 {
        assert(Map::<Seq<char>, Family>::empty().dom().contains(blocks[0].0));
    }
}

} // verus!
