use vstd::prelude::*;

use crate::error::MetricsError;

verus! {

#[verifier::external_type_specification]
#[verifier::external_body]
pub struct ExRegistry(prometheus_client::registry::Registry);

#[verifier::external_type_specification]
#[verifier::external_body]
pub struct ExFmtError(std::fmt::Error);

/// The end-of-exposition marker that closes every encoded registry.
pub open spec fn eof_marker() -> Seq<char> {
    "# EOF\n"@
}

/// Whether `text` ends with the end-of-exposition marker.
pub open spec fn ends_with_eof(text: Seq<char>) -> bool {
    text.len() >= eof_marker().len() && text.subrange(
        text.len() - eof_marker().len(),
        text.len() as int,
    ) == eof_marker()
}

/// The line that opens the block of the metric `name`, up to its help text.
pub open spec fn help_prefix(name: Seq<char>) -> Seq<char> {
    "# HELP "@ + name + " "@
}

/// Whether `text` is cut into `blocks` followed by the end-of-exposition
/// marker, where each block opens with the help line of `names[picks[j]]`
/// and the picked positions strictly increase.
pub open spec fn is_block_split(
    text: Seq<char>,
    names: Seq<Seq<char>>,
    blocks: Seq<Seq<char>>,
    picks: Seq<int>,
) -> bool {
    &&& blocks.len() == picks.len()
    &&& forall|j: int| 0 <= j < picks.len() ==> 0 <= #[trigger] picks[j] < names.len()
    &&& forall|j: int, k: int| 0 <= j < k < picks.len() ==> #[trigger] picks[j] < #[trigger] picks[k]
    &&& forall|j: int|
        0 <= j < blocks.len() ==> #[trigger] blocks[j].len() >= help_prefix(names[picks[j]]).len()
            && blocks[j].subrange(0, help_prefix(names[picks[j]]).len() as int) == help_prefix(
            names[picks[j]],
        )
    &&& text == blocks.flatten() + eof_marker()
}

/// Whether `text` is one block per metric of `names`, in that order, with
/// some metrics possibly left out, followed by the end-of-exposition marker.
pub open spec fn blocks_in_order(text: Seq<char>, names: Seq<Seq<char>>) -> bool {
    exists|blocks: Seq<Seq<char>>, picks: Seq<int>| #[trigger] is_block_split(text, names, blocks, picks)
}

/// The names of the metrics that a `prometheus_client` registry holds, in
/// the order in which they were registered.
pub uninterp spec fn metric_names(registry: prometheus_client::registry::Registry) -> Seq<Seq<char>>;

/// What a `prometheus_client` registry holds besides metrics registered by
/// plain name: how many collectors, sub-registries and metrics registered
/// with a unit it holds, plus one where it puts a prefix on metric names.
pub uninterp spec fn extras(registry: prometheus_client::registry::Registry) -> nat;

/// Relies on `prometheus_client::encoding::text::encode`: it writes the
/// registry's metrics, collectors and sub-registries into the buffer, then
/// the `# EOF` marker. Each metric that holds a sample gets one block, in
/// registration order, opened by `# HELP`, its name and a space; a metric
/// without samples (a family with no label-set yet) gets none. A registry
/// that holds nothing gives the marker alone, since a `String` accepts every
/// write; a metric's own encoder may fail otherwise.
#[verifier::external_body]
fn encode_text(registry: &prometheus_client::registry::Registry) -> (r: Result<String, std::fmt::Error>)
    ensures
        r matches Ok(text) ==> ends_with_eof(text@),
        metric_names(*registry).len() == 0 && extras(*registry) == 0 ==> (r is Ok && r->Ok_0@ == eof_marker()),
        extras(*registry) == 0 ==> (r matches Ok(text) ==> blocks_in_order(text@, metric_names(*registry))),
{
    let mut buffer = String::new();
    match prometheus_client::encoding::text::encode(&mut buffer, registry) {
        Ok(()) => Ok(buffer),
        Err(e) => Err(e),
    }
}

/// Encodes the registry's metrics in the text exposition format.
///
/// A text that comes back is closed by the end-of-exposition marker, and is
/// the marker alone for a registry that holds nothing; with nothing but
/// metrics registered by name, it is their blocks in registration order. A
/// failure of the encoder is reported as `EncodeIO`.
pub fn encode(registry: &prometheus_client::registry::Registry) -> (r: Result<String, MetricsError>)
    ensures
        r matches Ok(text) ==> ends_with_eof(text@),
        metric_names(*registry).len() == 0 && extras(*registry) == 0 ==> (r is Ok && r->Ok_0@ == eof_marker()),
        extras(*registry) == 0 ==> (r matches Ok(text) ==> blocks_in_order(text@, metric_names(*registry))),
        r is Err ==> r == Err::<String, MetricsError>(MetricsError::EncodeIO),
{
    match encode_text(registry) {
        Ok(text) => Ok(text),
        Err(_) => Err(MetricsError::EncodeIO),
    }
}

} // verus!
