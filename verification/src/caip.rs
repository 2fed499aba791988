//! CAIP-2 network identifiers (`namespace:reference`) and the namespaces an
//! ownable can take release events from.

use vstd::prelude::*;
use vstd::string::StrSliceExecFns;
use crate::text::same_text;

verus! {

/// The family of chains a network identifier belongs to. New families are
/// added as new variants; everything else stays `Unsupported`.
#[derive(Debug, Clone, Copy, PartialEq, Eq, Structural)]
pub enum Namespace {
    /// EVM chains, written `eip155`.
    Eip155,
    /// Any namespace that no variant stands for.
    Unsupported,
}

/// The namespace of a network identifier: its characters before the first
/// colon, or all of them where it has no colon.
pub open spec fn namespace_of(network: Seq<char>) -> Seq<char>
    decreases network.len(),
{
    if network.len() == 0 || network[0] == ':' {
        Seq::empty()
    } else {
        seq![network[0]] + namespace_of(network.drop_first())
    }
}

/// The family that a namespace text stands for.
pub open spec fn namespace_kind(namespace: Seq<char>) -> Namespace {
    if namespace == "eip155"@ {
        Namespace::Eip155
    } else {
        Namespace::Unsupported
    }
}

/// Where the first segment of a text ends, the namespace is the text up to
/// there.
pub proof fn lemma_namespace_is_prefix(network: Seq<char>, end: int)
    requires
        0 <= end <= network.len(),
        forall|i: int| 0 <= i < end ==> network[i] != ':',
        end < network.len() ==> network[end] == ':',
    ensures
        namespace_of(network) == network.take(end),
    decreases end,
{
    if end == 0 {
        assert(network.take(0) =~= Seq::<char>::empty());
    } else {
        let rest = network.drop_first();
        assert forall|i: int| 0 <= i < end - 1 implies rest[i] != ':' by {
            assert(rest[i] == network[i + 1]);
        }
        lemma_namespace_is_prefix(rest, end - 1);
        assert(network.take(end) =~= seq![network[0]] + rest.take(end - 1));
    }
}

/// The number of characters before the first colon of a text.
pub fn namespace_len(network: &str) -> (end: usize)
    ensures
        end <= network@.len(),
        namespace_of(network@) == network@.take(end as int),
{
    let total = network.unicode_len();
    let mut end: usize = 0;
    while end < total && network.get_char(end) != ':'
        invariant
            total == network@.len(),
            end <= total,
            forall|i: int| 0 <= i < end ==> network@[i] != ':',
        decreases total - end,
    {
        end = end + 1;
    }
    proof {
        lemma_namespace_is_prefix(network@, end as int);
    }
    end
}

/// Reads the namespace of a CAIP-2 network identifier.
pub fn parse_namespace(network: &str) -> (namespace: Namespace)
    ensures
        namespace == namespace_kind(namespace_of(network@)),
{
    let end = namespace_len(network);
    let segment = network.substring_char(0, end);
    assert(segment@ =~= network@.take(end as int));
    if same_text(segment, "eip155") {
        Namespace::Eip155
    } else {
        Namespace::Unsupported
    }
}

} // verus!
