//! Scope completion: offers every name the resolver sees in scope at the
//! cursor as a reference completion. The semantic work — parsing, name
//! resolution, shadowing — belongs to the external IDE layer; it hands its
//! results over as plain values in a [`CompletionContext`].

use vstd::prelude::*;

verus! {

/// What kind of completion an entry offers.
#[derive(Debug, Clone, Copy, PartialEq, Eq)]
pub enum CompletionKind {
    Keyword,
    Magic,
    Reference,
    Snippet,
}

/// A half-open character range in the completed file: the text the accepted
/// completion replaces.
#[derive(Debug, Clone, Copy, PartialEq, Eq)]
pub struct TextRange {
    pub start: usize,
    pub end: usize,
}

/// One entry of a completion list.
#[derive(Debug, Clone, PartialEq, Eq)]
pub struct CompletionItem {
    pub label: String,
    pub kind: CompletionKind,
    pub source_range: TextRange,
}

impl CompletionItem {
    /// Builds one completion entry.
    pub fn new(kind: CompletionKind, source_range: TextRange, label: String) -> (item:
        CompletionItem)
        ensures
            item.kind == kind,
            item.source_range == source_range,
            item.label == label,
    {
        CompletionItem { label, kind, source_range }
    }

    /// Appends this entry to the accumulated list.
    pub fn add_to(self, acc: &mut Completions)
        ensures
            final(acc)@ == old(acc)@.push(self),
    {
        acc.buf.push(self);
    }
}

/// Accumulates completion entries in the order they were offered.
#[derive(Debug, Clone, PartialEq, Eq)]
pub struct Completions {
    pub buf: Vec<CompletionItem>,
}

impl View for Completions {
    type V = Seq<CompletionItem>;

    open spec fn view(&self) -> Seq<CompletionItem> {
        self.buf@
    }
}

impl Completions {
    /// An empty accumulator.
    pub fn new() -> (c: Completions)
        ensures
            c@ == Seq::<CompletionItem>::empty(),
    {
        Completions { buf: Vec::new() }
    }
}

/// What the surrounding IDE layer hands in: whether the cursor sits on a
/// trivial (single-segment) path, the range the completion would replace,
/// and the names the resolver sees in scope there — shadowed names already
/// collapsed to their innermost binding.
#[derive(Debug, Clone, PartialEq, Eq)]
pub struct CompletionContext {
    pub is_trivial_path: bool,
    pub source_range: TextRange,
    pub scope_names: Vec<String>,
}

/// Offers every name in scope as a reference completion. On a non-trivial
/// path the accumulator is left untouched; otherwise one entry per scope
/// name is appended, in the resolver's order, each a reference completion
/// over the context's source range.
pub fn complete_scope(acc: &mut Completions, ctx: &CompletionContext)
    ensures
        !ctx.is_trivial_path ==> final(acc)@ == old(acc)@,
        ctx.is_trivial_path ==> {
            &&& final(acc)@.len() == old(acc)@.len() + ctx.scope_names@.len()
            &&& forall|j: int| 0 <= j < old(acc)@.len() ==> final(acc)@[j] == old(acc)@[j]
            &&& forall|j: int|
                old(acc)@.len() <= j < final(acc)@.len() ==> (#[trigger] final(acc)@[j]).label
                    == ctx.scope_names@[j - old(acc)@.len()] && final(acc)@[j].kind
                    == CompletionKind::Reference && final(acc)@[j].source_range
                    == ctx.source_range
        },
{
    if !ctx.is_trivial_path {
        return;
    }
    let n = ctx.scope_names.len();
    let mut idx: usize = 0;
    while idx < n
        invariant
            n == ctx.scope_names@.len(),
            idx <= n,
            acc@.len() == old(acc)@.len() + idx,
            forall|j: int| 0 <= j < old(acc)@.len() ==> acc@[j] == old(acc)@[j],
            forall|j: int|
                old(acc)@.len() <= j < acc@.len() ==> (#[trigger] acc@[j]).label
                    == ctx.scope_names@[j - old(acc)@.len()] && acc@[j].kind
                    == CompletionKind::Reference && acc@[j].source_range == ctx.source_range,
        decreases n - idx,
    {
        let name = ctx.scope_names[idx].clone();
        let item = CompletionItem::new(CompletionKind::Reference, ctx.source_range, name);
        let ghost prev = acc@;
        item.add_to(acc);
        proof {
            assert forall|j: int|
                old(acc)@.len() <= j < acc@.len() implies (#[trigger] acc@[j]).label
                == ctx.scope_names@[j - old(acc)@.len()] && acc@[j].kind
                == CompletionKind::Reference && acc@[j].source_range == ctx.source_range by {
                if j < prev.len() {
                    assert(acc@[j] == prev[j]);
                } else {
                    assert(acc@[j] == item);
                }
            }
        }
        idx = idx + 1;
    }
}

} // verus!
