//! Properties of the enhancement algorithm, stated and proved once and for
//! all inputs: additivity of the suggestion block, fallback to the original
//! message, which keys are suggested, and the order they are suggested in.

use vstd::prelude::*;
use crate::document::{navigate, Node};
use crate::enhance::{enhance_spec, final_message, split_path, table_keys};

verus! {

/// Whenever enhancement succeeds, the returned message starts with exactly
/// the original message as a literal prefix: enhancement only appends.
pub proof fn lemma_enhancement_additive(doc: Node, path: Seq<char>, orig: Seq<char>)
    ensures
        enhance_spec(doc, path, orig) matches Some(m) ==> orig.is_prefix_of(m),
{
    match enhance_spec(doc, path, orig) {
        Some(m) => {
            assert(m.subrange(0, orig.len() as int) =~= orig);
        },
        None => {
        },
    }
}

/// If the failure path cannot be walked down the document — a segment is
/// absent, or an intermediate value is not table-shaped — the reported
/// message is the original message, unchanged.
pub proof fn lemma_fallback_on_unreachable_context(doc: Node, path: Seq<char>, orig: Seq<char>)
    requires
        navigate(doc, split_path(path)) is None,
    ensures
        final_message(doc, path, orig) == orig,
{
}

/// A key is suggested only because a table-shaped entry carrying it stands
/// in the sequence: an entry that is absent from the document — say, one
/// commented out in the source text — can never be suggested.
pub proof fn lemma_suggested_key_has_entry(entries: Seq<(String, Node)>, k: Seq<char>)
    requires
        table_keys(entries).contains(k),
    ensures
        exists|i: int|
            0 <= i < entries.len() && (#[trigger] entries[i]).0@ == k && entries[i].1.is_table(),
    decreases entries.len(),
{
    let pre = entries.drop_last();
    let kp = table_keys(pre);
    let full = table_keys(entries);
    let j = choose|j: int| 0 <= j < full.len() && full[j] == k;
    if j < kp.len() {
        assert(kp[j] == k);
        assert(kp.contains(k));
        lemma_suggested_key_has_entry(pre, k);
        let i = choose|i: int|
            0 <= i < pre.len() && (#[trigger] pre[i]).0@ == k && pre[i].1.is_table();
        assert(entries[i] == pre[i]);
        assert((entries[i]).0@ == k && entries[i].1.is_table());
    } else {
        assert(entries.last().1.is_table());
        assert(full[j] == entries.last().0@);
        let i = entries.len() - 1;
        assert((entries[i]).0@ == k && entries[i].1.is_table());
    }
}

/// Every table-shaped entry's key is suggested — an entry whose value is an
/// empty table counts as table-shaped and is kept.
pub proof fn lemma_table_shaped_included(entries: Seq<(String, Node)>, i: int)
    requires
        0 <= i < entries.len(),
        entries[i].1.is_table(),
    ensures
        table_keys(entries).contains(entries[i].0@),
    decreases entries.len(),
{
    let pre = entries.drop_last();
    let kp = table_keys(pre);
    if i < entries.len() - 1 {
        assert(pre[i] == entries[i]);
        lemma_table_shaped_included(pre, i);
        let j = choose|j: int| 0 <= j < kp.len() && kp[j] == entries[i].0@;
        assert(table_keys(entries)[j] == entries[i].0@);
    } else {
        assert(table_keys(entries)[kp.len() as int] == entries[i].0@);
    }
}

/// A key that no table-shaped entry carries — every entry with that key is
/// a scalar or an array — is never suggested.
pub proof fn lemma_non_table_not_suggested(entries: Seq<(String, Node)>, k: Seq<char>)
    requires
        forall|i: int|
            0 <= i < entries.len() && (#[trigger] entries[i]).0@ == k ==> !entries[i].1.is_table(),
    ensures
        !table_keys(entries).contains(k),
{
    if table_keys(entries).contains(k) {
        lemma_suggested_key_has_entry(entries, k);
    }
}

/// The position in `entries` from which the `i`-th suggested key comes.
pub open spec fn suggestion_source(entries: Seq<(String, Node)>, i: int) -> int
    decreases entries.len(),
{
    if entries.len() == 0 {
        0
    } else if i < table_keys(entries.drop_last()).len() {
        suggestion_source(entries.drop_last(), i)
    } else {
        entries.len() - 1
    }
}

/// Each suggested key is the key of its source entry, and that entry is
/// table-shaped.
pub proof fn lemma_suggestion_source(entries: Seq<(String, Node)>, i: int)
    requires
        0 <= i < table_keys(entries).len(),
    ensures
        0 <= suggestion_source(entries, i) < entries.len(),
        entries[suggestion_source(entries, i)].0@ == table_keys(entries)[i],
        entries[suggestion_source(entries, i)].1.is_table(),
    decreases entries.len(),
{
    let pre = entries.drop_last();
    let kp = table_keys(pre);
    if i < kp.len() {
        lemma_suggestion_source(pre, i);
        assert(pre[suggestion_source(pre, i)] == entries[suggestion_source(pre, i)]);
        assert(table_keys(entries)[i] == kp[i]);
    } else {
        assert(entries.last().1.is_table());
        assert(table_keys(entries)[i] == entries.last().0@);
    }
}

/// Suggested keys appear in the order their entries are declared in: an
/// earlier suggestion comes from an earlier entry.
pub proof fn lemma_order_preservation(entries: Seq<(String, Node)>, i: int, j: int)
    requires
        0 <= i < j < table_keys(entries).len(),
    ensures
        suggestion_source(entries, i) < suggestion_source(entries, j),
    decreases entries.len(),
{
    let pre = entries.drop_last();
    let kp = table_keys(pre);
    if j < kp.len() {
        lemma_order_preservation(pre, i, j);
    } else {
        lemma_suggestion_source(pre, i);
    }
}

} // verus!
