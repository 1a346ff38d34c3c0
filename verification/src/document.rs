//! An order-preserving structural model of a parsed configuration document,
//! together with key lookup and path navigation over it.

use vstd::prelude::*;

verus! {

/// One node of the structural document tree.
///
/// A table keeps its entries in declaration order, which is observable:
/// suggestion lists are emitted in this order. Anything that is not
/// table-shaped (a scalar or an array) is a `Leaf`; navigation never
/// descends into it. A commented-out entry produces no node at all.
pub enum Node {
    /// A table (either a section header table or an inline table),
    /// mapping keys to nested values in declaration order.
    Table(Vec<(String, Node)>),
    /// A non-table value: scalar or array.
    Leaf,
}

impl Node {
    /// Whether this node is table-shaped. An empty table is still a table.
    pub open spec fn is_table(self) -> bool {
        self matches Node::Table(_)
    }

    /// The ordered entries of a table; the empty sequence for a leaf.
    pub open spec fn entries(self) -> Seq<(String, Node)> {
        match self {
            Node::Table(v) => v@,
            Node::Leaf => Seq::empty(),
        }
    }
}

/// The value bound to `key` in `entries`: the first entry with that key,
/// or `None` when the key is absent.
pub open spec fn lookup(entries: Seq<(String, Node)>, key: Seq<char>) -> Option<Node>
    decreases entries.len(),
{
    if entries.len() == 0 {
        None
    } else if entries[0].0@ == key {
        Some(entries[0].1)
    } else {
        lookup(entries.drop_first(), key)
    }
}

/// Walks `segs` down from `node`, requiring every intermediate value to be
/// table-shaped; `None` as soon as a segment is absent or a non-table is
/// reached while segments remain.
pub open spec fn navigate(node: Node, segs: Seq<Seq<char>>) -> Option<Node>
    decreases segs.len(),
{
    if segs.len() == 0 {
        Some(node)
    } else {
        match node {
            Node::Table(entries) => match lookup(entries@, segs[0]) {
                Some(child) => navigate(child, segs.drop_first()),
                None => None,
            },
            Node::Leaf => None,
        }
    }
}

/// Looks `key` up in `entries`, returning a reference to the bound value.
pub fn table_get<'a>(entries: &'a Vec<(String, Node)>, key: &String) -> (r: Option<&'a Node>)
    ensures
        match r {
            Some(n) => lookup(entries@, key@) == Some(*n),
            None => lookup(entries@, key@) is None,
        },
{
    let mut i: usize = 0;
    proof {
        assert(entries@.skip(0) =~= entries@);
    }
    while i < entries.len()
        invariant
            i <= entries@.len(),
            lookup(entries@, key@) == lookup(entries@.skip(i as int), key@),
        decreases entries@.len() - i,
    {
        proof {
            assert(entries@.skip(i as int)[0] == entries@[i as int]);
            assert(entries@.skip(i as int).drop_first() =~= entries@.skip(i + 1));
        }
        if entries[i].0 == *key {
            return Some(&entries[i].1);
        }
        i += 1;
    }
    None
}

/// Walks the dotted-path segments down from `doc`, as `navigate` describes.
pub fn navigate_doc<'a>(doc: &'a Node, segs: &Vec<String>) -> (r: Option<&'a Node>)
    ensures
        match r {
            Some(n) => navigate(*doc, segs.deep_view()) == Some(*n),
            None => navigate(*doc, segs.deep_view()) is None,
        },
{
    let mut cur: &Node = doc;
    let mut i: usize = 0;
    proof {
        assert(segs.deep_view().skip(0) =~= segs.deep_view());
    }
    while i < segs.len()
        invariant
            i <= segs@.len(),
            navigate(*doc, segs.deep_view()) == navigate(*cur, segs.deep_view().skip(i as int)),
        decreases segs@.len() - i,
    {
        proof {
            assert(segs.deep_view().skip(i as int)[0] == segs.deep_view()[i as int]);
            assert(segs.deep_view().skip(i as int).drop_first() =~= segs.deep_view().skip(
                i + 1,
            ));
        }
        match cur {
            Node::Table(entries) => {
                match table_get(entries, &segs[i]) {
                    Some(child) => {
                        cur = child;
                    },
                    None => {
                        return None;
                    },
                }
            },
            Node::Leaf => {
                return None;
            },
        }
        i += 1;
    }
    Some(cur)
}

} // verus!
