//! Error-message enhancement: correlating a dotted failure path with the
//! structural document to append a suggestion listing nearby variant keys.

use vstd::prelude::*;
use vstd::string::*;
use crate::document::{lookup, navigate, navigate_doc, table_get, Node};

verus! {

/// The segments of a dotted path, in order. The empty path yields one
/// empty segment; a separator at either end yields an empty segment there.
pub open spec fn split_path(s: Seq<char>) -> Seq<Seq<char>>
    decreases s.len(),
{
    if s.len() == 0 {
        seq![s]
    } else if s[0] == '.' {
        seq![Seq::<char>::empty()] + split_path(s.drop_first())
    } else {
        let rest = split_path(s.drop_first());
        seq![seq![s[0]] + rest[0]] + rest.drop_first()
    }
}

pub proof fn lemma_split_path_nonempty(s: Seq<char>)
    ensures
        split_path(s).len() >= 1,
{
}

/// First element of `segs` extended on the left with `p`; the rest unchanged.
spec fn prefix_first(p: Seq<char>, segs: Seq<Seq<char>>) -> Seq<Seq<char>> {
    seq![p + segs[0]] + segs.drop_first()
}

/// Splits `path` at every separator, keeping empty segments.
pub fn split_path_segments(path: &str) -> (r: Vec<String>)
    ensures
        r.deep_view() == split_path(path@),
{
    let n = path.unicode_len();
    let mut out: Vec<String> = Vec::new();
    let mut start: usize = 0;
    let mut i: usize = 0;
    proof {
        assert(path@.skip(0) =~= path@);
        assert(path@.subrange(0, 0) =~= Seq::<char>::empty());
        lemma_split_path_nonempty(path@);
        assert(prefix_first(path@.subrange(0, 0), split_path(path@)) =~~= split_path(path@));
        assert(out.deep_view() + prefix_first(path@.subrange(0, 0), split_path(path@))
            =~~= split_path(path@));
    }
    while i < n
        invariant
            n == path@.len(),
            start <= i <= n,
            split_path(path@) == out.deep_view() + prefix_first(
                path@.subrange(start as int, i as int),
                split_path(path@.skip(i as int)),
            ),
        decreases n - i,
    {
        let c = path.get_char(i);
        proof {
            assert(path@.skip(i as int)[0] == path@[i as int]);
            assert(path@.skip(i as int).drop_first() =~= path@.skip(i + 1));
            lemma_split_path_nonempty(path@.skip(i + 1));
        }
        let ghost pre = path@.subrange(start as int, i as int);
        let ghost rest = split_path(path@.skip(i + 1));
        if c == '.' {
            let seg = path.substring_char(start, i).to_owned();
            proof {
                assert(split_path(path@.skip(i as int)) =~~= seq![Seq::<char>::empty()] + rest);
                assert(prefix_first(pre, seq![Seq::<char>::empty()] + rest) =~~= seq![pre] + rest);
                assert((out.deep_view().push(pre)) + prefix_first(
                    path@.subrange(i + 1, i + 1),
                    rest,
                ) =~~= out.deep_view() + (seq![pre] + rest));
            }
            let ghost out0 = out.deep_view();
            out.push(seg);
            proof {
                assert(out.deep_view() =~~= out0.push(pre)) by {
                    assert(out@.last()@ == pre);
                };
            }
            start = i + 1;
        } else {
            proof {
                assert(split_path(path@.skip(i as int)) =~~= seq![seq![path@[i as int]] + rest[0]]
                    + rest.drop_first());
                assert(prefix_first(pre, split_path(path@.skip(i as int))) =~~= prefix_first(
                    path@.subrange(start as int, i + 1),
                    rest,
                )) by {
                    assert(pre + (seq![path@[i as int]] + rest[0]) =~= path@.subrange(
                        start as int,
                        i + 1,
                    ) + rest[0]);
                };
            }
        }
        i += 1;
    }
    let seg = path.substring_char(start, n).to_owned();
    proof {
        assert(path@.skip(n as int) =~= Seq::<char>::empty());
        assert(split_path(path@.skip(n as int)) =~~= seq![Seq::<char>::empty()]);
        assert(prefix_first(path@.subrange(start as int, n as int), seq![Seq::<char>::empty()])
            =~~= seq![path@.subrange(start as int, n as int)]);
    }
    let ghost out0 = out.deep_view();
    out.push(seg);
    proof {
        assert(out.deep_view() =~~= out0.push(path@.subrange(start as int, n as int))) by {
            assert(out@.last()@ == path@.subrange(start as int, n as int));
        };
        assert(out.deep_view() =~~= split_path(path@));
    }
    out
}

/// The keys of the table-shaped entries of `entries`, in declaration order.
/// An entry whose value is an empty table is still table-shaped and is kept;
/// scalars and arrays are dropped.
pub open spec fn table_keys(entries: Seq<(String, Node)>) -> Seq<Seq<char>>
    decreases entries.len(),
{
    if entries.len() == 0 {
        Seq::empty()
    } else {
        table_keys(entries.drop_last()) + if entries.last().1.is_table() {
            seq![entries.last().0@]
        } else {
            Seq::<Seq<char>>::empty()
        }
    }
}

/// Collects the keys of the table-shaped entries, in order.
pub fn collect_table_keys(entries: &Vec<(String, Node)>) -> (r: Vec<String>)
    ensures
        r.deep_view() == table_keys(entries@),
{
    let mut out: Vec<String> = Vec::new();
    let mut i: usize = 0;
    proof {
        assert(entries@.take(0) =~= Seq::<(String, Node)>::empty());
        assert(out.deep_view() =~~= table_keys(entries@.take(0)));
    }
    while i < entries.len()
        invariant
            i <= entries@.len(),
            out.deep_view() == table_keys(entries@.take(i as int)),
        decreases entries@.len() - i,
    {
        proof {
            assert(entries@.take(i + 1).drop_last() =~= entries@.take(i as int));
            assert(entries@.take(i + 1).last() == entries@[i as int]);
        }
        match &entries[i].1 {
            Node::Table(_) => {
                let key = entries[i].0.clone();
                let ghost out0 = out.deep_view();
                out.push(key);
                proof {
                    assert(out.deep_view() =~~= out0.push(entries@[i as int].0@)) by {
                        assert(out@.last()@ == entries@[i as int].0@);
                    };
                    assert(out.deep_view() =~~= table_keys(entries@.take(i + 1)));
                }
            },
            Node::Leaf => {
                proof {
                    assert(out.deep_view() =~~= table_keys(entries@.take(i + 1)));
                }
            },
        }
        i += 1;
    }
    proof {
        assert(entries@.take(entries@.len() as int) =~= entries@);
    }
    out
}

/// The fixed header that introduces a suggestion block.
pub open spec fn help_header() -> Seq<char> {
    "\n\nHelp: The error occurred in a table that contains these variants:"@
}

/// The suggestion lines: each key on a line of its own behind a marker.
pub open spec fn suggestion_text(keys: Seq<Seq<char>>) -> Seq<char>
    decreases keys.len(),
{
    if keys.len() == 0 {
        Seq::empty()
    } else {
        suggestion_text(keys.drop_last()) + "\n  - "@ + keys.last()
    }
}

/// The original message, the header, and one line per suggested key.
pub open spec fn enhanced_message(orig: Seq<char>, keys: Seq<Seq<char>>) -> Seq<char> {
    orig + help_header() + suggestion_text(keys)
}

/// Renders the enhanced message for `keys`, appended to `original_msg`.
pub fn render_message(original_msg: &str, keys: &Vec<String>) -> (r: String)
    ensures
        r@ == enhanced_message(original_msg@, keys.deep_view()),
{
    let mut msg = original_msg.to_owned();
    msg.append("\n\nHelp: The error occurred in a table that contains these variants:");
    let mut i: usize = 0;
    proof {
        assert(keys.deep_view().take(0) =~~= Seq::<Seq<char>>::empty());
        assert(msg@ =~= original_msg@ + help_header() + suggestion_text(keys.deep_view().take(0)));
    }
    while i < keys.len()
        invariant
            i <= keys@.len(),
            msg@ == original_msg@ + help_header() + suggestion_text(keys.deep_view().take(i as int)),
        decreases keys@.len() - i,
    {
        proof {
            assert(keys.deep_view().take(i + 1).drop_last() =~~= keys.deep_view().take(i as int));
            assert(keys.deep_view().take(i + 1).last() == keys.deep_view()[i as int]);
            assert(keys.deep_view()[i as int] == keys@[i as int]@);
        }
        msg.append("\n  - ");
        msg.append(keys[i].as_str());
        proof {
            assert(msg@ =~= original_msg@ + help_header() + suggestion_text(
                keys.deep_view().take(i + 1),
            ));
        }
        i += 1;
    }
    proof {
        assert(keys.deep_view().take(keys@.len() as int) =~~= keys.deep_view());
    }
    msg
}

/// The entries of the `variants` table reached by walking the dotted path
/// down from `doc`: `None` when the walk fails, when there is no `variants`
/// key at its end, or when that key is not table-shaped.
pub open spec fn variant_entries(doc: Node, path: Seq<char>) -> Option<Seq<(String, Node)>> {
    match navigate(doc, split_path(path)) {
        Some(reached) => match reached {
            Node::Table(entries) => match lookup(entries@, "variants"@) {
                Some(v) => if v.is_table() {
                    Some(v.entries())
                } else {
                    None
                },
                None => None,
            },
            Node::Leaf => None,
        },
        None => None,
    }
}

/// What enhancement yields: the original message with the suggestion block
/// appended, or `None` when no useful context can be recovered — the walk
/// failed, `variants` is absent or not table-shaped, it has no entries, or
/// none of its entries is table-shaped.
pub open spec fn enhance_spec(doc: Node, path: Seq<char>, orig: Seq<char>) -> Option<Seq<char>> {
    match variant_entries(doc, path) {
        Some(entries) => if entries.len() == 0 {
            None
        } else if table_keys(entries).len() == 0 {
            None
        } else {
            Some(enhanced_message(orig, table_keys(entries)))
        },
        None => None,
    }
}

/// The message a failed load reports: the enhanced message when enhancement
/// is possible, the original message unchanged otherwise.
pub open spec fn final_message(doc: Node, path: Seq<char>, orig: Seq<char>) -> Seq<char> {
    match enhance_spec(doc, path, orig) {
        Some(m) => m,
        None => orig,
    }
}

/// Tries to append a variant-key suggestion to `original_msg`, guided by the
/// dotted `error_path` and the structural document `doc`. Never fails:
/// every outcome that recovers no context is `None`.
pub fn enhance_error_message(doc: &Node, error_path: &str, original_msg: &str) -> (r: Option<
    String,
>)
    ensures
        match r {
            Some(m) => enhance_spec(*doc, error_path@, original_msg@) == Some(m@),
            None => enhance_spec(*doc, error_path@, original_msg@) is None,
        },
{
    let segs = split_path_segments(error_path);
    let reached = match navigate_doc(doc, &segs) {
        Some(n) => n,
        None => {
            return None;
        },
    };
    let entries = match reached {
        Node::Table(entries) => entries,
        Node::Leaf => {
            return None;
        },
    };
    let variants_key = String::from_str("variants");
    let variants = match table_get(entries, &variants_key) {
        Some(n) => n,
        None => {
            return None;
        },
    };
    let variant_rows = match variants {
        Node::Table(rows) => rows,
        Node::Leaf => {
            return None;
        },
    };
    if variant_rows.len() == 0 {
        return None;
    }
    let keys = collect_table_keys(variant_rows);
    if keys.len() == 0 {
        proof {
            assert(keys.deep_view().len() == 0);
        }
        return None;
    }
    proof {
        assert(keys.deep_view().len() == keys@.len());
    }
    Some(render_message(original_msg, &keys))
}

} // verus!
