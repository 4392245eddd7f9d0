//! Tags: their tree, renaming a node in place, and the texts about them.
//!
//! A tag's name is its path in the tree, with `|` between the segments.
use vstd::prelude::*;

use crate::lists::{
    lemma_list_order, lemma_list_order_transitive, list_before, list_lt, list_prefix, same_list,
};
use crate::paths::{tail_after, tail_text};
use crate::text::{
    chars_of, join_texts, joined, law_split_undoes_join, lemma_pieces, pieces, push_signed,
    same_text, signed_decimal, split_on, split_text, text_of, texts, trim_text, trimmed,
};

verus! {

// ── Renaming a node ─────────────────────────────────────────────────────────
/// The own segment of a tag: what follows the last separator.
pub fn own_segment(full_name: &str) -> (r: String)
    ensures
        r@ == tail_after(full_name@, '|'),
{
    tail_text(full_name, '|')
}

/// Whether a text can replace the own segment of a tag: it is not blank, holds no
/// separator, and is not what stands there already.
pub open spec fn renames(full_name: Seq<char>, new_segment: Seq<char>) -> bool {
    let segment = trimmed(new_segment, false);
    segment.len() > 0 && !segment.contains('|') && segment != tail_after(full_name, '|')
}

/// The path of a tag with its own segment replaced.
pub open spec fn resplice(full_name: Seq<char>, new_segment: Seq<char>) -> Seq<char> {
    full_name.take(full_name.len() - tail_after(full_name, '|').len()) + trimmed(new_segment, false)
}

/// The new path of a tag whose own segment is replaced, the parents staying as they are.
/// `None` when the edit is no rename.
pub fn respliced_tag_path(full_name: &str, new_segment: &str) -> (r: Option<String>)
    ensures
        r is Some <==> renames(full_name@, new_segment@),
        r is Some ==> r->0@ == resplice(full_name@, new_segment@),
        r is Some <==> trimmed(new_segment@, false).len() > 0 && !trimmed(
            new_segment@,
            false,
        ).contains('|') && trimmed(new_segment@, false) != tail_after(full_name@, '|'),
        r is Some ==> r->0@ == full_name@.take(
            full_name@.len() - tail_after(full_name@, '|').len(),
        ) + trimmed(new_segment@, false),
{
    let segment: String = trim_text(new_segment, false);
    let seg = chars_of(segment.as_str());
    if seg.len() == 0 {
        return None;
    }
    let mut i: usize = 0;
    while i < seg.len()
        invariant
            i <= seg@.len(),
            seg@ == segment@,
            segment@ == trimmed(new_segment@, false),
            forall|j: int| 0 <= j < i ==> seg@[j] != '|',
        decreases seg@.len() - i,
    {
        if seg[i] == '|' {
            assert(seg@.contains(seg@[i as int]));
            return None;
        }
        i = i + 1;
    }
    let v = chars_of(full_name);
    let own: String = own_segment(full_name);
    proof {
        lemma_no_tail_before(full_name@, '|');
    }
    let n: usize = v.len() - chars_of(own.as_str()).len();
    if same_text(segment.as_str(), own.as_str()) {
        return None;
    }
    let mut path: String = text_of(&v, 0, n);
    assert(v@.subrange(0, n as int) =~= full_name@.take(n as int));
    path.append(segment.as_str());
    Some(path)
}

proof fn lemma_tail_of_prefix(s: Seq<char>, t: Seq<char>, sep: char)
    requires
        !t.contains(sep),
    ensures
        tail_after(s + t, sep) == tail_after(s, sep) + t,
    decreases t.len(),
{
    if t.len() == 0 {
        assert(s + t =~= s);
        assert(tail_after(s, sep) + t =~= tail_after(s, sep));
    } else {
        let u = t.drop_last();
        assert(t[t.len() - 1] != sep);
        assert(!u.contains(sep)) by {
            if u.contains(sep) {
                let i = choose|i: int| 0 <= i < u.len() && u[i] == sep;
                assert(t[i] == sep);
            }
        }
        lemma_tail_of_prefix(s, u, sep);
        assert((s + t).drop_last() =~= s + u);
        assert(tail_after(s, sep) + t =~= (tail_after(s, sep) + u).push(t.last()));
    }
}

proof fn lemma_no_tail_before(s: Seq<char>, sep: char)
    ensures
        tail_after(s, sep).len() <= s.len(),
        tail_after(s.take(s.len() - tail_after(s, sep).len()), sep).len() == 0,
    decreases s.len(),
{
    if s.len() == 0 || s.last() == sep {
        assert(s.take(s.len() as int) =~= s);
    } else {
        lemma_no_tail_before(s.drop_last(), sep);
        let n = s.len() - tail_after(s, sep).len();
        assert(s.take(n) =~= s.drop_last().take(n));
    }
}

/// A rename keeps the parents: the new path is the parents of the old one and the new
/// segment, which is its own segment then.
pub proof fn law_rename_keeps_the_parents(full_name: Seq<char>, new_segment: Seq<char>)
    requires
        renames(full_name, new_segment),
    ensures
        tail_after(resplice(full_name, new_segment), '|') == trimmed(new_segment, false),
        ({
            let n = full_name.len() - tail_after(full_name, '|').len();
            resplice(full_name, new_segment).take(n) == full_name.take(n)
        }),
{
    let n = full_name.len() - tail_after(full_name, '|').len();
    let parents = full_name.take(n);
    let segment = trimmed(new_segment, false);
    lemma_no_tail_before(full_name, '|');
    lemma_tail_of_prefix(parents, segment, '|');
    assert(tail_after(parents, '|') + segment =~= segment);
    assert((parents + segment).take(n) =~= parents);
}

/// What went wrong in the database.
#[verifier::external_type_specification]
#[verifier::external_body]
pub struct ExSqliteError(rusqlite::Error);

/// Whether `rusqlite::Error::sqlite_error_code` gives the code for a violated constraint.
pub uninterp spec fn constraint_code(err: rusqlite::Error) -> bool;

/// `rusqlite::Error::sqlite_error_code`: whether the error is a failure of SQLite with the
/// code for a violated constraint, which is how a name that is taken shows. It depends on
/// the error alone; which errors have that code cannot be seen here.
#[verifier::external_body]
fn violates_constraint(err: &rusqlite::Error) -> (r: bool)
    ensures
        r == constraint_code(*err),
{
    match err.sqlite_error_code() {
        Some(rusqlite::ErrorCode::ConstraintViolation) => true,
        _ => false,
    }
}

/// Why a rename failed. `clash` tells that a name was taken.
pub open spec fn rename_failure(clash: bool, new_full: Seq<char>) -> Seq<char> {
    if clash {
        "Renaming to \u{201c}"@ + new_full
            + "\u{201d} would clash with an existing tag. Nothing was renamed."@
    } else {
        "The tag could not be renamed to \u{201c}"@ + new_full + "\u{201d}."@
    }
}

/// The line that says why a rename failed. `clash` tells that a name was taken.
pub fn rename_failure_line(clash: bool, new_full: &str) -> (r: String)
    ensures
        r@ == rename_failure(clash, new_full@),
        clash ==> r@ == "Renaming to \u{201c}"@ + new_full@
            + "\u{201d} would clash with an existing tag. Nothing was renamed."@,
        !clash ==> r@ == "The tag could not be renamed to \u{201c}"@ + new_full@ + "\u{201d}."@,
{
    if clash {
        let mut s = "Renaming to \u{201c}".to_owned();
        s.append(new_full);
        s.append("\u{201d} would clash with an existing tag. Nothing was renamed.");
        s
    } else {
        let mut s = "The tag could not be renamed to \u{201c}".to_owned();
        s.append(new_full);
        s.append("\u{201d}.");
        s
    }
}

/// The line that says why a rename failed: it speaks of a clash exactly where the error is
/// a violated constraint.
pub fn rename_failure_message(err: &rusqlite::Error, new_full: &str) -> (r: String)
    ensures
        r@ == rename_failure(constraint_code(*err), new_full@),
        constraint_code(*err) ==> r@ == "Renaming to \u{201c}"@ + new_full@
            + "\u{201d} would clash with an existing tag. Nothing was renamed."@,
        !constraint_code(*err) ==> r@ == "The tag could not be renamed to \u{201c}"@ + new_full@
            + "\u{201d}."@,
{
    rename_failure_line(violates_constraint(err), new_full)
}

/// "image" or "images", as a count asks for.
pub open spec fn image_word(count: int) -> Seq<char> {
    if count == 1 { " image"@ } else { " images"@ }
}

fn append_images(s: &mut String, count: i64)
    ensures
        final(s)@ == old(s)@ + signed_decimal(count as int) + image_word(count as int),
{
    push_signed(s, count);
    if count == 1 {
        s.append(" image");
    } else {
        s.append(" images");
    }
}

/// The label of the button that deletes a tag.
pub fn delete_tag_label(count: i64) -> (r: String)
    ensures
        r@ == "Delete (from "@ + signed_decimal(count as int) + image_word(count as int) + ")"@,
        image_word(count as int) == if count == 1 {
            " image"@
        } else {
            " images"@
        },
{
    let mut s = "Delete (from ".to_owned();
    append_images(&mut s, count);
    s.append(")");
    assert(s@ =~= "Delete (from "@ + signed_decimal(count as int) + image_word(count as int) + ")"@);
    s
}

/// The question before a tag is deleted.
pub fn delete_tag_question(name: &str, count: i64) -> (r: String)
    ensures
        r@ == "\u{201c}"@ + name@ + "\u{201d} will be removed from "@ + signed_decimal(
            count as int,
        ) + image_word(count as int) + ". This cannot be undone."@,
        image_word(count as int) == if count == 1 {
            " image"@
        } else {
            " images"@
        },
{
    let mut s = "\u{201c}".to_owned();
    s.append(name);
    s.append("\u{201d} will be removed from ");
    append_images(&mut s, count);
    s.append(". This cannot be undone.");
    assert(s@ =~= "\u{201c}"@ + name@ + "\u{201d} will be removed from "@ + signed_decimal(
        count as int,
    ) + image_word(count as int) + ". This cannot be undone."@);
    s
}

// ── The tree ────────────────────────────────────────────────────────────────
/// One row of the tag tree. A row whose path is no tag has no id and a count of zero.
#[derive(Debug, Clone, PartialEq)]
pub struct TagTreeRow {
    /// How deep the row is nested, zero at the top.
    pub depth: usize,
    /// The own segment.
    pub label: String,
    /// The whole path.
    pub full_name: String,
    pub id: Option<u32>,
    pub count: i64,
}

/// A tag as the catalogue lists it: its id, its name and how many images carry it.
pub type TagCount = (u32, String, i64);

/// The path of a tag: the segments of its name, without empty ones.
pub open spec fn tag_path(tag: TagCount) -> Seq<Seq<char>> {
    pieces(tag.1@, '|')
}

/// Whether `p` is a path of the tree: the path of a tag, or of a parent of one.
pub open spec fn in_tree(tags: Seq<TagCount>, p: Seq<Seq<char>>) -> bool {
    p.len() > 0 && exists|i: int| 0 <= i < tags.len() && leads_to(p, tag_path(#[trigger] tags[i]))
}

/// Whether `p` is the beginning of `q`, or all of it.
pub open spec fn leads_to(p: Seq<Seq<char>>, q: Seq<Seq<char>>) -> bool {
    p.len() <= q.len() && q.take(p.len() as int) == p
}

/// The id and count at a path: those of the last tag with that path.
pub open spec fn tag_at(tags: Seq<TagCount>, p: Seq<Seq<char>>) -> Option<(u32, i64)>
    decreases tags.len(),
{
    if tags.len() == 0 {
        None
    } else if tag_path(tags.last()) == p {
        Some((tags.last().0, tags.last().2))
    } else {
        tag_at(tags.drop_last(), p)
    }
}

/// A node of the tree while it is built.
struct Node {
    path: Vec<String>,
    tag: Option<(u32, i64)>,
}

/// The paths of the nodes.
spec fn node_paths(nodes: Seq<Node>) -> Seq<Seq<Seq<char>>> {
    nodes.map_values(|n: Node| texts(n.path@))
}

/// Whether each path stands before the ones that follow it.
pub open spec fn strictly_ascending(paths: Seq<Seq<Seq<char>>>) -> bool {
    forall|i: int, j: int|
        0 <= i < j < paths.len() ==> list_lt(#[trigger] paths[i], #[trigger] paths[j])
}

/// Makes sure that there is a node for the first `n` segments of `segs`, in its place.
/// Returns where it stands.
fn ensure_node(nodes: &mut Vec<Node>, segs: &Vec<String>, n: usize) -> (at: usize)
    requires
        n <= segs@.len(),
        strictly_ascending(node_paths(old(nodes)@)),
    ensures
        strictly_ascending(node_paths(final(nodes)@)),
        at < final(nodes)@.len(),
        node_paths(final(nodes)@)[at as int] == texts(segs@).take(n as int),
        forall|q: Seq<Seq<char>>|
            #![trigger node_paths(final(nodes)@).contains(q)]
            node_paths(final(nodes)@).contains(q) <==> node_paths(old(nodes)@).contains(q) || q
                == texts(segs@).take(n as int),
        forall|j: int|
            0 <= j < final(nodes)@.len() ==> old(nodes)@.contains(#[trigger] final(nodes)@[j]) || (
            final(nodes)@[j].tag is None && texts(final(nodes)@[j].path@) == texts(segs@).take(
                n as int,
            ) && !node_paths(old(nodes)@).contains(texts(segs@).take(n as int))),
{
    let ghost p = texts(segs@).take(n as int);
    let ghost paths = node_paths(nodes@);
    let mut k: usize = 0;
    while k < nodes.len() && list_before(&nodes[k].path, segs, n)
        invariant
            k <= nodes@.len(),
            n <= segs@.len(),
            p == texts(segs@).take(n as int),
            paths == node_paths(nodes@),
            forall|i: int| 0 <= i < k ==> list_lt(#[trigger] paths[i], p),
        decreases nodes@.len() - k,
    {
        assert(paths[k as int] == texts(nodes@[k as int].path@));
        k = k + 1;
    }
    if k < nodes.len() && same_list(&nodes[k].path, segs, n) {
        assert(paths[k as int] == p);
        assert(paths.contains(p));
        assert forall|j: int| 0 <= j < nodes@.len() implies old(nodes)@.contains(
            #[trigger] nodes@[j],
        ) by {
            assert(old(nodes)@[j] == nodes@[j]);
        }
        return k;
    }
    proof {
        if k < paths.len() {
            assert(paths[k as int] == texts(nodes@[k as int].path@));
            lemma_list_order(paths[k as int], p);
        }
        assert forall|i: int| k <= i < paths.len() implies list_lt(p, #[trigger] paths[i]) by {
            lemma_list_order(paths[k as int], p);
            if i > k {
                lemma_list_order_transitive(p, paths[k as int], paths[i]);
            }
        }
        assert(!paths.contains(p)) by {
            if paths.contains(p) {
                let i = choose|i: int| 0 <= i < paths.len() && paths[i] == p;
                lemma_list_order(p, p);
                if i < k {
                    assert(list_lt(paths[i], p));
                } else {
                    assert(list_lt(p, paths[i]));
                }
            }
        }
    }
    let node = Node { path: list_prefix(segs, n), tag: None };
    let ghost before = nodes@;
    nodes.insert(k, node);
    proof {
        let after = node_paths(nodes@);
        assert(after =~= paths.insert(k as int, p));
        assert forall|q: Seq<Seq<char>>|
            #![trigger after.contains(q)]
            after.contains(q) <==> paths.contains(q) || q == p by {
            if paths.contains(q) {
                let i = choose|i: int| 0 <= i < paths.len() && paths[i] == q;
                assert(after[if i < k { i } else { i + 1 }] == q);
            }
            assert(after[k as int] == p);
            if after.contains(q) {
                let i = choose|i: int| 0 <= i < after.len() && after[i] == q;
                if i < k {
                    assert(paths[i] == q);
                } else if i > k {
                    assert(paths[i - 1] == q);
                }
            }
        }
        assert forall|j: int| 0 <= j < nodes@.len() && j != k implies before.contains(
            #[trigger] nodes@[j],
        ) by {
            assert(before[if j < k { j } else { j - 1 }] == nodes@[j]);
        }
    }
    k
}

/// The path that a row stands for.
pub open spec fn row_path(row: TagTreeRow) -> Seq<Seq<char>> {
    split_on(row.full_name@, '|')
}

/// Whether a row shows a path of the tree, with the tag that ends there if there is one.
pub open spec fn row_shows(tags: Seq<TagCount>, row: TagTreeRow, p: Seq<Seq<char>>) -> bool {
    &&& row.depth == p.len() - 1
    &&& row.label@ == p.last()
    &&& row.full_name@ == joined(p, seq!['|'])
    &&& match tag_at(tags, p) {
        Some((id, count)) => row.id == Some(id) && row.count == count,
        None => row.id is None && row.count == 0,
    }
}

proof fn lemma_tag_at_is_in_tree(tags: Seq<TagCount>, p: Seq<Seq<char>>)
    requires
        p.len() > 0,
        tag_at(tags, p) is Some,
    ensures
        in_tree(tags, p),
    decreases tags.len(),
{
    if tags.len() > 0 {
        if tag_path(tags.last()) == p {
            assert(p.take(p.len() as int) =~= p);
            assert(leads_to(p, tag_path(tags[tags.len() - 1])));
        } else {
            lemma_tag_at_is_in_tree(tags.drop_last(), p);
            let i = choose|i: int|
                0 <= i < tags.drop_last().len() && leads_to(p, tag_path(#[trigger] tags.drop_last()[i]));
            assert(leads_to(p, tag_path(tags[i])));
        }
    }
}

/// What one more tag adds to the tree.
proof fn lemma_tree_grows(tags: Seq<TagCount>, tag: TagCount, p: Seq<Seq<char>>)
    ensures
        in_tree(tags.push(tag), p) <==> in_tree(tags, p) || (p.len() > 0 && leads_to(
            p,
            tag_path(tag),
        )),
        tag_at(tags.push(tag), p) == if tag_path(tag) == p {
            Some((tag.0, tag.2))
        } else {
            tag_at(tags, p)
        },
{
    let all = tags.push(tag);
    assert(all.drop_last() =~= tags);
    assert(all[tags.len() as int] == tag);
    if in_tree(tags, p) {
        let i = choose|i: int| 0 <= i < tags.len() && leads_to(p, tag_path(#[trigger] tags[i]));
        assert(all[i] == tags[i]);
    }
    if in_tree(all, p) {
        let i = choose|i: int| 0 <= i < all.len() && leads_to(p, tag_path(#[trigger] all[i]));
        if i < tags.len() {
            assert(leads_to(p, tag_path(tags[i])));
        }
    }
}

/// Whether the nodes are the tree of some tags.
spec fn is_tree(nodes: Seq<Node>, tags: Seq<TagCount>) -> bool {
    &&& strictly_ascending(node_paths(nodes))
    &&& forall|p: Seq<Seq<char>>| #[trigger] node_paths(nodes).contains(p) <==> in_tree(tags, p)
    &&& forall|j: int|
        0 <= j < nodes.len() ==> (#[trigger] nodes[j]).tag == tag_at(tags, texts(nodes[j].path@))
}

/// Adds a tag to the tree, with the parents it lacks.
fn add_tag(nodes: &mut Vec<Node>, tag: &TagCount, Ghost(tags): Ghost<Seq<TagCount>>)
    requires
        is_tree(old(nodes)@, tags),
    ensures
        is_tree(final(nodes)@, tags.push(*tag)),
{
    let segs = split_text(tag.1.as_str(), '|');
    let ghost path = texts(segs@);
    let mut at: usize = 0;
    let mut k: usize = 0;
    while k < segs.len()
        invariant
            k <= segs@.len(),
            path == texts(segs@),
            path == tag_path(*tag),
            strictly_ascending(node_paths(nodes@)),
            k > 0 ==> at < nodes@.len() && node_paths(nodes@)[at as int] == path.take(k as int),
            forall|p: Seq<Seq<char>>|
                #![trigger node_paths(nodes@).contains(p)]
                node_paths(nodes@).contains(p) <==> in_tree(tags, p) || (0 < p.len() <= k
                    && leads_to(p, path)),
            forall|j: int|
                0 <= j < nodes@.len() ==> (#[trigger] nodes@[j]).tag == tag_at(
                    tags,
                    texts(nodes@[j].path@),
                ),
        decreases segs@.len() - k,
    {
        let ghost before = nodes@;
        at = ensure_node(nodes, &segs, k + 1);
        proof {
            let p = path.take(k + 1);
            assert(leads_to(p, path));
            assert forall|q: Seq<Seq<char>>|
                #![trigger node_paths(nodes@).contains(q)]
                node_paths(nodes@).contains(q) <==> in_tree(tags, q) || (0 < q.len() <= k + 1
                    && leads_to(q, path)) by {
                assert(node_paths(nodes@).contains(q) <==> node_paths(before).contains(q) || q == p);
                if q.len() == k + 1 && leads_to(q, path) {
                    assert(q == p);
                }
            }
            assert forall|j: int| 0 <= j < nodes@.len() implies (#[trigger] nodes@[j]).tag == tag_at(
                tags,
                texts(nodes@[j].path@),
            ) by {
                if before.contains(nodes@[j]) {
                    let i = choose|i: int| 0 <= i < before.len() && before[i] == nodes@[j];
                    assert(before[i].tag == tag_at(tags, texts(before[i].path@)));
                } else if tag_at(tags, p) is Some {
                    lemma_tag_at_is_in_tree(tags, p);
                    assert(node_paths(before).contains(p));
                }
            }
        }
        k = k + 1;
    }
    let ghost built = nodes@;
    if k > 0 {
        assert(path.take(k as int) =~= path);
        let node = nodes.remove(at);
        nodes.insert(at, Node { path: node.path, tag: Some((tag.0, tag.2)) });
        assert(node_paths(nodes@) =~= node_paths(built));
    }
    proof {
        let all = tags.push(*tag);
        let paths = node_paths(nodes@);
        assert forall|p: Seq<Seq<char>>| #[trigger] paths.contains(p) <==> in_tree(all, p) by {
            lemma_tree_grows(tags, *tag, p);
            assert(node_paths(built).contains(p) <==> in_tree(tags, p) || (0 < p.len() <= k
                && leads_to(p, path)));
        }
        assert forall|j: int| 0 <= j < nodes@.len() implies (#[trigger] nodes@[j]).tag == tag_at(
            all,
            texts(nodes@[j].path@),
        ) by {
            let p = texts(nodes@[j].path@);
            assert(paths[j] == p);
            lemma_tree_grows(tags, *tag, p);
            if k > 0 && j == at {
                assert(p == path);
            } else {
                assert(nodes@[j] == built[j]);
                if p == path {
                    if k > 0 {
                        lemma_list_order(path, path);
                        assert(paths[at as int] == path);
                        if j < at {
                            assert(list_lt(paths[j], paths[at as int]));
                        } else {
                            assert(list_lt(paths[at as int], paths[j]));
                        }
                    } else {
                        assert(paths.contains(p));
                        assert(in_tree(all, p));
                    }
                }
            }
        }
    }
}

/// The rows of the tag tree, from the top down: every tag, and every parent that is no
/// tag itself, in the order of paths.
pub fn flatten_tag_tree(tags: &[TagCount]) -> (rows: Vec<TagTreeRow>)
    ensures
        strictly_ascending(rows@.map_values(|r: TagTreeRow| row_path(r))),
        forall|i: int|
            0 <= i < rows@.len() ==> in_tree(tags@, row_path(#[trigger] rows@[i])) && row_shows(
                tags@,
                rows@[i],
                row_path(rows@[i]),
            ),
        forall|p: Seq<Seq<char>>| #[trigger]
            in_tree(tags@, p) ==> exists|i: int| 0 <= i < rows@.len() && row_path(rows@[i]) == p,
        forall|i: int|
            0 <= i < rows@.len() ==> {
                let p = split_on((#[trigger] rows@[i]).full_name@, '|');
                &&& rows@[i].depth == p.len() - 1
                &&& rows@[i].label@ == p.last()
                &&& rows@[i].id is Some <==> tag_at(tags@, p) is Some
                &&& rows@[i].id is Some ==> tag_at(tags@, p) == Some(
                    (rows@[i].id->0, rows@[i].count),
                )
                &&& rows@[i].id is None ==> rows@[i].count == 0
            },
{
    let mut nodes: Vec<Node> = Vec::new();
    let mut i: usize = 0;
    assert(is_tree(nodes@, tags@.take(0)));
    while i < tags.len()
        invariant
            i <= tags@.len(),
            is_tree(nodes@, tags@.take(i as int)),
        decreases tags@.len() - i,
    {
        assert(tags@.take(i + 1) =~= tags@.take(i as int).push(tags@[i as int]));
        add_tag(&mut nodes, &tags[i], Ghost(tags@.take(i as int)));
        i = i + 1;
    }
    assert(tags@.take(i as int) =~= tags@);
    let mut rows: Vec<TagTreeRow> = Vec::new();
    let mut k: usize = 0;
    while k < nodes.len()
        invariant
            k <= nodes@.len(),
            is_tree(nodes@, tags@),
            rows@.len() == k,
            forall|j: int|
                0 <= j < k ==> row_path(#[trigger] rows@[j]) == node_paths(nodes@)[j] && row_shows(
                    tags@,
                    rows@[j],
                    node_paths(nodes@)[j],
                ),
        decreases nodes@.len() - k,
    {
        let ghost p = node_paths(nodes@)[k as int];
        proof {
            assert(node_paths(nodes@).contains(p));
            assert(in_tree(tags@, p));
            lemma_in_tree_is_bare(tags@, p);
            law_split_undoes_join(p, '|');
        }
        let path = &nodes[k].path;
        let (id, count) = match nodes[k].tag {
            Some((id, count)) => (Some(id), count),
            None => (None, 0i64),
        };
        let full_name = join_texts(path, "|");
        proof {
            reveal_strlit("|");
            assert("|"@ =~= seq!['|']);
        }
        rows.push(
            TagTreeRow {
                depth: path.len() - 1,
                label: path[path.len() - 1].clone(),
                full_name,
                id,
                count,
            },
        );
        k = k + 1;
    }
    proof {
        let shown = rows@.map_values(|r: TagTreeRow| row_path(r));
        assert(shown =~= node_paths(nodes@));
        assert forall|j: int| 0 <= j < rows@.len() implies in_tree(
            tags@,
            row_path(#[trigger] rows@[j]),
        ) && row_shows(tags@, rows@[j], row_path(rows@[j])) by {
            assert(node_paths(nodes@).contains(node_paths(nodes@)[j]));
        }
        assert forall|p: Seq<Seq<char>>| #[trigger] in_tree(tags@, p) implies exists|j: int|
            0 <= j < rows@.len() && row_path(rows@[j]) == p by {
            assert(node_paths(nodes@).contains(p));
            let j = choose|j: int| 0 <= j < nodes@.len() && node_paths(nodes@)[j] == p;
            assert(row_path(rows@[j]) == p);
        }
    }
    rows
}

/// The segments of a path in the tree are not empty and hold no separator.
proof fn lemma_in_tree_is_bare(tags: Seq<TagCount>, p: Seq<Seq<char>>)
    requires
        in_tree(tags, p),
    ensures
        forall|i: int| 0 <= i < p.len() ==> (#[trigger] p[i]).len() > 0 && !p[i].contains('|'),
{
    let i = choose|i: int| 0 <= i < tags.len() && leads_to(p, tag_path(#[trigger] tags[i]));
    let q = tag_path(tags[i]);
    lemma_pieces(tags[i].1@, '|');
    assert forall|k: int| 0 <= k < p.len() implies (#[trigger] p[k]).len() > 0 && !p[k].contains('|') by {
        assert(p[k] == q.take(p.len() as int)[k]);
        assert(q[k].len() > 0);
    }
}

/// Every parent of a path in the tree is in the tree too, and stands before it.
pub proof fn law_parents_come_first(tags: Seq<TagCount>, p: Seq<Seq<char>>, n: int)
    requires
        in_tree(tags, p),
        0 < n < p.len(),
    ensures
        in_tree(tags, p.take(n)),
        list_lt(p.take(n), p),
{
    let i = choose|i: int| 0 <= i < tags.len() && leads_to(p, tag_path(#[trigger] tags[i]));
    let q = tag_path(tags[i]);
    assert(q.take(n) =~= p.take(n));
    assert(leads_to(p.take(n), tag_path(tags[i])));
    lemma_prefix_is_before(p, n);
}

proof fn lemma_prefix_is_before(p: Seq<Seq<char>>, n: int)
    requires
        0 <= n < p.len(),
    ensures
        list_lt(p.take(n), p),
    decreases n,
{
    if n > 0 {
        lemma_prefix_is_before(p.drop_first(), n - 1);
        assert(p.take(n).drop_first() =~= p.drop_first().take(n - 1));
    }
}

/// The paths of the tree are the beginnings, not empty, of the names of tags, cut at the
/// separators.
pub proof fn law_tree_holds_tags_and_their_parents(tags: Seq<TagCount>, p: Seq<Seq<char>>)
    ensures
        in_tree(tags, p) <==> exists|i: int, n: int|
            #![trigger tags[i], pieces(tags[i].1@, '|').take(n)]
            0 <= i < tags.len() && 0 < n <= pieces(tags[i].1@, '|').len() && p == pieces(
                tags[i].1@,
                '|',
            ).take(n),
{
    if in_tree(tags, p) {
        let i = choose|i: int| 0 <= i < tags.len() && leads_to(p, tag_path(#[trigger] tags[i]));
        assert(p == pieces(tags[i].1@, '|').take(p.len() as int));
    }
    if exists|i: int, n: int|
        #![trigger tags[i], pieces(tags[i].1@, '|').take(n)]
        0 <= i < tags.len() && 0 < n <= pieces(tags[i].1@, '|').len() && p == pieces(
            tags[i].1@,
            '|',
        ).take(n) {
        let (i, n) = choose|i: int, n: int|
            #![trigger tags[i], pieces(tags[i].1@, '|').take(n)]
            0 <= i < tags.len() && 0 < n <= pieces(tags[i].1@, '|').len() && p == pieces(
                tags[i].1@,
                '|',
            ).take(n);
        assert(leads_to(p, tag_path(tags[i])));
    }
}

/// A path shows the id and the count of the last tag that has it, and none if none has.
pub proof fn law_last_tag_of_a_path_is_shown(tags: Seq<TagCount>, p: Seq<Seq<char>>, i: int)
    ensures
        0 <= i < tags.len() && pieces(tags[i].1@, '|') == p && (forall|j: int|
            i < j < tags.len() ==> pieces((#[trigger] tags[j]).1@, '|') != p) ==> tag_at(tags, p)
            == Some((tags[i].0, tags[i].2)),
        (forall|j: int| 0 <= j < tags.len() ==> pieces((#[trigger] tags[j]).1@, '|') != p)
            ==> tag_at(tags, p) is None,
    decreases tags.len(),
{
    if tags.len() > 0 {
        let rest = tags.drop_last();
        law_last_tag_of_a_path_is_shown(rest, p, i);
        assert(forall|j: int| 0 <= j < rest.len() ==> #[trigger] rest[j] == tags[j]);
        assert(tags.last() == tags[tags.len() - 1]);
    }
}

// ── The tags of an image ────────────────────────────────────────────────────
/// The tags that have a name, with their names, in their order.
pub open spec fn named(ids: Seq<u32>, names: Seq<Option<String>>) -> Seq<(u32, Seq<char>)>
    decreases ids.len(),
{
    if ids.len() == 0 {
        Seq::empty()
    } else {
        let rest = named(ids.drop_last(), names);
        match names[ids.len() - 1] {
            Some(name) => rest.push((ids.last(), name@)),
            None => rest,
        }
    }
}

/// The chips of an image: its tags with their names. A tag whose name is not found is left
/// out.
pub fn tag_chips(ids: &Vec<u32>, names: &Vec<Option<String>>) -> (r: Vec<(u32, String)>)
    requires
        ids@.len() == names@.len(),
    ensures
        r@.map_values(|t: (u32, String)| (t.0, t.1@)) == named(ids@, names@),
{
    let mut out: Vec<(u32, String)> = Vec::new();
    let mut i: usize = 0;
    let ghost view = |t: (u32, String)| (t.0, t.1@);
    assert(out@.map_values(view) =~= named(ids@.take(0), names@));
    while i < ids.len()
        invariant
            i <= ids@.len() == names@.len(),
            view == (|t: (u32, String)| (t.0, t.1@)),
            out@.map_values(view) == named(ids@.take(i as int), names@),
        decreases ids@.len() - i,
    {
        assert(ids@.take(i + 1).drop_last() =~= ids@.take(i as int));
        match &names[i] {
            Some(name) => {
                let ghost before = out@;
                out.push((ids[i], name.clone()));
                assert(out@.map_values(view) =~= before.map_values(view).push(
                    (ids@[i as int], name@),
                ));
            },
            None => {},
        }
        i = i + 1;
    }
    assert(ids@.take(i as int) =~= ids@);
    out
}

/// Each tag that has a name is shown once, with its name, in the order of the tags, and no
/// other is: `k` tags before it have names, and it stands at place `k`.
pub proof fn law_named_tags_keep_their_order(ids: Seq<u32>, names: Seq<Option<String>>, i: int)
    requires
        ids.len() == names.len(),
        0 <= i < ids.len(),
    ensures
        named(ids, names).len() == names.filter(|n: Option<String>| n is Some).len(),
        names[i] is Some ==> {
            let k = names.take(i).filter(|n: Option<String>| n is Some).len() as int;
            k < named(ids, names).len() && named(ids, names)[k] == (ids[i], names[i]->0@)
        },
{
    lemma_named(ids, names, ids.len() as int, i);
    assert(ids.take(ids.len() as int) =~= ids);
    assert(names.take(names.len() as int) =~= names);
}

proof fn lemma_named(ids: Seq<u32>, names: Seq<Option<String>>, n: int, i: int)
    requires
        ids.len() == names.len(),
        0 <= n <= ids.len(),
    ensures
        named(ids.take(n), names).len() == names.take(n).filter(
            |m: Option<String>| m is Some,
        ).len(),
        0 <= i < n && names[i] is Some ==> {
            let k = names.take(i).filter(|m: Option<String>| m is Some).len() as int;
            k < named(ids.take(n), names).len() && named(ids.take(n), names)[k] == (
                ids[i],
                names[i]->0@,
            )
        },
    decreases n,
{
    reveal(Seq::filter);
    if n > 0 {
        lemma_named(ids, names, n - 1, i);
        assert(ids.take(n).drop_last() =~= ids.take(n - 1));
        assert(names.take(n).drop_last() =~= names.take(n - 1));
    }
}

} // verus!
