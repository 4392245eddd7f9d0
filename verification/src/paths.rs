//! Paths with `/` between their components: the file name, its stem and extension, and
//! the folder that holds it.
use vstd::prelude::*;

use crate::text::{chars_of, text_of};

verus! {

/// A path without what its last component is followed by: separators, and components
/// that are a single dot. The root stays as it is.
pub open spec fn settled(s: Seq<char>) -> Seq<char>
    decreases s.len(),
{
    if s.len() > 1 && s.last() == '/' {
        settled(s.drop_last())
    } else if s.len() > 1 && s.last() == '.' && s[s.len() - 2] == '/' {
        settled(s.drop_last())
    } else {
        s
    }
}

/// What follows the last `sep`, or all of it if there is none.
pub open spec fn tail_after(s: Seq<char>, sep: char) -> Seq<char>
    decreases s.len(),
{
    if s.len() == 0 || s.last() == sep {
        seq![]
    } else {
        tail_after(s.drop_last(), sep).push(s.last())
    }
}

/// The last component, if it is a name.
pub open spec fn name_of(path: Seq<char>) -> Option<Seq<char>> {
    let base = tail_after(settled(path), '/');
    if base.len() == 0 || base == seq!['.'] || base == seq!['.', '.'] {
        None
    } else {
        Some(base)
    }
}

/// The path without its last component; the root and the empty path have none.
pub open spec fn folder_of(path: Seq<char>) -> Option<Seq<char>> {
    let s = settled(path);
    if s.len() == 0 || s == seq!['/'] {
        None
    } else {
        Some(settled(s.take(s.len() - tail_after(s, '/').len())))
    }
}

/// Where the last dot of a name stands; at most zero when the name has no extension.
pub open spec fn dot_of(name: Seq<char>) -> int {
    name.len() - tail_after(name, '.').len() - 1
}

/// A name without its extension. A dot at the front starts none.
pub open spec fn stem_of(name: Seq<char>) -> Seq<char> {
    if dot_of(name) > 0 {
        name.take(dot_of(name))
    } else {
        name
    }
}

/// The extension of a name, without the dot.
pub open spec fn extension_of(name: Seq<char>) -> Option<Seq<char>> {
    if dot_of(name) > 0 {
        Some(tail_after(name, '.'))
    } else {
        None
    }
}

proof fn lemma_tail_len(s: Seq<char>, sep: char)
    ensures
        tail_after(s, sep).len() <= s.len(),
        tail_after(s, sep) == s.skip(s.len() - tail_after(s, sep).len()),
    decreases s.len(),
{
    if s.len() == 0 || s.last() == sep {
        assert(s.skip(s.len() as int) =~= seq![]);
    } else {
        lemma_tail_len(s.drop_last(), sep);
        let n = s.len() - tail_after(s, sep).len();
        assert(s.skip(n) =~= s.drop_last().skip(n).push(s.last()));
    }
}

/// How much of `v` is left when it is settled.
fn settled_len(v: &Vec<char>, len: usize) -> (n: usize)
    requires
        len <= v@.len(),
    ensures
        n <= len,
        v@.take(n as int) == settled(v@.take(len as int)),
{
    let mut n: usize = len;
    while n > 1 && (v[n - 1] == '/' || (v[n - 1] == '.' && v[n - 2] == '/'))
        invariant
            n <= len <= v@.len(),
            settled(v@.take(n as int)) == settled(v@.take(len as int)),
        decreases n,
    {
        assert(v@.take(n as int).drop_last() =~= v@.take(n - 1));
        n = n - 1;
    }
    n
}

/// Where what follows the last `sep` begins.
fn tail_start(v: &Vec<char>, from: usize, to: usize, sep: char) -> (n: usize)
    requires
        from <= to <= v@.len(),
    ensures
        from <= n <= to,
        v@.subrange(n as int, to as int) == tail_after(v@.subrange(from as int, to as int), sep),
        n == to - tail_after(v@.subrange(from as int, to as int), sep).len(),
{
    let ghost whole = v@.subrange(from as int, to as int);
    let mut n: usize = to;
    proof {
        lemma_tail_len(whole, sep);
        assert(whole.take(whole.len() as int) =~= whole);
    }
    while n > from && v[n - 1] != sep
        invariant
            from <= n <= to <= v@.len(),
            whole == v@.subrange(from as int, to as int),
            tail_after(whole, sep).len() == tail_after(whole.take(n - from), sep).len() + (to - n),
        decreases n,
    {
        assert(whole.take(n - from).drop_last() =~= whole.take(n - 1 - from));
        n = n - 1;
    }
    assert(tail_after(whole.take(n - from), sep).len() == 0);
    assert(v@.subrange(n as int, to as int) =~= whole.skip(n - from));
    n
}

/// Where the file name of a path stands, if it has one.
fn name_range(v: &Vec<char>) -> (r: Option<(usize, usize)>)
    ensures
        match r {
            Some((from, to)) => from < to <= v@.len() && name_of(v@) == Some(
                v@.subrange(from as int, to as int),
            ),
            None => name_of(v@) is None,
        },
{
    let to: usize = settled_len(v, v.len());
    assert(v@.take(v@.len() as int) =~= v@);
    let from: usize = tail_start(v, 0, to, '/');
    let ghost base = v@.subrange(from as int, to as int);
    assert(v@.subrange(0, to as int) =~= v@.take(to as int));
    if from == to {
        return None;
    }
    if to - from == 1 && v[from] == '.' {
        assert(base =~= seq!['.']);
        return None;
    }
    if to - from == 2 && v[from] == '.' && v[from + 1] == '.' {
        assert(base =~= seq!['.', '.']);
        return None;
    }
    proof {
        if base == seq!['.'] {
            assert(base[0] == '.');
        }
        if base == seq!['.', '.'] {
            assert(base[0] == '.' && base[1] == '.');
        }
    }
    Some((from, to))
}

/// What follows the last separator of a text: all of it, if there is none.
pub fn tail_text(s: &str, sep: char) -> (r: String)
    ensures
        r@ == tail_after(s@, sep),
{
    let v = chars_of(s);
    assert(v@.subrange(0, v@.len() as int) =~= v@);
    let n: usize = tail_start(&v, 0, v.len(), sep);
    text_of(&v, n, v.len())
}

/// The file name of a path.
pub fn file_name(path: &str) -> (r: Option<String>)
    ensures
        match r {
            Some(n) => name_of(path@) == Some(n@),
            None => name_of(path@) is None,
        },
{
    let v = chars_of(path);
    match name_range(&v) {
        Some((from, to)) => Some(text_of(&v, from, to)),
        None => None,
    }
}

/// The file name of a path without its extension.
pub fn file_stem(path: &str) -> (r: Option<String>)
    ensures
        match r {
            Some(s) => name_of(path@) is Some && s@ == stem_of(name_of(path@)->0),
            None => name_of(path@) is None,
        },
{
    let v = chars_of(path);
    match name_range(&v) {
        Some((from, to)) => {
            let tail: usize = tail_start(&v, from, to, '.');
            let ghost name = v@.subrange(from as int, to as int);
            if tail > from + 1 {
                assert(v@.subrange(from as int, tail - 1) =~= name.take(dot_of(name)));
                Some(text_of(&v, from, tail - 1))
            } else {
                Some(text_of(&v, from, to))
            }
        },
        None => None,
    }
}

/// The extension of a path's file name, without the dot.
pub fn file_extension(path: &str) -> (r: Option<String>)
    ensures
        match r {
            Some(e) => name_of(path@) is Some && extension_of(name_of(path@)->0) == Some(e@),
            None => name_of(path@) is None || extension_of(name_of(path@)->0) is None,
        },
{
    let v = chars_of(path);
    match name_range(&v) {
        Some((from, to)) => {
            let tail: usize = tail_start(&v, from, to, '.');
            if tail > from + 1 {
                Some(text_of(&v, tail, to))
            } else {
                None
            }
        },
        None => None,
    }
}

/// The folder that holds a path's last component.
pub fn parent_folder(path: &str) -> (r: Option<String>)
    ensures
        match r {
            Some(f) => folder_of(path@) == Some(f@),
            None => folder_of(path@) is None,
        },
{
    let v = chars_of(path);
    assert(v@.take(v@.len() as int) =~= v@);
    let n: usize = settled_len(&v, v.len());
    let ghost s = v@.take(n as int);
    if n == 0 {
        return None;
    }
    if n == 1 && v[0] == '/' {
        assert(s =~= seq!['/']);
        return None;
    }
    proof {
        if s == seq!['/'] {
            assert(s[0] == '/' && s.len() == 1);
        }
    }
    assert(v@.subrange(0, n as int) =~= s);
    let from: usize = tail_start(&v, 0, n, '/');
    let m: usize = settled_len(&v, from);
    assert(s.take(from as int) =~= v@.take(from as int));
    assert(v@.subrange(0, m as int) =~= v@.take(m as int));
    Some(text_of(&v, 0, m))
}

/// What follows the last separator holds none, ends the text, and has a separator before it
/// unless it is the whole text.
pub proof fn law_tail_follows_the_last_separator(s: Seq<char>, sep: char)
    ensures
        !tail_after(s, sep).contains(sep),
        tail_after(s, sep).len() <= s.len(),
        s == s.take(s.len() - tail_after(s, sep).len()) + tail_after(s, sep),
        tail_after(s, sep).len() < s.len() ==> s[s.len() - tail_after(s, sep).len() - 1] == sep,
    decreases s.len(),
{
    lemma_tail_len(s, sep);
    let n = s.len() - tail_after(s, sep).len();
    assert(s =~= s.take(n) + s.skip(n));
    if s.len() > 0 && s.last() != sep {
        let t = s.drop_last();
        law_tail_follows_the_last_separator(t, sep);
        let tail = tail_after(t, sep);
        if tail_after(s, sep).contains(sep) {
            let i = choose|i: int| 0 <= i < tail.len() + 1 && tail_after(s, sep)[i] == sep;
            assert(i < tail.len() ==> tail[i] == sep);
        }
    }
}

proof fn lemma_tail_of(head: Seq<char>, tail: Seq<char>, sep: char)
    requires
        !tail.contains(sep),
        head.len() > 0 ==> head.last() == sep,
    ensures
        tail_after(head + tail, sep) == tail,
    decreases tail.len(),
{
    let s = head + tail;
    if tail.len() == 0 {
        assert(s =~= head);
        assert(tail_after(s, sep) =~= tail);
    } else {
        let t = tail.drop_last();
        assert(!t.contains(sep)) by {
            if t.contains(sep) {
                let i = choose|i: int| 0 <= i < t.len() && t[i] == sep;
                assert(tail[i] == sep);
            }
        }
        lemma_tail_of(head, t, sep);
        assert(tail[tail.len() - 1] != sep);
        assert(s.drop_last() =~= head + t);
        assert(tail_after(s, sep) =~= tail);
    }
}

/// A separator or a single dot after a path changes neither its name nor its folder.
pub proof fn law_trailing_separators_are_ignored(path: Seq<char>)
    requires
        path.len() > 0,
    ensures
        name_of(path + seq!['/']) == name_of(path),
        folder_of(path + seq!['/']) == folder_of(path),
        name_of(path + seq!['/', '.']) == name_of(path),
        folder_of(path + seq!['/', '.']) == folder_of(path),
{
    let one = path + seq!['/'];
    let two = path + seq!['/', '.'];
    assert(one.drop_last() =~= path);
    assert(two.drop_last() =~= one);
    assert(settled(one) == settled(path));
    assert(settled(two) == settled(one));
}

/// A name put into a folder is the file name of the path, and the folder is its folder.
/// `folder` is a path that ends in a name, or is the root.
pub proof fn law_path_of_a_name_in_a_folder(folder: Seq<char>, name: Seq<char>)
    requires
        folder.len() > 0,
        folder.last() != '/',
        folder.len() > 1 ==> !(folder.last() == '.' && folder[folder.len() - 2] == '/'),
        name.len() > 0,
        !name.contains('/'),
        name != seq!['.'],
        name != seq!['.', '.'],
    ensures
        name_of(folder + seq!['/'] + name) == Some(name),
        folder_of(folder + seq!['/'] + name) == Some(folder),
        name_of(name) == Some(name),
        folder_of(name) == Some(Seq::<char>::empty()),
        name_of(seq!['/'] + name) == Some(name),
        folder_of(seq!['/'] + name) == Some(seq!['/']),
{
    lemma_name_settles(folder + seq!['/'], name);
    lemma_name_settles(Seq::empty(), name);
    lemma_name_settles(seq!['/'], name);
    lemma_tail_of(folder + seq!['/'], name, '/');
    lemma_tail_of(Seq::empty(), name, '/');
    lemma_tail_of(seq!['/'], name, '/');
    assert(Seq::<char>::empty() + name =~= name);
    let s = folder + seq!['/'] + name;
    assert(s.take(s.len() - name.len()) =~= folder + seq!['/']);
    assert((folder + seq!['/']).drop_last() =~= folder);
    assert(settled(folder) == folder);
    assert(name.take(0) =~= Seq::<char>::empty());
    let r = seq!['/'] + name;
    assert(r.take(r.len() - name.len()) =~= seq!['/']);
    assert(name[0] != '/') by {
        assert(name.contains(name[0]));
    }
    assert(name != seq!['/']) by {
        if name == seq!['/'] {
            assert(name[0] == '/');
        }
    }
    assert(s != seq!['/'] && r != seq!['/']) by {
        assert(s.len() > 1 && r.len() > 1);
    }
}

proof fn lemma_name_settles(head: Seq<char>, name: Seq<char>)
    requires
        name.len() > 0,
        !name.contains('/'),
        name != seq!['.'],
        head.len() > 0 ==> head.last() == '/',
    ensures
        settled(head + name) == head + name,
{
    let s = head + name;
    assert(name.contains(name.last()));
    assert(s.last() == name.last());
    if name.len() == 1 {
        assert(name =~= seq![name[0]]);
        assert(name[0] != '.') by {
            if name[0] == '.' {
                assert(name =~= seq!['.']);
            }
        }
    } else {
        assert(s[s.len() - 2] == name[name.len() - 2]);
        assert(name.contains(name[name.len() - 2]));
    }
}

/// A name is its stem, a dot and its extension; the extension holds no dot and the stem is
/// not empty. A name that has no dot after its first character has no extension.
pub proof fn law_name_is_stem_and_extension(name: Seq<char>)
    ensures
        match extension_of(name) {
            Some(e) => name == stem_of(name) + seq!['.'] + e && !e.contains('.') && stem_of(
                name,
            ).len() > 0,
            None => stem_of(name) == name && forall|i: int| 0 < i < name.len() ==> name[i] != '.',
        },
{
    law_tail_follows_the_last_separator(name, '.');
    let tail = tail_after(name, '.');
    let d = dot_of(name);
    if d > 0 {
        assert(name.take(d) + seq!['.'] =~= name.take(d + 1));
    } else {
        assert forall|i: int| 0 < i < name.len() implies name[i] != '.' by {
            let k = i - (name.len() - tail.len());
            assert(name[i] == tail[k]);
            assert(tail.contains(tail[k]));
        }
    }
}

} // verus!
