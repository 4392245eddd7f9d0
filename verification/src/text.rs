//! Text operations, stated over the characters of a string.
use vstd::prelude::*;

verus! {

/// `String::push`: the character goes to the end and nothing else changes.
pub assume_specification[ String::push ](s: &mut String, c: char)
    ensures
        final(s)@ == old(s)@.push(c),
;

/// The characters of each text in a list.
pub open spec fn texts(v: Seq<String>) -> Seq<Seq<char>> {
    v.map_values(|s: String| s@)
}

/// Whether two texts hold the same characters.
pub fn same_text(a: &str, b: &str) -> (r: bool)
    ensures
        r == (a@ == b@),
{
    a.to_owned() == b.to_owned()
}

/// The characters of a text.
pub fn chars_of(s: &str) -> (r: Vec<char>)
    ensures
        r@ == s@,
{
    let mut v: Vec<char> = Vec::new();
    for c in it: s.chars()
        invariant
            v@ == s@.take(it.index()),
            it.seq() == s@,
    {
        v.push(c);
    }
    v
}

/// The text made of some characters, from `from` to before `to`.
pub fn text_of(v: &Vec<char>, from: usize, to: usize) -> (r: String)
    requires
        from <= to <= v@.len(),
    ensures
        r@ == v@.subrange(from as int, to as int),
{
    let mut s = String::new();
    let mut i: usize = from;
    while i < to
        invariant
            from <= i <= to <= v@.len(),
            s@ == v@.subrange(from as int, i as int),
        decreases to - i,
    {
        s.push(v[i]);
        assert(v@.subrange(from as int, i + 1) =~= v@.subrange(from as int, i as int).push(
            v@[i as int],
        ));
        i = i + 1;
    }
    s
}

/// Whether a list holds a text.
pub fn holds_text(list: &Vec<String>, text: &str) -> (r: bool)
    ensures
        r == texts(list@).contains(text@),
{
    let mut i: usize = 0;
    while i < list.len()
        invariant
            i <= list@.len(),
            forall|j: int| 0 <= j < i ==> (#[trigger] list@[j])@ != text@,
        decreases list@.len() - i,
    {
        if same_text(list[i].as_str(), text) {
            assert(texts(list@)[i as int] == text@);
            return true;
        }
        i = i + 1;
    }
    assert forall|j: int| 0 <= j < texts(list@).len() implies texts(list@)[j] != text@ by {
        assert(list@[j]@ != text@);
    }
    false
}

// ── Order ───────────────────────────────────────────────────────────────────
/// Whether `a` stands before `b`: by the first character in which they differ, and a
/// text before any longer one that begins with it.
pub open spec fn text_lt(a: Seq<char>, b: Seq<char>) -> bool
    decreases a.len(),
{
    if b.len() == 0 {
        false
    } else if a.len() == 0 {
        true
    } else if a[0] != b[0] {
        a[0] < b[0]
    } else {
        text_lt(a.drop_first(), b.drop_first())
    }
}

/// The order of texts is total and strict.
pub proof fn lemma_text_order(a: Seq<char>, b: Seq<char>)
    ensures
        !(text_lt(a, b) && text_lt(b, a)),
        !text_lt(a, b) && !text_lt(b, a) <==> a == b,
    decreases a.len(),
{
    if a.len() > 0 && b.len() > 0 {
        if a[0] == b[0] {
            lemma_text_order(a.drop_first(), b.drop_first());
            if a.drop_first() == b.drop_first() {
                assert(a =~= seq![a[0]] + a.drop_first());
                assert(b =~= seq![b[0]] + b.drop_first());
                assert(a == b);
            }
        }
    } else if a.len() == 0 && b.len() == 0 {
        assert(a =~= b);
    }
}

/// What stands before a text that does not stand after a third stands before the third.
pub proof fn lemma_text_order_transitive(a: Seq<char>, b: Seq<char>, c: Seq<char>)
    ensures
        text_lt(a, b) && text_lt(b, c) ==> text_lt(a, c),
        !text_lt(b, a) && !text_lt(c, b) ==> !text_lt(c, a),
    decreases a.len(),
{
    lemma_text_order(a, b);
    lemma_text_order(b, c);
    lemma_text_order(a, c);
    if a.len() > 0 && b.len() > 0 && c.len() > 0 {
        if a[0] == b[0] && b[0] == c[0] {
            lemma_text_order_transitive(a.drop_first(), b.drop_first(), c.drop_first());
        }
    }
}

/// Whether `a` stands before `b` in the order of texts.
pub fn text_before(a: &str, b: &str) -> (r: bool)
    ensures
        r == text_lt(a@, b@),
{
    let (x, y) = (chars_of(a), chars_of(b));
    let mut i: usize = 0;
    assert(x@.skip(0) =~= x@ && y@.skip(0) =~= y@);
    while i < x.len() && i < y.len()
        invariant
            i <= x@.len(),
            i <= y@.len(),
            x@ == a@,
            y@ == b@,
            text_lt(x@, y@) == text_lt(x@.skip(i as int), y@.skip(i as int)),
        decreases x@.len() - i,
    {
        assert(x@.skip(i as int)[0] == x@[i as int] && y@.skip(i as int)[0] == y@[i as int]);
        if x[i] != y[i] {
            return x[i] < y[i];
        }
        assert(x@.skip(i as int).drop_first() =~= x@.skip(i + 1));
        assert(y@.skip(i as int).drop_first() =~= y@.skip(i + 1));
        i = i + 1;
    }
    i < y.len()
}

/// Whether no text stands before one that it follows.
pub open spec fn ascending(s: Seq<Seq<char>>) -> bool {
    forall|i: int, j: int| 0 <= i < j < s.len() ==> !text_lt(#[trigger] s[j], #[trigger] s[i])
}

/// Puts a text in its place in an ascending list, after those equal to it.
pub fn insert_text(list: &mut Vec<String>, text: String)
    requires
        ascending(texts(old(list)@)),
    ensures
        ascending(texts(final(list)@)),
        texts(final(list)@).to_multiset() == texts(old(list)@).to_multiset().insert(text@),
        final(list)@.len() == old(list)@.len() + 1,
{
    broadcast use vstd::seq_lib::group_to_multiset_ensures;

    let ghost before = texts(list@);
    let mut k: usize = 0;
    while k < list.len() && !text_before(text.as_str(), list[k].as_str())
        invariant
            k <= list@.len(),
            before == texts(list@),
            forall|i: int| 0 <= i < k ==> !text_lt(text@, #[trigger] before[i]),
        decreases list@.len() - k,
    {
        k = k + 1;
    }
    proof {
        assert forall|i: int| k <= i < before.len() implies !text_lt(#[trigger] before[i], text@) by {
            lemma_text_order(text@, before[k as int]);
            if i > k {
                assert(!text_lt(before[i], before[k as int]));
            }
            lemma_text_order_transitive(text@, before[k as int], before[i]);
        }
    }
    let ghost x = text@;
    list.insert(k, text);
    assert(texts(list@) =~= before.insert(k as int, x));
}

/// The texts of a list in ascending order.
pub fn sorted_texts(list: &Vec<String>) -> (r: Vec<String>)
    ensures
        ascending(texts(r@)),
        forall|i: int, j: int|
            0 <= i < j < r@.len() ==> !text_lt((#[trigger] r@[j])@, (#[trigger] r@[i])@),
        texts(r@).to_multiset() == texts(list@).to_multiset(),
        r@.len() == list@.len(),
{
    broadcast use vstd::seq_lib::group_to_multiset_ensures;

    let mut out: Vec<String> = Vec::new();
    let mut i: usize = 0;
    assert(texts(list@).take(0) =~= texts(out@));
    while i < list.len()
        invariant
            i <= list@.len(),
            out@.len() == i,
            ascending(texts(out@)),
            texts(out@).to_multiset() == texts(list@).take(i as int).to_multiset(),
        decreases list@.len() - i,
    {
        insert_text(&mut out, list[i].clone());
        proof {
            broadcast use vstd::seq_lib::group_to_multiset_ensures;

            let taken = texts(list@).take(i as int);
            assert(texts(list@).take(i + 1) =~= taken.push(list@[i as int]@));
            assert(taken.push(list@[i as int]@).to_multiset() =~= taken.to_multiset().insert(
                list@[i as int]@,
            ));
        }
        i = i + 1;
    }
    assert(texts(list@).take(i as int) =~= texts(list@));
    assert forall|i: int, j: int| 0 <= i < j < out@.len() implies !text_lt(
        (#[trigger] out@[j])@,
        (#[trigger] out@[i])@,
    ) by {
        assert(texts(out@)[i] == out@[i]@ && texts(out@)[j] == out@[j]@);
    }
    out
}

// ── Numbers ─────────────────────────────────────────────────────────────────
/// The decimal digit of a number below ten.
pub open spec fn digit(d: int) -> char {
    (48 + d) as char
}

/// A number in decimal, without leading zeros.
pub open spec fn decimal(n: nat) -> Seq<char>
    decreases n,
{
    if n < 10 {
        seq![digit(n as int)]
    } else {
        decimal(n / 10).push(digit((n % 10) as int))
    }
}

/// A signed number in decimal.
pub open spec fn signed_decimal(n: int) -> Seq<char> {
    if n < 0 {
        seq!['-'] + decimal((-n) as nat)
    } else {
        decimal(n as nat)
    }
}

/// Appends a number in decimal.
pub fn push_decimal(s: &mut String, n: u64)
    ensures
        final(s)@ == old(s)@ + decimal(n as nat),
    decreases n,
{
    if n >= 10 {
        push_decimal(s, n / 10);
    }
    s.push((48 + (n % 10) as u8) as char);
    assert(s@ =~= old(s)@ + decimal(n as nat));
}

/// Appends a signed number in decimal.
pub fn push_signed(s: &mut String, n: i64)
    ensures
        final(s)@ == old(s)@ + signed_decimal(n as int),
{
    if n < 0 {
        s.push('-');
        let m: u64 = if n == i64::MIN {
            0x8000_0000_0000_0000
        } else {
            (-n) as u64
        };
        push_decimal(s, m);
        assert(s@ =~= old(s)@ + signed_decimal(n as int));
    } else {
        push_decimal(s, n as u64);
    }
}

// ── Blanks and case ─────────────────────────────────────────────────────────
/// Whether a character is white space.
pub open spec fn space(c: char) -> bool {
    let n = c as u32;
    ||| 9 <= n <= 13
    ||| n == 0x20
    ||| n == 0x85
    ||| n == 0xa0
    ||| n == 0x1680
    ||| 0x2000 <= n <= 0x200a
    ||| n == 0x2028
    ||| n == 0x2029
    ||| n == 0x202f
    ||| n == 0x205f
    ||| n == 0x3000
}

/// Whether a character is white space.
pub fn is_space(c: char) -> (r: bool)
    ensures
        r == space(c),
        r <==> c == '\t' || c == '\n' || c == '\u{b}' || c == '\u{c}' || c == '\r' || c == ' ' || c
            == '\u{85}' || c == '\u{a0}' || c == '\u{1680}' || ('\u{2000}' <= c && c <= '\u{200a}')
            || c == '\u{2028}' || c == '\u{2029}' || c == '\u{202f}' || c == '\u{205f}' || c
            == '\u{3000}',
{
    let n: u32 = c as u32;
    (9 <= n && n <= 13) || n == 0x20 || n == 0x85 || n == 0xa0 || n == 0x1680 || (0x2000 <= n && n
        <= 0x200a) || n == 0x2028 || n == 0x2029 || n == 0x202f || n == 0x205f || n == 0x3000
}

/// A text without the blanks at its ends: white space, or the space character alone.
pub open spec fn trimmed(s: Seq<char>, spaces_only: bool) -> Seq<char>
    decreases s.len(),
{
    if s.len() == 0 {
        s
    } else if blank(s[0], spaces_only) {
        trimmed(s.drop_first(), spaces_only)
    } else if blank(s.last(), spaces_only) {
        trimmed(s.drop_last(), spaces_only)
    } else {
        s
    }
}

/// What counts as blank.
pub open spec fn blank(c: char, spaces_only: bool) -> bool {
    if spaces_only { c == ' ' } else { space(c) }
}

fn is_blank(c: char, spaces_only: bool) -> (r: bool)
    ensures
        r == blank(c, spaces_only),
{
    if spaces_only {
        c == ' '
    } else {
        is_space(c)
    }
}

/// A text without the blanks at its ends.
pub fn trim_text(s: &str, spaces_only: bool) -> (r: String)
    ensures
        r@ == trimmed(s@, spaces_only),
{
    let v = chars_of(s);
    let mut from: usize = 0;
    let mut to: usize = v.len();
    assert(v@.subrange(0, to as int) =~= v@);
    while from < to && is_blank(v[from], spaces_only)
        invariant
            from <= to == v@.len(),
            trimmed(v@, spaces_only) == trimmed(v@.subrange(from as int, to as int), spaces_only),
        decreases to - from,
    {
        assert(v@.subrange(from as int, to as int).drop_first() =~= v@.subrange(
            from + 1,
            to as int,
        ));
        from = from + 1;
    }
    while from < to && is_blank(v[to - 1], spaces_only)
        invariant
            from <= to <= v@.len(),
            from < to ==> !blank(v@[from as int], spaces_only),
            trimmed(v@, spaces_only) == trimmed(v@.subrange(from as int, to as int), spaces_only),
        decreases to - from,
    {
        assert(v@.subrange(from as int, to as int).drop_last() =~= v@.subrange(
            from as int,
            to - 1,
        ));
        to = to - 1;
    }
    assert(trimmed(v@.subrange(from as int, to as int), spaces_only) == v@.subrange(
        from as int,
        to as int,
    ));
    text_of(&v, from, to)
}

/// Trimming leaves no blank at either end, and trimming again changes nothing.
pub proof fn law_trimmed_ends(s: Seq<char>, spaces_only: bool)
    ensures
        trimmed(s, spaces_only).len() > 0 ==> !blank(trimmed(s, spaces_only)[0], spaces_only)
            && !blank(trimmed(s, spaces_only).last(), spaces_only),
        trimmed(trimmed(s, spaces_only), spaces_only) == trimmed(s, spaces_only),
    decreases s.len(),
{
    if s.len() > 0 {
        if blank(s[0], spaces_only) {
            law_trimmed_ends(s.drop_first(), spaces_only);
        } else if blank(s.last(), spaces_only) {
            law_trimmed_ends(s.drop_last(), spaces_only);
        }
    }
}

/// An ASCII capital as its small letter; any other character as it is.
pub open spec fn lower(c: char) -> char {
    if 'A' <= c && c <= 'Z' {
        ((c as u32) + 32) as char
    } else {
        c
    }
}

/// A text with its ASCII capitals as small letters.
pub open spec fn lowered(s: Seq<char>) -> Seq<char> {
    s.map_values(|c: char| lower(c))
}

/// A text with its ASCII capitals as small letters.
pub fn lower_text(s: &str) -> (r: String)
    ensures
        r@ == lowered(s@),
        r@.len() == s@.len(),
        forall|i: int|
            0 <= i < s@.len() ==> #[trigger] r@[i] as u32 == s@[i] as u32 + (if 'A' <= s@[i]
                && s@[i] <= 'Z' {
                32int
            } else {
                0
            }),
{
    let mut t = String::new();
    for c in it: s.chars()
        invariant
            t@ == lowered(s@).take(it.index()),
            it.seq() == s@,
    {
        let small: char = if 'A' <= c && c <= 'Z' {
            ((c as u8) + 32) as char
        } else {
            c
        };
        t.push(small);
        assert(lowered(s@).take(it.index() + 1) =~= lowered(s@).take(it.index()).push(lower(c)));
    }
    assert(lowered(s@).take(s@.len() as int) =~= lowered(s@));
    t
}

// ── Lists in one text ───────────────────────────────────────────────────────
/// The pieces between the separators, empty ones included.
pub open spec fn split_on(s: Seq<char>, sep: char) -> Seq<Seq<char>>
    decreases s.len(),
{
    if s.len() == 0 {
        seq![seq![]]
    } else {
        let before = split_on(s.drop_last(), sep);
        if s.last() == sep {
            before.push(seq![])
        } else {
            before.drop_last().push(before.last().push(s.last()))
        }
    }
}

/// The texts of a list that are not empty.
pub open spec fn nonempty(list: Seq<Seq<char>>) -> Seq<Seq<char>>
    decreases list.len(),
{
    if list.len() == 0 {
        list
    } else if list.last().len() > 0 {
        nonempty(list.drop_last()).push(list.last())
    } else {
        nonempty(list.drop_last())
    }
}

/// The pieces between the separators that are not empty.
pub open spec fn pieces(s: Seq<char>, sep: char) -> Seq<Seq<char>> {
    nonempty(split_on(s, sep))
}

/// The texts of a list with a separator between each two.
pub open spec fn joined(list: Seq<Seq<char>>, sep: Seq<char>) -> Seq<char>
    decreases list.len(),
{
    if list.len() == 0 {
        seq![]
    } else if list.len() == 1 {
        list[0]
    } else {
        joined(list.drop_last(), sep) + sep + list.last()
    }
}

proof fn lemma_split_has_a_piece(s: Seq<char>, sep: char)
    ensures
        split_on(s, sep).len() > 0,
    decreases s.len(),
{
    if s.len() > 0 {
        lemma_split_has_a_piece(s.drop_last(), sep);
    }
}

/// The pieces of a text between separators, without the empty ones.
pub fn split_text(s: &str, sep: char) -> (r: Vec<String>)
    ensures
        texts(r@) == pieces(s@, sep),
{
    let v = chars_of(s);
    let mut out: Vec<String> = Vec::new();
    let mut piece = String::new();
    let mut i: usize = 0;
    assert(split_on(v@.take(0), sep).drop_last() =~= Seq::<Seq<char>>::empty());
    assert(texts(out@) =~= Seq::<Seq<char>>::empty());
    while i < v.len()
        invariant
            i <= v@.len(),
            v@ == s@,
            split_on(v@.take(i as int), sep).len() > 0,
            texts(out@) == nonempty(split_on(v@.take(i as int), sep).drop_last()),
            piece@ == split_on(v@.take(i as int), sep).last(),
        decreases v@.len() - i,
    {
        let ghost old_pieces = split_on(v@.take(i as int), sep);
        let c: char = v[i];
        assert(v@.take(i + 1).drop_last() =~= v@.take(i as int));
        proof {
            lemma_split_has_a_piece(v@.take(i + 1), sep);
        }
        if c == sep {
            proof {
                assert(old_pieces.push(seq![]).drop_last() =~= old_pieces);
            }
            let ghost shown = texts(out@);
            if piece.as_str().is_empty() {
                piece = String::new();
            } else {
                out.push(piece);
                assert(texts(out@) =~= shown.push(old_pieces.last()));
                piece = String::new();
            }
        } else {
            piece.push(c);
            assert(old_pieces.drop_last().push(old_pieces.last().push(c)).drop_last()
                =~= old_pieces.drop_last());
        }
        i = i + 1;
    }
    assert(v@.take(i as int) =~= v@);
    let ghost shown = texts(out@);
    let ghost rest = piece@;
    if !piece.as_str().is_empty() {
        out.push(piece);
        assert(texts(out@) =~= shown.push(rest));
    }
    out
}

/// The texts of a list in one, with a separator between each two.
pub fn join_texts(list: &Vec<String>, sep: &str) -> (r: String)
    ensures
        r@ == joined(texts(list@), sep@),
{
    let mut s = String::new();
    let mut i: usize = 0;
    assert(joined(texts(list@).take(0), sep@) =~= Seq::<char>::empty());
    while i < list.len()
        invariant
            i <= list@.len(),
            s@ == joined(texts(list@).take(i as int), sep@),
        decreases list@.len() - i,
    {
        let ghost before = texts(list@).take(i as int);
        if i > 0 {
            s.append(sep);
        }
        s.append(list[i].as_str());
        proof {
            let after = texts(list@).take(i + 1);
            assert(after.drop_last() =~= before);
            assert(after.last() == list@[i as int]@);
            if i == 0 {
                assert(s@ =~= list@[0]@);
                assert(after[0] == list@[0]@);
            }
        }
        i = i + 1;
    }
    assert(texts(list@).take(i as int) =~= texts(list@));
    s
}

proof fn lemma_split_append(a: Seq<char>, b: Seq<char>, sep: char)
    requires
        !b.contains(sep),
    ensures
        split_on(a, sep).len() > 0,
        split_on(a + b, sep) == split_on(a, sep).drop_last().push(split_on(a, sep).last() + b),
    decreases b.len(),
{
    lemma_split_has_a_piece(a, sep);
    if b.len() == 0 {
        assert(a + b =~= a);
        assert(split_on(a, sep).last() + b =~= split_on(a, sep).last());
        assert(split_on(a, sep) =~= split_on(a, sep).drop_last().push(split_on(a, sep).last()));
    } else {
        let c = b.drop_last();
        assert(!c.contains(sep)) by {
            if c.contains(sep) {
                let i = choose|i: int| 0 <= i < c.len() && c[i] == sep;
                assert(b[i] == sep);
            }
        }
        assert(b[b.len() - 1] != sep);
        lemma_split_append(a, c, sep);
        assert((a + b).drop_last() =~= a + c);
        let p = split_on(a, sep);
        let q = p.drop_last().push(p.last() + c);
        assert(q.drop_last() =~= p.drop_last());
        assert((p.last() + c).push(b.last()) =~= p.last() + b);
    }
}

/// A list survives being joined and split again, if none of its texts is empty or holds
/// the separator.
pub proof fn law_split_undoes_join(list: Seq<Seq<char>>, sep: char)
    requires
        forall|i: int| 0 <= i < list.len() ==> (#[trigger] list[i]).len() > 0 && !list[i].contains(sep),
    ensures
        pieces(joined(list, seq![sep]), sep) == list,
        list.len() > 0 ==> split_on(joined(list, seq![sep]), sep) == list,
    decreases list.len(),
{
    let s = joined(list, seq![sep]);
    if list.len() == 0 {
        assert(split_on(s, sep) =~= seq![seq![]]);
        assert(nonempty(seq![Seq::<char>::empty()].drop_last()) =~= list);
    } else {
        let rest = list.drop_last();
        law_split_undoes_join(rest, sep);
        if list.len() == 1 {
            lemma_split_append(seq![], list[0], sep);
            assert(Seq::<char>::empty() + list[0] =~= list[0]);
            assert(split_on(Seq::<char>::empty(), sep) =~= seq![seq![]]);
            assert(split_on(s, sep) =~= list);
        } else {
            let head = joined(rest, seq![sep]);
            assert((head + seq![sep]).drop_last() =~= head);
            assert(split_on(head + seq![sep], sep) == rest.push(seq![]));
            lemma_split_append(head + seq![sep], list.last(), sep);
            assert(s == head + seq![sep] + list.last());
            assert(rest.push(Seq::<char>::empty()).drop_last() =~= rest);
            assert(Seq::<char>::empty() + list.last() =~= list.last());
            assert(split_on(s, sep) =~= list);
        }
        lemma_nonempty_all(list);
    }
}

proof fn lemma_nonempty_all(list: Seq<Seq<char>>)
    requires
        forall|i: int| 0 <= i < list.len() ==> (#[trigger] list[i]).len() > 0,
    ensures
        nonempty(list) == list,
    decreases list.len(),
{
    if list.len() > 0 {
        let rest = list.drop_last();
        assert forall|i: int| 0 <= i < rest.len() implies (#[trigger] rest[i]).len() > 0 by {
            assert(rest[i] == list[i]);
        }
        lemma_nonempty_all(rest);
        assert(rest.push(list.last()) =~= list);
    }
}

proof fn lemma_split_pieces_are_bare(s: Seq<char>, sep: char)
    ensures
        forall|i: int| 0 <= i < split_on(s, sep).len() ==> !(#[trigger] split_on(s, sep)[i]).contains(sep),
    decreases s.len(),
{
    if s.len() > 0 {
        let before = split_on(s.drop_last(), sep);
        lemma_split_pieces_are_bare(s.drop_last(), sep);
        lemma_split_has_a_piece(s.drop_last(), sep);
        assert forall|i: int| 0 <= i < split_on(s, sep).len() implies !(#[trigger] split_on(
            s,
            sep,
        )[i]).contains(sep) by {
            if s.last() != sep && i == before.len() - 1 {
                let last = before.last();
                assert(!before[before.len() - 1].contains(sep));
                if last.push(s.last()).contains(sep) {
                    let k = choose|k: int|
                        0 <= k < last.len() + 1 && last.push(s.last())[k] == sep;
                    assert(k < last.len() ==> last[k] == sep);
                }
            } else if i < before.len() {
                assert(!before[i].contains(sep));
            }
        }
    }
}

proof fn lemma_nonempty_keeps(list: Seq<Seq<char>>, sep: char)
    requires
        forall|i: int| 0 <= i < list.len() ==> !(#[trigger] list[i]).contains(sep),
    ensures
        forall|i: int|
            0 <= i < nonempty(list).len() ==> (#[trigger] nonempty(list)[i]).len() > 0 && !nonempty(
                list,
            )[i].contains(sep),
    decreases list.len(),
{
    if list.len() > 0 {
        let rest = list.drop_last();
        assert forall|i: int| 0 <= i < rest.len() implies !(#[trigger] rest[i]).contains(sep) by {
            assert(!list[i].contains(sep));
        }
        assert(!list[list.len() - 1].contains(sep));
        lemma_nonempty_keeps(rest, sep);
        let kept = nonempty(rest);
        assert forall|i: int| 0 <= i < nonempty(list).len() implies (#[trigger] nonempty(list)[i]).len()
            > 0 && !nonempty(list)[i].contains(sep) by {
            if i < kept.len() {
                assert(nonempty(list)[i] == kept[i]);
            }
        }
    }
}

/// No piece is empty or holds the separator.
pub proof fn lemma_pieces(s: Seq<char>, sep: char)
    ensures
        forall|i: int|
            0 <= i < pieces(s, sep).len() ==> (#[trigger] pieces(s, sep)[i]).len() > 0 && !pieces(
                s,
                sep,
            )[i].contains(sep),
{
    lemma_split_pieces_are_bare(s, sep);
    lemma_nonempty_keeps(split_on(s, sep), sep);
}

/// Trimming takes blanks away at both ends and nothing else: what is left stands in the text
/// as it was, with blanks alone before it and after it, and begins and ends with none.
pub proof fn law_trimming_cuts_blanks_alone(s: Seq<char>, spaces_only: bool) -> (ends: (int, int))
    ensures
        0 <= ends.0 <= ends.1 <= s.len(),
        trimmed(s, spaces_only) == s.subrange(ends.0, ends.1),
        forall|i: int|
            0 <= i < ends.0 || ends.1 <= i < s.len() ==> if spaces_only {
                #[trigger] s[i] == ' '
            } else {
                space(s[i])
            },
        ends.0 < ends.1 ==> if spaces_only {
            s[ends.0] != ' ' && s[ends.1 - 1] != ' '
        } else {
            !space(s[ends.0]) && !space(s[ends.1 - 1])
        },
    decreases s.len(),
{
    if s.len() == 0 {
        assert(s.subrange(0, 0) =~= s);
        (0, 0)
    } else if blank(s[0], spaces_only) {
        let t = s.drop_first();
        let (a, b) = law_trimming_cuts_blanks_alone(t, spaces_only);
        assert(t.subrange(a, b) =~= s.subrange(a + 1, b + 1));
        assert forall|i: int| 0 <= i < a + 1 || b + 1 <= i < s.len() implies if spaces_only {
            #[trigger] s[i] == ' '
        } else {
            space(s[i])
        } by {
            if i > 0 {
                assert(s[i] == t[i - 1]);
            }
        }
        assert(a < b ==> t[a] == s[a + 1] && t[b - 1] == s[b]);
        (a + 1, b + 1)
    } else if blank(s.last(), spaces_only) {
        let t = s.drop_last();
        let (a, b) = law_trimming_cuts_blanks_alone(t, spaces_only);
        assert(t.subrange(a, b) =~= s.subrange(a, b));
        assert forall|i: int| 0 <= i < a || b <= i < s.len() implies if spaces_only {
            #[trigger] s[i] == ' '
        } else {
            space(s[i])
        } by {
            if i < t.len() {
                assert(s[i] == t[i]);
            }
        }
        assert(a < b ==> t[a] == s[a] && t[b - 1] == s[b - 1]);
        (a, b)
    } else {
        assert(s.subrange(0, s.len() as int) =~= s);
        (0, s.len() as int)
    }
}

/// Two texts that are the same up to place `k` stand in the order of their characters there;
/// one that ends there stands before one that goes on.
pub proof fn law_text_order_is_by_the_first_difference(a: Seq<char>, b: Seq<char>, k: int)
    requires
        0 <= k <= a.len(),
        k <= b.len(),
        forall|i: int| 0 <= i < k ==> a[i] == b[i],
    ensures
        k < a.len() && k < b.len() && a[k] != b[k] ==> (text_lt(a, b) <==> a[k] < b[k]),
        k == a.len() && k < b.len() ==> text_lt(a, b),
        k == b.len() ==> !text_lt(a, b),
    decreases k,
{
    if k > 0 {
        let (x, y) = (a.drop_first(), b.drop_first());
        assert forall|i: int| 0 <= i < k - 1 implies x[i] == y[i] by {
            assert(x[i] == a[i + 1] && y[i] == b[i + 1]);
        }
        law_text_order_is_by_the_first_difference(x, y, k - 1);
    }
}

/// The number that decimal digits stand for.
pub open spec fn number_of(digits: Seq<char>) -> int
    decreases digits.len(),
{
    if digits.len() == 0 {
        0
    } else {
        10 * number_of(digits.drop_last()) + (digits.last() as u32 - '0' as u32)
    }
}

/// A number written in decimal reads as that number, is made of digits, and begins with a
/// zero only if it is zero.
pub proof fn law_decimal_reads_back(n: nat)
    ensures
        number_of(decimal(n)) == n,
        decimal(n).len() >= 1,
        forall|i: int|
            0 <= i < decimal(n).len() ==> '0' <= #[trigger] decimal(n)[i] && decimal(n)[i] <= '9',
        n > 0 ==> decimal(n)[0] != '0',
        n == 0 ==> decimal(n) == seq!['0'],
    decreases n,
{
    if n < 10 {
        let d = seq![digit(n as int)];
        assert(d.drop_last() =~= Seq::<char>::empty());
        assert(number_of(Seq::<char>::empty()) == 0);
        assert(decimal(n) == d);
    } else {
        law_decimal_reads_back(n / 10);
        let rest = decimal(n / 10);
        let d = digit((n % 10) as int);
        assert(rest.push(d).drop_last() =~= rest);
        assert forall|i: int| 0 <= i < decimal(n).len() implies '0' <= #[trigger] decimal(n)[i]
            && decimal(n)[i] <= '9' by {
            if i < rest.len() {
                assert(decimal(n)[i] == rest[i]);
            }
        }
        assert(decimal(n)[0] == rest[0]);
    }
}

/// A number below zero is written as a minus and its distance from zero.
pub proof fn law_signed_decimal(n: int)
    ensures
        n >= 0 ==> number_of(signed_decimal(n)) == n && signed_decimal(n)[0] != '-',
        n < 0 ==> signed_decimal(n).len() > 1 && signed_decimal(n)[0] == '-' && number_of(
            signed_decimal(n).drop_first(),
        ) == -n,
{
    if n < 0 {
        law_decimal_reads_back((-n) as nat);
        assert(signed_decimal(n).drop_first() =~= decimal((-n) as nat));
    } else {
        law_decimal_reads_back(n as nat);
        assert(decimal(n as nat)[0] >= '0');
    }
}

/// Joining the pieces of a text with the separator gives the text back, and no piece holds
/// the separator.
pub proof fn law_join_undoes_split(s: Seq<char>, sep: char)
    ensures
        joined(split_on(s, sep), seq![sep]) == s,
        forall|i: int|
            0 <= i < split_on(s, sep).len() ==> !(#[trigger] split_on(s, sep)[i]).contains(sep),
    decreases s.len(),
{
    lemma_split_pieces_are_bare(s, sep);
    if s.len() > 0 {
        let t = s.drop_last();
        let before = split_on(t, sep);
        law_join_undoes_split(t, sep);
        lemma_split_has_a_piece(t, sep);
        assert(s =~= t.push(s.last()));
        let now = split_on(s, sep);
        if s.last() == sep {
            assert(now.drop_last() =~= before);
            assert(joined(now, seq![sep]) =~= t + seq![sep] + Seq::<char>::empty());
        } else {
            assert(now.drop_last() =~= before.drop_last());
            if before.len() == 1 {
                assert(now[0] =~= before[0].push(s.last()));
            } else {
                assert(joined(now, seq![sep]) =~= joined(before, seq![sep]).push(s.last()));
            }
        }
    }
}

/// The pieces that are kept are those that are not empty, in their order.
pub proof fn law_kept_pieces(list: Seq<Seq<char>>)
    ensures
        nonempty(list) == list.filter(|t: Seq<char>| t.len() > 0),
    decreases list.len(),
{
    reveal(Seq::filter);
    if list.len() > 0 {
        law_kept_pieces(list.drop_last());
    } else {
        assert(list.filter(|t: Seq<char>| t.len() > 0) =~= list);
    }
}

/// A list of texts is seen text by text.
pub proof fn law_texts_by_index(v: Seq<String>, i: int)
    ensures
        texts(v).len() == v.len(),
        0 <= i < v.len() ==> texts(v)[i] == v[i]@,
{
}

} // verus!
