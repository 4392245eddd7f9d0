//! The image information panel: what is read of an image, and how it is written down.
use vstd::prelude::*;

use crate::paths::{file_name, folder_of, name_of, parent_folder, tail_after, tail_text};
use crate::text::{
    chars_of, is_space, push_signed, same_text, signed_decimal, space, trim_text, trimmed,
};

verus! {

/// What is shown for a value that is not known: a dash.
pub const NO_VALUE: &'static str = "\u{2014}";

// ── The camera ──────────────────────────────────────────────────────────────
/// What `str::to_lowercase` makes of a text.
pub uninterp spec fn lowercase(s: Seq<char>) -> Seq<char>;

/// `str::to_lowercase`: the result depends on the text alone, by the case tables of
/// Unicode.
#[verifier::external_body]
fn to_lowercase(s: &str) -> (r: String)
    ensures
        r@ == lowercase(s@),
{
    s.to_lowercase()
}

/// Whether `char::is_alphanumeric` holds of a character.
pub uninterp spec fn alphanumeric(c: char) -> bool;

/// `char::is_alphanumeric`: the result depends on the character alone, by the tables of
/// Unicode.
#[verifier::external_body]
fn is_alphanumeric(c: char) -> (r: bool)
    ensures
        r == alphanumeric(c),
{
    c.is_alphanumeric()
}

/// The word at the start of a text: all up to the first white space.
pub open spec fn leading_word(s: Seq<char>) -> Seq<char>
    decreases s.len(),
{
    if s.len() == 0 || space(s[0]) {
        Seq::empty()
    } else {
        seq![s[0]] + leading_word(s.drop_first())
    }
}

/// The first word of a text.
pub open spec fn first_word(s: Seq<char>) -> Seq<char>
    decreases s.len(),
{
    if s.len() > 0 && space(s[0]) {
        first_word(s.drop_first())
    } else {
        leading_word(s)
    }
}

/// What follows the maker's first word in the model, both in small letters: `None` if the
/// model does not begin with it.
pub open spec fn after_maker(maker_low: Seq<char>, model_low: Seq<char>) -> Option<Seq<char>> {
    let word = first_word(maker_low);
    if word.len() > 0 && word.is_prefix_of(model_low) {
        Some(model_low.skip(word.len() as int))
    } else {
        None
    }
}

/// Whether the model carries the maker already: it begins with the maker's first word, and
/// that word ends there. `joined_on` tells that a letter or digit follows it.
pub open spec fn carries_maker(
    maker_low: Seq<char>,
    model_low: Seq<char>,
    joined_on: bool,
) -> bool {
    match after_maker(maker_low, model_low) {
        Some(rest) => rest.len() == 0 || !joined_on,
        None => false,
    }
}

/// The camera as it is shown, from its trimmed maker and model.
pub open spec fn camera_text(maker: Seq<char>, model: Seq<char>, carried: bool) -> Seq<char> {
    if model.len() == 0 {
        if maker.len() == 0 {
            NO_VALUE@
        } else {
            maker
        }
    } else if maker.len() == 0 || carried {
        model
    } else {
        maker + " "@ + model
    }
}

fn find_first_word(v: &Vec<char>) -> (r: (usize, usize))
    ensures
        r.0 <= r.1 <= v@.len(),
        v@.subrange(r.0 as int, r.1 as int) == first_word(v@),
{
    let mut from: usize = 0;
    assert(v@.skip(0) =~= v@);
    while from < v.len() && is_space(v[from])
        invariant
            from <= v@.len(),
            first_word(v@) == first_word(v@.skip(from as int)),
        decreases v@.len() - from,
    {
        assert(v@.skip(from as int).drop_first() =~= v@.skip(from + 1));
        from = from + 1;
    }
    let mut to: usize = from;
    assert(v@.subrange(from as int, to as int) =~= Seq::empty());
    assert(Seq::<char>::empty() + leading_word(v@.skip(to as int)) =~= leading_word(
        v@.skip(to as int),
    ));
    while to < v.len() && !is_space(v[to])
        invariant
            from <= to <= v@.len(),
            first_word(v@) == v@.subrange(from as int, to as int) + leading_word(
                v@.skip(to as int),
            ),
        decreases v@.len() - to,
    {
        assert(v@.skip(to as int).drop_first() =~= v@.skip(to + 1));
        assert(v@.subrange(from as int, to as int) + (seq![v@[to as int]] + leading_word(
            v@.skip(to + 1),
        )) =~= v@.subrange(from as int, to + 1) + leading_word(v@.skip(to + 1)));
        to = to + 1;
    }
    assert(leading_word(v@.skip(to as int)) =~= Seq::empty());
    assert(v@.subrange(from as int, to as int) =~= first_word(v@));
    (from, to)
}

/// What follows the maker's first word in the model, both in small letters.
pub fn rest_after_maker(maker_low: &str, model_low: &str) -> (r: Option<Vec<char>>)
    ensures
        match r {
            Some(rest) => after_maker(maker_low@, model_low@) == Some(rest@),
            None => after_maker(maker_low@, model_low@) is None,
        },
{
    let mk = chars_of(maker_low);
    let md = chars_of(model_low);
    let (from, to) = find_first_word(&mk);
    let n: usize = to - from;
    let ghost word = first_word(maker_low@);
    assert(word.len() == n);
    if n == 0 || n > md.len() {
        return None;
    }
    let mut i: usize = 0;
    while i < n
        invariant
            i <= n == to - from,
            n <= md@.len(),
            from <= to <= mk@.len(),
            word == mk@.subrange(from as int, to as int),
            word == first_word(maker_low@),
            md@ == model_low@,
            forall|j: int| 0 <= j < i ==> word[j] == model_low@[j],
        decreases n - i,
    {
        assert(word[i as int] == mk@[from + i]);
        if mk[from + i] != md[i] {
            assert(!word.is_prefix_of(model_low@)) by {
                assert(word[i as int] != model_low@.subrange(0, word.len() as int)[i as int]);
            }
            return None;
        }
        i = i + 1;
    }
    assert(word.is_prefix_of(model_low@)) by {
        assert(word =~= model_low@.subrange(0, word.len() as int));
    }
    let mut rest: Vec<char> = Vec::new();
    let mut k: usize = n;
    while k < md.len()
        invariant
            n <= k <= md@.len(),
            rest@ =~= md@.subrange(n as int, k as int),
        decreases md@.len() - k,
    {
        rest.push(md[k]);
        k = k + 1;
    }
    assert(rest@ =~= model_low@.skip(n as int));
    Some(rest)
}

/// The camera as it is shown. A model that carries the maker already stands alone; a blank
/// maker or model is left out. `carried` tells whether the model carries the maker.
pub fn camera_line(maker: &str, model: &str, carried: bool) -> (r: String)
    ensures
        r@ == camera_text(maker@, model@, carried),
        maker@.len() > 0 && model@.len() > 0 && !carried ==> r@ == maker@ + " "@ + model@,
        model@.len() > 0 && (carried || maker@.len() == 0) ==> r@ == model@,
        model@.len() == 0 && maker@.len() > 0 ==> r@ == maker@,
        model@.len() == 0 && maker@.len() == 0 ==> r@ == "\u{2014}"@,
{
    if model.is_empty() {
        if maker.is_empty() {
            NO_VALUE.to_owned()
        } else {
            maker.to_owned()
        }
    } else if maker.is_empty() || carried {
        model.to_owned()
    } else {
        let mut s = maker.to_owned();
        s.append(" ");
        s.append(model);
        s
    }
}

/// A value without the blanks around it: blank if there is none.
pub open spec fn tidy(v: Option<&str>) -> Seq<char> {
    match v {
        Some(s) => trimmed(s@, false),
        None => Seq::empty(),
    }
}

fn tidy_text(v: Option<&str>) -> (r: String)
    ensures
        r@ == tidy(v),
{
    match v {
        Some(s) => trim_text(s, false),
        None => String::new(),
    }
}

/// Whether the model carries the maker, in whatever case they are written.
pub open spec fn model_carries_maker(maker: Seq<char>, model: Seq<char>) -> bool {
    let rest = after_maker(lowercase(maker), lowercase(model));
    carries_maker(
        lowercase(maker),
        lowercase(model),
        rest is Some && rest->0.len() > 0 && alphanumeric(rest->0[0]),
    )
}

/// The camera from its maker and model. Models often repeat the maker, which is then not
/// written twice.
pub fn format_camera(maker: Option<&str>, model: Option<&str>) -> (r: String)
    ensures
        r@ == camera_text(
            tidy(maker),
            tidy(model),
            model_carries_maker(tidy(maker), tidy(model)),
        ),
        maker is Some ==> tidy(maker) == trimmed(maker->0@, false),
        model is Some ==> tidy(model) == trimmed(model->0@, false),
        maker is None ==> tidy(maker).len() == 0,
        model is None ==> tidy(model).len() == 0,
        tidy(maker).len() > 0 && tidy(model).len() > 0 && !model_carries_maker(
            tidy(maker),
            tidy(model),
        ) ==> r@ == tidy(maker) + " "@ + tidy(model),
        tidy(model).len() > 0 && (tidy(maker).len() == 0 || model_carries_maker(
            tidy(maker),
            tidy(model),
        )) ==> r@ == tidy(model),
        tidy(model).len() == 0 && tidy(maker).len() > 0 ==> r@ == tidy(maker),
        tidy(model).len() == 0 && tidy(maker).len() == 0 ==> r@ == "\u{2014}"@,
{
    let maker: String = tidy_text(maker);
    let model: String = tidy_text(model);
    let carried: bool = match rest_after_maker(
        to_lowercase(maker.as_str()).as_str(),
        to_lowercase(model.as_str()).as_str(),
    ) {
        Some(rest) => rest.len() == 0 || !is_alphanumeric(rest[0]),
        None => false,
    };
    camera_line(maker.as_str(), model.as_str(), carried)
}

// ── Other values ────────────────────────────────────────────────────────────
/// Pixel dimensions, such as `4640 × 3472`: a dash if one is not known or not positive.
pub fn format_dims(w: Option<i64>, h: Option<i64>) -> (r: String)
    ensures
        r@ == if w is Some && h is Some && w->0 > 0 && h->0 > 0 {
            signed_decimal(w->0 as int) + " \u{00d7} "@ + signed_decimal(h->0 as int)
        } else {
            NO_VALUE@
        },
{
    match (w, h) {
        (Some(w), Some(h)) => {
            if w > 0 && h > 0 {
                let mut s = String::new();
                push_signed(&mut s, w);
                s.append(" \u{00d7} ");
                push_signed(&mut s, h);
                assert(s@ =~= signed_decimal(w as int) + " \u{00d7} "@ + signed_decimal(h as int));
                return s;
            }
        },
        _ => {},
    }
    NO_VALUE.to_owned()
}

/// A value without the blanks around it: a dash if nothing is left.
pub fn format_opt(v: Option<&str>) -> (r: String)
    ensures
        r@ == if tidy(v).len() > 0 {
            tidy(v)
        } else {
            NO_VALUE@
        },
        v is Some && trimmed(v->0@, false).len() > 0 ==> r@ == trimmed(v->0@, false),
        v is None || trimmed(v->0@, false).len() == 0 ==> r@ == "\u{2014}"@,
{
    let s: String = tidy_text(v);
    if s.as_str().is_empty() {
        NO_VALUE.to_owned()
    } else {
        s
    }
}

/// The tooltip of a value, which may be cut off where it is shown. The dash has none.
pub fn value_tooltip(value: &str) -> (r: Option<String>)
    ensures
        r is None <==> value@ == NO_VALUE@,
        r is Some ==> r->0@ == value@,
{
    if same_text(value, NO_VALUE) {
        None
    } else {
        Some(value.to_owned())
    }
}

/// The file name that is shown for a path: the path itself, if it has none.
pub fn shown_file(full_path: &str) -> (r: String)
    ensures
        r@ == match name_of(full_path@) {
            Some(n) => n,
            None => full_path@,
        },
{
    match file_name(full_path) {
        Some(n) => n,
        None => full_path.to_owned(),
    }
}

/// The folder of a path: blank, if it has none.
pub open spec fn folder_or_blank(full_path: Seq<char>) -> Seq<char> {
    match folder_of(full_path) {
        Some(f) => f,
        None => Seq::empty(),
    }
}

/// The folder of a path in full, and the last part of it, which is shown.
pub fn shown_folder(full_path: &str) -> (r: (String, String))
    ensures
        r.0@ == folder_or_blank(full_path@),
        r.1@ == tail_after(folder_or_blank(full_path@), '/'),
        folder_of(full_path@) is Some ==> r.0@ == folder_of(full_path@)->0 && r.1@ == tail_after(
            folder_of(full_path@)->0,
            '/',
        ),
        folder_of(full_path@) is None ==> r.0@.len() == 0 && r.1@.len() == 0,
{
    let folder: String = match parent_folder(full_path) {
        Some(f) => f,
        None => String::new(),
    };
    let shown: String = tail_text(folder.as_str(), '/');
    (folder, shown)
}

// ── The query ───────────────────────────────────────────────────────────────
/// The statement that reads an image's information in one row, by its folder and file
/// name. A catalogue may lack the tables of makers, models and lenses, of which `lookups`
/// are there; without all three their columns are null and the other columns still come.
/// `seconds` is the expression for the time of capture.
pub fn exif_query(lookups: i64, seconds: &str) -> (r: String)
    ensures
        r@ == "SELECT "@ + (if lookups == 3 {
            "mk.name, md.name, l.name"@
        } else {
            "NULL, NULL, NULL"@
        })
            + ", i.exposure, i.aperture, i.iso, i.focal_length, i.width, i.height, CASE WHEN i.datetime_taken > 0 THEN datetime("@
            + seconds@
            + ", 'unixepoch') ELSE NULL END FROM main.images i JOIN main.film_rolls f ON f.id = i.film_id "@
            + (if lookups == 3 {
            "LEFT JOIN main.makers mk ON mk.id = i.maker_id LEFT JOIN main.models md ON md.id = i.model_id LEFT JOIN main.lens l ON l.id = i.lens_id "@
        } else {
            Seq::empty()
        }) + "WHERE f.folder = ?1 AND i.filename = ?2"@,
{
    let mut s = "SELECT ".to_owned();
    if lookups == 3 {
        s.append("mk.name, md.name, l.name");
    } else {
        s.append("NULL, NULL, NULL");
    }
    s.append(
        ", i.exposure, i.aperture, i.iso, i.focal_length, i.width, i.height, CASE WHEN i.datetime_taken > 0 THEN datetime(",
    );
    s.append(seconds);
    s.append(
        ", 'unixepoch') ELSE NULL END FROM main.images i JOIN main.film_rolls f ON f.id = i.film_id ",
    );
    let ghost head = s@;
    if lookups == 3 {
        s.append(
            "LEFT JOIN main.makers mk ON mk.id = i.maker_id LEFT JOIN main.models md ON md.id = i.model_id LEFT JOIN main.lens l ON l.id = i.lens_id ",
        );
    } else {
        assert(head + Seq::empty() =~= head);
    }
    s.append("WHERE f.folder = ?1 AND i.filename = ?2");
    s
}

/// The first word of a text stands in it with white space alone before it, holds none, and
/// has white space or the end of the text behind it.
pub proof fn law_first_word(s: Seq<char>) -> (from: int)
    ensures
        0 <= from,
        from + first_word(s).len() <= s.len(),
        first_word(s) == s.subrange(from, from + first_word(s).len()),
        forall|i: int| 0 <= i < from ==> space(#[trigger] s[i]),
        forall|i: int| 0 <= i < first_word(s).len() ==> !space(#[trigger] first_word(s)[i]),
        from + first_word(s).len() < s.len() ==> space(s[from + first_word(s).len()]),
        first_word(s).len() == 0 ==> from == s.len(),
    decreases s.len(),
{
    if s.len() > 0 && space(s[0]) {
        let t = s.drop_first();
        let k = law_first_word(t);
        assert(t.subrange(k, k + first_word(t).len()) =~= s.subrange(
            k + 1,
            k + 1 + first_word(t).len(),
        ));
        assert forall|i: int| 0 <= i < k + 1 implies space(#[trigger] s[i]) by {
            if i > 0 {
                assert(s[i] == t[i - 1]);
            }
        }
        k + 1
    } else {
        lemma_leading_word(s);
        0
    }
}

proof fn lemma_leading_word(s: Seq<char>)
    ensures
        leading_word(s).len() <= s.len(),
        leading_word(s) == s.take(leading_word(s).len() as int),
        forall|i: int| 0 <= i < leading_word(s).len() ==> !space(#[trigger] leading_word(s)[i]),
        leading_word(s).len() < s.len() ==> space(s[leading_word(s).len() as int]),
    decreases s.len(),
{
    if s.len() > 0 && !space(s[0]) {
        let t = s.drop_first();
        lemma_leading_word(t);
        let w = leading_word(s);
        assert(w =~= s.take(w.len() as int));
        assert forall|i: int| 0 <= i < w.len() implies !space(#[trigger] w[i]) by {
            if i > 0 {
                assert(w[i] == leading_word(t)[i - 1]);
            }
        }
    } else {
        assert(leading_word(s) =~= s.take(0));
    }
}

/// A model carries its maker exactly where, in small letters, it begins with the maker's
/// first word and no letter or digit follows that word.
pub proof fn law_model_carries_its_maker(maker: Seq<char>, model: Seq<char>, word: Seq<char>)
    requires
        word == first_word(lowercase(maker)),
    ensures
        model_carries_maker(maker, model) <==> {
            &&& word.len() > 0
            &&& word.len() <= lowercase(model).len()
            &&& forall|i: int| 0 <= i < word.len() ==> #[trigger] lowercase(model)[i] == word[i]
            &&& (word.len() == lowercase(model).len() || !alphanumeric(
                lowercase(model)[word.len() as int],
            ))
        },
{
    let low = lowercase(model);
    if word.len() <= low.len() && (forall|i: int|
        0 <= i < word.len() ==> #[trigger] low[i] == word[i]) {
        assert(word =~= low.subrange(0, word.len() as int));
        assert(word.is_prefix_of(low));
    }
    if word.is_prefix_of(low) {
        assert forall|i: int| 0 <= i < word.len() implies #[trigger] low[i] == word[i] by {
            assert(low.subrange(0, word.len() as int)[i] == low[i]);
        }
    }
}

} // verus!
