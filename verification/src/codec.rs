//! The stored form of the develop parameters.
//!
//! A blob is one version byte, one byte per flag, and four little-endian bytes per
//! number. Every version only appended to the two lists, so an older blob is a
//! prefix of a newer one's lists, and what it lacks keeps its default.
use vstd::prelude::*;

use crate::fields::{law_lists_determine_params, lemma_bools, lemma_parts};
use crate::float32::F32;
use crate::params::PreviewParams;

verus! {

/// The version that [`PreviewParams::encode`] writes.
pub const ENCODE_VERSION: u8 = 26;

/// How many flags the current version stores.
pub const BOOL_COUNT: usize = 37;

/// How many numbers the current version stores.
pub const FLOAT_COUNT: usize = 444;

/// The length of a blob of the current version.
pub const ENCODED_LEN: usize = 1 + 37 + 444 * 4;

/// Version, flag count and number count of every layout ever written, oldest first.
pub const PARAMS_LAYOUTS: [(u8, usize, usize); 15] = [
    (12, 19, 129),
    (13, 20, 133),
    (14, 21, 140),
    (15, 22, 148),
    (16, 23, 164),
    (17, 24, 173),
    (18, 25, 206),
    (19, 26, 213),
    (20, 28, 214),
    (21, 30, 217),
    (22, 31, 220),
    (23, 33, 264),
    (24, 34, 392),
    (25, 35, 438),
    (26, 37, 444),
];

/// The length of a blob with these counts.
pub open spec fn layout_len(row: (u8, usize, usize)) -> int {
    1 + row.1 + row.2 * 4
}

/// Whether a layout row has this version.
pub open spec fn known_version(row: int, version: u8) -> bool {
    0 <= row < 15 && PARAMS_LAYOUTS@[row].0 == version
}

/// Whether these bytes have the version and the length of a layout row.
pub open spec fn fits_layout(row: int, bytes: Seq<u8>) -> bool {
    &&& 0 <= row < 15
    &&& bytes.len() > 0
    &&& bytes[0] == PARAMS_LAYOUTS@[row].0
    &&& bytes.len() == layout_len(PARAMS_LAYOUTS@[row])
}

/// The byte of a flag.
pub open spec fn flag_byte(flag: bool) -> u8 {
    if flag { 1 } else { 0 }
}

/// The byte at place `k` of a number, least significant first.
pub open spec fn number_byte(x: F32, k: int) -> u8 {
    if k == 0 {
        (x.bits % 256) as u8
    } else if k == 1 {
        (x.bits / 256 % 256) as u8
    } else if k == 2 {
        (x.bits / 65536 % 256) as u8
    } else {
        (x.bits / 16777216) as u8
    }
}

/// The bytes of a list of numbers.
pub open spec fn number_bytes(xs: Seq<F32>) -> Seq<u8> {
    Seq::new(4 * xs.len(), |i: int| number_byte(xs[i / 4], i % 4))
}

/// The number that stands in four bytes from `at` on.
pub open spec fn number_at(bytes: Seq<u8>, at: int) -> F32 {
    F32 {
        bits: (bytes[at] + 256 * bytes[at + 1] + 65536 * bytes[at + 2] + 16777216 * bytes[at
            + 3]) as u32,
    }
}

/// A blob of the given version, flags and numbers.
pub open spec fn blob(version: u8, flags: Seq<bool>, numbers: Seq<F32>) -> Seq<u8> {
    seq![version] + flags.map_values(|b: bool| flag_byte(b)) + number_bytes(numbers)
}

/// The flags of a blob that has `n` of them.
pub open spec fn stored_flags(bytes: Seq<u8>, n: int) -> Seq<bool> {
    Seq::new(n as nat, |i: int| bytes[1 + i] != 0)
}

/// The numbers of a blob that has `flags` flags and `n` numbers.
pub open spec fn stored_numbers(bytes: Seq<u8>, flags: int, n: int) -> Seq<F32> {
    Seq::new(n as nat, |i: int| number_at(bytes, 1 + flags + 4 * i))
}

/// Whether `p` is what a blob with this layout row stands for: the stored flags and
/// numbers first, then the defaults of what came later.
pub open spec fn stands_for(bytes: Seq<u8>, row: int, p: PreviewParams) -> bool {
    let (_, nb, nf) = PARAMS_LAYOUTS@[row];
    let d = PreviewParams::defaults();
    &&& p.bools() =~= stored_flags(bytes, nb as int) + d.bools().skip(nb as int)
    &&& p.floats() =~= stored_numbers(bytes, nb as int, nf as int) + d.floats().skip(nf as int)
}

/// Whether `p` is what the blob stands for in the layout that fits it.
pub open spec fn decodes_to(bytes: Seq<u8>, p: PreviewParams) -> bool {
    exists|row: int| fits_layout(row, bytes) && #[trigger] stands_for(bytes, row, p)
}

/// What a blob stands for, if its version and length are those of a layout.
pub open spec fn decoded(bytes: Seq<u8>) -> Option<PreviewParams> {
    if exists|row: int| fits_layout(row, bytes) {
        Some(choose|p: PreviewParams| decodes_to(bytes, p))
    } else {
        None
    }
}

proof fn lemma_same_edit(bytes: Seq<u8>, row: int, p: PreviewParams, q: PreviewParams)
    requires
        stands_for(bytes, row, p),
        stands_for(bytes, row, q),
    ensures
        p == q,
{
    law_lists_determine_params(p, q);
}

proof fn lemma_one_layout(bytes: Seq<u8>, row: int, r: int)
    requires
        fits_layout(row, bytes),
        fits_layout(r, bytes),
    ensures
        r == row,
{
    lemma_layout_row(row);
    lemma_layout_row(r);
}

/// At most one layout fits, and at most one edit is what it stands for.
#[verifier::spinoff_prover]
proof fn lemma_decoded_unique(bytes: Seq<u8>, row: int, p: PreviewParams)
    requires
        fits_layout(row, bytes),
        stands_for(bytes, row, p),
    ensures
        decoded(bytes) == Some(p),
{
    assert forall|q: PreviewParams| #[trigger] decodes_to(bytes, q) implies q == p by {
        let r = choose|r: int| fits_layout(r, bytes) && #[trigger] stands_for(bytes, r, q);
        lemma_one_layout(bytes, row, r);
        lemma_same_edit(bytes, row, p, q);
    }
    assert(decodes_to(bytes, p));
}

/// Every row's counts are within the current ones.
pub proof fn lemma_layout_row(row: int)
    requires
        0 <= row < 15,
    ensures
        PARAMS_LAYOUTS@[row].0 == 12 + row,
        19 <= PARAMS_LAYOUTS@[row].1 <= 37,
        129 <= PARAMS_LAYOUTS@[row].2 <= 444,
{
    lemma_layout_table(row);
}

/// Every row's counts are more than those of the row before.
proof fn lemma_layout_table(row: int)
    requires
        0 <= row < 15,
    ensures
        PARAMS_LAYOUTS@[row].0 == 12 + row,
        19 <= PARAMS_LAYOUTS@[row].1 <= 37,
        129 <= PARAMS_LAYOUTS@[row].2 <= 444,
        row > 0 ==> PARAMS_LAYOUTS@[row - 1].1 < PARAMS_LAYOUTS@[row].1,
        row > 0 ==> PARAMS_LAYOUTS@[row - 1].2 < PARAMS_LAYOUTS@[row].2,
{
    let t = PARAMS_LAYOUTS;
    assert(t@[0] == (12u8, 19usize, 129usize)
        && t@[1] == (13u8, 20usize, 133usize)
        && t@[2] == (14u8, 21usize, 140usize)
        && t@[3] == (15u8, 22usize, 148usize)
        && t@[4] == (16u8, 23usize, 164usize)
        && t@[5] == (17u8, 24usize, 173usize)
        && t@[6] == (18u8, 25usize, 206usize)
        && t@[7] == (19u8, 26usize, 213usize)
        && t@[8] == (20u8, 28usize, 214usize)
        && t@[9] == (21u8, 30usize, 217usize)
        && t@[10] == (22u8, 31usize, 220usize)
        && t@[11] == (23u8, 33usize, 264usize)
        && t@[12] == (24u8, 34usize, 392usize)
        && t@[13] == (25u8, 35usize, 438usize)
        && t@[14] == (26u8, 37usize, 444usize));
}

/// The layout table ends with the layout that is written today.
pub proof fn law_layouts_end_with_the_current_one()
    ensures
        PARAMS_LAYOUTS@[14] == (ENCODE_VERSION, BOOL_COUNT, FLOAT_COUNT),
        layout_len(PARAMS_LAYOUTS@[14]) == ENCODED_LEN,
{
}

/// The versions of the layout table ascend, and each layout has more flags and more
/// numbers than the ones before it.
pub proof fn law_layouts_only_append(a: int, b: int)
    requires
        0 <= a < b < 15,
    ensures
        PARAMS_LAYOUTS@[a].0 < PARAMS_LAYOUTS@[b].0,
        PARAMS_LAYOUTS@[a].1 < PARAMS_LAYOUTS@[b].1,
        PARAMS_LAYOUTS@[a].2 < PARAMS_LAYOUTS@[b].2,
    decreases b - a,
{
    lemma_layout_table(a);
    lemma_layout_table(b);
    if a + 1 < b {
        law_layouts_only_append(a, b - 1);
    }
}

/// The encoded length of a blob of `version`, or `None` if no layout has that version.
pub fn encoded_len_for_version(version: u8) -> (r: Option<usize>)
    ensures
        r is Some <==> exists|row: int| known_version(row, version),
        forall|row: int|
            known_version(row, version) ==> r == Some(layout_len(PARAMS_LAYOUTS@[row]) as usize),
{
    let layouts = PARAMS_LAYOUTS;
    let mut i: usize = 0;
    while i < 15
        invariant
            i <= 15,
            layouts == PARAMS_LAYOUTS,
            forall|row: int| 0 <= row < i ==> !known_version(row, version),
        decreases 15 - i,
    {
        proof {
            lemma_layout_row(i as int);
        }
        let (v, nb, nf) = layouts[i];
        if v == version {
            assert(known_version(i as int, version));
            assert forall|row: int| known_version(row, version) implies row == i by {
                lemma_layout_row(row);
            }
            return Some(1 + nb + nf * 4);
        }
        i = i + 1;
    }
    None
}

impl PreviewParams {
    /// The blob that stores these parameters.
    pub open spec fn encoded(self) -> Seq<u8> {
        blob(ENCODE_VERSION, self.bools(), self.floats())
    }

    /// Stores the parameters in the current layout.
    pub fn encode(&self) -> (r: Vec<u8>)
        ensures
            r@ == self.encoded(),
            r@.len() == ENCODED_LEN,
    {
        proof {
            lemma_bools(*self);
            lemma_parts(*self);
        }
        let flags: Vec<bool> = self.flag_list();
        let numbers: Vec<F32> = self.number_list();
        let mut v: Vec<u8> = Vec::with_capacity(ENCODED_LEN);
        v.push(ENCODE_VERSION);
        let mut i: usize = 0;
        while i < flags.len()
            invariant
                i <= flags.len(),
                v@ == seq![ENCODE_VERSION] + flags@.take(i as int).map_values(|b: bool| flag_byte(b)),
            decreases flags.len() - i,
        {
            v.push(if flags[i] { 1u8 } else { 0u8 });
            proof {
                assert(flags@.take(i + 1).map_values(|b: bool| flag_byte(b)) =~= flags@.take(
                    i as int,
                ).map_values(|b: bool| flag_byte(b)).push(flag_byte(flags@[i as int])));
            }
            i = i + 1;
        }
        assert(flags@.take(flags@.len() as int) =~= flags@);
        let ghost head = v@;
        let mut k: usize = 0;
        while k < numbers.len()
            invariant
                k <= numbers.len(),
                v@ == head + number_bytes(numbers@.take(k as int)),
            decreases numbers.len() - k,
        {
            push_number(&mut v, numbers[k]);
            proof {
                let xs = numbers@.take(k as int);
                let x = numbers@[k as int];
                assert(numbers@.take(k + 1) =~= xs.push(x));
                assert(number_bytes(xs.push(x)) =~= number_bytes(xs) + number_bytes(seq![x])) by {
                    assert forall|i: int| 0 <= i < 4 * xs.len() + 4 implies number_bytes(xs.push(x))[i]
                        == (number_bytes(xs) + number_bytes(seq![x]))[i] by {
                        if i >= 4 * xs.len() {
                            assert((i - 4 * xs.len()) / 4 == 0 && i / 4 == xs.len());
                            assert((i - 4 * xs.len()) % 4 == i % 4);
                        }
                    }
                }
            }
            k = k + 1;
        }
        assert(numbers@.take(numbers@.len() as int) =~= numbers@);
        v
    }

    /// Reads a blob of any version back. A blob whose version or length matches no
    /// layout gives `None`; what an older blob lacks keeps its default.
    pub fn decode(bytes: &[u8]) -> (r: Option<PreviewParams>)
        ensures
            r == decoded(bytes@),
            match r {
                Some(p) => decodes_to(bytes@, p),
                None => forall|row: int| !fits_layout(row, bytes@),
            },
    {
        let layouts = PARAMS_LAYOUTS;
        let mut i: usize = 0;
        while i < 15
            invariant
                i <= 15,
                layouts == PARAMS_LAYOUTS,
                forall|row: int| 0 <= row < i ==> !fits_layout(row, bytes@),
            decreases 15 - i,
        {
            proof {
                lemma_layout_row(i as int);
            }
            let (v, nb, nf) = layouts[i];
            if bytes.len() == 1 + nb + nf * 4 && bytes[0] == v {
                let p = PreviewParams::decode_counts(bytes, nb, nf);
                assert(stands_for(bytes@, i as int, p));
                proof {
                    lemma_decoded_unique(bytes@, i as int, p);
                }
                return Some(p);
            }
            i = i + 1;
        }
        None
    }

    /// Reads a blob with the given counts: what it holds first, then the defaults.
    fn decode_counts(bytes: &[u8], nb: usize, nf: usize) -> (p: PreviewParams)
        requires
            nb <= 37,
            nf <= 444,
            bytes@.len() == 1 + nb + nf * 4,
        ensures
            p.bools() == stored_flags(bytes@, nb as int) + PreviewParams::defaults().bools().skip(
                nb as int,
            ),
            p.floats() == stored_numbers(bytes@, nb as int, nf as int)
                + PreviewParams::defaults().floats().skip(nf as int),
    {
        let d = PreviewParams::default();
        proof {
            lemma_bools(d);
            lemma_parts(d);
        }
        let mut flags: Vec<bool> = d.flag_list();
        let mut i: usize = 0;
        while i < nb
            invariant
                i <= nb <= 37,
                bytes@.len() >= 1 + nb,
                d.bools().len() == 37,
                flags@ == stored_flags(bytes@, i as int) + d.bools().skip(i as int),
            decreases nb - i,
        {
            flags[i] = bytes[1 + i] != 0;
            assert(flags@ =~= stored_flags(bytes@, i + 1) + d.bools().skip(i + 1));
            i = i + 1;
        }
        let mut numbers: Vec<F32> = d.number_list();
        let mut k: usize = 0;
        while k < nf
            invariant
                k <= nf <= 444,
                nb <= 37,
                bytes@.len() == 1 + nb + nf * 4,
                d.floats().len() == 444,
                numbers@ == stored_numbers(bytes@, nb as int, k as int) + d.floats().skip(k as int),
            decreases nf - k,
        {
            numbers[k] = read_number(bytes, 1 + nb + 4 * k);
            assert(numbers@ =~= stored_numbers(bytes@, nb as int, k + 1) + d.floats().skip(k + 1));
            k = k + 1;
        }
        PreviewParams::from_lists(&flags, &numbers)
    }
}

fn read_number(bytes: &[u8], at: usize) -> (x: F32)
    requires
        at + 4 <= bytes@.len(),
    ensures
        x == number_at(bytes@, at as int),
{
    F32 {
        bits: bytes[at] as u32 + 256 * (bytes[at + 1] as u32) + 65536 * (bytes[at + 2] as u32)
            + 16777216 * (bytes[at + 3] as u32),
    }
}

/// A number is what its four bytes read back as.
proof fn lemma_number_round_trip(xs: Seq<F32>, head: Seq<u8>, i: int)
    requires
        0 <= i < xs.len(),
    ensures
        number_at(head + number_bytes(xs), head.len() + 4 * i) == xs[i],
{
    let s = head + number_bytes(xs);
    let at = head.len() + 4 * i;
    let x = xs[i].bits;
    assert((4 * i) / 4 == i && (4 * i + 1) / 4 == i && (4 * i + 2) / 4 == i && (4 * i + 3) / 4 == i);
    assert(s[at] == number_byte(xs[i], 0));
    assert(s[at + 1] == number_byte(xs[i], 1));
    assert(s[at + 2] == number_byte(xs[i], 2));
    assert(s[at + 3] == number_byte(xs[i], 3));
    assert(x == x % 256 + 256 * (x / 256 % 256) + 65536 * (x / 65536 % 256) + 16777216 * (x
        / 16777216));
}

/// The blob of an edit as an older version wrote it: the first flags and the first numbers.
pub open spec fn older_blob(p: PreviewParams, row: int) -> Seq<u8> {
    blob(
        PARAMS_LAYOUTS@[row].0,
        p.bools().take(PARAMS_LAYOUTS@[row].1 as int),
        p.floats().take(PARAMS_LAYOUTS@[row].2 as int),
    )
}

proof fn lemma_older_blob(p: PreviewParams, row: int)
    requires
        0 <= row < 15,
    ensures
        fits_layout(row, older_blob(p, row)),
        stored_flags(older_blob(p, row), PARAMS_LAYOUTS@[row].1 as int) == p.bools().take(
            PARAMS_LAYOUTS@[row].1 as int,
        ),
        stored_numbers(
            older_blob(p, row),
            PARAMS_LAYOUTS@[row].1 as int,
            PARAMS_LAYOUTS@[row].2 as int,
        ) == p.floats().take(PARAMS_LAYOUTS@[row].2 as int),
{
    lemma_layout_row(row);
    let (version, nb, nf) = PARAMS_LAYOUTS@[row];
    lemma_bools(p);
    lemma_parts(p);
    let flags = p.bools().take(nb as int);
    let numbers = p.floats().take(nf as int);
    let bytes = older_blob(p, row);
    let head = seq![version] + flags.map_values(|b: bool| flag_byte(b));
    assert(bytes == head + number_bytes(numbers));
    assert(bytes[0] == version);
    assert(stored_flags(bytes, nb as int) =~= flags);
    assert(stored_numbers(bytes, nb as int, nf as int) =~= numbers) by {
        assert forall|i: int| 0 <= i < nf implies number_at(bytes, 1 + nb + 4 * i) == numbers[i] by {
            lemma_number_round_trip(numbers, head, i);
        }
    }
}

/// What an older version stored of an edit is read back: the first flags and numbers are
/// those of the edit, and every later one has its default. `read` is what decoding gives.
pub proof fn law_older_blob_keeps_defaults(p: PreviewParams, row: int, read: PreviewParams)
    requires
        0 <= row < 15,
        decodes_to(older_blob(p, row), read),
    ensures
        read.bools() == p.bools().take(PARAMS_LAYOUTS@[row].1 as int)
            + PreviewParams::defaults().bools().skip(PARAMS_LAYOUTS@[row].1 as int),
        read.floats() == p.floats().take(PARAMS_LAYOUTS@[row].2 as int)
            + PreviewParams::defaults().floats().skip(PARAMS_LAYOUTS@[row].2 as int),
{
    let bytes = older_blob(p, row);
    lemma_older_blob(p, row);
    let r = choose|r: int| fits_layout(r, bytes) && #[trigger] stands_for(bytes, r, read);
    lemma_layout_row(row);
    lemma_layout_row(r);
}

/// An edit that uses nothing newer than a layout survives in that layout.
pub proof fn law_edit_survives_in_its_layout(p: PreviewParams, row: int)
    requires
        0 <= row < 15,
        p.bools().skip(PARAMS_LAYOUTS@[row].1 as int) == PreviewParams::defaults().bools().skip(
            PARAMS_LAYOUTS@[row].1 as int,
        ),
        p.floats().skip(PARAMS_LAYOUTS@[row].2 as int) == PreviewParams::defaults().floats().skip(
            PARAMS_LAYOUTS@[row].2 as int,
        ),
    ensures
        decoded(older_blob(p, row)) == Some(p),
{
    lemma_layout_row(row);
    lemma_older_blob(p, row);
    let (_, nb, nf) = PARAMS_LAYOUTS@[row];
    lemma_bools(p);
    lemma_parts(p);
    assert(p.bools() =~= p.bools().take(nb as int) + p.bools().skip(nb as int));
    assert(p.floats() =~= p.floats().take(nf as int) + p.floats().skip(nf as int));
    assert(stands_for(older_blob(p, row), row, p));
    lemma_decoded_unique(older_blob(p, row), row, p);
}

/// Storing an edit and reading it back gives the same edit.
pub proof fn law_decode_undoes_encode(p: PreviewParams)
    ensures
        decoded(p.encoded()) == Some(p),
{
    let d = PreviewParams::defaults();
    lemma_bools(p);
    lemma_parts(p);
    lemma_bools(d);
    lemma_parts(d);
    assert(p.bools().skip(37) =~= d.bools().skip(37));
    assert(p.floats().skip(444) =~= d.floats().skip(444));
    assert(p.bools().take(37) =~= p.bools());
    assert(p.floats().take(444) =~= p.floats());
    law_edit_survives_in_its_layout(p, 14);
}

fn push_number(v: &mut Vec<u8>, x: F32)
    ensures
        final(v)@ == old(v)@ + number_bytes(seq![x]),
{
    v.push((x.bits % 256) as u8);
    v.push((x.bits / 256 % 256) as u8);
    v.push((x.bits / 65536 % 256) as u8);
    v.push((x.bits / 16777216) as u8);
    assert(v@ =~= old(v)@ + number_bytes(seq![x]));
}

/// Every layout: its version, and how many flags and numbers it stores.
pub proof fn law_layout_table()
    ensures
        PARAMS_LAYOUTS@ == seq![
            (12u8, 19usize, 129usize),
            (13u8, 20usize, 133usize),
            (14u8, 21usize, 140usize),
            (15u8, 22usize, 148usize),
            (16u8, 23usize, 164usize),
            (17u8, 24usize, 173usize),
            (18u8, 25usize, 206usize),
            (19u8, 26usize, 213usize),
            (20u8, 28usize, 214usize),
            (21u8, 30usize, 217usize),
            (22u8, 31usize, 220usize),
            (23u8, 33usize, 264usize),
            (24u8, 34usize, 392usize),
            (25u8, 35usize, 438usize),
            (26u8, 37usize, 444usize),
        ],
{
    let t = PARAMS_LAYOUTS;
    assert(t@.len() == 15);
    assert(t@ =~= seq![
        (12u8, 19usize, 129usize),
        (13u8, 20usize, 133usize),
        (14u8, 21usize, 140usize),
        (15u8, 22usize, 148usize),
        (16u8, 23usize, 164usize),
        (17u8, 24usize, 173usize),
        (18u8, 25usize, 206usize),
        (19u8, 26usize, 213usize),
        (20u8, 28usize, 214usize),
        (21u8, 30usize, 217usize),
        (22u8, 31usize, 220usize),
        (23u8, 33usize, 264usize),
        (24u8, 34usize, 392usize),
        (25u8, 35usize, 438usize),
        (26u8, 37usize, 444usize),
    ]);
}

/// What a blob holds, byte by byte: the version, a byte for each flag, and four bytes for the
/// pattern of each number, the lowest first.
pub proof fn law_blob_by_index(p: PreviewParams, i: int)
    ensures
        p.encoded().len() == 1 + 37 + 4 * 444,
        p.encoded()[0] == 26,
        0 <= i < 37 ==> p.encoded()[1 + i] == if p.bools()[i] {
            1u8
        } else {
            0u8
        },
        0 <= i < 444 ==> p.floats()[i].bits == p.encoded()[38 + 4 * i] + 0x100 * p.encoded()[39 + 4
            * i] + 0x1_0000 * p.encoded()[40 + 4 * i] + 0x100_0000 * p.encoded()[41 + 4 * i],
{
    lemma_bools(p);
    lemma_parts(p);
    let head = seq![ENCODE_VERSION] + p.bools().map_values(|b: bool| flag_byte(b));
    assert(p.encoded() == head + number_bytes(p.floats()));
    if 0 <= i < 444 {
        lemma_number_round_trip(p.floats(), head, i);
    }
}

/// What reading a blob gives, flag by flag and number by number: what is stored, and the
/// default of what its layout does not store.
pub proof fn law_read_by_index(bytes: Seq<u8>, p: PreviewParams, row: int, i: int)
    requires
        0 <= row < 15,
        decodes_to(bytes, p),
        bytes[0] == PARAMS_LAYOUTS@[row].0,
    ensures
        bytes.len() == 1 + PARAMS_LAYOUTS@[row].1 + 4 * PARAMS_LAYOUTS@[row].2,
        0 <= i < PARAMS_LAYOUTS@[row].1 ==> (p.bools()[i] <==> bytes[1 + i] != 0),
        PARAMS_LAYOUTS@[row].1 <= i < 37 ==> p.bools()[i] == PreviewParams::defaults().bools()[i],
        0 <= i < PARAMS_LAYOUTS@[row].2 ==> {
            let at = 1 + PARAMS_LAYOUTS@[row].1 + 4 * i;
            p.floats()[i].bits == bytes[at] + 0x100 * bytes[at + 1] + 0x1_0000 * bytes[at + 2]
                + 0x100_0000 * bytes[at + 3]
        },
        PARAMS_LAYOUTS@[row].2 <= i < 444 ==> p.floats()[i]
            == PreviewParams::defaults().floats()[i],
{
    let r = choose|r: int| fits_layout(r, bytes) && #[trigger] stands_for(bytes, r, p);
    lemma_layout_row(row);
    lemma_layout_row(r);
    lemma_bools(PreviewParams::defaults());
    lemma_parts(PreviewParams::defaults());
    let d = PreviewParams::defaults();
    let (nb, nf) = (PARAMS_LAYOUTS@[row].1 as int, PARAMS_LAYOUTS@[row].2 as int);
    assert(r == row);
    assert(p.bools() == stored_flags(bytes, nb) + d.bools().skip(nb));
    assert(p.floats() == stored_numbers(bytes, nb, nf) + d.floats().skip(nf));
}

/// A blob is read exactly where its first byte is the version of a layout and its length is
/// that of the layout.
pub proof fn law_blob_is_read_when(bytes: Seq<u8>)
    ensures
        decoded(bytes) is Some <==> bytes.len() > 0 && exists|row: int|
            0 <= row < 15 && bytes[0] == (#[trigger] PARAMS_LAYOUTS@[row]).0 && bytes.len() == 1
                + PARAMS_LAYOUTS@[row].1 + 4 * PARAMS_LAYOUTS@[row].2,
{
    if exists|row: int| fits_layout(row, bytes) {
        let row = choose|row: int| fits_layout(row, bytes);
        assert(bytes[0] == PARAMS_LAYOUTS@[row].0);
    }
    if bytes.len() > 0 && exists|row: int|
        0 <= row < 15 && bytes[0] == (#[trigger] PARAMS_LAYOUTS@[row]).0 && bytes.len() == 1
            + PARAMS_LAYOUTS@[row].1 + 4 * PARAMS_LAYOUTS@[row].2 {
        let row = choose|row: int|
            0 <= row < 15 && bytes[0] == (#[trigger] PARAMS_LAYOUTS@[row]).0 && bytes.len() == 1
                + PARAMS_LAYOUTS@[row].1 + 4 * PARAMS_LAYOUTS@[row].2;
        assert(fits_layout(row, bytes));
    }
}

} // verus!
