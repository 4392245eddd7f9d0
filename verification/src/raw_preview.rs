//! Which files are camera raws, and how far a decoded raw is scaled down for preview.
use vstd::arithmetic::div_mod::lemma_fundamental_div_mod;
use vstd::prelude::*;

use crate::paths::{extension_of, file_extension, name_of};
use crate::text::{lower_text, lowered, same_text};

verus! {

/// The longest side of a raw preview, in pixels.
pub const PREVIEW_MAX_DIM: usize = 2048;

/// The extensions of camera raw files, in small letters.
pub const RAW_EXTENSIONS: [&'static str; 19] = [
    "orf",
    "cr2",
    "cr3",
    "nef",
    "arw",
    "raf",
    "dng",
    "rw2",
    "pef",
    "srw",
    "raw",
    "3fr",
    "iiq",
    "mrw",
    "dcr",
    "kdc",
    "x3f",
    "nrw",
    "sr2",
];

/// Whether the path's extension, in small letters, is one of those listed.
pub open spec fn extension_listed(path: Seq<char>, extensions: Seq<&str>) -> bool {
    match name_of(path) {
        Some(name) => match extension_of(name) {
            Some(e) => exists|i: int|
                0 <= i < extensions.len() && (#[trigger] extensions[i])@ == lowered(e),
            None => false,
        },
        None => false,
    }
}

/// Whether the path's extension is one of those listed, whatever its case.
pub fn has_extension(path: &str, extensions: &[&str]) -> (r: bool)
    ensures
        r == extension_listed(path@, extensions@),
        r <==> exists|i: int, e: Seq<char>|
            #![trigger extensions@[i], lowered(e)]
            0 <= i < extensions@.len() && name_of(path@) is Some && extension_of(
                name_of(path@)->0,
            ) == Some(e) && extensions@[i]@ == lowered(e),
{
    let e: String = match file_extension(path) {
        Some(e) => lower_text(e.as_str()),
        None => {
            return false;
        },
    };
    let mut i: usize = 0;
    while i < extensions.len()
        invariant
            i <= extensions@.len(),
            name_of(path@) is Some,
            extension_of(name_of(path@)->0) is Some,
            e@ == lowered(extension_of(name_of(path@)->0)->0),
            forall|j: int| 0 <= j < i ==> (#[trigger] extensions@[j])@ != e@,
        decreases extensions@.len() - i,
    {
        if same_text(extensions[i], e.as_str()) {
            return true;
        }
        i = i + 1;
    }
    false
}

/// Whether a path names a camera raw, by its extension.
pub fn is_raw_path(path: &str) -> (r: bool)
    ensures
        r == extension_listed(path@, RAW_EXTENSIONS@),
        r <==> name_of(path@) is Some && extension_of(name_of(path@)->0) is Some && ({
            let e = lowered(extension_of(name_of(path@)->0)->0);
            ||| e == "orf"@
            ||| e == "cr2"@
            ||| e == "cr3"@
            ||| e == "nef"@
            ||| e == "arw"@
            ||| e == "raf"@
            ||| e == "dng"@
            ||| e == "rw2"@
            ||| e == "pef"@
            ||| e == "srw"@
            ||| e == "raw"@
            ||| e == "3fr"@
            ||| e == "iiq"@
            ||| e == "mrw"@
            ||| e == "dcr"@
            ||| e == "kdc"@
            ||| e == "x3f"@
            ||| e == "nrw"@
            ||| e == "sr2"@
        }),
{
    let extensions = RAW_EXTENSIONS;
    proof {
        let t = RAW_EXTENSIONS@;
        assert(t.len() == 19);
        assert(t[0]@ == "orf"@);
        assert(t[1]@ == "cr2"@);
        assert(t[2]@ == "cr3"@);
        assert(t[3]@ == "nef"@);
        assert(t[4]@ == "arw"@);
        assert(t[5]@ == "raf"@);
        assert(t[6]@ == "dng"@);
        assert(t[7]@ == "rw2"@);
        assert(t[8]@ == "pef"@);
        assert(t[9]@ == "srw"@);
        assert(t[10]@ == "raw"@);
        assert(t[11]@ == "3fr"@);
        assert(t[12]@ == "iiq"@);
        assert(t[13]@ == "mrw"@);
        assert(t[14]@ == "dcr"@);
        assert(t[15]@ == "kdc"@);
        assert(t[16]@ == "x3f"@);
        assert(t[17]@ == "nrw"@);
        assert(t[18]@ == "sr2"@);
    }
    has_extension(path, extensions.as_slice())
}

/// How much a frame shrinks so that its longest side is at most `max_dim`.
pub open spec fn shrink_factor(width: int, height: int, max_dim: int) -> int {
    let longest = if width < height { height } else { width };
    let limit = if max_dim < 1 { 1 } else { max_dim };
    let needed = (longest + limit - 1) / limit;
    if needed < 1 { 1 } else { needed }
}

/// The factor by which a raw preview is scaled down: the longest side over the limit,
/// rounded up, and one at least.
pub fn preview_factor(width: usize, height: usize, max_dim: usize) -> (r: usize)
    ensures
        r == shrink_factor(width as int, height as int, max_dim as int),
        r >= 1,
        width <= r * max_dim || max_dim == 0,
        height <= r * max_dim || max_dim == 0,
        r > 1 && max_dim > 0 ==> (r - 1) * max_dim < width || (r - 1) * max_dim < height,
{
    let longest: usize = if width < height { height } else { width };
    let limit: usize = if max_dim < 1 { 1 } else { max_dim };
    let (q, rem) = (longest / limit, longest % limit);
    proof {
        let (a, b) = (longest as int, limit as int);
        lemma_fundamental_div_mod(a, b);
        assert(q as int == a / b && rem as int == a % b);
        if rem == 0 {
            assert(a + b - 1 == q * b + (b - 1)) by (nonlinear_arith)
                requires
                    a == b * q + 0,
            ;
            vstd::arithmetic::div_mod::lemma_fundamental_div_mod_converse(
                a + b - 1,
                b,
                q as int,
                b - 1,
            );
        } else {
            assert(a + b - 1 == (q + 1) * b + (rem - 1)) by (nonlinear_arith)
                requires
                    a == b * q + rem,
            ;
            vstd::arithmetic::div_mod::lemma_fundamental_div_mod_converse(
                a + b - 1,
                b,
                q + 1,
                rem - 1,
            );
        }
        assert(rem > 0 ==> q < usize::MAX) by {
            if rem > 0 {
                assert(q <= a) by (nonlinear_arith)
                    requires
                        a == b * q + rem,
                        b >= 1,
                        rem >= 0,
                        q >= 0,
                ;
                assert(q < a) by (nonlinear_arith)
                    requires
                        a == b * q + rem,
                        b >= 1,
                        rem >= 1,
                        q >= 0,
                ;
            }
        }
    }
    let needed: usize = if rem == 0 { q } else { q + 1 };
    proof {
        if max_dim > 0 {
            law_factor_is_the_smallest(width as int, height as int, max_dim as int);
        }
    }
    if needed < 1 {
        1
    } else {
        needed
    }
}

/// The size of a frame after it is scaled down: whole blocks only.
pub fn downscaled_size(width: usize, height: usize, factor: usize) -> (r: (usize, usize))
    ensures
        ({
            let f = if factor < 1 { 1int } else { factor as int };
            r.0 == width as int / f && r.1 == height as int / f
        }),
{
    let f: usize = if factor < 1 { 1 } else { factor };
    (width / f, height / f)
}

/// A preview scaled down by its factor keeps within the limit on both sides.
pub proof fn law_preview_fits_the_limit(width: int, height: int, max_dim: int)
    requires
        0 <= width,
        0 <= height,
        1 <= max_dim,
    ensures
        shrink_factor(width, height, max_dim) >= 1,
        width / shrink_factor(width, height, max_dim) <= max_dim,
        height / shrink_factor(width, height, max_dim) <= max_dim,
{
    let longest = if width < height { height } else { width };
    let f = shrink_factor(width, height, max_dim);
    lemma_fundamental_div_mod(longest + max_dim - 1, max_dim);
    let q = (longest + max_dim - 1) / max_dim;
    assert(longest <= max_dim * q) by (nonlinear_arith)
        requires
            longest + max_dim - 1 == max_dim * q + (longest + max_dim - 1) % max_dim,
            (longest + max_dim - 1) % max_dim < max_dim,
    ;
    assert(longest <= max_dim * f) by (nonlinear_arith)
        requires
            longest <= max_dim * q,
            q <= f,
            1 <= max_dim,
    ;
    lemma_quotient_bound(width, f, max_dim);
    lemma_quotient_bound(height, f, max_dim);
}

/// The factor is the smallest one by which both sides shrink to the limit, fractions
/// counted: any smaller one leaves a side too long.
pub proof fn law_factor_is_the_smallest(width: int, height: int, max_dim: int)
    requires
        0 <= width,
        0 <= height,
        1 <= max_dim,
    ensures
        width <= shrink_factor(width, height, max_dim) * max_dim,
        height <= shrink_factor(width, height, max_dim) * max_dim,
        forall|f: int|
            1 <= f < shrink_factor(width, height, max_dim) ==> #[trigger] (f * max_dim) < width || f
                * max_dim < height,
{
    let longest = if width < height { height } else { width };
    let q = (longest + max_dim - 1) / max_dim;
    let f = shrink_factor(width, height, max_dim);
    lemma_fundamental_div_mod(longest + max_dim - 1, max_dim);
    assert(longest <= q * max_dim && (q - 1) * max_dim < longest) by (nonlinear_arith)
        requires
            longest + max_dim - 1 == max_dim * q + (longest + max_dim - 1) % max_dim,
            0 <= (longest + max_dim - 1) % max_dim < max_dim,
    ;
    assert(longest <= f * max_dim) by (nonlinear_arith)
        requires
            longest <= q * max_dim,
            q <= f,
            1 <= max_dim,
    ;
    assert forall|g: int| 1 <= g < f implies #[trigger] (g * max_dim) < longest by {
        assert(g * max_dim <= (q - 1) * max_dim) by (nonlinear_arith)
            requires
                g <= q - 1,
                1 <= max_dim,
        ;
    }
}

proof fn lemma_quotient_bound(a: int, f: int, limit: int)
    requires
        0 <= a <= limit * f,
        1 <= f,
    ensures
        a / f <= limit,
{
    lemma_fundamental_div_mod(a, f);
    assert(a / f <= limit) by (nonlinear_arith)
        requires
            a == f * (a / f) + a % f,
            0 <= a % f,
            a <= limit * f,
            1 <= f,
    ;
}

/// Which pixel of an image is the one at column `bx` and row `by` of the block that is
/// averaged into the pixel at column `ox` and row `oy` of the smaller image.
pub fn block_pixel(
    width: usize,
    height: usize,
    factor: usize,
    ox: usize,
    oy: usize,
    bx: usize,
    by: usize,
) -> (r: usize)
    requires
        width * height <= usize::MAX,
        factor >= 1,
        ox < width as int / factor as int,
        oy < height as int / factor as int,
        bx < factor,
        by < factor,
    ensures
        r == (oy * factor + by) * width + (ox * factor + bx),
        r < width * height,
{
    proof {
        lemma_block_inside(width as int, factor as int, ox as int, bx as int);
        lemma_block_inside(height as int, factor as int, oy as int, by as int);
        let (x, y) = (ox * factor + bx, oy * factor + by);
        assert(0 <= ox * factor && 0 <= oy * factor) by (nonlinear_arith);
        assert(0 <= y * width && y * width + x < width * height) by (nonlinear_arith)
            requires
                0 <= x < width,
                0 <= y < height,
        ;
    }
    (oy * factor + by) * width + (ox * factor + bx)
}

proof fn lemma_block_inside(len: int, factor: int, o: int, b: int)
    requires
        factor >= 1,
        0 <= o < len / factor,
        0 <= b < factor,
    ensures
        o * factor + b < len,
{
    lemma_fundamental_div_mod(len, factor);
    let q = len / factor;
    assert(o * factor + factor <= q * factor) by (nonlinear_arith)
        requires
            o + 1 <= q,
            factor >= 1,
    ;
    assert(factor * q == q * factor) by (nonlinear_arith);
}

} // verus!
