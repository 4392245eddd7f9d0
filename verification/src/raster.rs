//! Interleaved eight-bit images: histogram, colour picking, repacking, and taking the
//! colour out of an image and putting it back.
//!
//! An image is a buffer with a width, a height, a row stride in bytes and a channel
//! count. Up to three channels are colour; a fourth is alpha. An image with fewer than
//! three colour channels repeats its last one where colours are missing; its histogram is
//! that of the last channel, three times over.
use vstd::arithmetic::div_mod::lemma_fundamental_div_mod_converse;
use vstd::prelude::*;

verus! {

/// Three histograms of 256 bins: red, green and blue.
pub type Histogram = [[u32; 256]; 3];

/// The colour channels of an image with this many channels.
pub open spec fn colour_channels(nch: int) -> int {
    if nch < 3 { nch } else { 3 }
}

/// The channel that stands for colour `c`.
pub open spec fn source_channel(nch: int, c: int) -> int {
    if c < colour_channels(nch) { c } else { colour_channels(nch) - 1 }
}

/// The channel that is counted for colour `c`: its own, or the last one for all three
/// colours if there are fewer than three channels.
pub open spec fn counted_channel(nch: int, c: int) -> int {
    if nch < 3 { nch - 1 } else { c }
}

/// Where the pixel at column `x` of row `y` begins.
pub open spec fn pixel_at(rowstride: int, nch: int, x: int, y: int) -> int {
    y * rowstride + x * nch
}

/// Whether there is anything to process: no dimension is zero, and the buffer holds the
/// last pixel of the last row.
pub open spec fn holds_image(len: int, width: int, height: int, rowstride: int, nch: int) -> bool {
    &&& 0 < nch
    &&& 0 < width
    &&& 0 < height
    &&& (height - 1) * rowstride + width * nch <= len
}

/// The values that are counted for colour `c`, pixel after pixel and row after row.
pub open spec fn samples(
    buf: Seq<u8>,
    width: int,
    height: int,
    rowstride: int,
    nch: int,
    c: int,
) -> Seq<u8> {
    Seq::new(
        (width * height) as nat,
        |i: int| buf[pixel_at(rowstride, nch, i % width, i / width) + counted_channel(nch, c)],
    )
}

/// The place of column `x` of row `y` in a list of pixels, and back.
proof fn lemma_pixel_index(width: int, x: int, y: int)
    requires
        0 <= x < width,
        0 <= y,
    ensures
        0 <= y * width + x,
        (y * width + x) % width == x,
        (y * width + x) / width == y,
{
    assert(0 <= y * width) by (nonlinear_arith)
        requires
            0 <= y,
            0 <= width,
    ;
    lemma_fundamental_div_mod_converse(y * width + x, width, y, x);
}

/// A pixel of an image that the buffer holds lies inside the buffer.
proof fn lemma_pixel_inside(
    len: int,
    width: int,
    height: int,
    rowstride: int,
    nch: int,
    x: int,
    y: int,
)
    requires
        holds_image(len, width, height, rowstride, nch),
        0 <= rowstride,
        0 <= x < width,
        0 <= y < height,
    ensures
        0 <= y * rowstride <= len,
        0 <= x * nch <= len,
        0 <= pixel_at(rowstride, nch, x, y),
        pixel_at(rowstride, nch, x, y) + nch <= len,
{
    assert(0 <= y * rowstride <= (height - 1) * rowstride) by (nonlinear_arith)
        requires
            0 <= y <= height - 1,
            0 <= rowstride,
    ;
    assert(0 <= x * nch && x * nch + nch <= width * nch) by (nonlinear_arith)
        requires
            0 <= x,
            x + 1 <= width,
            0 < nch,
    ;
}

/// `a * b + c * d`, or `None` if it does not fit.
fn sum_of_products(a: usize, b: usize, c: usize, d: usize) -> (r: Option<usize>)
    ensures
        r is Some <==> a * b + c * d <= usize::MAX,
        r is Some ==> r->0 == a * b + c * d,
{
    assert(0 <= a * b && 0 <= c * d) by (nonlinear_arith)
        requires
            0 <= a,
            0 <= b,
            0 <= c,
            0 <= d,
    ;
    match (a.checked_mul(b), c.checked_mul(d)) {
        (Some(p), Some(q)) => p.checked_add(q),
        _ => None,
    }
}

/// Whether there is an image to process in a buffer of this length.
pub fn has_image(len: usize, width: usize, height: usize, rowstride: usize, nch: usize) -> (r: bool)
    ensures
        r == holds_image(
            len as int,
            width as int,
            height as int,
            rowstride as int,
            nch as int,
        ),
        r <==> 0 < nch && 0 < width && 0 < height && (height - 1) * rowstride + width * nch <= len,
{
    if nch == 0 || width == 0 || height == 0 {
        return false;
    }
    match sum_of_products(height - 1, rowstride, width, nch) {
        Some(need) => need <= len,
        None => false,
    }
}

/// The channel that stands for colour `c`.
fn channel_for(nch: usize, c: usize) -> (r: usize)
    requires
        0 < nch,
    ensures
        r == source_channel(nch as int, c as int),
        r < nch,
        r < 3,
{
    let colour: usize = if nch < 3 { nch } else { 3 };
    if c < colour {
        c
    } else {
        colour - 1
    }
}

/// The bins of one list of values: how often each value occurs.
pub open spec fn counts(bins: Seq<u32>, values: Seq<u8>) -> bool {
    &&& bins.len() == 256
    &&& forall|v: int|
        0 <= v < 256 ==> #[trigger] bins[v] == values.to_multiset().count(v as u8)
}

/// Counts one more value.
fn count_value(bins: &mut [u32; 256], v: u8, Ghost(values): Ghost<Seq<u8>>)
    requires
        counts(old(bins)@, values),
        values.len() < u32::MAX,
    ensures
        counts(final(bins)@, values.push(v)),
{
    broadcast use vstd::seq_lib::group_to_multiset_ensures;

    broadcast use vstd::multiset::group_multiset_axioms;

    assert(values.to_multiset().count(v) <= values.to_multiset().len());
    let i: usize = v as usize;
    let n: u32 = bins[i];
    bins[i] = n + 1;
    assert(values.push(v).to_multiset() =~= values.to_multiset().insert(v));
}

/// The histogram of an image. A degenerate image, or a buffer too short for it, has
/// nothing but zeros.
pub fn compute_histogram(
    buf: &[u8],
    width: usize,
    height: usize,
    rowstride: usize,
    nch: usize,
) -> (h: Histogram)
    requires
        holds_image(
            buf@.len() as int,
            width as int,
            height as int,
            rowstride as int,
            nch as int,
        ) ==> width * height <= u32::MAX,
    ensures
        holds_image(
            buf@.len() as int,
            width as int,
            height as int,
            rowstride as int,
            nch as int,
        ) ==> forall|c: int|
            0 <= c < 3 ==> counts(
                #[trigger] h@[c]@,
                samples(buf@, width as int, height as int, rowstride as int, nch as int, c),
            ),
        holds_image(
            buf@.len() as int,
            width as int,
            height as int,
            rowstride as int,
            nch as int,
        ) ==> forall|c: int, v: int, found: Set<(int, int)>|
            #![trigger h@[c]@[v], found.len()]
            0 <= c < 3 && 0 <= v < 256 && (forall|p: (int, int)| #[trigger]
                found.contains(p) <==> 0 <= p.0 < width && 0 <= p.1 < height && buf@[p.1 * rowstride
                    + p.0 * nch + (if nch < 3 {
                    nch - 1
                } else {
                    c
                })] == v) ==> h@[c]@[v] == found.len(),
        !holds_image(
            buf@.len() as int,
            width as int,
            height as int,
            rowstride as int,
            nch as int,
        ) ==> forall|c: int, v: int| 0 <= c < 3 && 0 <= v < 256 ==> #[trigger] h@[c]@[v] == 0,
{
    let mut red: [u32; 256] = [0;256];
    let mut green: [u32; 256] = [0;256];
    let mut blue: [u32; 256] = [0;256];
    if !has_image(buf.len(), width, height, rowstride, nch) {
        return [red, green, blue];
    }
    let ghost (w, ht, s, n) = (width as int, height as int, rowstride as int, nch as int);
    let ghost (rs, gs, bs) = (
        samples(buf@, w, ht, s, n, 0),
        samples(buf@, w, ht, s, n, 1),
        samples(buf@, w, ht, s, n, 2),
    );
    let (cr, cg, cb): (usize, usize, usize) = if nch < 3 {
        (nch - 1, nch - 1, nch - 1)
    } else {
        (0, 1, 2)
    };
    proof {
        broadcast use vstd::seq_lib::group_to_multiset_ensures;
        broadcast use vstd::multiset::group_multiset_axioms;

        assert(0 * w == 0);
        assert(rs.take(0) =~= Seq::<u8>::empty());
        assert(gs.take(0) =~= Seq::<u8>::empty());
        assert(bs.take(0) =~= Seq::<u8>::empty());
    }
    let mut y: usize = 0;
    while y < height
        invariant
            y <= height,
            w == width,
            ht == height,
            s == rowstride,
            n == nch,
            holds_image(buf@.len() as int, w, ht, s, n),
            w * ht <= u32::MAX,
            rs == samples(buf@, w, ht, s, n, 0),
            gs == samples(buf@, w, ht, s, n, 1),
            bs == samples(buf@, w, ht, s, n, 2),
            cr == counted_channel(n, 0) && cr < nch,
            cg == counted_channel(n, 1) && cg < nch,
            cb == counted_channel(n, 2) && cb < nch,
            counts(red@, rs.take(y * w)),
            counts(green@, gs.take(y * w)),
            counts(blue@, bs.take(y * w)),
        decreases height - y,
    {
        let mut x: usize = 0;
        assert(y * w + 0 == y * w);
        while x < width
            invariant
                x <= width,
                y < height,
                w == width,
                ht == height,
                s == rowstride,
                n == nch,
                holds_image(buf@.len() as int, w, ht, s, n),
                w * ht <= u32::MAX,
                rs == samples(buf@, w, ht, s, n, 0),
                gs == samples(buf@, w, ht, s, n, 1),
                bs == samples(buf@, w, ht, s, n, 2),
                cr == counted_channel(n, 0) && cr < nch,
                cg == counted_channel(n, 1) && cg < nch,
                cb == counted_channel(n, 2) && cb < nch,
                counts(red@, rs.take(y * w + x)),
                counts(green@, gs.take(y * w + x)),
                counts(blue@, bs.take(y * w + x)),
            decreases width - x,
        {
            let ghost k = y * w + x;
            proof {
                lemma_pixel_index(w, x as int, y as int);
                lemma_pixel_inside(buf@.len() as int, w, ht, s, n, x as int, y as int);
                assert(k < w * ht) by (nonlinear_arith)
                    requires
                        k == y * w + x,
                        x < w,
                        y + 1 <= ht,
                        0 <= y,
                ;
            }
            assert(y * rowstride <= buf.len() && x * nch <= buf.len()) by {
                lemma_pixel_inside(
                    buf@.len() as int,
                    width as int,
                    height as int,
                    rowstride as int,
                    nch as int,
                    x as int,
                    y as int,
                );
            }
            let p: usize = y * rowstride + x * nch;
            count_value(&mut red, buf[p + cr], Ghost(rs.take(k)));
            count_value(&mut green, buf[p + cg], Ghost(gs.take(k)));
            count_value(&mut blue, buf[p + cb], Ghost(bs.take(k)));
            proof {
                assert(rs.take(k + 1) =~= rs.take(k).push(buf@[p + cr]));
                assert(gs.take(k + 1) =~= gs.take(k).push(buf@[p + cg]));
                assert(bs.take(k + 1) =~= bs.take(k).push(buf@[p + cb]));
            }
            x = x + 1;
        }
        assert((y + 1) * w == y * w + w) by (nonlinear_arith);
        y = y + 1;
    }
    proof {
        assert(ht * w == w * ht) by (nonlinear_arith);
        assert(rs.take(ht * w) =~= rs);
        assert(gs.take(ht * w) =~= gs);
        assert(bs.take(ht * w) =~= bs);
    }
    let h: Histogram = [red, green, blue];
    proof {
        assert forall|c: int, v: int, found: Set<(int, int)>|
            #![trigger h@[c]@[v], found.len()]
            0 <= c < 3 && 0 <= v < 256 && (forall|p: (int, int)| #[trigger]
                found.contains(p) <==> 0 <= p.0 < width && 0 <= p.1 < height && buf@[p.1 * rowstride
                    + p.0 * nch + (if nch < 3 {
                    nch - 1
                } else {
                    c
                })] == v) implies h@[c]@[v] == found.len() by {
            assert(counts(h@[c]@, samples(buf@, w, ht, s, n, c)));
            law_bin_is_the_number_of_pixels(buf@, w, ht, s, n, c, h@[c]@, v, found);
        }
    }
    h
}

/// The pixels among the first `k` whose byte `ch` is `v`, by column and row.
spec fn pixels_with(
    buf: Seq<u8>,
    width: int,
    rowstride: int,
    nch: int,
    ch: int,
    v: int,
    k: int,
) -> Set<(int, int)> {
    Set::new(
        |p: (int, int)|
            0 <= p.0 < width && 0 <= p.1 && p.1 * width + p.0 < k && buf[p.1 * rowstride + p.0 * nch
                + ch] == v,
    )
}

proof fn lemma_pixels_with(
    buf: Seq<u8>,
    width: int,
    height: int,
    rowstride: int,
    nch: int,
    c: int,
    v: int,
    k: int,
)
    requires
        0 < width,
        0 <= k <= width * height,
        0 <= v < 256,
    ensures
        pixels_with(buf, width, rowstride, nch, counted_channel(nch, c), v, k).finite(),
        pixels_with(buf, width, rowstride, nch, counted_channel(nch, c), v, k).len() == samples(
            buf,
            width,
            height,
            rowstride,
            nch,
            c,
        ).take(k).to_multiset().count(v as u8),
    decreases k,
{
    broadcast use vstd::seq_lib::group_to_multiset_ensures;
    broadcast use vstd::multiset::group_multiset_axioms;

    let values = samples(buf, width, height, rowstride, nch, c);
    let ch = counted_channel(nch, c);
    let found = pixels_with(buf, width, rowstride, nch, ch, v, k);
    if k == 0 {
        assert(values.take(0) =~= Seq::<u8>::empty());
        assert forall|p: (int, int)| !found.contains(p) by {
            if found.contains(p) {
                lemma_pixel_index(width, p.0, p.1);
            }
        }
        assert(found =~= Set::empty());
    } else {
        let i = k - 1;
        lemma_pixels_with(buf, width, height, rowstride, nch, c, v, i);
        let before = pixels_with(buf, width, rowstride, nch, ch, v, i);
        let (x, y) = (i % width, i / width);
        vstd::arithmetic::div_mod::lemma_fundamental_div_mod(i, width);
        assert(width * y == y * width) by (nonlinear_arith);
        assert(0 <= y) by (nonlinear_arith)
            requires
                i == width * y + x,
                0 <= i,
                0 <= x < width,
        ;
        assert(values.take(k) =~= values.take(i).push(values[i]));
        assert(values.take(k).to_multiset() =~= values.take(i).to_multiset().insert(values[i]));
        assert forall|p: (int, int)| found.contains(p) && p != (x, y) implies before.contains(
            p,
        ) by {
            lemma_pixel_index(width, p.0, p.1);
        }
        if values[i] == v {
            assert(found =~= before.insert((x, y)));
        } else {
            assert(found =~= before);
        }
    }
}

/// Each bin of a histogram is the number of pixels whose byte of that colour has its value:
/// every row is read at its own offset.
pub proof fn law_bin_is_the_number_of_pixels(
    buf: Seq<u8>,
    width: int,
    height: int,
    rowstride: int,
    nch: int,
    c: int,
    bins: Seq<u32>,
    v: int,
    found: Set<(int, int)>,
)
    requires
        0 < width,
        0 <= height,
        0 <= v < 256,
        counts(bins, samples(buf, width, height, rowstride, nch, c)),
        forall|p: (int, int)| #[trigger]
            found.contains(p) <==> 0 <= p.0 < width && 0 <= p.1 < height && buf[p.1 * rowstride
                + p.0 * nch + (if nch < 3 {
                nch - 1
            } else {
                c
            })] == v,
    ensures
        bins[v] == found.len(),
{
    let values = samples(buf, width, height, rowstride, nch, c);
    let k = width * height;
    let ch = counted_channel(nch, c);
    assert(0 <= k) by (nonlinear_arith)
        requires
            k == width * height,
            0 < width,
            0 <= height,
    ;
    lemma_pixels_with(buf, width, height, rowstride, nch, c, v, k);
    assert(values.take(k) =~= values);
    assert(pixels_with(buf, width, rowstride, nch, ch, v, k) =~= found) by {
        assert forall|p: (int, int)| 0 <= p.0 < width && 0 <= p.1 implies (p.1 * width + p.0 < k
            <==> p.1 < height) by {
            let (x, y) = p;
            assert(y * width + x < k <==> y < height) by (nonlinear_arith)
                requires
                    k == width * height,
                    0 <= x < width,
                    0 <= y,
            ;
        }
    }
}

/// Where rows do not overlap, two pixels that begin at one place are the same pixel.
proof fn lemma_pixels_apart(
    width: int,
    rowstride: int,
    nch: int,
    x: int,
    y: int,
    other_x: int,
    other_y: int,
)
    requires
        0 < nch,
        width * nch <= rowstride,
        0 <= x < width,
        0 <= other_x < width,
        y * rowstride + x * nch == other_y * rowstride + other_x * nch,
    ensures
        x == other_x,
        y == other_y,
{
    assert(y == other_y) by (nonlinear_arith)
        requires
            0 < nch,
            width * nch <= rowstride,
            0 <= x < width,
            0 <= other_x < width,
            y * rowstride + x * nch == other_y * rowstride + other_x * nch,
    {
        let (a, b) = (x * nch, other_x * nch);
        assert(0 <= a < rowstride && 0 <= b < rowstride);
        assert((y - other_y) * rowstride == b - a);
        if y > other_y {
            assert((y - other_y) * rowstride >= rowstride);
        }
        if y < other_y {
            assert((other_y - y) * rowstride >= rowstride);
        }
    }
    assert(x == other_x) by (nonlinear_arith)
        requires
            0 < nch,
            x * nch == other_x * nch,
    ;
}

/// Changing one colour byte of one pixel, in whatever row, moves one count from its old bin
/// to its new one and leaves the other bins alone, where rows do not overlap.
pub proof fn law_changed_byte_moves_one_count(
    before: Seq<u8>,
    after: Seq<u8>,
    width: int,
    height: int,
    rowstride: int,
    nch: int,
    c: int,
    x: int,
    y: int,
    bins: Seq<u32>,
    bins_after: Seq<u32>,
    v: int,
)
    requires
        3 <= nch,
        width * nch <= rowstride,
        0 <= c < 3,
        0 <= x < width,
        0 <= y < height,
        forall|k: int|
            k != y * rowstride + x * nch + c ==> #[trigger] before[k] == after[k],
        before[y * rowstride + x * nch + c] != after[y * rowstride + x * nch + c],
        counts(bins, samples(before, width, height, rowstride, nch, c)),
        counts(bins_after, samples(after, width, height, rowstride, nch, c)),
        0 <= v < 256,
    ensures
        v == before[y * rowstride + x * nch + c] ==> bins_after[v] == bins[v] - 1,
        v == after[y * rowstride + x * nch + c] ==> bins_after[v] == bins[v] + 1,
        v != before[y * rowstride + x * nch + c] && v != after[y * rowstride + x * nch + c]
            ==> bins_after[v] == bins[v],
{
    broadcast use vstd::seq_lib::group_to_multiset_ensures;
    broadcast use vstd::multiset::group_multiset_axioms;

    let at = y * rowstride + x * nch + c;
    let i = y * width + x;
    let was = samples(before, width, height, rowstride, nch, c);
    let now = samples(after, width, height, rowstride, nch, c);
    lemma_pixel_index(width, x, y);
    assert(i < width * height) by (nonlinear_arith)
        requires
            i == y * width + x,
            0 <= x < width,
            0 <= y < height,
    ;
    assert forall|j: int| 0 <= j < width * height && j != i implies was[j] == now[j] by {
        let (jx, jy) = (j % width, j / width);
        vstd::arithmetic::div_mod::lemma_fundamental_div_mod(j, width);
        assert(width * jy == jy * width) by (nonlinear_arith);
        if jy * rowstride + jx * nch == y * rowstride + x * nch {
            lemma_pixels_apart(width, rowstride, nch, jx, jy, x, y);
        }
        assert(jy * rowstride + jx * nch + c != at);
    }
    assert(was[i] == before[at] && now[i] == after[at]);
    assert(now =~= was.update(i, after[at]));
    vstd::seq_lib::to_multiset_update(was, i, after[at]);
}

/// The sum of the first `n` bins.
pub open spec fn bin_sum(bins: Seq<u32>, n: int) -> int
    decreases n,
{
    if n <= 0 {
        0
    } else {
        bin_sum(bins, n - 1) + bins[n - 1]
    }
}

/// How many of the values lie below `n`.
spec fn below(values: Seq<u8>, n: int) -> int
    decreases values.len(),
{
    if values.len() == 0 {
        0
    } else {
        below(values.drop_last(), n) + if values.last() < n { 1int } else { 0 }
    }
}

proof fn lemma_below_step(values: Seq<u8>, n: int)
    requires
        0 <= n < 256,
    ensures
        below(values, n + 1) == below(values, n) + values.to_multiset().count(n as u8),
    decreases values.len(),
{
    broadcast use vstd::seq_lib::group_to_multiset_ensures;
    broadcast use vstd::multiset::group_multiset_axioms;

    if values.len() > 0 {
        let rest = values.drop_last();
        lemma_below_step(rest, n);
        assert(values =~= rest.push(values.last()));
        assert(values.to_multiset() =~= rest.to_multiset().insert(values.last()));
    } else {
        assert(values =~= Seq::empty());
    }
}

proof fn lemma_bin_sum(bins: Seq<u32>, values: Seq<u8>, n: int)
    requires
        counts(bins, values),
        0 <= n <= 256,
    ensures
        bin_sum(bins, n) == below(values, n),
    decreases n,
{
    if n > 0 {
        lemma_bin_sum(bins, values, n - 1);
        lemma_below_step(values, n - 1);
    } else {
        lemma_below_ends(values);
    }
}

proof fn lemma_below_ends(values: Seq<u8>)
    ensures
        below(values, 0) == 0,
        below(values, 256) == values.len(),
    decreases values.len(),
{
    if values.len() > 0 {
        lemma_below_ends(values.drop_last());
    }
}

/// The bins of one colour add up to the number of pixels.
pub proof fn law_histogram_counts_every_pixel(bins: Seq<u32>, values: Seq<u8>)
    requires
        counts(bins, values),
    ensures
        bin_sum(bins, 256) == values.len(),
{
    lemma_bin_sum(bins, values, 256);
    lemma_below_ends(values);
}

/// The colour of a pixel, if it lies in the image and in the buffer.
pub open spec fn pixel_colour(
    buf: Seq<u8>,
    width: int,
    height: int,
    rowstride: int,
    nch: int,
    x: int,
    y: int,
) -> Option<(u8, u8, u8)> {
    let p = pixel_at(rowstride, nch, x, y);
    if nch == 0 || x >= width || y >= height || p + colour_channels(nch) > buf.len() {
        None
    } else {
        Some(
            (
                buf[p + source_channel(nch, 0)],
                buf[p + source_channel(nch, 1)],
                buf[p + source_channel(nch, 2)],
            ),
        )
    }
}

/// The colour of the pixel at column `x` of row `y`. `None` if it lies outside the image
/// or the buffer ends before it.
pub fn sample_pixel(
    buf: &[u8],
    width: usize,
    height: usize,
    rowstride: usize,
    nch: usize,
    x: usize,
    y: usize,
) -> (r: Option<(u8, u8, u8)>)
    ensures
        r == pixel_colour(
            buf@,
            width as int,
            height as int,
            rowstride as int,
            nch as int,
            x as int,
            y as int,
        ),
        r is Some <==> 0 < nch && x < width && y < height && y * rowstride + x * nch + (if nch < 3 {
            nch as int
        } else {
            3
        }) <= buf@.len(),
        r is Some && nch >= 3 ==> r->0 == (
            buf@[y * rowstride + x * nch],
            buf@[y * rowstride + x * nch + 1],
            buf@[y * rowstride + x * nch + 2],
        ),
        r is Some && nch == 2 ==> r->0 == (
            buf@[y * rowstride + x * nch],
            buf@[y * rowstride + x * nch + 1],
            buf@[y * rowstride + x * nch + 1],
        ),
        r is Some && nch == 1 ==> r->0 == (
            buf@[y * rowstride + x * nch],
            buf@[y * rowstride + x * nch],
            buf@[y * rowstride + x * nch],
        ),
{
    if nch == 0 || x >= width || y >= height {
        return None;
    }
    let colour: usize = if nch < 3 { nch } else { 3 };
    let len: usize = buf.len();
    match sum_of_products(y, rowstride, x, nch) {
        Some(p) => {
            if p > len || colour > len - p {
                None
            } else {
                assert(p == pixel_at(rowstride as int, nch as int, x as int, y as int));
                Some(
                    (
                        buf[p + channel_for(nch, 0)],
                        buf[p + channel_for(nch, 1)],
                        buf[p + channel_for(nch, 2)],
                    ),
                )
            }
        },
        None => None,
    }
}

/// A pixel that an image of three or more channels holds is picked as the three bytes at its
/// place in its row, and each pixel has its own: where rows do not overlap, what is stored of
/// another pixel has no say.
pub proof fn law_pick_reads_its_own_pixel(
    buf: Seq<u8>,
    other: Seq<u8>,
    width: int,
    height: int,
    rowstride: int,
    nch: int,
    x: int,
    y: int,
)
    requires
        3 <= nch,
        0 <= x < width,
        0 <= y < height,
        0 <= rowstride,
        holds_image(buf.len() as int, width, height, rowstride, nch),
    ensures
        pixel_colour(buf, width, height, rowstride, nch, x, y) == Some(
            (
                buf[y * rowstride + x * nch],
                buf[y * rowstride + x * nch + 1],
                buf[y * rowstride + x * nch + 2],
            ),
        ),
        other.len() == buf.len() && (forall|k: int|
            0 <= k - (y * rowstride + x * nch) < 3 ==> #[trigger] other[k] == buf[k])
            ==> pixel_colour(other, width, height, rowstride, nch, x, y) == pixel_colour(
            buf,
            width,
            height,
            rowstride,
            nch,
            x,
            y,
        ),
{
    lemma_pixel_inside(buf.len() as int, width, height, rowstride, nch, x, y);
}

/// The byte at place `i` of a packed image: blue, green, red and 255 for each pixel that
/// the source holds, and zero anywhere else.
pub open spec fn packed_byte(
    src: Seq<u8>,
    width: int,
    height: int,
    rowstride: int,
    nch: int,
    dst_stride: int,
    i: int,
) -> u8 {
    let (y, o) = (i / dst_stride, i % dst_stride);
    match pixel_colour(src, width, height, rowstride, nch, o / 4, y) {
        Some((r, g, b)) => if o % 4 == 0 {
            b
        } else if o % 4 == 1 {
            g
        } else if o % 4 == 2 {
            r
        } else {
            255
        },
        None => 0,
    }
}

/// Packs an image into rows of four-byte pixels, blue first. A pixel past the end of the
/// source stays black, as does the padding of each row.
pub fn pack_rgb24(
    src: &[u8],
    width: usize,
    height: usize,
    rowstride: usize,
    nch: usize,
    dst_stride: usize,
) -> (data: Vec<u8>)
    requires
        width * 4 <= dst_stride,
        dst_stride * height <= usize::MAX,
    ensures
        data@.len() == dst_stride * height,
        forall|i: int|
            0 <= i < data@.len() ==> #[trigger] data@[i] == packed_byte(
                src@,
                width as int,
                height as int,
                rowstride as int,
                nch as int,
                dst_stride as int,
                i,
            ),
{
    let ghost (w, ht, s, n, d) = (
        width as int,
        height as int,
        rowstride as int,
        nch as int,
        dst_stride as int,
    );
    let mut data: Vec<u8> = Vec::with_capacity(dst_stride * height);
    assert(0 * d == 0);
    let mut y: usize = 0;
    while y < height
        invariant
            y <= height,
            w == width && ht == height && s == rowstride && n == nch && d == dst_stride,
            w * 4 <= d,
            d * ht <= usize::MAX,
            data@.len() == y * d,
            forall|i: int|
                0 <= i < data@.len() ==> #[trigger] data@[i] == packed_byte(
                    src@,
                    w,
                    ht,
                    s,
                    n,
                    d,
                    i,
                ),
        decreases height - y,
    {
        let mut x: usize = 0;
        while x < width
            invariant
                x <= width,
                y < height,
                w == width && ht == height && s == rowstride && n == nch && d == dst_stride,
                w * 4 <= d,
                data@.len() == y * d + 4 * x,
                forall|i: int|
                    0 <= i < data@.len() ==> #[trigger] data@[i] == packed_byte(
                        src@,
                        w,
                        ht,
                        s,
                        n,
                        d,
                        i,
                    ),
            decreases width - x,
        {
            let (r, g, b, a) = match sample_pixel(src, width, height, rowstride, nch, x, y) {
                Some((r, g, b)) => (r, g, b, 255u8),
                None => (0u8, 0u8, 0u8, 0u8),
            };
            proof {
                let base = y * d + 4 * x;
                lemma_pixel_index(d, 4 * x, y as int);
                lemma_pixel_index(d, 4 * x + 1, y as int);
                lemma_pixel_index(d, 4 * x + 2, y as int);
                lemma_pixel_index(d, 4 * x + 3, y as int);
                assert((4 * x) / 4 == x && (4 * x + 1) / 4 == x && (4 * x + 2) / 4 == x && (4 * x
                    + 3) / 4 == x);
                assert(packed_byte(src@, w, ht, s, n, d, base) == b);
                assert(packed_byte(src@, w, ht, s, n, d, base + 1) == g);
                assert(packed_byte(src@, w, ht, s, n, d, base + 2) == r);
                assert(packed_byte(src@, w, ht, s, n, d, base + 3) == a);
            }
            data.push(b);
            data.push(g);
            data.push(r);
            data.push(a);
            x = x + 1;
        }
        let mut k: usize = width * 4;
        while k < dst_stride
            invariant
                4 * w <= k <= dst_stride,
                y < height,
                w == width && ht == height && s == rowstride && n == nch && d == dst_stride,
                data@.len() == y * d + k,
                forall|i: int|
                    0 <= i < data@.len() ==> #[trigger] data@[i] == packed_byte(
                        src@,
                        w,
                        ht,
                        s,
                        n,
                        d,
                        i,
                    ),
            decreases dst_stride - k,
        {
            proof {
                lemma_pixel_index(d, k as int, y as int);
                assert(k as int / 4 >= w);
            }
            data.push(0);
            k = k + 1;
        }
        assert((y + 1) * d == y * d + d) by (nonlinear_arith);
        y = y + 1;
    }
    assert(ht * d == d * ht) by (nonlinear_arith);
    data
}

/// What a packed image holds at column `x` of row `y`, by index into the source: blue, green
/// and red of that very pixel, then 255. A grey image repeats its channel. Past the last
/// column a row is zero.
pub proof fn law_packed_bytes_by_index(
    src: Seq<u8>,
    width: int,
    height: int,
    rowstride: int,
    nch: int,
    dst_stride: int,
    x: int,
    y: int,
    k: int,
)
    requires
        0 <= x < width,
        0 <= y < height,
        0 <= rowstride,
        width * 4 <= dst_stride,
        0 < nch,
    ensures
        3 <= nch && y * rowstride + x * nch + 3 <= src.len() ==> {
            let at = y * dst_stride + 4 * x;
            &&& packed_byte(src, width, height, rowstride, nch, dst_stride, at)
                == src[y * rowstride + x * nch + 2]
            &&& packed_byte(src, width, height, rowstride, nch, dst_stride, at + 1)
                == src[y * rowstride + x * nch + 1]
            &&& packed_byte(src, width, height, rowstride, nch, dst_stride, at + 2)
                == src[y * rowstride + x * nch]
            &&& packed_byte(src, width, height, rowstride, nch, dst_stride, at + 3) == 255
        },
        nch == 2 && y * rowstride + x * 2 + 2 <= src.len() ==> {
            let at = y * dst_stride + 4 * x;
            &&& packed_byte(src, width, height, rowstride, nch, dst_stride, at)
                == src[y * rowstride + x * 2 + 1]
            &&& packed_byte(src, width, height, rowstride, nch, dst_stride, at + 1)
                == src[y * rowstride + x * 2 + 1]
            &&& packed_byte(src, width, height, rowstride, nch, dst_stride, at + 2)
                == src[y * rowstride + x * 2]
            &&& packed_byte(src, width, height, rowstride, nch, dst_stride, at + 3) == 255
        },
        nch == 1 && y * rowstride + x + 1 <= src.len() ==> {
            let at = y * dst_stride + 4 * x;
            &&& packed_byte(src, width, height, rowstride, nch, dst_stride, at)
                == src[y * rowstride + x]
            &&& packed_byte(src, width, height, rowstride, nch, dst_stride, at + 1)
                == src[y * rowstride + x]
            &&& packed_byte(src, width, height, rowstride, nch, dst_stride, at + 2)
                == src[y * rowstride + x]
            &&& packed_byte(src, width, height, rowstride, nch, dst_stride, at + 3) == 255
        },
        3 <= nch && y * rowstride + x * nch + 3 > src.len() ==> forall|i: int|
            0 <= i - (y * dst_stride + 4 * x) < 4 ==> #[trigger] packed_byte(
                src,
                width,
                height,
                rowstride,
                nch,
                dst_stride,
                i,
            ) == 0,
        width * 4 <= k < dst_stride ==> packed_byte(
            src,
            width,
            height,
            rowstride,
            nch,
            dst_stride,
            y * dst_stride + k,
        ) == 0,
{
    law_packed_pixel_is_the_picked_colour(src, width, height, rowstride, nch, dst_stride, x, y);
    if width * 4 <= k < dst_stride {
        lemma_pixel_index(dst_stride, k, y);
        assert(k / 4 >= width);
    }
    lemma_pixel_index(dst_stride, 4 * x, y);
    lemma_pixel_index(dst_stride, 4 * x + 1, y);
    lemma_pixel_index(dst_stride, 4 * x + 2, y);
    lemma_pixel_index(dst_stride, 4 * x + 3, y);
    assert(x * 1 == x);
}

/// A packed pixel is the picked colour with its channels turned round, or black where
/// picking finds nothing.
pub proof fn law_packed_pixel_is_the_picked_colour(
    src: Seq<u8>,
    width: int,
    height: int,
    rowstride: int,
    nch: int,
    dst_stride: int,
    x: int,
    y: int,
)
    requires
        0 <= x < width,
        0 <= y < height,
        width * 4 <= dst_stride,
    ensures
        ({
            let at = y * dst_stride + 4 * x;
            let byte = |k: int|
                packed_byte(src, width, height, rowstride, nch, dst_stride, at + k);
            match pixel_colour(src, width, height, rowstride, nch, x, y) {
                Some((r, g, b)) => byte(0) == b && byte(1) == g && byte(2) == r && byte(3) == 255,
                None => byte(0) == 0 && byte(1) == 0 && byte(2) == 0 && byte(3) == 0,
            }
        }),
{
    lemma_pixel_index(dst_stride, 4 * x, y);
    lemma_pixel_index(dst_stride, 4 * x + 1, y);
    lemma_pixel_index(dst_stride, 4 * x + 2, y);
    lemma_pixel_index(dst_stride, 4 * x + 3, y);
    assert((4 * x) / 4 == x && (4 * x + 1) / 4 == x && (4 * x + 2) / 4 == x && (4 * x + 3) / 4 == x);
}

// ── Taking the colour out and putting it back ───────────────────────────────
/// The colours of an image, three bytes a pixel, without padding and alpha.
pub open spec fn gathered(
    buf: Seq<u8>,
    width: int,
    height: int,
    rowstride: int,
    nch: int,
) -> Seq<u8> {
    Seq::new(
        (width * height * 3) as nat,
        |i: int|
            buf[pixel_at(rowstride, nch, (i / 3) % width, (i / 3) / width) + source_channel(
                nch,
                i % 3,
            )],
    )
}

/// Takes the colours out of an image, three bytes a pixel. Channels that an image lacks
/// repeat its last one.
pub fn gather_colour(
    base: &[u8],
    width: usize,
    height: usize,
    rowstride: usize,
    nch: usize,
) -> (r: Vec<u8>)
    requires
        holds_image(base@.len() as int, width as int, height as int, rowstride as int, nch as int),
        width * height * 4 <= usize::MAX,
    ensures
        r@ == gathered(base@, width as int, height as int, rowstride as int, nch as int),
{
    let mut out: Vec<u8> = Vec::new();
    let len: usize = base.len();
    let ghost all = gathered(
        base@,
        width as int,
        height as int,
        rowstride as int,
        nch as int,
    );
    proof {
        assert(0 <= width * height) by (nonlinear_arith);
    }
    let mut y: usize = 0;
    assert(out@ =~= all.take(0));
    while y < height
        invariant
            len == base@.len(),
            holds_image(
                base@.len() as int,
                width as int,
                height as int,
                rowstride as int,
                nch as int,
            ),
            all == gathered(
                base@,
                width as int,
                height as int,
                rowstride as int,
                nch as int,
            ),
            y <= height,
            0 <= y * width <= width * height,
            out@ == all.take(y * width * 3),
        decreases height - y,
    {
        proof {
            lemma_pixel_inside(
                base@.len() as int,
                width as int,
                height as int,
                rowstride as int,
                nch as int,
                0,
                y as int,
            );
        }
        let row: usize = y * rowstride;
        let mut x: usize = 0;
        while x < width
            invariant
                len == base@.len(),
                holds_image(
                    base@.len() as int,
                    width as int,
                    height as int,
                    rowstride as int,
                    nch as int,
                ),
                all == gathered(
                    base@,
                    width as int,
                    height as int,
                    rowstride as int,
                    nch as int,
                ),
                y < height,
                x <= width,
                row == y * rowstride,
                0 <= y * width <= width * height,
                out@ == all.take((y * width + x) * 3),
            decreases width - x,
        {
            proof {
                lemma_pixel_inside(
                    base@.len() as int,
                    width as int,
                    height as int,
                    rowstride as int,
                    nch as int,
                    x as int,
                    y as int,
                );
                lemma_pixel_index(width as int, x as int, y as int);
                assert(y * width + x + 1 <= width * height) by (nonlinear_arith)
                    requires
                        0 <= x < width,
                        0 <= y < height,
                ;
            }
            let p: usize = row + x * nch;
            let ghost o = (y * width + x) * 3;
            let a: u8 = base[p + channel_for(nch, 0)];
            let b: u8 = base[p + channel_for(nch, 1)];
            let c: u8 = base[p + channel_for(nch, 2)];
            let ghost before = out@;
            out.push(a);
            out.push(b);
            out.push(c);
            assert(all[o] == a && all[o + 1] == b && all[o + 2] == c);
            assert(out@ =~= all.take(o + 3));
            assert((y * width + (x + 1)) * 3 == o + 3);
            x = x + 1;
        }
        assert((y + 1) * width == y * width + width) by (nonlinear_arith);
        assert((y + 1) * width <= width * height) by (nonlinear_arith)
            requires
                y < height,
        ;
        y = y + 1;
    }
    assert(height * width == width * height) by (nonlinear_arith);
    assert(out@ =~= all);
    out
}

/// Whether byte `k` is a colour of row `y`.
pub open spec fn is_colour_of_row(width: int, rowstride: int, nch: int, y: int, k: int) -> bool {
    let d = k - y * rowstride;
    0 <= d < width * nch && d % nch < colour_channels(nch)
}

/// Byte `k` after the colours of the first `rows` rows are put back: that of the last of
/// these rows in which it is a colour, and else what it was.
pub open spec fn scattered_byte(
    base: Seq<u8>,
    colours: Seq<u8>,
    width: int,
    rowstride: int,
    nch: int,
    rows: int,
    k: int,
) -> u8
    decreases rows,
{
    if rows <= 0 {
        base[k]
    } else {
        let y = rows - 1;
        let d = k - y * rowstride;
        if is_colour_of_row(width, rowstride, nch, y, k) {
            colours[(y * width + d / nch) * 3 + d % nch]
        } else {
            scattered_byte(base, colours, width, rowstride, nch, rows - 1, k)
        }
    }
}

/// An image with its colours replaced.
pub open spec fn scattered(
    base: Seq<u8>,
    colours: Seq<u8>,
    width: int,
    height: int,
    rowstride: int,
    nch: int,
) -> Seq<u8> {
    Seq::new(
        base.len(),
        |k: int| scattered_byte(base, colours, width, rowstride, nch, height, k),
    )
}

/// Byte `k` while row `y` is put back, when its first `n` bytes are done.
spec fn partly_scattered(
    base: Seq<u8>,
    colours: Seq<u8>,
    width: int,
    rowstride: int,
    nch: int,
    y: int,
    n: int,
    k: int,
) -> u8 {
    let d = k - y * rowstride;
    if d < n && is_colour_of_row(width, rowstride, nch, y, k) {
        colours[(y * width + d / nch) * 3 + d % nch]
    } else {
        scattered_byte(base, colours, width, rowstride, nch, y, k)
    }
}

/// Puts colours into an image: three bytes a pixel, of which an image takes as many as it
/// has. Alpha and the padding between rows stay as they are.
pub fn scatter_colour(
    base: &[u8],
    colours: &[u8],
    width: usize,
    height: usize,
    rowstride: usize,
    nch: usize,
) -> (r: Vec<u8>)
    requires
        holds_image(base@.len() as int, width as int, height as int, rowstride as int, nch as int),
        width * height * 3 <= colours@.len(),
    ensures
        r@ == scattered(
            base@,
            colours@,
            width as int,
            height as int,
            rowstride as int,
            nch as int,
        ),
{
    let mut out: Vec<u8> = vstd::slice::slice_to_vec(base);
    let len: usize = base.len();
    let total: usize = colours.len();
    let colour: usize = if nch < 3 {
        nch
    } else {
        3
    };
    let mut y: usize = 0;
    while y < height
        invariant
            len == base@.len(),
            total == colours@.len(),
            holds_image(
                base@.len() as int,
                width as int,
                height as int,
                rowstride as int,
                nch as int,
            ),
            width * height * 3 <= colours@.len(),
            colour == colour_channels(nch as int),
            y <= height,
            out@.len() == base@.len(),
            forall|k: int|
                0 <= k < out@.len() ==> #[trigger] out@[k] == scattered_byte(
                    base@,
                    colours@,
                    width as int,
                    rowstride as int,
                    nch as int,
                    y as int,
                    k,
                ),
        decreases height - y,
    {
        proof {
            lemma_pixel_inside(
                base@.len() as int,
                width as int,
                height as int,
                rowstride as int,
                nch as int,
                0,
                y as int,
            );
        }
        let row: usize = y * rowstride;
        let mut x: usize = 0;
        while x < width
            invariant
                len == base@.len(),
                total == colours@.len(),
                holds_image(
                    base@.len() as int,
                    width as int,
                    height as int,
                    rowstride as int,
                    nch as int,
                ),
                width * height * 3 <= colours@.len(),
                colour == colour_channels(nch as int),
                y < height,
                x <= width,
                row == y * rowstride,
                out@.len() == base@.len(),
                forall|k: int|
                    0 <= k < out@.len() ==> #[trigger] out@[k] == partly_scattered(
                        base@,
                        colours@,
                        width as int,
                        rowstride as int,
                        nch as int,
                        y as int,
                        x * nch,
                        k,
                    ),
            decreases width - x,
        {
            proof {
                lemma_pixel_inside(
                    base@.len() as int,
                    width as int,
                    height as int,
                    rowstride as int,
                    nch as int,
                    x as int,
                    y as int,
                );
                assert(0 <= y * width && y * width + x + 1 <= width * height) by (nonlinear_arith)
                    requires
                        0 <= x < width,
                        0 <= y < height,
                ;
                assert(x * nch + nch <= width * nch) by (nonlinear_arith)
                    requires
                        0 <= x < width,
                        0 < nch,
                ;
                assert((x + 1) * nch == x * nch + nch) by (nonlinear_arith);
            }
            let p: usize = row + x * nch;
            let o: usize = (y * width + x) * 3;
            let ghost start = out@;
            let mut c: usize = 0;
            while c < colour
                invariant
                    len == base@.len(),
                    total == colours@.len(),
                    p + nch <= base@.len(),
                    o + 3 <= colours@.len(),
                    p == y * rowstride + x * nch,
                    o == (y * width + x) * 3,
                    0 <= x * nch,
                    x * nch + nch <= width * nch,
                    0 < nch,
                    c <= colour <= nch,
                    colour <= 3,
                    colour == colour_channels(nch as int),
                    out@.len() == base@.len(),
                    forall|k: int|
                        0 <= k < out@.len() ==> #[trigger] out@[k] == partly_scattered(
                            base@,
                            colours@,
                            width as int,
                            rowstride as int,
                            nch as int,
                            y as int,
                            x * nch + c,
                            k,
                        ),
                decreases colour - c,
            {
                let ghost before = out@;
                let v: u8 = colours[o + c];
                out.set(p + c, v);
                proof {
                    lemma_fundamental_div_mod_converse(
                        x * nch + c,
                        nch as int,
                        x as int,
                        c as int,
                    );
                    assert forall|k: int| 0 <= k < out@.len() implies #[trigger] out@[k]
                        == partly_scattered(
                        base@,
                        colours@,
                        width as int,
                        rowstride as int,
                        nch as int,
                        y as int,
                        x * nch + c + 1,
                        k,
                    ) by {
                        if k != p + c {
                            assert(out@[k] == before[k]);
                        }
                    }
                }
                c = c + 1;
            }
            proof {
                assert forall|k: int| 0 <= k < out@.len() implies #[trigger] out@[k]
                    == partly_scattered(
                    base@,
                    colours@,
                    width as int,
                    rowstride as int,
                    nch as int,
                    y as int,
                    (x + 1) * nch,
                    k,
                ) by {
                    let d = k - y * rowstride;
                    if x * nch + colour <= d < x * nch + nch {
                        lemma_fundamental_div_mod_converse(
                            d,
                            nch as int,
                            x as int,
                            d - x * nch,
                        );
                    }
                }
            }
            x = x + 1;
        }
        y = y + 1;
    }
    assert(out@ =~= scattered(
        base@,
        colours@,
        width as int,
        height as int,
        rowstride as int,
        nch as int,
    ));
    out
}

/// Putting back the colours that were taken out leaves the image as it was.
pub proof fn law_scatter_undoes_gather(
    base: Seq<u8>,
    width: int,
    height: int,
    rowstride: int,
    nch: int,
)
    requires
        holds_image(base.len() as int, width, height, rowstride, nch),
        0 <= rowstride,
    ensures
        scattered(
            base,
            gathered(base, width, height, rowstride, nch),
            width,
            height,
            rowstride,
            nch,
        ) == base,
{
    let colours = gathered(base, width, height, rowstride, nch);
    assert forall|k: int| 0 <= k < base.len() implies scattered_byte(
        base,
        colours,
        width,
        rowstride,
        nch,
        height,
        k,
    ) == base[k] by {
        lemma_scatter_gathered(base, width, height, rowstride, nch, height, k);
    }
    assert(scattered(base, colours, width, height, rowstride, nch) =~= base);
}

proof fn lemma_scatter_gathered(
    base: Seq<u8>,
    width: int,
    height: int,
    rowstride: int,
    nch: int,
    rows: int,
    k: int,
)
    requires
        holds_image(base.len() as int, width, height, rowstride, nch),
        0 <= rowstride,
        0 <= rows <= height,
        0 <= k < base.len(),
    ensures
        scattered_byte(
            base,
            gathered(base, width, height, rowstride, nch),
            width,
            rowstride,
            nch,
            rows,
            k,
        ) == base[k],
    decreases rows,
{
    if rows > 0 {
        let y = rows - 1;
        let d = k - y * rowstride;
        if is_colour_of_row(width, rowstride, nch, y, k) {
            let x = d / nch;
            let c = d % nch;
            vstd::arithmetic::div_mod::lemma_fundamental_div_mod(d, nch);
            assert(nch * x == x * nch) by (nonlinear_arith);
            assert(0 <= x < width) by (nonlinear_arith)
                requires
                    0 <= d < width * nch,
                    d == x * nch + c,
                    0 <= c < nch,
            ;
            lemma_pixel_index(width, x, y);
            let i = (y * width + x) * 3 + c;
            assert(i / 3 == y * width + x && i % 3 == c);
            assert(y * width + x + 1 <= width * height) by (nonlinear_arith)
                requires
                    0 <= x < width,
                    0 <= y < height,
            ;
        } else {
            lemma_scatter_gathered(base, width, height, rowstride, nch, rows - 1, k);
        }
    }
}

/// A byte that is a colour of no row, such as alpha or padding, is kept whatever the
/// colours are.
pub proof fn law_scatter_keeps_the_rest(
    base: Seq<u8>,
    colours: Seq<u8>,
    width: int,
    height: int,
    rowstride: int,
    nch: int,
    k: int,
)
    requires
        0 <= k < base.len(),
        forall|y: int| 0 <= y < height ==> !#[trigger] is_colour_of_row(width, rowstride, nch, y, k),
    ensures
        scattered(base, colours, width, height, rowstride, nch)[k] == base[k],
{
    lemma_kept(base, colours, width, rowstride, nch, height, k);
}

proof fn lemma_kept(
    base: Seq<u8>,
    colours: Seq<u8>,
    width: int,
    rowstride: int,
    nch: int,
    rows: int,
    k: int,
)
    requires
        forall|y: int| 0 <= y < rows ==> !#[trigger] is_colour_of_row(width, rowstride, nch, y, k),
    ensures
        scattered_byte(base, colours, width, rowstride, nch, rows, k) == base[k],
    decreases rows,
{
    if rows > 0 {
        lemma_kept(base, colours, width, rowstride, nch, rows - 1, k);
    }
}

/// What is taken out of an image, by index: colour `c` of the pixel at column `x` of row `y`
/// is byte `c` of that pixel, or its last byte if the image has no such channel.
pub proof fn law_gathered_by_index(
    buf: Seq<u8>,
    width: int,
    height: int,
    rowstride: int,
    nch: int,
    x: int,
    y: int,
    c: int,
)
    requires
        0 < nch,
        0 <= x < width,
        0 <= y < height,
        0 <= c < 3,
    ensures
        gathered(buf, width, height, rowstride, nch).len() == 3 * width * height,
        gathered(buf, width, height, rowstride, nch)[3 * (y * width + x) + c] == buf[y * rowstride
            + x * nch + (if c < nch {
            c
        } else {
            nch - 1
        })],
{
    lemma_pixel_index(width, x, y);
    let i = 3 * (y * width + x) + c;
    assert(i / 3 == y * width + x && i % 3 == c);
    assert(y * width + x + 1 <= width * height && 3 * (width * height) == width * height * 3 && 3
        * width * height == 3 * (width * height)) by (nonlinear_arith)
        requires
            0 <= x < width,
            0 <= y < height,
    ;
}

/// Byte `k` lies in one row at most, where rows do not overlap.
proof fn lemma_other_rows(width: int, rowstride: int, nch: int, y: int, other: int, k: int)
    requires
        0 < nch,
        0 <= k - y * rowstride < rowstride,
        width * nch <= rowstride,
        other != y,
    ensures
        !is_colour_of_row(width, rowstride, nch, other, k),
{
    assert(!(0 <= k - other * rowstride < rowstride)) by (nonlinear_arith)
        requires
            0 <= k - y * rowstride < rowstride,
            other != y,
    {
        let d = (other - y) * rowstride;
        assert(d == other * rowstride - y * rowstride);
        if other > y {
            assert(d >= rowstride);
        } else {
            assert(d <= -rowstride);
        }
    }
}

proof fn lemma_scattered_in_row(
    base: Seq<u8>,
    colours: Seq<u8>,
    width: int,
    rowstride: int,
    nch: int,
    rows: int,
    y: int,
    k: int,
)
    requires
        0 < nch,
        0 <= y < rows,
        0 <= k - y * rowstride < rowstride,
        width * nch <= rowstride,
    ensures
        scattered_byte(base, colours, width, rowstride, nch, rows, k) == if is_colour_of_row(
            width,
            rowstride,
            nch,
            y,
            k,
        ) {
            colours[(y * width + (k - y * rowstride) / nch) * 3 + (k - y * rowstride) % nch]
        } else {
            base[k]
        },
    decreases rows,
{
    if y == rows - 1 {
        if !is_colour_of_row(width, rowstride, nch, y, k) {
            assert forall|other: int| 0 <= other < rows - 1 implies !#[trigger] is_colour_of_row(
                width,
                rowstride,
                nch,
                other,
                k,
            ) by {
                lemma_other_rows(width, rowstride, nch, y, other, k);
            }
            lemma_kept(base, colours, width, rowstride, nch, rows - 1, k);
        }
    } else {
        lemma_other_rows(width, rowstride, nch, y, rows - 1, k);
        lemma_scattered_in_row(base, colours, width, rowstride, nch, rows - 1, y, k);
    }
}

/// What is put back into an image, by index, where rows do not overlap: the colours of the
/// pixel at column `x` of row `y` go to the first bytes of that pixel; what follows them in
/// the pixel, and what follows the pixels in the row, is kept.
pub proof fn law_scattered_by_index(
    base: Seq<u8>,
    colours: Seq<u8>,
    width: int,
    height: int,
    rowstride: int,
    nch: int,
    x: int,
    y: int,
    c: int,
    pad: int,
)
    requires
        holds_image(base.len() as int, width, height, rowstride, nch),
        width * nch <= rowstride,
        0 <= x < width,
        0 <= y < height,
        0 <= c < nch,
    ensures
        scattered(base, colours, width, height, rowstride, nch).len() == base.len(),
        c < 3 ==> scattered(base, colours, width, height, rowstride, nch)[y * rowstride + x * nch
            + c] == colours[3 * (y * width + x) + c],
        3 <= c ==> scattered(base, colours, width, height, rowstride, nch)[y * rowstride + x * nch
            + c] == base[y * rowstride + x * nch + c],
        width * nch <= pad < rowstride && y * rowstride + pad < base.len() ==> scattered(
            base,
            colours,
            width,
            height,
            rowstride,
            nch,
        )[y * rowstride + pad] == base[y * rowstride + pad],
{
    assert(0 < width * nch) by (nonlinear_arith)
        requires
            0 < width,
            0 < nch,
    ;
    lemma_pixel_inside(base.len() as int, width, height, rowstride, nch, x, y);
    assert(x * nch + nch <= width * nch) by (nonlinear_arith)
        requires
            0 <= x < width,
            0 < nch,
    ;
    let k = y * rowstride + x * nch + c;
    lemma_fundamental_div_mod_converse(x * nch + c, nch, x, c);
    lemma_scattered_in_row(base, colours, width, rowstride, nch, height, y, k);
    if width * nch <= pad < rowstride {
        lemma_scattered_in_row(
            base,
            colours,
            width,
            rowstride,
            nch,
            height,
            y,
            y * rowstride + pad,
        );
    }
}

} // verus!
