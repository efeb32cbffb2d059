use vstd::prelude::*;

verus! {

use crate::color::Rgb;
use crate::color::rgb_bytes;

/// Bytes of one row: the pixels' byte triples in increasing-column order.
pub open spec fn row_bytes(row: Seq<Rgb>) -> Seq<u8>
    decreases row.len(),
{
    if row.len() == 0 {
        Seq::empty()
    } else {
        row_bytes(row.drop_last()) + rgb_bytes(row.last())
    }
}

/// Bytes of a whole frame: the rows' bytes in increasing-row order.
pub open spec fn frame_bytes(rows: Seq<Seq<Rgb>>) -> Seq<u8>
    decreases rows.len(),
{
    if rows.len() == 0 {
        Seq::empty()
    } else {
        frame_bytes(rows.drop_last()) + row_bytes(rows.last())
    }
}

pub proof fn lemma_row_bytes_len(row: Seq<Rgb>)
    ensures
        row_bytes(row).len() == 3 * row.len(),
    decreases row.len(),
{
    if row.len() > 0 {
        lemma_row_bytes_len(row.drop_last());
    }
}

/// Within one row, the byte triple of column `x` sits at offset `3 * x`.
pub proof fn lemma_row_bytes_index(row: Seq<Rgb>, x: int, k: int)
    requires
        0 <= x < row.len(),
        0 <= k < 3,
    ensures
        row_bytes(row).len() == 3 * row.len(),
        row_bytes(row)[3 * x + k] == rgb_bytes(row[x])[k],
    decreases row.len(),
{
    lemma_row_bytes_len(row);
    lemma_row_bytes_len(row.drop_last());
    if x < row.len() - 1 {
        lemma_row_bytes_index(row.drop_last(), x, k);
    }
}

/// The assembled frame of `n` rows of width `width` holds exactly
/// `3 * width * n` bytes.
pub proof fn lemma_frame_len(rows: Seq<Seq<Rgb>>, width: nat)
    requires
        forall|j: int| 0 <= j < rows.len() ==> (#[trigger] rows[j]).len() == width,
    ensures
        frame_bytes(rows).len() == 3 * width * rows.len(),
    decreases rows.len(),
{
    if rows.len() == 0 {
    } else {
        lemma_frame_len(rows.drop_last(), width);
        lemma_row_bytes_len(rows.last());
        let n = rows.len();
        assert(3 * width * ((n - 1) as nat) + 3 * width == 3 * width * n) by (nonlinear_arith)
            requires
                n >= 1,
        ;
    }
}

/// In the assembled frame, the byte triple of the pixel at column `x` of
/// row `y` sits at offset `3 * (y * width + x)`.
pub proof fn lemma_frame_index(rows: Seq<Seq<Rgb>>, width: nat, y: int, x: int, k: int)
    requires
        forall|j: int| 0 <= j < rows.len() ==> (#[trigger] rows[j]).len() == width,
        0 <= y < rows.len(),
        0 <= x < width,
        0 <= k < 3,
    ensures
        frame_bytes(rows).len() == 3 * width * rows.len(),
        frame_bytes(rows)[3 * (y * width + x) + k] == rgb_bytes(rows[y][x])[k],
    decreases rows.len(),
{
    lemma_frame_len(rows, width);
    lemma_frame_len(rows.drop_last(), width);
    if y == rows.len() - 1 {
        lemma_row_bytes_index(rows.last(), x, k);
        assert(3 * (y * width + x) + k - 3 * width * y == 3 * x + k) by (nonlinear_arith);
        let n = rows.len();
        assert(3 * width * ((n - 1) as nat) == 3 * width * y) by (nonlinear_arith)
            requires
                n >= 1,
                y == n - 1,
        ;
    } else {
        lemma_frame_index(rows.drop_last(), width, y, x, k);
        assert(3 * (y * width + x) + k < 3 * width * ((rows.len() - 1) as nat))
            by (nonlinear_arith)
            requires
                0 <= y,
                y < rows.len() - 1,
                0 <= x < width,
                0 <= k < 3,
        ;
    }
}

/// Row and column ordering of the byte stream: every byte of an earlier row
/// stands strictly before every byte of a later row, and within one row the
/// bytes of an earlier column stand before those of a later column.
pub proof fn lemma_byte_order(width: nat, y1: int, x1: int, k1: int, y2: int, x2: int, k2: int)
    by (nonlinear_arith)
    requires
        0 <= x1 < width,
        0 <= x2 < width,
        0 <= k1 < 3,
        0 <= k2 < 3,
        0 <= y1,
        0 <= y2,
        y1 < y2 || (y1 == y2 && x1 < x2),
    ensures
        3 * (y1 * width + x1) + k1 < 3 * (y2 * width + x2) + k2,
{
}

/// Deterministic reproducibility: the per-pixel layout fixes every byte of
/// the stream, so two byte streams that both place each pixel's bytes at
/// offset `3 * (y * width + x)` for the same pixel grid are identical,
/// however and in whatever order their pixels were computed.
pub proof fn lemma_frame_stream_unique(b1: Seq<u8>, b2: Seq<u8>, rows: Seq<Seq<Rgb>>, width: nat)
    requires
        width > 0,
        forall|j: int| 0 <= j < rows.len() ==> (#[trigger] rows[j]).len() == width,
        b1.len() == 3 * width * rows.len(),
        b2.len() == 3 * width * rows.len(),
        forall|y: int, x: int, k: int|
            0 <= y < rows.len() && 0 <= x < width && 0 <= k < 3 ==> b1[3 * (y * width + x) + k]
                == (#[trigger] rgb_bytes(rows[y][x])[k]),
        forall|y: int, x: int, k: int|
            0 <= y < rows.len() && 0 <= x < width && 0 <= k < 3 ==> b2[3 * (y * width + x) + k]
                == (#[trigger] rgb_bytes(rows[y][x])[k]),
    ensures
        b1 == b2,
{
    let w = width as int;
    let n = rows.len() as int;
    assert forall|i: int| 0 <= i < b1.len() implies b1[i] == b2[i] by {
        let k = i % 3;
        let p = i / 3;
        let x = p % w;
        let y = p / w;
        assert(i == 3 * p + k && 0 <= k < 3 && 0 <= p) by (nonlinear_arith)
            requires
                0 <= i,
                p == i / 3,
                k == i % 3,
        ;
        assert(p == y * w + x && 0 <= x < w && 0 <= y) by (nonlinear_arith)
            requires
                0 <= p,
                w > 0,
                x == p % w,
                y == p / w,
        ;
        assert(p < w * n) by (nonlinear_arith)
            requires
                i < 3 * w * n,
                i == 3 * p + k,
                0 <= k,
        ;
        assert(y < n) by (nonlinear_arith)
            requires
                p < w * n,
                p == y * w + x,
                0 <= x < w,
                0 <= y,
                w > 0,
        ;
        assert(b1[3 * (y * w + x) + k] == rgb_bytes(rows[y][x])[k]);
        assert(b2[3 * (y * w + x) + k] == rgb_bytes(rows[y][x])[k]);
        assert(3 * (y * w + x) + k == i);
    }
    assert(b1 =~= b2);
}

/// Appends `src` to the end of `dst`, keeping both in order.
pub fn append_bytes(dst: &mut Vec<u8>, src: &Vec<u8>)
    ensures
        final(dst)@ == old(dst)@ + src@,
{
    let mut j: usize = 0;
    while j < src.len()
        invariant
            j <= src@.len(),
            dst@ == old(dst)@ + src@.take(j as int),
        decreases src@.len() - j,
    {
        dst.push(src[j]);
        proof {
            assert(src@.take((j + 1) as int) =~= src@.take(j as int).push(src@[j as int]));
            assert(old(dst)@ + src@.take((j + 1) as int)
                =~= (old(dst)@ + src@.take(j as int)).push(src@[j as int]));
        }
        j = j + 1;
    }
    proof {
        assert(src@.take(src@.len() as int) =~= src@);
    }
}

/// Turns one row of pixels into its byte stream, three bytes per pixel in
/// increasing-column order.
pub fn assemble_row(row: &Vec<Rgb>) -> (bytes: Vec<u8>)
    ensures
        bytes@ == row_bytes(row@),
        bytes@.len() == 3 * row@.len(),
{
    let mut out: Vec<u8> = Vec::new();
    let mut i: usize = 0;
    while i < row.len()
        invariant
            i <= row@.len(),
            out@ == row_bytes(row@.take(i as int)),
        decreases row@.len() - i,
    {
        let p = row[i];
        out.push(p.r);
        out.push(p.g);
        out.push(p.b);
        proof {
            let t = row@.take((i + 1) as int);
            assert(t.drop_last() =~= row@.take(i as int));
            assert(out@ =~= row_bytes(row@.take(i as int)) + rgb_bytes(row@[i as int]));
        }
        i = i + 1;
    }
    proof {
        assert(row@.take(row@.len() as int) =~= row@);
        lemma_row_bytes_len(row@);
    }
    out
}

/// Turns a grid of pixels, given row by row, into the frame's byte stream:
/// rows in increasing-row order, each row's bytes in increasing-column order.
pub fn assemble_frame(rows: &Vec<Vec<Rgb>>) -> (bytes: Vec<u8>)
    ensures
        bytes@ == frame_bytes(rows@.map_values(|r: Vec<Rgb>| r@)),
{
    let mut out: Vec<u8> = Vec::new();
    let mut y: usize = 0;
    while y < rows.len()
        invariant
            y <= rows@.len(),
            out@ == frame_bytes(rows@.map_values(|r: Vec<Rgb>| r@).take(y as int)),
        decreases rows@.len() - y,
    {
        let row_b = assemble_row(&rows[y]);
        append_bytes(&mut out, &row_b);
        proof {
            let all = rows@.map_values(|r: Vec<Rgb>| r@);
            let t = all.take((y + 1) as int);
            assert(t.drop_last() =~= all.take(y as int));
            assert(t.last() == rows@[y as int]@);
        }
        y = y + 1;
    }
    proof {
        let all = rows@.map_values(|r: Vec<Rgb>| r@);
        assert(all.take(all.len() as int) =~= all);
    }
    out
}

/// The fail-fast configuration gate: rendering may begin only with positive
/// dimensions and a positive iteration budget.
pub fn dimensions_valid(width: u32, height: u32, max_iter: u32) -> (ok: bool)
    ensures
        ok == (width > 0 && height > 0 && max_iter > 0),
{
    width > 0 && height > 0 && max_iter > 0
}

} // verus!
