//! Integer layout of the GPU-side data: index lists of quad batches,
//! read-back rows, pixel buffer sizes and canvas dimensions.

use vstd::prelude::*;

verus! {

/// Bytes per pixel of the canvas texture (RGBA, 8 bits per channel).
pub const BYTES_PER_PIXEL: u32 = 4;

/// The smallest canvas edge, in pixels, that a new canvas may have.
pub const MIN_CANVAS_DIMENSION: u32 = 64;

/// The offset, within its quad's four vertices, of the `j`-th index of
/// the quad's two triangles `(0, 1, 2)` and `(0, 2, 3)`.
pub open spec fn quad_corner(j: int) -> int {
    if j == 0 || j == 3 {
        0
    } else if j == 1 {
        1
    } else if j == 2 || j == 4 {
        2
    } else {
        3
    }
}

/// Whether `indices` draws `quads` quads of four consecutive vertices
/// each as two triangles, with 16-bit indices: quad `q` starts at vertex
/// `4 * q`, which wraps around past 65535 as the vertex count is
/// narrowed to 16 bits.
pub open spec fn is_quad_index_list(indices: Seq<u16>, quads: int) -> bool {
    &&& indices.len() == 6 * quads
    &&& forall|q: int, j: int|
        0 <= q < quads && 0 <= j < 6 ==> #[trigger] indices[6 * q + j] == (4 * q) % 65536 + quad_corner(j)
}

/// The index list of `quads` quads, each made of four consecutive
/// vertices and drawn as the triangles `(0, 1, 2)` and `(0, 2, 3)`.
pub fn quad_indices(quads: usize) -> (r: Vec<u16>)
    requires
        6 * quads <= usize::MAX,
    ensures
        is_quad_index_list(r@, quads as int),
{
    let mut indices: Vec<u16> = Vec::new();
    let mut q: usize = 0;
    while q < quads
        invariant
            q <= quads,
            6 * quads <= usize::MAX,
            indices@.len() == 6 * q,
            forall|p: int, j: int|
                0 <= p < q && 0 <= j < 6 ==> #[trigger] indices@[6 * p + j] == (4 * p) % 65536 + quad_corner(
                    j,
                ),
        decreases quads - q,
    {
        let ghost before = indices@;
        let base: u16 = ((q % 16384) * 4) as u16;
        assert(base as int == (4 * q) % 65536) by (nonlinear_arith)
            requires
                base as int == (q % 16384) * 4,
        ;
        indices.push(base);
        indices.push(base + 1);
        indices.push(base + 2);
        indices.push(base);
        indices.push(base + 2);
        indices.push(base + 3);
        assert forall|p: int, j: int| 0 <= p < q + 1 && 0 <= j < 6 implies #[trigger] indices@[6 * p + j]
            == (4 * p) % 65536 + quad_corner(j) by {
            if p < q {
                assert(indices@[6 * p + j] == before[6 * p + j]);
            }
        }
        q = q + 1;
    }
    indices
}

/// The index list of the six faces of a cube whose 24 vertices are laid
/// out four per face, each face drawn as two triangles.
pub fn cube_indices() -> (r: Vec<u16>)
    ensures
        is_quad_index_list(r@, 6),
        forall|i: int| 0 <= i < r@.len() ==> r@[i] < 24,
{
    let r = quad_indices(6);
    assert forall|i: int| 0 <= i < r@.len() implies r@[i] < 24 by {
        let q: int = i / 6;
        let j: int = i % 6;
        assert(i == 6 * q + j);
        assert(r@[6 * q + j] == (4 * q) % 65536 + quad_corner(j));
    }
    r
}

/// The length of a read-back row padded to the copy alignment `align`:
/// the unpadded row `4 * width` rounded up to a multiple of `align`.
pub open spec fn padded_row_len(width: int, align: int) -> int {
    (BYTES_PER_PIXEL * width + align - 1) / align * align
}

/// The bytes per row of a buffer that a `width` pixels wide texture is
/// copied into, rounded up to the copy alignment `align`.
pub fn padded_bytes_per_row(width: u32, align: u32) -> (r: u32)
    requires
        align > 0,
        padded_row_len(width as int, align as int) <= u32::MAX,
    ensures
        r == padded_row_len(width as int, align as int),
        r >= BYTES_PER_PIXEL * width,
        r % align == 0,
{
    proof {
        assert(padded_row_len(width as int, align as int) >= BYTES_PER_PIXEL * width) by (nonlinear_arith)
            requires
                align > 0,
                width >= 0,
        ;
        assert(padded_row_len(width as int, align as int) % (align as int) == 0) by (nonlinear_arith)
            requires
                align > 0,
        ;
    }
    assert(BYTES_PER_PIXEL * width <= u32::MAX);
    let unpadded: u32 = BYTES_PER_PIXEL * width;
    let whole: u32 = unpadded / align;
    let rows: u32 = if unpadded % align == 0 {
        whole
    } else {
        whole + 1
    };
    proof {
        assert(rows as int == (unpadded as int + align as int - 1) / (align as int)) by (nonlinear_arith)
            requires
                align > 0,
                whole as int == unpadded as int / align as int,
                unpadded as int % align as int == 0 ==> rows == whole,
                unpadded as int % align as int != 0 ==> rows as int == whole as int + 1,
        ;
    }
    rows * align
}

/// The first `row_len` bytes of each of the first `rows` rows of
/// `mapped`, whose rows start every `stride` bytes, concatenated.
pub open spec fn unpadded_rows(mapped: Seq<u8>, row_len: int, stride: int, rows: nat) -> Seq<u8>
    decreases rows,
{
    if rows == 0 {
        Seq::empty()
    } else {
        unpadded_rows(mapped, row_len, stride, (rows - 1) as nat) + mapped.subrange(
            (rows - 1) * stride,
            (rows - 1) * stride + row_len,
        )
    }
}

/// Strips the row padding of a read-back buffer: copies the
/// `4 * width` pixel bytes at the start of each of `height` rows of
/// `padded` bytes, giving tightly packed RGBA rows.
pub fn unpad_rows(mapped: &[u8], width: u32, height: u32, padded: u32) -> (r: Vec<u8>)
    requires
        BYTES_PER_PIXEL * width <= padded,
        padded * height <= u32::MAX,
        mapped@.len() >= padded * height,
    ensures
        r@ == unpadded_rows(mapped@, BYTES_PER_PIXEL * width, padded as int, height as nat),
        r@.len() == BYTES_PER_PIXEL * width * height,
{
    let row_len: usize = (BYTES_PER_PIXEL * width) as usize;
    let stride: usize = padded as usize;
    let mut pixels: Vec<u8> = Vec::new();
    let mut row: u32 = 0;
    while row < height
        invariant
            row <= height,
            row_len == BYTES_PER_PIXEL * width,
            stride == padded,
            row_len <= stride,
            padded * height <= u32::MAX,
            mapped@.len() >= padded * height,
            pixels@ == unpadded_rows(mapped@, row_len as int, stride as int, row as nat),
            pixels@.len() == row_len * row,
        decreases height - row,
    {
        proof {
            assert((row + 1) * padded <= padded * height) by (nonlinear_arith)
                requires
                    row < height,
            ;
            assert(row * padded + row_len <= (row + 1) * padded) by (nonlinear_arith)
                requires
                    row_len <= padded,
            ;
        }
        let start: usize = (row * padded) as usize;
        let ghost done = pixels@;
        let mut col: usize = 0;
        while col < row_len
            invariant
                col <= row_len,
                start + row_len <= mapped.len(),
                pixels@ == done + mapped@.subrange(start as int, start + col),
            decreases row_len - col,
        {
            pixels.push(mapped[start + col]);
            assert(pixels@ =~= done + mapped@.subrange(start as int, start + col + 1));
            col = col + 1;
        }
        proof {
            assert(start == row * stride);
            assert(pixels@.len() == row_len * (row + 1)) by (nonlinear_arith)
                requires
                    pixels@.len() == done.len() + row_len,
                    done.len() == row_len * row,
            ;
        }
        row = row + 1;
    }
    proof {
        assert(pixels@.len() == BYTES_PER_PIXEL * width * height) by (nonlinear_arith)
            requires
                pixels@.len() == row_len * height,
                row_len == BYTES_PER_PIXEL * width,
        ;
    }
    pixels
}

/// Whether a pixel buffer of `len` bytes holds exactly one tightly packed
/// RGBA image of `width` x `height` pixels.
pub fn fits_canvas(width: u32, height: u32, len: usize) -> (r: bool)
    requires
        width * height * BYTES_PER_PIXEL <= u32::MAX,
    ensures
        r == (len == width * height * BYTES_PER_PIXEL),
{
    assert(width * height <= u32::MAX) by (nonlinear_arith)
        requires
            width * height * BYTES_PER_PIXEL <= u32::MAX,
    ;
    let expected: u32 = width * height * BYTES_PER_PIXEL;
    len == expected as usize
}

/// `requested` raised to `MIN_CANVAS_DIMENSION` and lowered to
/// `max_texture_dimension`.
pub open spec fn clamped_dimension(requested: u32, max_texture_dimension: u32) -> u32 {
    if requested < MIN_CANVAS_DIMENSION {
        MIN_CANVAS_DIMENSION
    } else if requested > max_texture_dimension {
        max_texture_dimension
    } else {
        requested
    }
}

/// The edge length of a new canvas: the requested length, raised to
/// `MIN_CANVAS_DIMENSION` and lowered to the largest texture edge the GPU
/// can allocate.
pub fn canvas_dimension(requested: u32, max_texture_dimension: u32) -> (r: u32)
    requires
        MIN_CANVAS_DIMENSION <= max_texture_dimension,
    ensures
        r == if requested < MIN_CANVAS_DIMENSION {
            MIN_CANVAS_DIMENSION
        } else if requested > max_texture_dimension {
            max_texture_dimension
        } else {
            requested
        },
        r == clamped_dimension(requested, max_texture_dimension),
        MIN_CANVAS_DIMENSION <= r <= max_texture_dimension,
{
    if requested < MIN_CANVAS_DIMENSION {
        MIN_CANVAS_DIMENSION
    } else if requested > max_texture_dimension {
        max_texture_dimension
    } else {
        requested
    }
}

} // verus!
