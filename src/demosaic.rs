use vstd::prelude::*;

verus! {

/// Width of a raw camera frame, in pixels.
pub const RAW_FRAME_WIDTH: usize = 316;

/// Height of a raw camera frame, in pixels.
pub const RAW_FRAME_HEIGHT: usize = 208;

/// Border pixels borrow the colours of their inner neighbour.
pub open spec fn mirror_edge(v: int, n: int) -> int {
    if v == 0 {
        1
    } else if v == n - 1 {
        n - 2
    } else {
        v
    }
}

pub open spec fn at(b: Seq<u8>, i: int) -> int {
    b[i] as int
}

/// Red, green and blue at the inner pixel (xx, yy) of a Bayer mosaic whose
/// odd rows hold red and green and whose even rows hold green and blue: the
/// pixel's own colour, and the mean of the nearest neighbours for the others.
pub open spec fn bayer_rgb(b: Seq<u8>, w: int, xx: int, yy: int) -> (int, int, int) {
    let i = yy * w + xx;
    let cross = (at(b, i - 1) + at(b, i + 1) + at(b, i - w) + at(b, i + w)) / 4;
    let diagonal = (at(b, i - w - 1) + at(b, i - w + 1) + at(b, i + w - 1) + at(b, i + w + 1)) / 4;
    let horizontal = (at(b, i - 1) + at(b, i + 1)) / 2;
    let vertical = (at(b, i - w) + at(b, i + w)) / 2;
    if yy % 2 == 1 {
        if xx % 2 == 1 {
            (at(b, i), cross, diagonal)
        } else {
            (horizontal, at(b, i), vertical)
        }
    } else {
        if xx % 2 == 1 {
            (vertical, at(b, i), horizontal)
        } else {
            (diagonal, cross, at(b, i))
        }
    }
}

/// The colour of pixel (x, y), packed as 0x00RRGGBB.
pub open spec fn demosaic_pixel(b: Seq<u8>, w: int, h: int, x: int, y: int) -> u32 {
    let c = bayer_rgb(b, w, mirror_edge(x, w), mirror_edge(y, h));
    (c.0 * 65536 + c.1 * 256 + c.2) as u32
}

proof fn lemma_inner_bounds(w: int, h: int, xx: int, yy: int)
    requires
        w >= 3,
        h >= 3,
        1 <= xx <= w - 2,
        1 <= yy <= h - 2,
    ensures
        yy * w + xx - w - 1 >= 0,
        yy * w + xx + w + 1 < w * h,
        yy * w <= w * h,
{
    assert((yy - 1) * w >= 0) by (nonlinear_arith)
        requires yy >= 1, w >= 3;
    assert((yy + 1) * w <= (h - 1) * w) by (nonlinear_arith)
        requires yy + 1 <= h - 1, w >= 3;
    assert(yy * w + xx - w - 1 >= 0) by (nonlinear_arith)
        requires (yy - 1) * w >= 0, xx >= 1;
    assert(yy * w + xx + w + 1 < w * h) by (nonlinear_arith)
        requires (yy + 1) * w <= (h - 1) * w, xx <= w - 2;
    assert(yy * w <= w * h) by (nonlinear_arith)
        requires yy <= h, w >= 3;
}

proof fn lemma_cell(w: int, h: int, x: int, y: int)
    requires
        0 <= x < w,
        0 <= y < h,
    ensures
        0 <= x + w * y < w * h,
        x + w * y < w * (y + 1),
{
    assert(w * y + w == w * (y + 1)) by (nonlinear_arith);
    assert(w * (y + 1) <= w * h) by (nonlinear_arith)
        requires y + 1 <= h, w >= 0;
    assert(w * y >= 0) by (nonlinear_arith)
        requires y >= 0, w >= 0;
}

proof fn lemma_rows_apart(w: int, y0: int, y1: int)
    requires
        0 <= y0 < y1,
        w >= 0,
    ensures
        w * y0 + w <= w * y1,
{
    assert(w * y0 + w == w * (y0 + 1)) by (nonlinear_arith);
    assert(w * (y0 + 1) <= w * y1) by (nonlinear_arith)
        requires y0 + 1 <= y1, w >= 0;
}

fn mirror(v: usize, n: usize) -> (r: usize)
    requires
        n >= 3,
        v < n,
    ensures
        r == mirror_edge(v as int, n as int),
        1 <= r <= n - 2,
{
    if v == 0 {
        1
    } else if v == n - 1 {
        n - 2
    } else {
        v
    }
}

fn pixel(bayer_image: &[u8], width: usize, height: usize, x: usize, y: usize) -> (r: u32)
    requires
        width >= 3,
        height >= 3,
        x < width,
        y < height,
        width * height <= bayer_image@.len(),
    ensures
        r == demosaic_pixel(bayer_image@, width as int, height as int, x as int, y as int),
{
    let b = bayer_image;
    let n = b.len();
    let yy = mirror(y, height);
    let xx = mirror(x, width);
    proof {
        lemma_inner_bounds(width as int, height as int, xx as int, yy as int);
    }
    let pixel0_offset = yy * width;
    let i = pixel0_offset + xx;
    let cross = (b[i - 1] as u32 + b[i + 1] as u32 + b[i - width] as u32 + b[i + width] as u32) / 4;
    let diagonal = (b[i - width - 1] as u32 + b[i - width + 1] as u32 + b[i + width - 1] as u32
        + b[i + width + 1] as u32) / 4;
    let horizontal = (b[i - 1] as u32 + b[i + 1] as u32) / 2;
    let vertical = (b[i - width] as u32 + b[i + width] as u32) / 2;
    let (r, g, bl) = if yy % 2 == 1 {
        if xx % 2 == 1 {
            // Red pixel
            (b[i] as u32, cross, diagonal)
        } else {
            // Green pixel on a red row
            (horizontal, b[i] as u32, vertical)
        }
    } else {
        if xx % 2 == 1 {
            // Green pixel on a blue row
            (vertical, b[i] as u32, horizontal)
        } else {
            // Blue pixel
            (diagonal, cross, b[i] as u32)
        }
    };
    r * 65536 + g * 256 + bl
}

/// Turns a raw Bayer frame of `width` by `height` into packed 0x00RRGGBB
/// pixels, row by row; the output is as long as the input.
pub fn demosic(width: usize, height: usize, bayer_image: &[u8]) -> (image: Vec<u32>)
    requires
        width >= 3,
        height >= 3,
        width * height <= bayer_image@.len(),
    ensures
        image@.len() == bayer_image@.len(),
        forall|x: int, y: int|
            0 <= x < width && 0 <= y < height ==> #[trigger] image@[x + width * y] == demosaic_pixel(
                bayer_image@,
                width as int,
                height as int,
                x,
                y,
            ),
        forall|i: int| width * height <= i < image@.len() ==> image@[i] == 0,
{
    let mut image: Vec<u32> = Vec::new();
    let mut k: usize = 0;
    while k < bayer_image.len()
        invariant
            k <= bayer_image@.len(),
            image@.len() == k,
            forall|i: int| 0 <= i < k ==> image@[i] == 0,
        decreases bayer_image@.len() - k,
    {
        image.push(0);
        k = k + 1;
    }
    let n = bayer_image.len();
    let ghost b = bayer_image@;
    let ghost w = width as int;
    let ghost h = height as int;
    let mut y: usize = 0;
    while y < height
        invariant
            width >= 3,
            height >= 3,
            w == width,
            h == height,
            b == bayer_image@,
            width * height <= b.len(),
            b.len() == n,
            y <= height,
            image@.len() == b.len(),
            forall|x0: int, y0: int|
                0 <= x0 < w && 0 <= y0 < y ==> #[trigger] image@[x0 + w * y0] == demosaic_pixel(
                    b,
                    w,
                    h,
                    x0,
                    y0,
                ),
            forall|i: int| w * y <= i < image@.len() ==> image@[i] == 0,
        decreases height - y,
    {
        let mut x: usize = 0;
        while x < width
            invariant
                width >= 3,
                height >= 3,
                w == width,
                h == height,
                b == bayer_image@,
                width * height <= b.len(),
                b.len() == n,
                y < height,
                x <= width,
                image@.len() == b.len(),
                forall|x0: int, y0: int|
                    0 <= x0 < w && 0 <= y0 < y ==> #[trigger] image@[x0 + w * y0]
                        == demosaic_pixel(b, w, h, x0, y0),
                forall|x0: int| 0 <= x0 < x ==> #[trigger] image@[x0 + w * y] == demosaic_pixel(
                    b,
                    w,
                    h,
                    x0,
                    y as int,
                ),
                forall|i: int| w * y + x <= i < image@.len() ==> image@[i] == 0,
            decreases width - x,
        {
            proof {
                lemma_cell(w, h, x as int, y as int);
            }
            let v = pixel(bayer_image, width, height, x, y);
            let idx = x + width * y;
            let ghost before = image@;
            image.set(idx, v);
            proof {
                assert forall|x0: int, y0: int|
                    0 <= x0 < w && 0 <= y0 < y implies #[trigger] image@[x0 + w * y0]
                        == demosaic_pixel(b, w, h, x0, y0) by {
                    lemma_rows_apart(w, y0, y as int);
                    assert(before[x0 + w * y0] == demosaic_pixel(b, w, h, x0, y0));
                }
                assert forall|x0: int| 0 <= x0 < x + 1 implies #[trigger] image@[x0 + w * y]
                    == demosaic_pixel(b, w, h, x0, y as int) by {
                    if x0 < x {
                        assert(before[x0 + w * y] == demosaic_pixel(b, w, h, x0, y as int));
                    }
                }
            }
            x = x + 1;
        }
        proof {
            lemma_rows_apart(w, y as int, y + 1);
            assert forall|x0: int, y0: int|
                0 <= x0 < w && 0 <= y0 < y + 1 implies #[trigger] image@[x0 + w * y0]
                    == demosaic_pixel(b, w, h, x0, y0) by {
                if y0 == y {
                    assert(image@[x0 + w * y] == demosaic_pixel(b, w, h, x0, y as int));
                }
            }
        }
        y = y + 1;
    }
    image
}

} // verus!
