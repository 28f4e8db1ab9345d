//! Channel packing: one 4-channel image out of four sources, each of which
//! gives the channel that it carries in its own slot.

use vstd::prelude::*;
use vstd::arithmetic::div_mod::lemma_fundamental_div_mod;
use crate::raster::{lemma_index_in_bounds, Raster, RasterView};

verus! {

/// A source that `channel_pack` can read a `width` by `height` area from:
/// a well-formed 4-channel image at least that large.
pub open spec fn covers<T>(source: RasterView<T>, width: u32, height: u32) -> bool {
    &&& source.wf()
    &&& source.channels == 4
    &&& width <= source.width
    &&& height <= source.height
}

/// Channel `c` of the packed pixel at `(x, y)`: red from the first source,
/// green from the second, blue from the third, and alpha from the fourth
/// where alpha is in use, else the opaque value.
pub open spec fn packed_sample<T>(
    sources: Seq<RasterView<T>>,
    use_alpha: bool,
    opaque: T,
    x: int,
    y: int,
    c: int,
) -> T {
    if c == 3 && !use_alpha {
        opaque
    } else {
        sources[c].at(x, y, c)
    }
}

/// The packed image: `width` by `height` pixels of four channels, each
/// channel of each pixel as [`packed_sample`] gives it.
pub open spec fn packed_image<T>(
    sources: Seq<RasterView<T>>,
    use_alpha: bool,
    opaque: T,
    width: u32,
    height: u32,
) -> RasterView<T> {
    RasterView {
        width: width as nat,
        height: height as nat,
        channels: 4,
        samples: Seq::new(
            (width * height * 4) as nat,
            |i: int|
                packed_sample(
                    sources,
                    use_alpha,
                    opaque,
                    (i / 4) % (width as int),
                    (i / 4) / (width as int),
                    i % 4,
                ),
        ),
    }
}

/// The views of the rasters in a vector.
pub open spec fn views<T>(rasters: Seq<Raster<T>>) -> Seq<RasterView<T>> {
    rasters.map_values(|r: Raster<T>| r@)
}

/// Provided a set of images, packs the red channel of the first, the green
/// channel of the second, the blue channel of the third and the alpha channel
/// of the fourth into the corresponding channels of a new one. Where alpha
/// is not in use, every pixel gets the opaque value for its alpha. The
/// sources may be larger than the area to pack; their top left corner is
/// read.
pub fn channel_pack<T: Copy>(
    channel_data: &Vec<Raster<T>>,
    use_alpha: bool,
    opaque: T,
    width: u32,
    height: u32,
) -> (packed: Raster<T>)
    requires
        channel_data@.len() >= 4,
        forall|k: int| 0 <= k < 4 ==> covers(#[trigger] channel_data@[k]@, width, height),
    ensures
        packed@ == packed_image(views(channel_data@), use_alpha, opaque, width, height),
        packed@.wf(),
        forall|x: int, y: int, c: int|
            0 <= x < width && 0 <= y < height && 0 <= c < 4 ==> #[trigger] packed@.at(x, y, c)
                == packed_sample(views(channel_data@), use_alpha, opaque, x, y, c),
{
    let ghost sources = views(channel_data@);
    proof {
        let first = channel_data@[0]@;
        assert(covers(first, width, height));
        assert(width * height * 4 <= first.width * first.height * 4) by (nonlinear_arith)
            requires
                0 <= width <= first.width,
                0 <= height <= first.height,
        ;
    }
    let limit = channel_data[0].samples().len();
    let mut samples: Vec<T> = Vec::new();
    let mut y: u32 = 0;
    while y < height
        invariant
            y <= height,
            channel_data@.len() >= 4,
            sources == views(channel_data@),
            forall|k: int| 0 <= k < 4 ==> covers(#[trigger] channel_data@[k]@, width, height),
            width * height * 4 <= limit,
            samples@.len() == y * width * 4,
            forall|px: int, py: int, c: int|
                0 <= px < width && 0 <= py < y && 0 <= c < 4 ==> samples@[#[trigger] packed_index(
                    width,
                    px,
                    py,
                    c,
                )] == packed_sample(sources, use_alpha, opaque, px, py, c),
        decreases height - y,
    {
        let mut x: u32 = 0;
        while x < width
            invariant
                x <= width,
                y < height,
                channel_data@.len() >= 4,
                sources == views(channel_data@),
                forall|k: int| 0 <= k < 4 ==> covers(#[trigger] channel_data@[k]@, width, height),
                width * height * 4 <= limit,
                samples@.len() == (y * width + x) * 4,
                forall|px: int, py: int, c: int|
                    0 <= px < width && 0 <= py < y && 0 <= c < 4 ==> samples@[#[trigger] packed_index(
                        width,
                        px,
                        py,
                        c,
                    )] == packed_sample(sources, use_alpha, opaque, px, py, c),
                forall|px: int, c: int|
                    0 <= px < x && 0 <= c < 4 ==> samples@[#[trigger] packed_index(
                        width,
                        px,
                        y as int,
                        c,
                    )] == packed_sample(sources, use_alpha, opaque, px, y as int, c),
            decreases width - x,
        {
            proof {
                assert(covers(channel_data@[0]@, width, height));
                assert(covers(channel_data@[1]@, width, height));
                assert(covers(channel_data@[2]@, width, height));
                assert(covers(channel_data@[3]@, width, height));
                assert(sources[0] == channel_data@[0]@);
                assert(sources[1] == channel_data@[1]@);
                assert(sources[2] == channel_data@[2]@);
                assert(sources[3] == channel_data@[3]@);
                lemma_index_in_bounds(width as int, height as int, 4, x as int, y as int, 0);
            }
            let r = channel_data[0].get(x, y, 0);
            let g = channel_data[1].get(x, y, 1);
            let b = channel_data[2].get(x, y, 2);
            let a = if use_alpha {
                channel_data[3].get(x, y, 3)
            } else {
                opaque
            };
            let ghost before = samples@;
            samples.push(r);
            samples.push(g);
            samples.push(b);
            samples.push(a);
            proof {
                let base = (y * width + x) * 4;
                assert(samples@.len() == (y * width + (x + 1)) * 4) by (nonlinear_arith)
                    requires
                        samples@.len() == base + 4,
                        base == (y * width + x) * 4,
                ;
                assert forall|px: int, py: int, c: int|
                    0 <= px < width && 0 <= py < y && 0 <= c < 4 implies samples@[#[trigger] packed_index(
                    width,
                    px,
                    py,
                    c,
                )] == packed_sample(sources, use_alpha, opaque, px, py, c) by {
                    lemma_packed_index_order(width, px, py, c, 0, y as int);
                    assert(packed_index(width, px, py, c) < before.len()) by (nonlinear_arith)
                        requires
                            packed_index(width, px, py, c) < packed_index(width, 0, y as int, 0),
                            packed_index(width, 0, y as int, 0) == (y * width) * 4,
                            before.len() == (y * width + x) * 4,
                            0 <= x,
                    ;
                    assert(samples@[packed_index(width, px, py, c)] == before[packed_index(
                        width,
                        px,
                        py,
                        c,
                    )]);
                }
                assert forall|px: int, c: int| 0 <= px < x + 1 && 0 <= c < 4 implies samples@[#[trigger] packed_index(
                    width,
                    px,
                    y as int,
                    c,
                )] == packed_sample(sources, use_alpha, opaque, px, y as int, c) by {
                    if px < x {
                        assert(packed_index(width, px, y as int, c) < before.len())
                            by (nonlinear_arith)
                            requires
                                packed_index(width, px, y as int, c) == (y * width + px) * 4 + c,
                                before.len() == (y * width + x) * 4,
                                px < x,
                                c < 4,
                        ;
                        assert(samples@[packed_index(width, px, y as int, c)] == before[packed_index(
                            width,
                            px,
                            y as int,
                            c,
                        )]);
                    } else {
                        assert(packed_index(width, px, y as int, c) == base + c);
                    }
                }
            }
            x = x + 1;
        }
        proof {
            assert((y * width + width) * 4 == (y + 1) * width * 4) by (nonlinear_arith);
            assert forall|px: int, py: int, c: int|
                0 <= px < width && 0 <= py < y + 1 && 0 <= c < 4 implies samples@[#[trigger] packed_index(
                width,
                px,
                py,
                c,
            )] == packed_sample(sources, use_alpha, opaque, px, py, c) by {
                if py == y {
                    assert(samples@[packed_index(width, px, y as int, c)] == packed_sample(
                        sources,
                        use_alpha,
                        opaque,
                        px,
                        y as int,
                        c,
                    ));
                }
            }
        }
        y = y + 1;
    }
    assert(height * width * 4 == width * height * 4) by (nonlinear_arith);
    let packed = Raster::assemble(width, height, 4, samples);
    proof {
        assert forall|x: int, y: int, c: int|
            0 <= x < width && 0 <= y < height && 0 <= c < 4 implies #[trigger] packed@.at(x, y, c)
            == packed_sample(views(channel_data@), use_alpha, opaque, x, y, c) by {
            assert(packed@.index_of(x, y, c) == packed_index(width, x, y, c));
        }
        let wanted = packed_image(views(channel_data@), use_alpha, opaque, width, height);
        assert forall|i: int| 0 <= i < width * height * 4 implies packed@.samples[i]
            == wanted.samples[i] by {
            lemma_pixel_of_index(width as int, height as int, i);
            let x = (i / 4) % (width as int);
            let y = (i / 4) / (width as int);
            assert(packed@.at(x, y, i % 4) == packed_sample(
                views(channel_data@),
                use_alpha,
                opaque,
                x,
                y,
                i % 4,
            ));
        }
        assert(packed@.samples =~= wanted.samples);
    }
    packed
}

/// Sample `i` of a 4-channel buffer belongs to the pixel at column
/// `(i / 4) % width` of row `(i / 4) / width`.
pub proof fn lemma_pixel_of_index(width: int, height: int, i: int)
    requires
        0 <= width,
        0 <= height,
        0 <= i < width * height * 4,
    ensures
        0 <= (i / 4) % width < width,
        0 <= (i / 4) / width < height,
        0 <= i % 4 < 4,
        ((i / 4) / width * width + (i / 4) % width) * 4 + i % 4 == i,
{
    let p = i / 4;
    assert(width > 0) by (nonlinear_arith)
        requires
            0 <= width,
            0 <= i < width * height * 4,
    ;
    assert(0 <= p < width * height);
    lemma_fundamental_div_mod(p, width);
    let y = p / width;
    let x = p % width;
    assert(0 <= x < width);
    assert(width * y == y * width) by (nonlinear_arith);
    assert(0 <= y < height) by (nonlinear_arith)
        requires
            p == y * width + x,
            0 <= x < width,
            0 <= p < width * height,
    ;
}

/// Position of channel `c` of the pixel at `(x, y)` in a packed buffer.
spec fn packed_index(width: u32, x: int, y: int, c: int) -> int {
    (y * width + x) * 4 + c
}

/// Pixels of earlier rows come before the pixels of later rows.
proof fn lemma_packed_index_order(width: u32, x: int, y: int, c: int, x2: int, y2: int)
    requires
        0 <= x < width,
        0 <= y < y2,
        0 <= c < 4,
        0 <= x2,
    ensures
        0 <= packed_index(width, x, y, c) < packed_index(width, x2, y2, 0),
        packed_index(width, 0, y2, 0) == (y2 * width) * 4,
{
    assert(0 <= y * width && y * width + width <= y2 * width) by (nonlinear_arith)
        requires
            0 <= y < y2,
            0 <= width,
    ;
}

} // verus!
