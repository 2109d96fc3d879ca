//! Pixel buffers: eight bits per channel, four channels per pixel, rows from
//! top to bottom and pixels from left to right within a row.

use vstd::prelude::*;

verus! {

/// One pixel: red, green, blue and alpha.
#[derive(Clone, Copy, Debug, PartialEq, Eq, Structural)]
pub struct Rgba {
    pub r: u8,
    pub g: u8,
    pub b: u8,
    pub a: u8,
}

/// The pixel that shows nothing: every channel zero.
pub open spec fn transparent() -> Rgba {
    Rgba { r: 0, g: 0, b: 0, a: 0 }
}

/// What a pixel buffer holds: `height` rows of `width` pixels each.
#[verifier::ext_equal]
pub struct Raster {
    pub width: nat,
    pub height: nat,
    pub rows: Seq<Seq<Rgba>>,
}

impl Raster {
    /// There are `height` rows and every row has `width` pixels.
    pub open spec fn wf(self) -> bool {
        &&& self.rows.len() == self.height
        &&& forall|y: int| 0 <= y < self.height ==> (#[trigger] self.rows[y]).len() == self.width
    }

    /// Whether `(x, y)` names a pixel of the raster.
    pub open spec fn contains(self, x: int, y: int) -> bool {
        0 <= x < self.width && 0 <= y < self.height
    }

    /// The pixel in column `x` of row `y`.
    pub open spec fn pixel(self, x: int, y: int) -> Rgba {
        self.rows[y][x]
    }

    /// A raster of the given size with every pixel equal to `pixel`.
    pub open spec fn filled(width: nat, height: nat, pixel: Rgba) -> Raster {
        Raster {
            width,
            height,
            rows: Seq::new(height, |y: int| Seq::new(width, |x: int| pixel)),
        }
    }

    /// The raster with the pixel at `(x, y)` replaced.
    pub open spec fn with_pixel(self, x: int, y: int, pixel: Rgba) -> Raster {
        Raster {
            width: self.width,
            height: self.height,
            rows: self.rows.update(y, self.rows[y].update(x, pixel)),
        }
    }
}

/// Where the first channel of pixel `(x, y)` lies in a buffer whose rows are
/// `width` pixels long.
pub open spec fn sample_index(width: int, x: int, y: int) -> int {
    4 * (y * width + x)
}

/// The pixel `(x, y)` of a raw buffer.
pub open spec fn pixel_at(data: Seq<u8>, width: int, x: int, y: int) -> Rgba {
    let i = sample_index(width, x, y);
    Rgba { r: data[i], g: data[i + 1], b: data[i + 2], a: data[i + 3] }
}

/// The raster that a raw buffer of the given dimensions holds.
pub open spec fn raster_of(width: nat, height: nat, data: Seq<u8>) -> Raster {
    Raster {
        width,
        height,
        rows: Seq::new(
            height,
            |y: int| Seq::new(width, |x: int| pixel_at(data, width as int, x, y)),
        ),
    }
}

/// The four channels of every pixel lie inside a buffer of `4 * width * height`
/// bytes.
pub proof fn lemma_sample_in_bounds(width: int, height: int, x: int, y: int)
    requires
        0 <= x < width,
        0 <= y < height,
    ensures
        0 <= sample_index(width, x, y),
        sample_index(width, x, y) + 4 <= 4 * (width * height),
{
    assert(y * width + x + 1 <= width * height) by (nonlinear_arith)
        requires
            0 <= x < width,
            0 <= y < height,
    ;
    assert(0 <= y * width) by (nonlinear_arith)
        requires
            0 <= y,
            0 <= width,
    ;
}

/// Two different pixels never share a byte.
pub proof fn lemma_samples_disjoint(width: int, x1: int, y1: int, x2: int, y2: int)
    requires
        0 <= x1 < width,
        0 <= x2 < width,
        0 <= y1,
        0 <= y2,
        x1 != x2 || y1 != y2,
    ensures
        sample_index(width, x1, y1) + 4 <= sample_index(width, x2, y2) || sample_index(
            width,
            x2,
            y2,
        ) + 4 <= sample_index(width, x1, y1),
{
    if y1 < y2 {
        assert(y1 * width + x1 < y2 * width + x2) by (nonlinear_arith)
            requires
                0 <= x1 < width,
                0 <= x2,
                0 <= y1 < y2,
        ;
    } else if y2 < y1 {
        assert(y2 * width + x2 < y1 * width + x1) by (nonlinear_arith)
            requires
                0 <= x2 < width,
                0 <= x1,
                0 <= y2 < y1,
        ;
    }
}

/// An image in memory. The buffer always has `4 * width * height` bytes.
#[derive(Debug)]
pub struct PixelBuffer {
    pub(crate) width: u32,
    pub(crate) height: u32,
    pub(crate) data: Vec<u8>,
}

impl View for PixelBuffer {
    type V = Raster;

    closed spec fn view(&self) -> Raster {
        raster_of(self.width as nat, self.height as nat, self.data@)
    }
}

impl PixelBuffer {
    #[verifier::type_invariant]
    pub closed spec fn well_formed(&self) -> bool {
        self.data@.len() == 4 * (self.width * self.height)
    }

    /// The raw bytes, row after row, four per pixel.
    pub closed spec fn bytes(&self) -> Seq<u8> {
        self.data@
    }

    /// What the view and the raw bytes of a well-formed buffer have to do with
    /// each other.
    pub proof fn lemma_view(&self)
        requires
            self.well_formed(),
        ensures
            self@.wf(),
            self@ == raster_of(self@.width, self@.height, self.bytes()),
            self.bytes().len() == 4 * (self@.width * self@.height),
            self@.width <= u32::MAX,
            self@.height <= u32::MAX,
    {
    }

    /// Takes over a raw buffer. `None` when its length is not
    /// `4 * width * height`.
    pub fn from_raw(width: u32, height: u32, data: Vec<u8>) -> (buffer: Option<PixelBuffer>)
        ensures
            buffer is Some <==> data@.len() == 4 * (width * height),
            buffer matches Some(b) ==> b.well_formed() && b@ == raster_of(
                width as nat,
                height as nat,
                data@,
            ) && b.bytes() == data@,
    {
        assert(width * height <= 0xffff_ffff * 0xffff_ffff) by (nonlinear_arith)
            requires
                0 <= width <= 0xffff_ffff,
                0 <= height <= 0xffff_ffff,
        ;
        let expected: u128 = 4 * ((width as u128) * (height as u128));
        if data.len() as u128 == expected {
            Some(PixelBuffer { width, height, data })
        } else {
            None
        }
    }

    /// Gives the raw buffer back.
    pub fn into_raw(self) -> (data: Vec<u8>)
        ensures
            data@ == self.bytes(),
    {
        self.data
    }

    pub fn width(&self) -> (width: u32)
        ensures
            width == self@.width,
    {
        self.width
    }

    pub fn height(&self) -> (height: u32)
        ensures
            height == self@.height,
    {
        self.height
    }

    /// A fully transparent buffer. `None` when `4 * width * height` bytes
    /// cannot be addressed on this machine.
    pub fn transparent(width: u32, height: u32) -> (buffer: Option<PixelBuffer>)
        ensures
            buffer is Some <==> 4 * (width * height) <= usize::MAX,
            buffer matches Some(b) ==> b.well_formed() && b@ == Raster::filled(
                width as nat,
                height as nat,
                transparent(),
            ),
    {
        assert(width * height <= 0xffff_ffff * 0xffff_ffff) by (nonlinear_arith)
            requires
                0 <= width <= 0xffff_ffff,
                0 <= height <= 0xffff_ffff,
        ;
        let wanted: u128 = 4 * ((width as u128) * (height as u128));
        if wanted > usize::MAX as u128 {
            return None;
        }
        let data: Vec<u8> = vec![0u8; wanted as usize];
        let buffer = PixelBuffer { width, height, data };
        proof {
            let filled = Raster::filled(width as nat, height as nat, transparent());
            assert forall|y: int| 0 <= y < height implies #[trigger] buffer@.rows[y]
                =~= filled.rows[y] by {
                assert forall|x: int| 0 <= x < width implies #[trigger] buffer@.rows[y][x]
                    == transparent() by {
                    lemma_sample_in_bounds(width as int, height as int, x, y);
                }
            }
            assert(buffer@ =~= filled);
        }
        Some(buffer)
    }

    /// Reads one pixel.
    pub fn get_pixel(&self, x: u32, y: u32) -> (pixel: Rgba)
        requires
            self@.contains(x as int, y as int),
        ensures
            pixel == self@.pixel(x as int, y as int),
    {
        proof {
            use_type_invariant(self);
            lemma_sample_in_bounds(self.width as int, self.height as int, x as int, y as int);
            assert(sample_index(self.width as int, x as int, y as int) + 4 <= self.data@.len());
            assert(0 <= y * self.width) by (nonlinear_arith)
                requires
                    self.width >= 0,
                    y >= 0,
            ;
            assert(self.data@.len() == self.data.len() <= usize::MAX);
        }
        let i: usize = 4 * (y as usize * self.width as usize + x as usize);
        Rgba { r: self.data[i], g: self.data[i + 1], b: self.data[i + 2], a: self.data[i + 3] }
    }

    /// Writes one pixel and leaves every other pixel as it was.
    pub fn put_pixel(&mut self, x: u32, y: u32, pixel: Rgba)
        requires
            old(self)@.contains(x as int, y as int),
        ensures
            final(self)@ == old(self)@.with_pixel(x as int, y as int, pixel),
    {
        proof {
            use_type_invariant(&*self);
            lemma_sample_in_bounds(self.width as int, self.height as int, x as int, y as int);
            assert(sample_index(self.width as int, x as int, y as int) + 4 <= self.data@.len());
            assert(0 <= y * self.width) by (nonlinear_arith)
                requires
                    self.width >= 0,
                    y >= 0,
            ;
            assert(self.data@.len() == self.data.len() <= usize::MAX);
        }
        let i: usize = 4 * (y as usize * self.width as usize + x as usize);
        self.data[i] = pixel.r;
        self.data[i + 1] = pixel.g;
        self.data[i + 2] = pixel.b;
        self.data[i + 3] = pixel.a;
        proof {
            let w = self.width as int;
            let before = old(self)@;
            let expected = before.with_pixel(x as int, y as int, pixel);
            assert forall|yy: int| 0 <= yy < self.height implies #[trigger] self@.rows[yy]
                =~= expected.rows[yy] by {
                assert forall|xx: int| 0 <= xx < self.width implies #[trigger] self@.rows[yy][xx]
                    == expected.rows[yy][xx] by {
                    lemma_sample_in_bounds(w, self.height as int, xx, yy);
                    if xx != x || yy != y {
                        lemma_samples_disjoint(w, x as int, y as int, xx, yy);
                        assert(pixel_at(self.data@, w, xx, yy) == pixel_at(
                            old(self).data@,
                            w,
                            xx,
                            yy,
                        ));
                    } else {
                        assert(pixel_at(self.data@, w, xx, yy) == pixel);
                    }
                }
            }
            assert(self@ =~= expected);
        }
    }
}

} // verus!
