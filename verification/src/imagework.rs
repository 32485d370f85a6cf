use vstd::prelude::*;

verus! {

/// One pixel: red, green, blue and alpha channels.
#[derive(Clone, Copy, Debug, PartialEq, Eq, Structural)]
pub struct Rgba {
    pub r: u8,
    pub g: u8,
    pub b: u8,
    pub a: u8,
}

/// What a [`Pixmap`] holds: its size and its rows of pixels, top to bottom.
pub struct PixmapView {
    pub width: u32,
    pub height: u32,
    pub pixels: Seq<Seq<Rgba>>,
}

/// The pixel in column `x` of row `y`.
pub open spec fn pixel_of(v: PixmapView, x: int, y: int) -> Rgba {
    v.pixels[y][x]
}

pub open spec fn in_image(v: PixmapView, x: int, y: int) -> bool {
    0 <= x < v.width && 0 <= y < v.height
}

/// An RGBA image held row by row.
pub struct Pixmap {
    width: u32,
    height: u32,
    rows: Vec<Vec<Rgba>>,
}

pub open spec fn rows_view(rows: Seq<Vec<Rgba>>) -> Seq<Seq<Rgba>> {
    rows.map_values(|r: Vec<Rgba>| r@)
}

/// Every one of `height` rows has `width` pixels.
pub open spec fn rows_fit(pixels: Seq<Seq<Rgba>>, width: int, height: int) -> bool {
    pixels.len() == height && forall|y: int| 0 <= y < height ==> #[trigger] pixels[y].len() == width
}

impl View for Pixmap {
    type V = PixmapView;

    closed spec fn view(&self) -> PixmapView {
        PixmapView { width: self.width, height: self.height, pixels: rows_view(self.rows@) }
    }
}

impl Pixmap {
    #[verifier::type_invariant]
    spec fn inv(self) -> bool {
        rows_fit(rows_view(self.rows@), self.width as int, self.height as int)
    }

    pub fn width(&self) -> (res: u32)
        ensures
            res == self@.width,
    {
        self.width
    }

    pub fn height(&self) -> (res: u32)
        ensures
            res == self@.height,
    {
        self.height
    }

    pub fn get_pixel(&self, x: u32, y: u32) -> (res: Rgba)
        requires
            x < self@.width,
            y < self@.height,
        ensures
            res == pixel_of(self@, x as int, y as int),
    {
        proof {
            use_type_invariant(self);
            assert(rows_view(self.rows@)[y as int] == self.rows@[y as int]@);
        }
        self.rows[y as usize][x as usize]
    }

    /// Builds an image from rows that already have the right shape.
    pub(crate) fn from_rows(width: u32, height: u32, rows: Vec<Vec<Rgba>>) -> (res: Pixmap)
        requires
            rows_fit(rows_view(rows@), width as int, height as int),
        ensures
            res@ == (PixmapView { width, height, pixels: rows_view(rows@) }),
    {
        Pixmap { width, height, rows }
    }
}

/// Pixel format of a captured frame.
#[derive(Clone, Copy, Debug, PartialEq, Eq, Structural)]
pub enum ColorFormat {
    Rgba16F,
    Rgba8,
    Bgra8,
}

/// Why a captured frame could not be turned into an image.
#[derive(Clone, Copy, Debug, PartialEq, Eq, Structural)]
pub enum FrameError {
    /// the buffer holds fewer pixels than the frame's size asks for
    InvalidSize,
    /// the frame's pixel format is not one of the 8-bit ones
    UnsupportedFormat,
}

/// How the four bytes of a pixel are laid out in a buffer.
#[derive(Clone, Copy, PartialEq, Eq, Structural)]
pub enum ByteOrder {
    /// red, green, blue, alpha
    Rgba,
    /// red, green, blue, and an alpha that is ignored (the pixel is opaque)
    RgbaOpaque,
    /// blue, green, red, and an alpha that is ignored (the pixel is opaque)
    BgraOpaque,
}

/// Pixel number `k` of a buffer of 4-byte pixels.
pub open spec fn decode_pixel(data: Seq<u8>, k: int, order: ByteOrder) -> Rgba {
    match order {
        ByteOrder::Rgba => Rgba { r: data[4 * k], g: data[4 * k + 1], b: data[4 * k + 2], a: data[4 * k + 3] },
        ByteOrder::RgbaOpaque => Rgba { r: data[4 * k], g: data[4 * k + 1], b: data[4 * k + 2], a: 255 },
        ByteOrder::BgraOpaque => Rgba { r: data[4 * k + 2], g: data[4 * k + 1], b: data[4 * k], a: 255 },
    }
}

/// `v` is the `width` x `height` image whose pixels are stored one after
/// the other, row by row, in `data`.
pub open spec fn decodes_to(v: PixmapView, data: Seq<u8>, width: u32, height: u32, order: ByteOrder) -> bool {
    &&& v.width == width
    &&& v.height == height
    &&& forall|x: int, y: int|
        0 <= x < width && 0 <= y < height ==> #[trigger] pixel_of(v, x, y) == decode_pixel(
            data,
            y * width + x,
            order,
        )
}

proof fn lemma_pixel_index_in_range(x: int, y: int, width: int, height: int)
    requires
        0 <= x < width,
        0 <= y < height,
    ensures
        0 <= y * width + x < width * height,
        y * width + x + 1 <= width * height,
{
    assert(0 <= y * width + x < width * height) by (nonlinear_arith)
        requires
            0 <= x < width,
            0 <= y < height,
    ;
}

fn read_pixel(data: &[u8], i: usize, order: ByteOrder) -> (res: Rgba)
    requires
        i % 4 == 0,
        i + 4 <= data@.len(),
    ensures
        res == decode_pixel(data@, i as int / 4, order),
{
    match order {
        ByteOrder::Rgba => Rgba { r: data[i], g: data[i + 1], b: data[i + 2], a: data[i + 3] },
        ByteOrder::RgbaOpaque => Rgba { r: data[i], g: data[i + 1], b: data[i + 2], a: 255 },
        ByteOrder::BgraOpaque => Rgba { r: data[i + 2], g: data[i + 1], b: data[i], a: 255 },
    }
}

fn decode(data: &[u8], width: u32, height: u32, order: ByteOrder) -> (res: Pixmap)
    requires
        width * height * 4 <= data@.len(),
    ensures
        decodes_to(res@, data@, width, height, order),
{
    let len = data.len();
    let mut rows: Vec<Vec<Rgba>> = Vec::new();
    let mut idx: usize = 0;
    let mut y: u32 = 0;
    while y < height
        invariant
            y <= height,
            width * height * 4 <= data@.len(),
            len == data@.len(),
            idx == 4 * (y * width),
            rows@.len() == y,
            forall|yy: int| 0 <= yy < y ==> #[trigger] rows@[yy]@.len() == width,
            forall|xx: int, yy: int|
                0 <= xx < width && 0 <= yy < y ==> #[trigger] rows@[yy]@[xx] == decode_pixel(
                    data@,
                    yy * width + xx,
                    order,
                ),
        decreases height - y,
    {
        let mut row: Vec<Rgba> = Vec::new();
        let mut x: u32 = 0;
        while x < width
            invariant
                x <= width,
                y < height,
                width * height * 4 <= data@.len(),
                len == data@.len(),
                idx == 4 * (y * width + x),
                row@.len() == x,
                forall|xx: int|
                    0 <= xx < x ==> #[trigger] row@[xx] == decode_pixel(data@, y * width + xx, order),
            decreases width - x,
        {
            proof {
                lemma_pixel_index_in_range(x as int, y as int, width as int, height as int);
                assert(idx + 4 <= data@.len());
            }
            let p = read_pixel(data, idx, order);
            row.push(p);
            idx = idx + 4;
            x = x + 1;
        }
        rows.push(row);
        proof {
            assert((y + 1) * width == y * width + width) by (nonlinear_arith);
        }
        y = y + 1;
    }
    let ghost pixels = rows_view(rows@);
    assert forall|x: int, yy: int| 0 <= x < width && 0 <= yy < height implies #[trigger] pixels[yy][x]
        == decode_pixel(data@, yy * width + x, order) by {
        assert(pixels[yy] == rows@[yy]@);
    }
    assert forall|yy: int| 0 <= yy < height implies #[trigger] pixels[yy].len() == width by {
        assert(pixels[yy] == rows@[yy]@);
    }
    Pixmap::from_rows(width, height, rows)
}

/// Whether `len` bytes are enough for `width * height` pixels of 4 bytes.
pub(crate) fn pixels_fit(width: u32, height: u32, len: usize) -> (res: bool)
    ensures
        res == (width * height * 4 <= len),
{
    match (width as usize).checked_mul(height as usize) {
        None => {
            assert(width * height * 4 >= width * height) by (nonlinear_arith);
            false
        },
        Some(n) => match n.checked_mul(4) {
            None => false,
            Some(n4) => n4 <= len,
        },
    }
}

impl Pixmap {
    /// The image stored in `data` as 4-byte RGBA pixels, row by row; there
    /// is one when `data` holds at least `width * height` pixels (bytes past
    /// them are not part of the image).
    pub fn from_raw(width: u32, height: u32, data: Vec<u8>) -> (res: Option<Pixmap>)
        ensures
            res is Some <==> width * height * 4 <= data@.len(),
            res matches Some(p) ==> decodes_to(p@, data@, width, height, ByteOrder::Rgba),
    {
        if pixels_fit(width, height, data.len()) {
            Some(decode(data.as_slice(), width, height, ByteOrder::Rgba))
        } else {
            None
        }
    }
}

/// Turns the bytes of a captured frame into an opaque image: BGRA frames
/// have their red and blue swapped, RGBA frames are taken as they are, and
/// in both the alpha byte is replaced by 255. Other formats are refused,
/// and so is a buffer with fewer pixels than `width * height`.
pub fn image_from_frame(data: &[u8], width: u32, height: u32, format: ColorFormat) -> (res: Result<
    Pixmap,
    FrameError,
>)
    requires
        format == ColorFormat::Bgra8 ==> width * height * 4 <= u32::MAX,
        format == ColorFormat::Rgba8 ==> width * height * 3 <= u32::MAX,
    ensures
        format == ColorFormat::Rgba16F ==> res == Err::<Pixmap, FrameError>(FrameError::UnsupportedFormat),
        format != ColorFormat::Rgba16F ==> (res is Ok <==> width * height * 4 <= data@.len()),
        format != ColorFormat::Rgba16F && res is Err ==> res == Err::<Pixmap, FrameError>(FrameError::InvalidSize),
        format == ColorFormat::Bgra8 && res is Ok ==> decodes_to(res->Ok_0@, data@, width, height, ByteOrder::BgraOpaque),
        format == ColorFormat::Rgba8 && res is Ok ==> decodes_to(res->Ok_0@, data@, width, height, ByteOrder::RgbaOpaque),
{
    let order = match format {
        ColorFormat::Bgra8 => ByteOrder::BgraOpaque,
        ColorFormat::Rgba8 => ByteOrder::RgbaOpaque,
        ColorFormat::Rgba16F => {
            return Err(FrameError::UnsupportedFormat);
        },
    };
    // the whole 4-byte pixels of the buffer; a trailing partial pixel is dropped
    let whole = data.len() / 4 * 4;
    if pixels_fit(width, height, whole) {
        Ok(decode(data, width, height, order))
    } else {
        Err(FrameError::InvalidSize)
    }
}

/// What a [`Graymap`] holds: its size and its rows of 8-bit values.
pub struct GraymapView {
    pub width: u32,
    pub height: u32,
    pub pixels: Seq<Seq<u8>>,
}

/// A one-channel image held row by row.
pub struct Graymap {
    width: u32,
    height: u32,
    rows: Vec<Vec<u8>>,
}

impl View for Graymap {
    type V = GraymapView;

    closed spec fn view(&self) -> GraymapView {
        GraymapView {
            width: self.width,
            height: self.height,
            pixels: self.rows@.map_values(|r: Vec<u8>| r@),
        }
    }
}

impl Graymap {
    #[verifier::type_invariant]
    spec fn inv(self) -> bool {
        &&& self.rows@.len() == self.height
        &&& forall|y: int| 0 <= y < self.rows@.len() ==> #[trigger] self.rows@[y]@.len() == self.width
    }

    pub fn width(&self) -> (res: u32)
        ensures
            res == self@.width,
    {
        self.width
    }

    pub fn height(&self) -> (res: u32)
        ensures
            res == self@.height,
    {
        self.height
    }

    pub fn get_pixel(&self, x: u32, y: u32) -> (res: u8)
        requires
            x < self@.width,
            y < self@.height,
        ensures
            res == self@.pixels[y as int][x as int],
    {
        proof {
            use_type_invariant(self);
        }
        self.rows[y as usize][x as usize]
    }
}

/// Perceived brightness of a pixel, 0 to 255, from integer weights
/// (77, 150, 29 out of 256) for red, green and blue.
pub open spec fn luminance(p: Rgba) -> int {
    (77 * p.r + 150 * p.g + 29 * p.b) / 256
}

/// White (255) for a pixel at least as bright as `threshold`, black (0)
/// otherwise.
pub open spec fn binarized(p: Rgba, threshold: u8) -> u8 {
    if luminance(p) >= threshold {
        255
    } else {
        0
    }
}

/// The `w` x `h` block of `src` whose top left corner is (`x`, `y`),
/// binarized.
pub open spec fn bitmap_spec(src: PixmapView, x: u32, y: u32, w: u32, h: u32, threshold: u8) -> Seq<
    Seq<u8>,
> {
    Seq::new(
        h as nat,
        |dy: int| Seq::new(w as nat, |dx: int| binarized(pixel_of(src, x + dx, y + dy), threshold)),
    )
}

/// The `w` pixels of row `y` of `src` from column `x` on, binarized.
pub open spec fn bitline_spec(src: PixmapView, x: u32, y: u32, w: u32, threshold: u8) -> Seq<u8> {
    Seq::new(w as nat, |dx: int| binarized(pixel_of(src, x + dx, y as int), threshold))
}

fn binarize(p: Rgba, threshold: u8) -> (res: u8)
    ensures
        res == binarized(p, threshold),
{
    let r = p.r as u16;
    let g = p.g as u16;
    let b = p.b as u16;
    let sum: u16 = r * 77 + g * 150 + b * 29;
    assert(sum >> 8u16 == sum / 256) by (bit_vector);
    let lum = (sum >> 8) as u8;
    if lum >= threshold {
        255
    } else {
        0
    }
}

/// The `w` x `h` block of `src` at (`x`, `y`) as a black and white mask.
pub fn bitmap(src: &Pixmap, x: u32, y: u32, w: u32, h: u32, threshold: u8) -> (res: Graymap)
    requires
        w == 0 || h == 0 || (x + w <= src@.width && y + h <= src@.height),
        w * h <= usize::MAX,
    ensures
        res@.width == w,
        res@.height == h,
        res@.pixels == bitmap_spec(src@, x, y, w, h, threshold),
{
    let mut rows: Vec<Vec<u8>> = Vec::new();
    let mut dy: u32 = 0;
    while dy < h
        invariant
            dy <= h,
            w == 0 || h == 0 || (x + w <= src@.width && y + h <= src@.height),
            rows@.len() == dy,
            forall|yy: int| 0 <= yy < dy ==> #[trigger] rows@[yy]@ == bitmap_spec(src@, x, y, w, h, threshold)[yy],
        decreases h - dy,
    {
        let mut row: Vec<u8> = Vec::new();
        let mut dx: u32 = 0;
        while dx < w
            invariant
                dx <= w,
                dy < h,
                w == 0 || (x + w <= src@.width && y + h <= src@.height),
                row@.len() == dx,
                forall|xx: int|
                    0 <= xx < dx ==> #[trigger] row@[xx] == binarized(pixel_of(src@, x + xx, y + dy), threshold),
            decreases w - dx,
        {
            let p = src.get_pixel(x + dx, y + dy);
            row.push(binarize(p, threshold));
            dx = dx + 1;
        }
        assert(row@ == bitmap_spec(src@, x, y, w, h, threshold)[dy as int]);
        rows.push(row);
        dy = dy + 1;
    }
    let res = Graymap { width: w, height: h, rows };
    assert(res@.pixels == bitmap_spec(src@, x, y, w, h, threshold));
    res
}

/// The `w` pixels of row `y` of `src` from column `x` on, as a black and
/// white line.
pub fn bitline(src: &Pixmap, x: u32, y: u32, w: u32, threshold: u8) -> (res: Vec<u8>)
    requires
        w == 0 || (x + w <= src@.width && y < src@.height),
    ensures
        res@ == bitline_spec(src@, x, y, w, threshold),
{
    let mut out: Vec<u8> = Vec::new();
    let mut dx: u32 = 0;
    while dx < w
        invariant
            dx <= w,
            w == 0 || (x + w <= src@.width && y < src@.height),
            out@.len() == dx,
            forall|xx: int| 0 <= xx < dx ==> #[trigger] out@[xx] == binarized(pixel_of(src@, x + xx, y as int), threshold),
        decreases w - dx,
    {
        let p = src.get_pixel(x + dx, y);
        out.push(binarize(p, threshold));
        dx = dx + 1;
    }
    assert(out@ == bitline_spec(src@, x, y, w, threshold));
    out
}

/// A line taken with `bitline` is the top row of the block that `bitmap`
/// takes at the same place with the same threshold.
pub proof fn lemma_bitline_is_top_row_of_bitmap(src: PixmapView, x: u32, y: u32, w: u32, h: u32, threshold: u8)
    requires
        h > 0,
    ensures
        bitmap_spec(src, x, y, w, h, threshold)[0] == bitline_spec(src, x, y, w, threshold),
{
    assert(bitmap_spec(src, x, y, w, h, threshold)[0] =~= bitline_spec(src, x, y, w, threshold));
}

/// Every value of a mask taken with `bitmap` is black or white.
pub proof fn lemma_bitmap_is_black_and_white(src: PixmapView, x: u32, y: u32, w: u32, h: u32, threshold: u8, dx: int, dy: int)
    requires
        0 <= dx < w,
        0 <= dy < h,
    ensures
        bitmap_spec(src, x, y, w, h, threshold)[dy][dx] == 0
            || bitmap_spec(src, x, y, w, h, threshold)[dy][dx] == 255,
{
}

/// The RGBA bytes, row by row, of `image` resized to `new_width` x
/// `new_height` by the `image` crate's `resize_exact` with its triangle
/// filter.
pub uninterp spec fn triangle_resized(image: PixmapView, new_width: u32, new_height: u32) -> Seq<u8>;

/// Calls `image::DynamicImage::resize_exact` with `FilterType::Triangle` on
/// the image and takes the raw bytes of the result. Trusted: the bytes are
/// the named result for this image and size, and (as `resize_exact`
/// documents that the result is `new_width` x `new_height`, and an RGBA
/// buffer holds 4 bytes per pixel) there are `new_width * new_height * 4`
/// of them. What the filter computes is not stated.
#[verifier::external_body]
fn resize_exact_triangle(image: &Pixmap, new_width: u32, new_height: u32) -> (res: Vec<u8>)
    requires
        new_width <= image@.width,
        new_height <= image@.height,
    ensures
        res@ == triangle_resized(image@, new_width, new_height),
        res@.len() == new_width * new_height * 4,
{
    let raw: Vec<u8> = image.rows.iter().flatten().flat_map(|p| [p.r, p.g, p.b, p.a]).collect();
    let buf = image::RgbaImage::from_raw(image.width, image.height, raw).unwrap();
    let img = image::DynamicImage::ImageRgba8(buf);
    img.resize_exact(new_width, new_height, image::imageops::FilterType::Triangle).into_rgba8().into_raw()
}

impl Pixmap {
    /// This image scaled to `new_width` x `new_height` with the triangle
    /// filter.
    pub fn resize_triangle(&self, new_width: u32, new_height: u32) -> (res: Pixmap)
        requires
            new_width <= self@.width,
            new_height <= self@.height,
        ensures
            decodes_to(
                res@,
                triangle_resized(self@, new_width, new_height),
                new_width,
                new_height,
                ByteOrder::Rgba,
            ),
    {
        let raw = resize_exact_triangle(self, new_width, new_height);
        match Pixmap::from_raw(new_width, new_height, raw) {
            Some(p) => p,
            None => {
                proof {
                    assert(false);
                }
                Pixmap { width: 0, height: 0, rows: Vec::new() }
            },
        }
    }
}

/// The same bytes read as BGRA and as RGBA give the same opaque pixel with
/// red and blue exchanged.
pub proof fn lemma_bgra_is_rgba_swapped(data: Seq<u8>, k: int)
    ensures
        decode_pixel(data, k, ByteOrder::BgraOpaque) == (Rgba {
            r: decode_pixel(data, k, ByteOrder::RgbaOpaque).b,
            g: decode_pixel(data, k, ByteOrder::RgbaOpaque).g,
            b: decode_pixel(data, k, ByteOrder::RgbaOpaque).r,
            a: 255,
        }),
{
}

/// How the mask weighs the channels: a pixel of a mask taken with `bitmap`
/// or `bitline` is white exactly when 77 times its red plus 150 times its
/// green plus 29 times its blue reaches 256 times the threshold, and black
/// otherwise. So a pure red of 255 has luminance 76, a pure green 149 and a
/// pure blue 28.
pub proof fn lemma_mask_channel_weights(
    src: PixmapView,
    x: u32,
    y: u32,
    w: u32,
    h: u32,
    threshold: u8,
    dx: int,
    dy: int,
)
    requires
        0 <= dx < w,
        0 <= dy < h,
    ensures
        ({
            let p = pixel_of(src, x + dx, y + dy);
            &&& bitmap_spec(src, x, y, w, h, threshold)[dy][dx] == 255 <==> 77 * p.r + 150 * p.g + 29
                * p.b >= 256 * threshold
            &&& bitmap_spec(src, x, y, w, h, threshold)[dy][dx] == 0 <==> 77 * p.r + 150 * p.g + 29
                * p.b < 256 * threshold
        }),
        ({
            let p = pixel_of(src, x + dx, y as int);
            &&& bitline_spec(src, x, y, w, threshold)[dx] == 255 <==> 77 * p.r + 150 * p.g + 29 * p.b
                >= 256 * threshold
            &&& bitline_spec(src, x, y, w, threshold)[dx] == 0 <==> 77 * p.r + 150 * p.g + 29 * p.b
                < 256 * threshold
        }),
        luminance(Rgba { r: 255, g: 0, b: 0, a: 255 }) == 76,
        luminance(Rgba { r: 0, g: 255, b: 0, a: 255 }) == 149,
        luminance(Rgba { r: 0, g: 0, b: 255, a: 255 }) == 28,
{
}

} // verus!
