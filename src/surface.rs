//! The frame surface: the e-paper frame buffer, seen as a landscape grid of
//! black and white pixels, with the drawing operations the widgets use.
use vstd::prelude::*;
use embedded_graphics::mono_font::ascii::FONT_4X6;
use embedded_graphics::mono_font::ascii::FONT_5X8;
use embedded_graphics::mono_font::ascii::FONT_6X10;
use embedded_graphics::mono_font::ascii::FONT_6X12;
use embedded_graphics::mono_font::ascii::FONT_9X15;
use embedded_graphics::mono_font::MonoTextStyle;
use embedded_graphics::prelude::DrawTarget;
use embedded_graphics::prelude::Point;
use embedded_graphics::prelude::Primitive;
use embedded_graphics::prelude::Size;
use embedded_graphics::primitives::Circle;
use embedded_graphics::primitives::Line;
use embedded_graphics::primitives::PrimitiveStyle;
use embedded_graphics::primitives::Polyline;
use embedded_graphics::primitives::Rectangle;
use embedded_graphics::text::Text;
use embedded_graphics::Drawable;
use embedded_graphics::Pixel;
use epd_waveshare::color::Color;
use epd_waveshare::epd2in9_v2::Display2in9;
use epd_waveshare::graphics::DisplayRotation;

verus! {

/// The panel's frame buffer, from epd_waveshare. Verus does not take the
/// declaration of its const-generic type, so it is held here opaquely and
/// reached only through the functions below.
#[verifier::external_body]
pub struct FrameBuffer {
    display: Display2in9,
}

#[verifier::external_type_specification]
pub struct ExColor(Color);

#[verifier::external_type_specification]
pub struct ExDisplayRotation(DisplayRotation);

/// The bytes of a display's frame buffer.
pub uninterp spec fn display_bytes(d: FrameBuffer) -> Seq<u8>;

/// The rotation a display draws with.
pub uninterp spec fn display_rotation(d: FrameBuffer) -> DisplayRotation;

/// Width of the landscape picture in pixels.
pub const WIDTH: i32 = 296;

/// Height of the landscape picture in pixels.
pub const HEIGHT: i32 = 128;

/// Pixels in the picture.
pub const PIXELS: usize = 37888;

/// Bytes in the frame buffer: one bit per pixel.
pub const BUFFER_LEN: usize = 4736;

/// Whether logical pixel (x, y) of the landscape picture is black in the
/// frame buffer `bytes`. The panel is 128 pixels wide and turned a quarter:
/// (x, y) is column 127 - y of row x, eight pixels to a byte, most significant
/// bit first; a cleared bit is black.
pub open spec fn pixel_black(bytes: Seq<u8>, x: int, y: int) -> bool {
    let col = 127 - y;
    bytes[col / 8 + x * 16] & (0x80u8 >> ((col % 8) as u8)) == 0
}

/// The picture a frame buffer holds: 128 rows of 296 pixels, true for black.
pub open spec fn grid_of(bytes: Seq<u8>) -> Seq<Seq<bool>> {
    Seq::new(128, |y: int| Seq::new(296, |x: int| pixel_black(bytes, x, y)))
}

/// A display that draws in landscape, with a frame buffer of the panel's size.
pub open spec fn landscape(d: FrameBuffer) -> bool {
    display_rotation(d) == DisplayRotation::Rotate90 && display_bytes(d).len() == BUFFER_LEN
}

/// Whether (x, y) lies on the picture.
pub open spec fn on_screen(x: int, y: int) -> bool {
    0 <= x < WIDTH && 0 <= y < HEIGHT
}

/// A picture of one color.
pub open spec fn blank(black: bool) -> Seq<Seq<bool>> {
    Seq::new(128, |y: int| Seq::new(296, |x: int| black))
}

/// `g` with pixel (x, y) set, when it lies on the picture.
pub open spec fn painted(g: Seq<Seq<bool>>, x: int, y: int, black: bool) -> Seq<Seq<bool>> {
    if on_screen(x, y) {
        g.update(y, g[y].update(x, black))
    } else {
        g
    }
}

/// `g` with the rectangle of top left (x0, y0) and size w by h set.
pub open spec fn filled(g: Seq<Seq<bool>>, x0: int, y0: int, w: int, h: int, black: bool) -> Seq<
    Seq<bool>,
> {
    Seq::new(
        g.len(),
        |y: int|
            Seq::new(
                g[y].len(),
                |x: int|
                    if x0 <= x < x0 + w && y0 <= y < y0 + h {
                        black
                    } else {
                        g[y][x]
                    },
            ),
    )
}

/// Coordinates the drawing primitives take: far enough off the picture for
/// every use, near enough that no pixel computation overflows.
pub open spec fn coord_ok(v: int) -> bool {
    -0x10000 <= v <= 0x10000
}

/// Sizes and diameters the drawing primitives take.
pub open spec fn size_ok(v: int) -> bool {
    0 <= v <= 0x10000
}

/// Line end points: near enough that embedded-graphics' squared-length
/// computations for thick lines stay within `i32`.
pub open spec fn line_coord_ok(v: int) -> bool {
    -1000 <= v <= 1000
}

/// Line stroke widths, bounded for the same reason.
pub open spec fn line_stroke_ok(v: int) -> bool {
    0 <= v <= 8
}

/// Circle diameters: small enough that their squares stay within `i32`.
pub open spec fn diameter_ok(v: int) -> bool {
    0 <= v <= 0x4000
}

/// Stroke widths the drawing primitives take.
pub open spec fn stroke_ok(v: int) -> bool {
    0 <= v <= 0x100
}

/// Longest text, in bytes, that is drawn.
pub const MAX_TEXT: usize = 4096;

/// The fonts the widgets write with.
#[derive(Debug, Clone, Copy, PartialEq, Eq)]
pub enum Font {
    Tiny4x6,
    Small5x8,
    Regular6x10,
    Tall6x12,
    Large9x15,
}

/// `g` with every pixel of `pixels` that lies on the picture turned black,
/// and every other pixel as it was.
pub open spec fn blackened(g: Seq<Seq<bool>>, pixels: Set<(int, int)>) -> Seq<Seq<bool>> {
    Seq::new(
        g.len(),
        |y: int|
            Seq::new(
                g[y].len(),
                |x: int|
                    if pixels.contains((x, y)) {
                        true
                    } else {
                        g[y][x]
                    },
            ),
    )
}

/// The pixels that `text` in black at baseline position (x, y) covers.
pub uninterp spec fn text_pixels(text: Seq<char>, x: int, y: int, font: Font) -> Set<(int, int)>;

/// The pixels of a line from (x0, y0) to (x1, y1) of the given stroke.
pub uninterp spec fn line_pixels(x0: int, y0: int, x1: int, y1: int, stroke: int) -> Set<(int, int)>;

/// The pixels of a circle outline of the given stroke, in the square of top
/// left (x, y) and side `diameter`.
pub uninterp spec fn circle_pixels(x: int, y: int, diameter: int, stroke: int) -> Set<(int, int)>;

/// The pixels of a rectangle outline of the given stroke.
pub uninterp spec fn outline_pixels(x: int, y: int, w: int, h: int, stroke: int) -> Set<(int, int)>;

/// The pixels of a one-pixel polyline through `points`.
pub uninterp spec fn polyline_pixels(points: Seq<(i32, i32)>) -> Set<(int, int)>;

/// The picture after `text` is written in black at baseline position (x, y).
pub open spec fn text_drawn(g: Seq<Seq<bool>>, text: Seq<char>, x: int, y: int, font: Font) -> Seq<Seq<bool>> {
    blackened(g, text_pixels(text, x, y, font))
}

/// The picture after a black line from (x0, y0) to (x1, y1) of the given stroke.
pub open spec fn line_drawn(g: Seq<Seq<bool>>, x0: int, y0: int, x1: int, y1: int, stroke: int) -> Seq<Seq<bool>> {
    blackened(g, line_pixels(x0, y0, x1, y1, stroke))
}

/// The picture after a black circle outline of the given stroke.
pub open spec fn circle_drawn(g: Seq<Seq<bool>>, x: int, y: int, diameter: int, stroke: int) -> Seq<Seq<bool>> {
    blackened(g, circle_pixels(x, y, diameter, stroke))
}

/// The picture after a black rectangle outline of the given stroke.
pub open spec fn outline_drawn(g: Seq<Seq<bool>>, x: int, y: int, w: int, h: int, stroke: int) -> Seq<Seq<bool>> {
    blackened(g, outline_pixels(x, y, w, h, stroke))
}

/// The picture after a black one-pixel polyline through `points`.
pub open spec fn polyline_drawn(g: Seq<Seq<bool>>, points: Seq<(i32, i32)>) -> Seq<Seq<bool>> {
    blackened(g, polyline_pixels(points))
}

/// `text_drawn`, for a text no longer than `MAX_TEXT`; a longer text is not
/// drawn.
pub open spec fn text_shown(g: Seq<Seq<bool>>, text: Seq<char>, x: int, y: int, font: Font) -> Seq<Seq<bool>> {
    if crate::layout::text_len(text) <= MAX_TEXT {
        text_drawn(g, text, x, y, font)
    } else {
        g
    }
}

/// Relies on `Display::default` of epd_waveshare: every byte zero, no rotation.
#[verifier::external_body]
fn zeroed_display() -> (r: FrameBuffer)
    ensures
        display_bytes(r) == Seq::new(BUFFER_LEN as nat, |i: int| 0u8),
        display_rotation(r) == DisplayRotation::Rotate0,
{
    FrameBuffer { display: Display2in9::default() }
}

/// Relies on `Display::set_rotation`: the buffer is kept, the rotation replaced.
#[verifier::external_body]
fn rotate(d: &mut FrameBuffer, rotation: DisplayRotation)
    ensures
        display_bytes(*final(d)) == display_bytes(*old(d)),
        display_rotation(*final(d)) == rotation,
{
    d.display.set_rotation(rotation)
}

/// Relies on `Display::buffer`: the frame buffer as it is.
#[verifier::external_body]
fn packed_bytes(d: &FrameBuffer) -> (r: Vec<u8>)
    ensures
        r@ == display_bytes(*d),
{
    d.display.buffer().to_vec()
}

/// Relies on `Display::set_pixel`: under a quarter turn the point sets its one
/// bit, clearing it for black; a point off the picture is ignored.
#[verifier::external_body]
fn put_pixel(d: &mut FrameBuffer, x: i32, y: i32, color: Color)
    requires
        landscape(*old(d)),
        coord_ok(x as int),
        coord_ok(y as int),
    ensures
        landscape(*final(d)),
        grid_of(display_bytes(*final(d))) == painted(
            grid_of(display_bytes(*old(d))),
            x as int,
            y as int,
            color == Color::Black,
        ),
{
    d.display.set_pixel(Pixel(Point::new(x, y), color))
}

/// Relies on `DrawTarget::fill_solid`, which epd_waveshare leaves at its
/// default: every point of the rectangle is set through `set_pixel`.
#[verifier::external_body]
fn fill_area(d: &mut FrameBuffer, x: i32, y: i32, w: u32, h: u32, color: Color)
    requires
        landscape(*old(d)),
        coord_ok(x as int),
        coord_ok(y as int),
        size_ok(w as int),
        size_ok(h as int),
    ensures
        landscape(*final(d)),
        grid_of(display_bytes(*final(d))) == filled(
            grid_of(display_bytes(*old(d))),
            x as int,
            y as int,
            w as int,
            h as int,
            color == Color::Black,
        ),
{
    let _ = d.display.fill_solid(&Rectangle::new(Point::new(x, y), Size::new(w, h)), color);
}

/// Relies on `DrawTarget::clear`, left at its default: the whole picture,
/// as the rotated size gives it, takes the color.
#[verifier::external_body]
fn wipe(d: &mut FrameBuffer, color: Color)
    requires
        landscape(*old(d)),
    ensures
        landscape(*final(d)),
        grid_of(display_bytes(*final(d))) == blank(color == Color::Black),
{
    let _ = d.display.clear(color);
}

/// Relies on embedded_graphics drawing a styled `Line` with no fill: it turns
/// black a set of pixels that depends on the arguments alone.
#[verifier::external_body]
fn stroke_line(d: &mut FrameBuffer, x0: i32, y0: i32, x1: i32, y1: i32, stroke: u32)
    requires
        landscape(*old(d)),
        line_coord_ok(x0 as int),
        line_coord_ok(y0 as int),
        line_coord_ok(x1 as int),
        line_coord_ok(y1 as int),
        line_stroke_ok(stroke as int),
    ensures
        landscape(*final(d)),
        grid_of(display_bytes(*final(d))) == blackened(
            grid_of(display_bytes(*old(d))),
            line_pixels(
                x0 as int,
                y0 as int,
                x1 as int,
                y1 as int,
                stroke as int,
            ),
        ),
{
    let style = PrimitiveStyle::with_stroke(Color::Black, stroke);
    let _ = Line::new(Point::new(x0, y0), Point::new(x1, y1)).into_styled(style).draw(&mut d.display);
}

/// Relies on embedded_graphics drawing a stroked `Circle` with no fill: only
/// the outline's pixels turn black.
#[verifier::external_body]
fn stroke_circle(d: &mut FrameBuffer, x: i32, y: i32, diameter: u32, stroke: u32)
    requires
        landscape(*old(d)),
        coord_ok(x as int),
        coord_ok(y as int),
        diameter_ok(diameter as int),
        stroke_ok(stroke as int),
    ensures
        landscape(*final(d)),
        grid_of(display_bytes(*final(d))) == blackened(
            grid_of(display_bytes(*old(d))),
            circle_pixels(
                x as int,
                y as int,
                diameter as int,
                stroke as int,
            ),
        ),
{
    let style = PrimitiveStyle::with_stroke(Color::Black, stroke);
    let _ = Circle::new(Point::new(x, y), diameter).into_styled(style).draw(&mut d.display);
}

/// Relies on embedded_graphics drawing a stroked `Rectangle` with no fill:
/// only the border's pixels turn black.
#[verifier::external_body]
fn stroke_outline(d: &mut FrameBuffer, x: i32, y: i32, w: u32, h: u32, stroke: u32)
    requires
        landscape(*old(d)),
        coord_ok(x as int),
        coord_ok(y as int),
        size_ok(w as int),
        size_ok(h as int),
        stroke_ok(stroke as int),
    ensures
        landscape(*final(d)),
        grid_of(display_bytes(*final(d))) == blackened(
            grid_of(display_bytes(*old(d))),
            outline_pixels(
                x as int,
                y as int,
                w as int,
                h as int,
                stroke as int,
            ),
        ),
{
    let style = PrimitiveStyle::with_stroke(Color::Black, stroke);
    let _ = Rectangle::new(Point::new(x, y), Size::new(w, h)).into_styled(style).draw(&mut d.display);
}

/// Relies on embedded_graphics drawing a `Polyline` with a one-pixel stroke:
/// only the segments' pixels turn black.
#[verifier::external_body]
fn stroke_polyline(d: &mut FrameBuffer, points: &Vec<(i32, i32)>)
    requires
        landscape(*old(d)),
        forall|i: int| 0 <= i < points@.len() ==> coord_ok(#[trigger] points@[i].0 as int) && coord_ok(
            points@[i].1 as int,
        ),
    ensures
        landscape(*final(d)),
        grid_of(display_bytes(*final(d))) == blackened(
            grid_of(display_bytes(*old(d))),
            polyline_pixels(
                points@,
            ),
        ),
{
    let vertices: Vec<Point> = points.iter().map(|p| Point::new(p.0, p.1)).collect();
    let style = PrimitiveStyle::with_stroke(Color::Black, 1);
    let _ = Polyline::new(&vertices).into_styled(style).draw(&mut d.display);
}

/// Relies on embedded_graphics drawing a `Text` in a black monospaced font
/// with no background: only the glyphs' set pixels turn black.
#[verifier::external_body]
fn write_text(d: &mut FrameBuffer, text: &str, x: i32, y: i32, font: Font)
    requires
        landscape(*old(d)),
        coord_ok(x as int),
        coord_ok(y as int),
        crate::layout::text_len(text@) <= MAX_TEXT,
    ensures
        landscape(*final(d)),
        grid_of(display_bytes(*final(d))) == blackened(
            grid_of(display_bytes(*old(d))),
            text_pixels(
                text@,
                x as int,
                y as int,
                font,
            ),
        ),
{
    let face = match font {
        Font::Tiny4x6 => &FONT_4X6,
        Font::Small5x8 => &FONT_5X8,
        Font::Regular6x10 => &FONT_6X10,
        Font::Tall6x12 => &FONT_6X12,
        Font::Large9x15 => &FONT_9X15,
    };
    let _ = Text::new(text, Point::new(x, y), MonoTextStyle::new(face, Color::Black)).draw(&mut d.display);
}

/// The raw form of picture `g`: one byte per pixel, row after row, 1 for
/// black and 0 for white.
pub open spec fn raw_of(g: Seq<Seq<bool>>) -> Seq<u8> {
    Seq::new(
        PIXELS as nat,
        |i: int|
            if g[i / 296][i % 296] {
                1u8
            } else {
                0u8
            },
    )
}

/// Whether every byte of `buf` is a valid raw pixel, 0 or 1.
pub open spec fn raw_valid(buf: Seq<u8>) -> bool {
    forall|i: int| 0 <= i < buf.len() ==> buf[i] == 0 || buf[i] == 1
}

/// `g` with the raw pixels of `buf` written over it: byte `y * 296 + x` gives
/// pixel (x, y); pixels past the end of `buf` keep their color.
pub open spec fn loaded(g: Seq<Seq<bool>>, buf: Seq<u8>) -> Seq<Seq<bool>> {
    Seq::new(
        g.len(),
        |y: int|
            Seq::new(
                g[y].len(),
                |x: int|
                    if y * 296 + x < buf.len() {
                        buf[y * 296 + x] == 1
                    } else {
                        g[y][x]
                    },
            ),
    )
}

/// Width of an icon bitmap.
pub const ICON_WIDTH: i32 = 18;

/// Height of an icon bitmap.
pub const ICON_HEIGHT: i32 = 15;

/// `g` with the 18 by 15 bitmap `icon` stamped at top left (x0, y0): a
/// non-zero entry gives black, zero gives white.
pub open spec fn stamped(g: Seq<Seq<bool>>, icon: Seq<u8>, x0: int, y0: int) -> Seq<Seq<bool>> {
    Seq::new(
        g.len(),
        |y: int|
            Seq::new(
                g[y].len(),
                |x: int|
                    if x0 <= x < x0 + 18 && y0 <= y < y0 + 15 {
                        icon[(y - y0) * 18 + (x - x0)] != 0
                    } else {
                        g[y][x]
                    },
            ),
    )
}

/// Whether `g` has the shape of the picture.
pub open spec fn is_picture(g: Seq<Seq<bool>>) -> bool {
    g.len() == 128 && forall|y: int| 0 <= y < 128 ==> #[trigger] g[y].len() == 296
}

/// Pixel index `i` is row `i / 296`, column `i % 296`, and no other.
pub proof fn lemma_pixel_index(i: int, x: int, y: int)
    requires
        0 <= i,
        0 <= x < 296,
        0 <= y,
    ensures
        (y * 296 + x == i) <==> (x == i % 296 && y == i / 296),
        i == (i / 296) * 296 + i % 296,
        0 <= i % 296 < 296,
{
    vstd::arithmetic::div_mod::lemma_fundamental_div_mod(i, 296);
    if y * 296 + x == i {
        vstd::arithmetic::div_mod::lemma_fundamental_div_mod_converse(i, 296, y, x);
    }
}

/// A raw picture is a picture.
pub proof fn lemma_grid_shape(bytes: Seq<u8>)
    ensures
        is_picture(grid_of(bytes)),
{
}

/// The raw pixels of a picture, loaded over any picture, give it back.
pub proof fn lemma_load_raw(g: Seq<Seq<bool>>, h: Seq<Seq<bool>>)
    requires
        is_picture(g),
        is_picture(h),
    ensures
        loaded(g, raw_of(h)) == h,
        raw_valid(raw_of(h)),
{
    assert forall|y: int, x: int| 0 <= y < 128 && 0 <= x < 296 implies loaded(g, raw_of(h))[y][x]
        == h[y][x] by {
        lemma_pixel_index(y * 296 + x, x, y);
        assert(y * 296 + x < PIXELS) by (nonlinear_arith)
            requires
                0 <= y < 128,
                0 <= x < 296,
        ;
    }
    assert forall|y: int| 0 <= y < 128 implies #[trigger] loaded(g, raw_of(h))[y] == h[y] by {
        assert(loaded(g, raw_of(h))[y] =~= h[y]);
    }
    assert(loaded(g, raw_of(h)) =~= h);
}

/// `g` with the first `r` rows of the icon box stamped, and the first `c`
/// pixels of row `r`.
pub open spec fn stamped_part(g: Seq<Seq<bool>>, icon: Seq<u8>, x0: int, y0: int, r: int, c: int) -> Seq<Seq<bool>> {
    Seq::new(
        g.len(),
        |y: int|
            Seq::new(
                g[y].len(),
                |x: int|
                    if x0 <= x < x0 + 18 && (y0 <= y < y0 + r || (y == y0 + r && x < x0 + c)) {
                        icon[(y - y0) * 18 + (x - x0)] != 0
                    } else {
                        g[y][x]
                    },
            ),
    )
}

/// `g` with the first `n` raw pixels of `buf` written over it.
pub open spec fn loaded_part(g: Seq<Seq<bool>>, buf: Seq<u8>, n: int) -> Seq<Seq<bool>> {
    Seq::new(
        g.len(),
        |y: int|
            Seq::new(
                g[y].len(),
                |x: int|
                    if y * 296 + x < n {
                        buf[y * 296 + x] == 1
                    } else {
                        g[y][x]
                    },
            ),
    )
}

/// Two pictures that agree on every pixel are the same.
pub proof fn lemma_same_picture(a: Seq<Seq<bool>>, b: Seq<Seq<bool>>)
    requires
        is_picture(a),
        is_picture(b),
        forall|y: int, x: int| 0 <= y < 128 && 0 <= x < 296 ==> #[trigger] a[y][x] == b[y][x],
    ensures
        a == b,
{
    assert forall|y: int| 0 <= y < 128 implies #[trigger] a[y] == b[y] by {
        assert(a[y] =~= b[y]);
    }
    assert(a =~= b);
}

/// The raw pixels of a frame buffer as the panel takes it: one byte per
/// pixel, index `y * 296 + x`, 1 for black and 0 for white.
pub fn pixels_of_frame(frame: &[u8]) -> (r: Vec<u8>)
    requires
        frame@.len() == BUFFER_LEN,
    ensures
        r@ == raw_of(grid_of(frame@)),
{
    let ghost g = grid_of(frame@);
    let mut r: Vec<u8> = Vec::new();
    let mut y: usize = 0;
    while y < 128
        invariant
            g == grid_of(frame@),
            frame@.len() == BUFFER_LEN,
            y <= 128,
            r@.len() == y * 296,
            forall|k: int| 0 <= k < r@.len() ==> #[trigger] r@[k] == raw_of(g)[k],
        decreases 128 - y,
    {
        let mut x: usize = 0;
        while x < 296
            invariant
                g == grid_of(frame@),
                frame@.len() == BUFFER_LEN,
                y < 128,
                x <= 296,
                r@.len() == y * 296 + x,
                forall|k: int| 0 <= k < r@.len() ==> #[trigger] r@[k] == raw_of(g)[k],
            decreases 296 - x,
        {
            let col: usize = 127 - y;
            assert(x * 16 <= 4720) by (nonlinear_arith)
                requires
                    x < 296,
            ;
            let b = frame[col / 8 + x * 16];
            let black = b & (0x80u8 >> ((col % 8) as u8)) == 0;
            proof {
                lemma_pixel_index(y * 296 + x, x as int, y as int);
                assert(y * 296 + x < PIXELS) by (nonlinear_arith)
                    requires
                        y < 128,
                        x < 296,
                ;
                assert(black == g[y as int][x as int]);
            }
            r.push(if black { 1u8 } else { 0u8 });
            x = x + 1;
        }
        y = y + 1;
    }
    assert(r@ =~= raw_of(g));
    r
}

/// Why a raw buffer could not be loaded.
#[derive(Debug, Clone, Copy, PartialEq, Eq)]
pub struct PixelDecodeError {
    /// Position of the first byte that is neither 0 nor 1.
    pub index: usize,
    /// That byte.
    pub value: u8,
}

/// The frame surface: the panel's frame buffer turned to a 296 by 128
/// landscape picture.
pub struct DisplayBoxed {
    frame: Box<FrameBuffer>,
}

impl View for DisplayBoxed {
    type V = Seq<Seq<bool>>;

    open spec fn view(&self) -> Seq<Seq<bool>> {
        grid_of(self.packed())
    }
}

impl DisplayBoxed {
    /// The frame buffer's bytes, as the panel takes them.
    pub closed spec fn packed(&self) -> Seq<u8> {
        display_bytes(*self.frame)
    }

    /// The surface draws in landscape onto a buffer of the panel's size.
    pub closed spec fn wf(&self) -> bool {
        landscape(*self.frame)
    }

    /// A white landscape surface.
    pub fn new() -> (r: Self)
        ensures
            r.wf(),
            r@ == blank(false),
    {
        let mut frame = Box::new(zeroed_display());
        rotate(&mut frame, DisplayRotation::Rotate90);
        wipe(&mut frame, Color::White);
        DisplayBoxed { frame }
    }

    /// The frame buffer's bytes, to hand to the panel.
    pub fn buffer(&self) -> (r: Vec<u8>)
        ensures
            r@ == self.packed(),
    {
        packed_bytes(&self.frame)
    }

    /// Paints the whole surface in `color`.
    pub fn clear(&mut self, color: Color)
        requires
            old(self).wf(),
        ensures
            final(self).wf(),
            final(self)@ == blank(color == Color::Black),
    {
        wipe(&mut self.frame, color);
    }

    /// Paints the rectangle of top left (x, y) and size w by h in `color`.
    pub fn fill_solid(&mut self, x: i32, y: i32, w: u32, h: u32, color: Color)
        requires
            old(self).wf(),
            coord_ok(x as int),
            coord_ok(y as int),
            size_ok(w as int),
            size_ok(h as int),
        ensures
            final(self).wf(),
            final(self)@ == filled(old(self)@, x as int, y as int, w as int, h as int, color == Color::Black),
    {
        fill_area(&mut self.frame, x, y, w, h, color);
    }

    /// Paints pixel (x, y) in `color`; a point off the picture is ignored.
    pub fn set_pixel(&mut self, x: i32, y: i32, color: Color)
        requires
            old(self).wf(),
            coord_ok(x as int),
            coord_ok(y as int),
        ensures
            final(self).wf(),
            final(self)@ == painted(old(self)@, x as int, y as int, color == Color::Black),
    {
        put_pixel(&mut self.frame, x, y, color);
    }

    /// Draws a black line from (x0, y0) to (x1, y1).
    pub fn line(&mut self, x0: i32, y0: i32, x1: i32, y1: i32, stroke: u32)
        requires
            old(self).wf(),
            line_coord_ok(x0 as int),
            line_coord_ok(y0 as int),
            line_coord_ok(x1 as int),
            line_coord_ok(y1 as int),
            line_stroke_ok(stroke as int),
        ensures
            final(self).wf(),
            final(self)@ == line_drawn(old(self)@, x0 as int, y0 as int, x1 as int, y1 as int, stroke as int),
    {
        stroke_line(&mut self.frame, x0, y0, x1, y1, stroke);
    }

    /// Draws a black circle outline in the square at (x, y).
    pub fn circle(&mut self, x: i32, y: i32, diameter: u32, stroke: u32)
        requires
            old(self).wf(),
            coord_ok(x as int),
            coord_ok(y as int),
            diameter_ok(diameter as int),
            stroke_ok(stroke as int),
        ensures
            final(self).wf(),
            final(self)@ == circle_drawn(old(self)@, x as int, y as int, diameter as int, stroke as int),
    {
        stroke_circle(&mut self.frame, x, y, diameter, stroke);
    }

    /// Draws a black rectangle outline.
    pub fn outline(&mut self, x: i32, y: i32, w: u32, h: u32, stroke: u32)
        requires
            old(self).wf(),
            coord_ok(x as int),
            coord_ok(y as int),
            size_ok(w as int),
            size_ok(h as int),
            stroke_ok(stroke as int),
        ensures
            final(self).wf(),
            final(self)@ == outline_drawn(old(self)@, x as int, y as int, w as int, h as int, stroke as int),
    {
        stroke_outline(&mut self.frame, x, y, w, h, stroke);
    }

    /// Draws a black polyline through `points`.
    pub fn polyline(&mut self, points: &Vec<(i32, i32)>)
        requires
            old(self).wf(),
            forall|i: int| 0 <= i < points@.len() ==> coord_ok(#[trigger] points@[i].0 as int) && coord_ok(
                points@[i].1 as int,
            ),
        ensures
            final(self).wf(),
            final(self)@ == polyline_drawn(old(self)@, points@),
    {
        stroke_polyline(&mut self.frame, points);
    }

    /// Writes `text` in black at baseline position (x, y); a text longer
    /// than `MAX_TEXT` bytes is not drawn.
    pub fn text(&mut self, text: &str, x: i32, y: i32, font: Font)
        requires
            old(self).wf(),
            coord_ok(x as int),
            coord_ok(y as int),
        ensures
            final(self).wf(),
            final(self)@ == text_shown(old(self)@, text@, x as int, y as int, font),
    {
        if text.len() <= MAX_TEXT {
            write_text(&mut self.frame, text, x, y, font);
        }
    }

    /// Stamps the 18 by 15 bitmap `icon` with its top left at (x0, y0).
    pub fn icon(&mut self, icon: &[u8; 270], x0: i32, y0: i32)
        requires
            old(self).wf(),
            -1000 <= x0 <= 1000,
            -1000 <= y0 <= 1000,
        ensures
            final(self).wf(),
            final(self)@ == stamped(old(self)@, icon@, x0 as int, y0 as int),
    {
        let ghost g0 = self@;
        proof {
            lemma_grid_shape(self.packed());
            lemma_same_picture(self@, stamped_part(g0, icon@, x0 as int, y0 as int, 0, 0));
        }
        let mut r: i32 = 0;
        while r < ICON_HEIGHT
            invariant
                self.wf(),
                0 <= r <= 15,
                -1000 <= x0 <= 1000,
                -1000 <= y0 <= 1000,
                icon@.len() == 270,
                is_picture(g0),
                self@ == stamped_part(g0, icon@, x0 as int, y0 as int, r as int, 0),
            decreases 15 - r,
        {
            let mut c: i32 = 0;
            while c < ICON_WIDTH
                invariant
                    self.wf(),
                    0 <= r < 15,
                    0 <= c <= 18,
                    -1000 <= x0 <= 1000,
                    -1000 <= y0 <= 1000,
                    icon@.len() == 270,
                    is_picture(g0),
                    self@ == stamped_part(g0, icon@, x0 as int, y0 as int, r as int, c as int),
                decreases 18 - c,
            {
                let k: usize = (r * 18 + c) as usize;
                let color = if icon[k] == 0 { Color::White } else { Color::Black };
                self.set_pixel(x0 + c, y0 + r, color);
                proof {
                    lemma_grid_shape(self.packed());
                    lemma_same_picture(
                        self@,
                        stamped_part(g0, icon@, x0 as int, y0 as int, r as int, c + 1),
                    );
                }
                c = c + 1;
            }
            proof {
                lemma_grid_shape(self.packed());
                lemma_same_picture(self@, stamped_part(g0, icon@, x0 as int, y0 as int, r + 1, 0));
            }
            r = r + 1;
        }
        proof {
            lemma_grid_shape(self.packed());
            lemma_same_picture(self@, stamped(g0, icon@, x0 as int, y0 as int));
        }
    }

    /// The picture as raw pixels: one byte per pixel, index `y * 296 + x`,
    /// 1 for black and 0 for white.
    pub fn raw_buffer(&self) -> (r: Vec<u8>)
        requires
            self.wf(),
        ensures
            r@ == raw_of(self@),
    {
        let bytes = self.buffer();
        pixels_of_frame(bytes.as_slice())
    }

    /// Writes raw pixels over the picture: byte `i` gives pixel
    /// (i % 296, i / 296), 0 for white and 1 for black. Any other byte is an
    /// error, and then nothing is drawn.
    pub fn set_buf(&mut self, buf: &[u8]) -> (r: Result<(), PixelDecodeError>)
        requires
            old(self).wf(),
        ensures
            final(self).wf(),
            r is Ok <==> raw_valid(buf@),
            r is Ok ==> final(self)@ == loaded(old(self)@, buf@),
            r matches Err(e) ==> {
                &&& final(self)@ == old(self)@
                &&& e.index < buf@.len()
                &&& buf@[e.index as int] == e.value
                &&& e.value != 0 && e.value != 1
                &&& raw_valid(buf@.take(e.index as int))
            },
    {
        let mut i: usize = 0;
        while i < buf.len()
            invariant
                *self == *old(self),
                self.wf(),
                i <= buf@.len(),
                raw_valid(buf@.take(i as int)),
            decreases buf@.len() - i,
        {
            if buf[i] != 0 && buf[i] != 1 {
                return Err(PixelDecodeError { index: i, value: buf[i] });
            }
            assert(buf@.take(i as int + 1) =~= buf@.take(i as int).push(buf@[i as int]));
            i = i + 1;
        }
        assert(buf@.take(i as int) =~= buf@);
        let ghost g0 = self@;
        let n: usize = if buf.len() < PIXELS { buf.len() } else { PIXELS };
        proof {
            lemma_grid_shape(self.packed());
            lemma_same_picture(self@, loaded_part(g0, buf@, 0));
        }
        let mut i: usize = 0;
        while i < n
            invariant
                self.wf(),
                n <= buf@.len(),
                n <= PIXELS,
                i <= n,
                is_picture(g0),
                self@ == loaded_part(g0, buf@, i as int),
            decreases n - i,
        {
            let color = if buf[i] == 1 { Color::Black } else { Color::White };
            self.set_pixel((i % 296) as i32, (i / 296) as i32, color);
            proof {
                lemma_grid_shape(self.packed());
                assert forall|y: int, x: int| 0 <= y < 128 && 0 <= x < 296 implies self@[y][x]
                    == loaded_part(g0, buf@, i + 1)[y][x] by {
                    lemma_pixel_index(i as int, x, y);
                }
                lemma_same_picture(self@, loaded_part(g0, buf@, i + 1));
            }
            i = i + 1;
        }
        proof {
            assert forall|y: int, x: int| 0 <= y < 128 && 0 <= x < 296 implies self@[y][x]
                == loaded(g0, buf@)[y][x] by {
                assert(y * 296 + x < PIXELS) by (nonlinear_arith)
                    requires
                        0 <= y < 128,
                        0 <= x < 296,
                ;
            }
            lemma_same_picture(self@, loaded(g0, buf@));
        }
        Ok(())
    }
}

} // verus!
