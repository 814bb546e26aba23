//! From the encoder's bitmap to the pixels that the window shows.

use crate::symbol::{bmp_rows, is_square, module_at};
use qr_code::bmp_monochrome::Bmp;
use vstd::prelude::*;

verus! {

/// One pixel of the picture. There are no shades in between.
#[derive(Clone, Copy, Debug, PartialEq, Eq, Structural)]
pub enum Pixel {
    Black,
    White,
}

/// The colour that stands for one module of the symbol: white for `true`,
/// black for `false`.
pub open spec fn pixel_of(module: bool) -> Pixel {
    if module {
        Pixel::White
    } else {
        Pixel::Black
    }
}

impl Pixel {
    /// The colour that stands for one module: white for `true`, black for
    /// `false`.
    pub fn of_module(module: bool) -> (pixel: Pixel)
        ensures
            pixel == pixel_of(module),
    {
        if module {
            Pixel::White
        } else {
            Pixel::Black
        }
    }
}

/// The picture of a square matrix, as rows from the top, each from the left:
/// the pixel in row `y`, column `x` shows the module at `(x, n - 1 - y)`,
/// where `n` is the side of the matrix.
pub open spec fn picture_of(rows: Seq<Seq<bool>>) -> Seq<Seq<Pixel>> {
    let n = rows.len() as int;
    Seq::new(
        rows.len(),
        |y: int| Seq::new(rows.len(), |x: int| pixel_of(module_at(rows, x, n - 1 - y))),
    )
}

/// The picture of a matrix has the side of the matrix, and each of its
/// pixels is white exactly if the module it shows is set: the pixel in
/// column `x` of row `y` shows the module at `(x, n - 1 - y)`.
pub proof fn lemma_picture_shows_modules(rows: Seq<Seq<bool>>)
    ensures
        picture_of(rows).len() == rows.len(),
        forall|y: int|
            0 <= y < rows.len() ==> (#[trigger] picture_of(rows)[y]).len() == rows.len(),
        forall|x: int, y: int|
            0 <= x < rows.len() && 0 <= y < rows.len() ==> (#[trigger] picture_of(rows)[y][x]
                == Pixel::White <==> module_at(rows, x, rows.len() - 1 - y)),
{
}

/// Why a bitmap could not be turned into a picture.
#[derive(Clone, Copy, Debug, PartialEq, Eq, Structural)]
pub enum DecodeError {
    /// Width and height of the bitmap differ.
    NotSquare,
}

/// A picture in memory: `height` rows of `width` pixels, the top row first
/// and each row from the left.
#[derive(Debug, PartialEq, Eq)]
pub struct PixelBuffer {
    width: usize,
    height: usize,
    pixels: Vec<Pixel>,
}

impl View for PixelBuffer {
    type V = Seq<Seq<Pixel>>;

    /// The rows of the picture from the top, each from the left.
    closed spec fn view(&self) -> Seq<Seq<Pixel>> {
        Seq::new(
            self.height as nat,
            |y: int|
                Seq::new(
                    self.width as nat,
                    |x: int| self.pixels@[cell_index(x, y, self.width as int)],
                ),
        )
    }
}

/// Where the pixel in column `x` of row `y` stands in a buffer of rows of
/// `width` pixels.
pub open spec fn cell_index(x: int, y: int, width: int) -> int {
    y * width + x
}

proof fn lemma_cell_index(x: int, y: int, width: int, height: int)
    requires
        0 <= x < width,
        0 <= y < height,
    ensures
        0 <= y * width <= cell_index(x, y, width) < height * width,
{
    assert(0 <= y * width) by (nonlinear_arith)
        requires
            0 <= y,
            0 <= width,
    ;
    assert(y * width + width <= height * width) by (nonlinear_arith)
        requires
            0 <= y + 1 <= height,
            0 <= width,
    ;
}

impl PixelBuffer {
    #[verifier::type_invariant]
    spec fn well_formed(self) -> bool {
        self.pixels.len() == self.width * self.height
    }

    /// The number of pixels in one row.
    pub closed spec fn spec_width(&self) -> nat {
        self.width as nat
    }

    /// The number of pixels in one row.
    pub fn width(&self) -> (w: usize)
        ensures
            w == self.spec_width(),
            forall|y: int| 0 <= y < self@.len() ==> (#[trigger] self@[y]).len() == w,
    {
        self.width
    }

    /// The number of rows.
    pub fn height(&self) -> (h: usize)
        ensures
            h == self@.len(),
    {
        self.height
    }

    /// All pixels in one run: the rows from the top, one after the other,
    /// each from the left.
    pub fn pixels(&self) -> (run: &[Pixel])
        ensures
            run@.len() == self.spec_width() * self@.len(),
            forall|x: int, y: int|
                0 <= x < self.spec_width() && 0 <= y < self@.len() ==> run@[#[trigger] cell_index(
                    x,
                    y,
                    self.spec_width() as int,
                )] == self@[y][x],
    {
        proof {
            use_type_invariant(self);
        }
        self.pixels.as_slice()
    }

    /// The pixel in column `x` of row `y`, where there is one.
    pub fn get(&self, x: usize, y: usize) -> (p: Option<Pixel>)
        ensures
            p is Some <==> x < self.spec_width() && y < self@.len(),
            p matches Some(pixel) ==> pixel == self@[y as int][x as int],
    {
        proof {
            use_type_invariant(self);
        }
        if x < self.width && y < self.height {
            proof {
                lemma_cell_index(x as int, y as int, self.width as int, self.height as int);
                assert(self.height * self.width == self.width * self.height) by (nonlinear_arith);
            }
            Some(self.pixels[y * self.width + x])
        } else {
            None
        }
    }
}

/// Turns the encoder's bitmap into the picture to show.
///
/// A bitmap whose width and height differ is refused. Of any other the
/// picture has the bitmap's width and height, and its pixel in column `x` of
/// row `y` is white exactly if the bitmap's module at `(x, height - 1 - y)`
/// is set.
pub fn load_bmp_image(bmp: &Bmp) -> (r: Result<PixelBuffer, DecodeError>)
    ensures
        is_square(bmp_rows(*bmp)) ==> r is Ok,
        !is_square(bmp_rows(*bmp)) ==> r == Err::<PixelBuffer, DecodeError>(DecodeError::NotSquare),
        r matches Ok(buffer) ==> {
            &&& buffer@ == picture_of(bmp_rows(*bmp))
            &&& buffer.spec_width() == bmp_rows(*bmp).len()
            &&& buffer@.len() == bmp_rows(*bmp).len()
            &&& forall|x: int, y: int|
                0 <= x < bmp_rows(*bmp).len() && 0 <= y < bmp_rows(*bmp).len() ==> (
                #[trigger] buffer@[y][x] == Pixel::White <==> module_at(
                    bmp_rows(*bmp),
                    x,
                    bmp_rows(*bmp).len() - 1 - y,
                ))
        },
{
    let side: u16 = bmp.height();
    let across: u16 = bmp.width();
    let ghost rows = bmp_rows(*bmp);
    if side != across {
        assert(!is_square(rows)) by {
            if is_square(rows) {
                assert(rows[0].len() == rows.len());
            }
        }
        return Err(DecodeError::NotSquare);
    }
    let width: usize = across as usize;
    let height: usize = side as usize;
    assert(width * height <= 65535 * 65535) by (nonlinear_arith)
        requires
            0 <= width <= 65535,
            0 <= height <= 65535,
    ;
    let mut pixels: Vec<Pixel> = Vec::with_capacity(width * height);
    let mut y: u16 = 0;
    while y < side
        invariant
            rows == bmp_rows(*bmp),
            is_square(rows),
            rows.len() == side,
            side == across,
            width == side,
            y <= side,
            pixels@.len() == y * width,
            forall|yy: int, xx: int|
                0 <= yy < y && 0 <= xx < width ==> pixels@[#[trigger] cell_index(
                    xx,
                    yy,
                    width as int,
                )] == pixel_of(module_at(rows, xx, side - 1 - yy)),
        decreases side - y,
    {
        let mut x: u16 = 0;
        while x < across
            invariant
                rows == bmp_rows(*bmp),
                is_square(rows),
                rows.len() == side,
                side == across,
                width == side,
                y < side,
                x <= across,
                pixels@.len() == y * width + x,
                forall|yy: int, xx: int|
                    0 <= yy < y && 0 <= xx < width ==> pixels@[#[trigger] cell_index(
                        xx,
                        yy,
                        width as int,
                    )] == pixel_of(module_at(rows, xx, side - 1 - yy)),
                forall|xx: int|
                    0 <= xx < x ==> pixels@[#[trigger] cell_index(xx, y as int, width as int)]
                        == pixel_of(module_at(rows, xx, side - 1 - y)),
            decreases across - x,
        {
            let color = Pixel::of_module(bmp.get(x, side - 1 - y));
            proof {
                assert forall|yy: int, xx: int| 0 <= yy < y && 0 <= xx < width implies
                    #[trigger] cell_index(xx, yy, width as int) < pixels@.len() by {
                    lemma_cell_index(xx, yy, width as int, y as int);
                }
            }
            pixels.push(color);
            x = x + 1;
        }
        proof {
            assert((y + 1) * width == y * width + width) by (nonlinear_arith);
        }
        y = y + 1;
    }
    let buffer = PixelBuffer { width, height, pixels };
    proof {
        let shown = buffer@;
        let wanted = picture_of(rows);
        assert(shown.len() == wanted.len());
        assert forall|yy: int| 0 <= yy < shown.len() implies shown[yy] =~= wanted[yy] by {
            assert forall|xx: int| 0 <= xx < width implies shown[yy][xx] == wanted[yy][xx] by {
                assert(buffer.pixels@[cell_index(xx, yy, width as int)] == pixel_of(
                    module_at(rows, xx, side - 1 - yy),
                ));
            }
        }
        assert(shown =~= wanted);
        lemma_picture_shows_modules(rows);
    }
    Ok(buffer)
}

} // verus!
