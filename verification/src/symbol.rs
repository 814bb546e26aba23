//! The QR encoder and the monochrome bitmap that it produces.

use qr_code::bmp_monochrome::Bmp;
use qr_code::types::QrError;
use qr_code::QrCode;
use vstd::prelude::*;
use vstd::utf8::encode_utf8;

verus! {

/// The monochrome bitmap of the `bmp_monochrome` crate, which `qr_code`
/// re-exports. The verifier sees nothing inside a value of it; what it
/// holds is spoken of through [`bmp_rows`].
#[verifier::external_type_specification]
#[verifier::external_body]
pub struct ExBmp(qr_code::bmp_monochrome::Bmp);

/// An encoded symbol of the `qr_code` crate. The verifier sees nothing
/// inside a value of it; what it holds is spoken of through
/// [`symbol_rows`].
#[verifier::external_type_specification]
#[verifier::external_body]
pub struct ExQrCode(qr_code::QrCode);

/// The rows that a bitmap stores, in the order in which it stores them, each
/// row in the order of its entries. Not proved: this is the private field
/// `rows` of `Bmp`.
pub uninterp spec fn bmp_rows(bmp: Bmp) -> Seq<Seq<bool>>;

/// The modules of an encoded symbol, cut into rows of the symbol's width in
/// the order in which the symbol stores them, `true` for a dark module. Not
/// proved: this is what `QrCode::to_vec` returns, in chunks of
/// `QrCode::width`.
pub uninterp spec fn symbol_rows(code: QrCode) -> Seq<Seq<bool>>;

/// What `QrCode::new` makes of the bytes it is given: the rows of the symbol
/// it builds, or the reason for which it builds none. Not proved, and not
/// spelled out here: the encoder chooses segments, version and mask by rules
/// of its own. The name only says that the same bytes give the same answer.
pub uninterp spec fn qr_encoding(data: Seq<u8>) -> Result<Seq<Seq<bool>>, EncodeError>;

/// A symbol matrix is well formed when it has as many rows as each of its
/// rows has entries.
pub open spec fn is_square(rows: Seq<Seq<bool>>) -> bool {
    forall|i: int| 0 <= i < rows.len() ==> (#[trigger] rows[i]).len() == rows.len()
}

/// The module of a matrix at `(a, b)`: entry `b` of its row `a`, which is
/// what the bitmap's accessor returns for `(a, b)`.
pub open spec fn module_at(rows: Seq<Seq<bool>>, a: int, b: int) -> bool
    recommends
        0 <= a < rows.len(),
        0 <= b < rows[a].len(),
{
    rows[a][b]
}

/// `Bmp::height` is the number of stored rows, and there is at least one.
/// Not proved; the claim is that the count is positive and fits a `u16`,
/// which every constructor of `Bmp` checks.
pub assume_specification[ qr_code::bmp_monochrome::Bmp::height ](bmp: &Bmp) -> (h: u16)
    ensures
        h == bmp_rows(*bmp).len(),
        h >= 1,
;

/// `Bmp::width` is the length of the first stored row, and every stored row
/// has that length. Not proved; `Bmp` admits no rows of different lengths.
pub assume_specification[ qr_code::bmp_monochrome::Bmp::width ](bmp: &Bmp) -> (w: u16)
    ensures
        forall|i: int| 0 <= i < bmp_rows(*bmp).len() ==> (#[trigger] bmp_rows(*bmp)[i]).len() == w,
;

/// `Bmp::get(i, j)` is entry `j` of stored row `i`. Not proved. It indexes
/// without a check, so both indices have to be in range.
pub assume_specification[ qr_code::bmp_monochrome::Bmp::get ](bmp: &Bmp, i: u16, j: u16) -> (b: bool)
    requires
        i < bmp_rows(*bmp).len(),
        j < bmp_rows(*bmp)[i as int].len(),
    ensures
        b == bmp_rows(*bmp)[i as int][j as int],
;

/// `QrCode::to_bmp` stores the symbol's rows in a bitmap as they are, and a
/// symbol has as many rows as modules in a row. Not proved.
pub assume_specification[ qr_code::QrCode::to_bmp ](code: &QrCode) -> (bmp: Bmp)
    ensures
        bmp_rows(bmp) == symbol_rows(*code),
        is_square(bmp_rows(bmp)),
;

/// Why the encoder built no symbol. The variants are those of the encoder's
/// own error.
#[derive(Clone, Copy, Debug, PartialEq, Eq, Structural)]
pub enum EncodeError {
    /// The data exceeds what the largest symbol holds.
    DataTooLong,
    /// Version and error correction level do not go together.
    InvalidVersion,
    /// Some characters cannot be encoded in the version at hand.
    UnsupportedCharacterSet,
    /// The designator of a character set is out of range.
    InvalidEciDesignator,
    /// A character lies outside the character set in use.
    InvalidCharacter,
    /// An error of the encoder's structured-append mode.
    Structured,
}

/// The most characters that a QR symbol can hold: digits, in the largest
/// version at the lowest error correction level.
pub const MAX_SYMBOL_CHARACTERS: usize = 7089;

/// Calls `QrCode::new`, which encodes the bytes at the medium error
/// correction level in the smallest version that holds them, and gives the
/// encoder's error as an [`EncodeError`]. Not proved: that the outcome is
/// [`qr_encoding`] of the bytes, the symbol's rows where there is a symbol.
/// The encoder computes with the length of its input in machine integers;
/// the bound keeps those sums far from overflow.
#[verifier::external_body]
fn new_symbol(data: &[u8]) -> (r: Result<QrCode, EncodeError>)
    requires
        data@.len() <= MAX_SYMBOL_CHARACTERS,
    ensures
        match r {
            Ok(code) => qr_encoding(data@) == Ok::<Seq<Seq<bool>>, EncodeError>(
                symbol_rows(code),
            ),
            Err(e) => qr_encoding(data@) == Err::<Seq<Seq<bool>>, EncodeError>(e),
        },
{
    match QrCode::new(data) {
        Ok(code) => Ok(code),
        Err(QrError::DataTooLong) => Err(EncodeError::DataTooLong),
        Err(QrError::InvalidVersion) => Err(EncodeError::InvalidVersion),
        Err(QrError::UnsupportedCharacterSet) => Err(EncodeError::UnsupportedCharacterSet),
        Err(QrError::InvalidEciDesignator) => Err(EncodeError::InvalidEciDesignator),
        Err(QrError::InvalidCharacter) => Err(EncodeError::InvalidCharacter),
        Err(QrError::Structured(_)) => Err(EncodeError::Structured),
    }
}

/// What [`encode_text`] answers for a text of the given UTF-8 bytes: the
/// rows of the bitmap, or the reason for which there is none. A text of more
/// bytes than a symbol can hold characters is too long whatever it says;
/// any other is for the encoder to judge.
pub open spec fn encoding_of(bytes: Seq<u8>) -> Result<Seq<Seq<bool>>, EncodeError> {
    if bytes.len() > MAX_SYMBOL_CHARACTERS {
        Err(EncodeError::DataTooLong)
    } else {
        qr_encoding(bytes)
    }
}

/// Encodes a text as a QR symbol and hands out the symbol's bitmap.
///
/// The bitmap holds what the encoder makes of the text's UTF-8 bytes, and it
/// is square. Where the encoder refuses the text, its reason is returned. A
/// text of more than [`MAX_SYMBOL_CHARACTERS`] bytes is refused as too long
/// without asking the encoder.
pub fn encode_text(text: &str) -> (r: Result<Bmp, EncodeError>)
    ensures
        match encoding_of(encode_utf8(text@)) {
            Ok(rows) => r matches Ok(bmp) && bmp_rows(bmp) == rows && is_square(rows),
            Err(e) => r == Err::<Bmp, EncodeError>(e),
        },
{
    let bytes = text.as_bytes();
    if bytes.len() > MAX_SYMBOL_CHARACTERS {
        return Err(EncodeError::DataTooLong);
    }
    match new_symbol(bytes) {
        Ok(code) => Ok(code.to_bmp()),
        Err(e) => Err(e),
    }
}

} // verus!
