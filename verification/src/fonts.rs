use vstd::prelude::*;

use crate::frame::{blank_view, grid_wf, Frame};

verus! {

/// First code of the printable window. The code itself renders blank: a
/// space has no lit pixel, so the lookup only serves strictly larger codes.
pub const PRINTABLE_START: u32 = 32;

/// Number of codes in the printable window.
pub const PRINTABLE_COUNT: u32 = 95;

/// Errors produced when working with fonts.
#[derive(Clone, Copy, Debug, PartialEq, Eq)]
pub enum FontError {
    /// Requested unavailable font dimension.
    BadDimension,
}

/// A [`Frame`] rendered from a single character, always 5x5.
#[derive(Debug, PartialEq, Eq)]
pub struct CharFrame(pub Frame);

impl View for CharFrame {
    type V = Seq<Seq<u8>>;

    open spec fn view(&self) -> Seq<Seq<u8>> {
        self.0@
    }
}

/// Whether a character code falls in the window served by the glyph table.
pub open spec fn printable_code(code: u32) -> bool {
    PRINTABLE_START < code && code < PRINTABLE_START + PRINTABLE_COUNT
}

/// Pixel `c` of a row described by the bitmap byte `b`: bit 4 is the
/// leftmost column.
pub open spec fn glyph_bit(b: u8, c: int) -> u8 {
    (b >> ((4 - c) as u8)) & 1
}

/// The 5x5 grid described by five row-bitmap bytes.
pub open spec fn frame_5x5_view(input: Seq<u8>) -> Seq<Seq<u8>> {
    Seq::new(5, |r: int| Seq::new(5, |c: int| glyph_bit(input[r], c)))
}

/// What every glyph frame satisfies: a 5x5 grid of single-bit levels that is
/// all-off for codes outside the printable window.
pub open spec fn glyph_frame_ok(code: u32, f: Seq<Seq<u8>>) -> bool {
    &&& grid_wf(f)
    &&& f.len() == 5
    &&& f[0].len() == 5
    &&& forall|r: int, c: int| 0 <= r < 5 && 0 <= c < 5 ==> (#[trigger] f[r][c]) <= 1
    &&& !printable_code(code) ==> f == blank_view(5, 5)
    &&& printable_code(code) ==> f == frame_5x5_view(spec_glyph_rows(fold_case(code)))
}

proof fn lemma_glyph_bit_le_one(b: u8, sh: u8)
    ensures
        ((b >> sh) & 1) <= 1,
{
    assert(((b >> sh) & 1) <= 1) by (bit_vector);
}

/// Construct a 5x5 frame from five bytes, one per row; each byte is a row
/// bitmap whose bit 4 is the leftmost column.
pub fn frame_5x5(input: &[u8; 5]) -> (f: Frame)
    ensures
        f@ == frame_5x5_view(input@),
        f.wf(),
        f.spec_rows() == 5,
        f.spec_cols() == 5,
        forall|r: int, c: int| 0 <= r < 5 && 0 <= c < 5 ==> (#[trigger] f@[r][c]) <= 1,
{
    let mut grid: Vec<Vec<u8>> = Vec::new();
    let mut r: usize = 0;
    while r < 5
        invariant
            r <= 5,
            grid@.len() == r,
            forall|i: int| 0 <= i < r ==> (#[trigger] grid@[i])@.len() == 5,
            forall|i: int, j: int|
                0 <= i < r && 0 <= j < 5 ==> (#[trigger] grid@[i]@[j]) == glyph_bit(input@[i], j),
        decreases 5 - r,
    {
        let mut row: Vec<u8> = Vec::new();
        let mut c: usize = 0;
        while c < 5
            invariant
                c <= 5,
                r < 5,
                row@.len() == c,
                forall|j: int| 0 <= j < c ==> (#[trigger] row@[j]) == glyph_bit(input@[r as int], j),
            decreases 5 - c,
        {
            let sh: u8 = (4 - c) as u8;
            let val: u8 = (input[r] >> sh) & 1;
            row.push(val);
            c = c + 1;
        }
        grid.push(row);
        r = r + 1;
    }
    let f = Frame { grid };
    proof {
        assert(f@ =~~= frame_5x5_view(input@));
        assert forall|r2: int, c2: int| 0 <= r2 < 5 && 0 <= c2 < 5 implies (#[trigger] f@[r2][c2])
            <= 1 by {
            lemma_glyph_bit_le_one(input@[r2], (4 - c2) as u8);
        }
    }
    f
}

/// The folded code actually looked up: lowercase letters share the
/// uppercase shapes.
pub open spec fn fold_case(code: u32) -> u32 {
    if 97 <= code && code <= 122 {
        (code - 32) as u32
    } else {
        code
    }
}

/// Row bitmaps of the glyph drawn for a folded character code.
pub open spec fn spec_glyph_rows(code: u32) -> Seq<u8> {
    match code {
        33u32 => seq![0b00100u8, 0b00100, 0b00100, 0b00000, 0b00100],
        34u32 => seq![0b01010u8, 0b01010, 0b00000, 0b00000, 0b00000],
        35u32 => seq![0b01010u8, 0b11111, 0b01010, 0b11111, 0b01010],
        36u32 => seq![0b01111u8, 0b10100, 0b01110, 0b00101, 0b11110],
        37u32 => seq![0b11001u8, 0b11010, 0b00100, 0b01011, 0b10011],
        38u32 => seq![0b01100u8, 0b10010, 0b01100, 0b10010, 0b01101],
        39u32 => seq![0b00100u8, 0b00100, 0b00000, 0b00000, 0b00000],
        40u32 => seq![0b00010u8, 0b00100, 0b00100, 0b00100, 0b00010],
        41u32 => seq![0b01000u8, 0b00100, 0b00100, 0b00100, 0b01000],
        42u32 => seq![0b00000u8, 0b01010, 0b00100, 0b01010, 0b00000],
        43u32 => seq![0b00000u8, 0b00100, 0b01110, 0b00100, 0b00000],
        44u32 => seq![0b00000u8, 0b00000, 0b00000, 0b00100, 0b01000],
        45u32 => seq![0b00000u8, 0b00000, 0b01110, 0b00000, 0b00000],
        46u32 => seq![0b00000u8, 0b00000, 0b00000, 0b00000, 0b00100],
        47u32 => seq![0b00001u8, 0b00010, 0b00100, 0b01000, 0b10000],
        48u32 => seq![0b01110u8, 0b10011, 0b10101, 0b11001, 0b01110],
        49u32 => seq![0b00100u8, 0b01100, 0b00100, 0b00100, 0b01110],
        50u32 => seq![0b01110u8, 0b10001, 0b00110, 0b01000, 0b11111],
        51u32 => seq![0b11111u8, 0b00010, 0b00100, 0b10001, 0b01110],
        52u32 => seq![0b00110u8, 0b01010, 0b10010, 0b11111, 0b00010],
        53u32 => seq![0b11111u8, 0b10000, 0b11110, 0b00001, 0b11110],
        54u32 => seq![0b00110u8, 0b01000, 0b11110, 0b10001, 0b01110],
        55u32 => seq![0b11111u8, 0b00010, 0b00100, 0b01000, 0b10000],
        56u32 => seq![0b01110u8, 0b10001, 0b01110, 0b10001, 0b01110],
        57u32 => seq![0b01110u8, 0b10001, 0b01111, 0b00010, 0b01100],
        58u32 => seq![0b00000u8, 0b00100, 0b00000, 0b00100, 0b00000],
        59u32 => seq![0b00000u8, 0b00100, 0b00000, 0b00100, 0b01000],
        60u32 => seq![0b00010u8, 0b00100, 0b01000, 0b00100, 0b00010],
        61u32 => seq![0b00000u8, 0b01110, 0b00000, 0b01110, 0b00000],
        62u32 => seq![0b01000u8, 0b00100, 0b00010, 0b00100, 0b01000],
        63u32 => seq![0b01110u8, 0b10001, 0b00110, 0b00000, 0b00100],
        64u32 => seq![0b01110u8, 0b10001, 0b10101, 0b10110, 0b01110],
        65u32 => seq![0b01110u8, 0b10001, 0b11111, 0b10001, 0b10001],
        66u32 => seq![0b11110u8, 0b10001, 0b11110, 0b10001, 0b11110],
        67u32 => seq![0b01110u8, 0b10001, 0b10000, 0b10001, 0b01110],
        68u32 => seq![0b11110u8, 0b10001, 0b10001, 0b10001, 0b11110],
        69u32 => seq![0b11111u8, 0b10000, 0b11110, 0b10000, 0b11111],
        70u32 => seq![0b11111u8, 0b10000, 0b11110, 0b10000, 0b10000],
        71u32 => seq![0b01110u8, 0b10000, 0b10011, 0b10001, 0b01110],
        72u32 => seq![0b10001u8, 0b10001, 0b11111, 0b10001, 0b10001],
        73u32 => seq![0b01110u8, 0b00100, 0b00100, 0b00100, 0b01110],
        74u32 => seq![0b00111u8, 0b00010, 0b00010, 0b10010, 0b01100],
        75u32 => seq![0b10010u8, 0b10100, 0b11000, 0b10100, 0b10010],
        76u32 => seq![0b10000u8, 0b10000, 0b10000, 0b10000, 0b11111],
        77u32 => seq![0b10001u8, 0b11011, 0b10101, 0b10001, 0b10001],
        78u32 => seq![0b10001u8, 0b11001, 0b10101, 0b10011, 0b10001],
        79u32 => seq![0b01110u8, 0b10001, 0b10001, 0b10001, 0b01110],
        80u32 => seq![0b11110u8, 0b10001, 0b11110, 0b10000, 0b10000],
        81u32 => seq![0b01110u8, 0b10001, 0b10001, 0b10010, 0b01101],
        82u32 => seq![0b11110u8, 0b10001, 0b11110, 0b10100, 0b10010],
        83u32 => seq![0b01111u8, 0b10000, 0b01110, 0b00001, 0b11110],
        84u32 => seq![0b11111u8, 0b00100, 0b00100, 0b00100, 0b00100],
        85u32 => seq![0b10001u8, 0b10001, 0b10001, 0b10001, 0b01110],
        86u32 => seq![0b10001u8, 0b10001, 0b10001, 0b01010, 0b00100],
        87u32 => seq![0b10001u8, 0b10001, 0b10101, 0b11011, 0b10001],
        88u32 => seq![0b10001u8, 0b01010, 0b00100, 0b01010, 0b10001],
        89u32 => seq![0b10001u8, 0b01010, 0b00100, 0b00100, 0b00100],
        90u32 => seq![0b11111u8, 0b00010, 0b00100, 0b01000, 0b11111],
        91u32 => seq![0b01110u8, 0b01000, 0b01000, 0b01000, 0b01110],
        92u32 => seq![0b10000u8, 0b01000, 0b00100, 0b00010, 0b00001],
        93u32 => seq![0b01110u8, 0b00010, 0b00010, 0b00010, 0b01110],
        94u32 => seq![0b00100u8, 0b01010, 0b00000, 0b00000, 0b00000],
        95u32 => seq![0b00000u8, 0b00000, 0b00000, 0b00000, 0b11111],
        96u32 => seq![0b01000u8, 0b00100, 0b00000, 0b00000, 0b00000],
        123u32 => seq![0b00110u8, 0b00100, 0b01100, 0b00100, 0b00110],
        124u32 => seq![0b00100u8, 0b00100, 0b00100, 0b00100, 0b00100],
        125u32 => seq![0b01100u8, 0b00100, 0b00110, 0b00100, 0b01100],
        126u32 => seq![0b00000u8, 0b01000, 0b10101, 0b00010, 0b00000],
        _ => seq![0b00000u8, 0b00000, 0b00000, 0b00000, 0b00000],
    }
}

/// Row bitmaps of the glyph for a character code. Lowercase letters share
/// the uppercase shapes; codes without a drawn shape give a blank bitmap.
fn glyph_rows(code: u32) -> (r: [u8; 5])
    ensures
        r@ == spec_glyph_rows(fold_case(code)),
{
    let folded: u32 = if code >= 97 && code <= 122 {
        code - 32
    } else {
        code
    };
    match folded {
        33u32 => [0b00100, 0b00100, 0b00100, 0b00000, 0b00100],
        34u32 => [0b01010, 0b01010, 0b00000, 0b00000, 0b00000],
        35u32 => [0b01010, 0b11111, 0b01010, 0b11111, 0b01010],
        36u32 => [0b01111, 0b10100, 0b01110, 0b00101, 0b11110],
        37u32 => [0b11001, 0b11010, 0b00100, 0b01011, 0b10011],
        38u32 => [0b01100, 0b10010, 0b01100, 0b10010, 0b01101],
        39u32 => [0b00100, 0b00100, 0b00000, 0b00000, 0b00000],
        40u32 => [0b00010, 0b00100, 0b00100, 0b00100, 0b00010],
        41u32 => [0b01000, 0b00100, 0b00100, 0b00100, 0b01000],
        42u32 => [0b00000, 0b01010, 0b00100, 0b01010, 0b00000],
        43u32 => [0b00000, 0b00100, 0b01110, 0b00100, 0b00000],
        44u32 => [0b00000, 0b00000, 0b00000, 0b00100, 0b01000],
        45u32 => [0b00000, 0b00000, 0b01110, 0b00000, 0b00000],
        46u32 => [0b00000, 0b00000, 0b00000, 0b00000, 0b00100],
        47u32 => [0b00001, 0b00010, 0b00100, 0b01000, 0b10000],
        48u32 => [0b01110, 0b10011, 0b10101, 0b11001, 0b01110],
        49u32 => [0b00100, 0b01100, 0b00100, 0b00100, 0b01110],
        50u32 => [0b01110, 0b10001, 0b00110, 0b01000, 0b11111],
        51u32 => [0b11111, 0b00010, 0b00100, 0b10001, 0b01110],
        52u32 => [0b00110, 0b01010, 0b10010, 0b11111, 0b00010],
        53u32 => [0b11111, 0b10000, 0b11110, 0b00001, 0b11110],
        54u32 => [0b00110, 0b01000, 0b11110, 0b10001, 0b01110],
        55u32 => [0b11111, 0b00010, 0b00100, 0b01000, 0b10000],
        56u32 => [0b01110, 0b10001, 0b01110, 0b10001, 0b01110],
        57u32 => [0b01110, 0b10001, 0b01111, 0b00010, 0b01100],
        58u32 => [0b00000, 0b00100, 0b00000, 0b00100, 0b00000],
        59u32 => [0b00000, 0b00100, 0b00000, 0b00100, 0b01000],
        60u32 => [0b00010, 0b00100, 0b01000, 0b00100, 0b00010],
        61u32 => [0b00000, 0b01110, 0b00000, 0b01110, 0b00000],
        62u32 => [0b01000, 0b00100, 0b00010, 0b00100, 0b01000],
        63u32 => [0b01110, 0b10001, 0b00110, 0b00000, 0b00100],
        64u32 => [0b01110, 0b10001, 0b10101, 0b10110, 0b01110],
        65u32 => [0b01110, 0b10001, 0b11111, 0b10001, 0b10001],
        66u32 => [0b11110, 0b10001, 0b11110, 0b10001, 0b11110],
        67u32 => [0b01110, 0b10001, 0b10000, 0b10001, 0b01110],
        68u32 => [0b11110, 0b10001, 0b10001, 0b10001, 0b11110],
        69u32 => [0b11111, 0b10000, 0b11110, 0b10000, 0b11111],
        70u32 => [0b11111, 0b10000, 0b11110, 0b10000, 0b10000],
        71u32 => [0b01110, 0b10000, 0b10011, 0b10001, 0b01110],
        72u32 => [0b10001, 0b10001, 0b11111, 0b10001, 0b10001],
        73u32 => [0b01110, 0b00100, 0b00100, 0b00100, 0b01110],
        74u32 => [0b00111, 0b00010, 0b00010, 0b10010, 0b01100],
        75u32 => [0b10010, 0b10100, 0b11000, 0b10100, 0b10010],
        76u32 => [0b10000, 0b10000, 0b10000, 0b10000, 0b11111],
        77u32 => [0b10001, 0b11011, 0b10101, 0b10001, 0b10001],
        78u32 => [0b10001, 0b11001, 0b10101, 0b10011, 0b10001],
        79u32 => [0b01110, 0b10001, 0b10001, 0b10001, 0b01110],
        80u32 => [0b11110, 0b10001, 0b11110, 0b10000, 0b10000],
        81u32 => [0b01110, 0b10001, 0b10001, 0b10010, 0b01101],
        82u32 => [0b11110, 0b10001, 0b11110, 0b10100, 0b10010],
        83u32 => [0b01111, 0b10000, 0b01110, 0b00001, 0b11110],
        84u32 => [0b11111, 0b00100, 0b00100, 0b00100, 0b00100],
        85u32 => [0b10001, 0b10001, 0b10001, 0b10001, 0b01110],
        86u32 => [0b10001, 0b10001, 0b10001, 0b01010, 0b00100],
        87u32 => [0b10001, 0b10001, 0b10101, 0b11011, 0b10001],
        88u32 => [0b10001, 0b01010, 0b00100, 0b01010, 0b10001],
        89u32 => [0b10001, 0b01010, 0b00100, 0b00100, 0b00100],
        90u32 => [0b11111, 0b00010, 0b00100, 0b01000, 0b11111],
        91u32 => [0b01110, 0b01000, 0b01000, 0b01000, 0b01110],
        92u32 => [0b10000, 0b01000, 0b00100, 0b00010, 0b00001],
        93u32 => [0b01110, 0b00010, 0b00010, 0b00010, 0b01110],
        94u32 => [0b00100, 0b01010, 0b00000, 0b00000, 0b00000],
        95u32 => [0b00000, 0b00000, 0b00000, 0b00000, 0b11111],
        96u32 => [0b01000, 0b00100, 0b00000, 0b00000, 0b00000],
        123u32 => [0b00110, 0b00100, 0b01100, 0b00100, 0b00110],
        124u32 => [0b00100, 0b00100, 0b00100, 0b00100, 0b00100],
        125u32 => [0b01100, 0b00100, 0b00110, 0b00100, 0b01100],
        126u32 => [0b00000, 0b01000, 0b10101, 0b00010, 0b00000],
        _ => [0b00000, 0b00000, 0b00000, 0b00000, 0b00000],
    }
}

/// The glyph frame for an arbitrary character code: the table entry inside
/// the printable window, an all-off frame outside it.
fn code_frame(code: u32) -> (r: CharFrame)
    ensures
        glyph_frame_ok(code, r@),
        r.0.wf(),
{
    if PRINTABLE_START < code && code < PRINTABLE_START + PRINTABLE_COUNT {
        CharFrame(frame_5x5(&glyph_rows(code)))
    } else {
        let zero: [u8; 5] = [0, 0, 0, 0, 0];
        let f = frame_5x5(&zero);
        proof {
            assert forall|r2: int, c2: int| 0 <= r2 < 5 && 0 <= c2 < 5 implies (#[trigger] f@[r2][c2])
                == 0u8 by {
                let sh = (4 - c2) as u8;
                assert(((0u8 >> sh) & 1) == 0) by (bit_vector);
            }
            assert(f@ =~~= blank_view(5, 5));
        }
        CharFrame(f)
    }
}

/// Return a frame whose bitmap is an ASCII character. A byte with the high
/// bit set is looked up by its raw code value, so such bytes fall outside
/// the printable window and render blank.
pub fn ascii_frame(ascii: u8) -> (r: CharFrame)
    ensures
        glyph_frame_ok(ascii as u32, r@),
        r.0.wf(),
{
    code_frame(ascii as u32)
}

/// Return a frame whose bitmap is a Unicode character. Characters outside
/// the printable window render as a blank frame.
pub fn char_frame(c: char) -> (r: CharFrame)
    ensures
        glyph_frame_ok(c as u32, r@),
        r.0.wf(),
{
    code_frame(c as u32)
}

impl CharFrame {
    /// Return `self` as a [`Frame`] when the requested dimensions are the
    /// 5x5 the glyph table serves, and an error otherwise.
    pub fn try_5x5(self, cols: usize, rows: usize) -> (r: Result<Frame, FontError>)
        ensures
            match r {
                Ok(f) => {
                    &&& cols == 5
                    &&& rows == 5
                    &&& f == self.0
                },
                Err(e) => {
                    &&& e == FontError::BadDimension
                    &&& !(cols == 5 && rows == 5)
                },
            },
    {
        if cols == 5 && rows == 5 {
            Ok(self.0)
        } else {
            Err(FontError::BadDimension)
        }
    }
}

} // verus!
