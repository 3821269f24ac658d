//! Rendering a board as an 8-bit grayscale image: Alive cells become white
//! (255), Dead cells black (0), and the pixel rows are encoded as PNG bytes.
//! Writing those bytes to durable storage is the caller's business.

use vstd::prelude::*;
use crate::board::Board;

verus! {

/// Grayscale pixels of a cell buffer: Alive (non-zero) maps to white (255),
/// Dead to black (0).
pub open spec fn gray_of(s: Seq<u8>) -> Seq<u8> {
    s.map(|i: int, v: u8| if v != 0 { 255u8 } else { 0u8 })
}

/// The PNG encoding of an 8-bit grayscale image of the given dimensions,
/// or nothing where the encoder rejects the input (a zero dimension, or a
/// pixel count that does not match the dimensions). The encoding depends on
/// the arguments alone.
pub uninterp spec fn png_gray_encoding(width: u32, height: u32, pixels: Seq<u8>) -> Option<
    Seq<u8>,
>;

/// Relies on png::Encoder / png::Writer: write_header, write_image_data and
/// finish produce the PNG encoding of the pixel rows, a function of the
/// dimensions and pixel bytes alone; they fail only on inputs they reject.
#[verifier::external_body]
fn encode_png_gray(width: u32, height: u32, pixels: &Vec<u8>) -> (r: Option<Vec<u8>>)
    ensures
        (match r {
            Some(b) => png_gray_encoding(width, height, pixels@) == Some(b@),
            None => png_gray_encoding(width, height, pixels@) is None,
        }),
{
    let mut out: Vec<u8> = Vec::new();
    let mut encoder = png::Encoder::new(&mut out, width, height);
    encoder.set_color(png::ColorType::Grayscale);
    encoder.set_depth(png::BitDepth::Eight);
    let ok = match encoder.write_header() {
        Ok(mut writer) => match writer.write_image_data(pixels) {
            Ok(()) => writer.finish().is_ok(),
            Err(_) => false,
        },
        Err(_) => false,
    };
    if ok { Some(out) } else { None }
}

/// The grayscale pixels of a board: one byte per cell, white for Alive,
/// black for Dead.
pub fn render_grayscale(board: &Board) -> (pixels: Vec<u8>)
    ensures
        pixels@ == gray_of(board@),
{
    let mut pixels: Vec<u8> = Vec::new();
    let mut i: usize = 0;
    while i < board.cells.len()
        invariant
            i <= board.cells@.len(),
            pixels@.len() == i,
            forall|j: int| 0 <= j < i ==> pixels@[j] == gray_of(board@)[j],
        decreases board.cells@.len() - i,
    {
        let v: u8 = if board.cells[i] != 0 {
            255u8
        } else {
            0u8
        };
        pixels.push(v);
        i = i + 1;
    }
    proof {
        assert(pixels@ =~= gray_of(board@));
    }
    pixels
}

/// One persisted frame: the board rendered to grayscale and encoded as PNG
/// bytes, or nothing where the encoder rejects the image.
pub fn render_frame(board: &Board) -> (r: Option<Vec<u8>>)
    requires
        board.width <= u32::MAX,
        board.height <= u32::MAX,
    ensures
        (match r {
            Some(b) => png_gray_encoding(
                board.width as u32,
                board.height as u32,
                gray_of(board@),
            ) == Some(b@),
            None => png_gray_encoding(board.width as u32, board.height as u32, gray_of(board@))
                is None,
        }),
{
    let pixels: Vec<u8> = render_grayscale(board);
    encode_png_gray(board.width as u32, board.height as u32, &pixels)
}

/// Law: rendering is deterministic — encoding equal boards of equal
/// dimensions twice yields identical image bytes.
pub proof fn lemma_render_deterministic(width: u32, height: u32, a: Seq<u8>, b: Seq<u8>)
    requires
        a == b,
    ensures
        png_gray_encoding(width, height, gray_of(a)) == png_gray_encoding(width, height, gray_of(b)),
{
}

} // verus!
