//! The boundary to the vector parser, the renderer and the raster encoder.
//!
//! Parsing markup into a document is the work of `usvg`, painting a
//! document into a pixel buffer that of `resvg`, holding the buffer and
//! encoding it that of `tiny_skia`. This crate carries their values through
//! and decides what happens between the calls; it claims next to nothing of
//! what they compute.

use vstd::prelude::*;

verus! {

/// `usvg::Tree`, a parsed vector document, carried through as it is.
#[verifier::external_type_specification]
#[verifier::external_body]
pub struct ExDocument(usvg::Tree);

/// `usvg::Error`, the parser's complaint, carried through as it is.
#[verifier::external_type_specification]
#[verifier::external_body]
pub struct ExDocumentError(usvg::Error);

/// `tiny_skia::Pixmap`, a pixel buffer, carried through as it is.
#[verifier::external_type_specification]
#[verifier::external_body]
pub struct ExPixmap(tiny_skia::Pixmap);

/// Parses markup into a document.
///
/// Trusted: this is `usvg::Tree::from_str` with `usvg::Options::default()`.
/// Nothing is claimed of the outcome: a document may refer to files, so the
/// outcome is not a function of the text alone.
#[verifier::external_body]
pub(crate) fn parse_markup(text: &str) -> (parsed: Result<usvg::Tree, usvg::Error>) {
    usvg::Tree::from_str(text, &usvg::Options::default())
}

/// What the parser says of markup that is no document.
///
/// Trusted: this is the `Display` form of `usvg::Error`. Nothing is claimed
/// of the message.
#[verifier::external_body]
pub(crate) fn markup_error_text(error: &usvg::Error) -> (message: String) {
    error.to_string()
}

/// The width of a document in whole pixels.
///
/// Trusted: this is `usvg::Tree::size` and the width of the size it gives,
/// cut down to a whole number. Nothing is claimed of the number.
#[verifier::external_body]
pub(crate) fn document_width(document: &usvg::Tree) -> (width: u32) {
    document.size().width() as u32
}

/// The height of a document in whole pixels.
///
/// Trusted: this is `usvg::Tree::size` and the height of the size it gives,
/// cut down to a whole number. Nothing is claimed of the number.
#[verifier::external_body]
pub(crate) fn document_height(document: &usvg::Tree) -> (height: u32) {
    document.size().height() as u32
}

/// Makes a pixel buffer of a given size.
///
/// Trusted: this is `tiny_skia::Pixmap::new`, which refuses a buffer without
/// width or without height. It refuses others too; of those nothing is
/// claimed. A buffer that is granted is taken from the heap; that the heap
/// can be exhausted is left out of account, as it is for every vector.
#[verifier::external_body]
pub(crate) fn new_pixmap(width: u32, height: u32) -> (pixmap: Option<tiny_skia::Pixmap>)
    ensures
        (width == 0 || height == 0) ==> pixmap is None,
{
    tiny_skia::Pixmap::new(width, height)
}

/// Paints a document into a pixel buffer and hands the buffer back.
///
/// Trusted: this is `resvg::render` with the identity transform, on the
/// whole buffer. Nothing is claimed of what the buffer holds afterwards.
#[verifier::external_body]
pub(crate) fn render_document(document: &usvg::Tree, pixmap: tiny_skia::Pixmap) -> (painted:
    tiny_skia::Pixmap) {
    let mut pixmap = pixmap;
    resvg::render(document, tiny_skia::Transform::default(), &mut pixmap.as_mut());
    pixmap
}

/// Encodes a pixel buffer as a raster file.
///
/// Trusted: this is `tiny_skia::Pixmap::encode_png`; where it fails, the
/// error is handed on in its `Display` form. Nothing is claimed of the
/// bytes or of the message.
#[verifier::external_body]
pub(crate) fn encode_pixmap(pixmap: &tiny_skia::Pixmap) -> (encoded: Result<Vec<u8>, String>) {
    match pixmap.encode_png() {
        Ok(bytes) => Ok(bytes),
        Err(error) => Err(error.to_string()),
    }
}

} // verus!
