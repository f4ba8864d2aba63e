//! Converting one file: from the text of a vector document to the bytes of
//! a raster file.
//!
//! The colour rules are applied to the text first; what they leave is
//! parsed, painted into a buffer of the document's own size, and encoded.
//! Reading the text from a file and writing the bytes to one is the
//! caller's part, which is why the errors of both have a place here.

use vstd::prelude::*;
use vstd::string::StringExecFns;
use crate::converter::Converter;
use crate::raster::{
    document_height,
    document_width,
    encode_pixmap,
    markup_error_text,
    new_pixmap,
    parse_markup,
    render_document,
};
use crate::substitute::{apply, apply_rules, rules_of, Color, Substitution};

verus! {

/// The step at which the conversion of a file failed.
#[derive(Clone, Copy, Debug, PartialEq, Eq, Structural)]
pub enum ErrorKind {
    /// The source file could not be read as text.
    Read,
    /// The text is no vector document.
    Parse,
    /// No buffer of the document's size could be had.
    RasterAlloc,
    /// The renderer gave up.
    Render,
    /// The result could not be encoded or written.
    Write,
}

/// Why the conversion of one file failed. The failure is the file's own:
/// the files after it are converted all the same.
#[derive(Debug)]
pub enum ConversionError {
    Read(String),
    Parse(String),
    RasterAlloc,
    Render(String),
    Write(String),
}

/// A failed conversion as plain values: the step, and the cause in words.
pub struct ConversionFault {
    pub kind: ErrorKind,
    pub detail: Seq<char>,
}

impl View for ConversionError {
    type V = ConversionFault;

    open spec fn view(&self) -> ConversionFault {
        match self {
            ConversionError::Read(detail) => ConversionFault {
                kind: ErrorKind::Read,
                detail: detail@,
            },
            ConversionError::Parse(detail) => ConversionFault {
                kind: ErrorKind::Parse,
                detail: detail@,
            },
            ConversionError::RasterAlloc => ConversionFault {
                kind: ErrorKind::RasterAlloc,
                detail: Seq::<char>::empty(),
            },
            ConversionError::Render(detail) => ConversionFault {
                kind: ErrorKind::Render,
                detail: detail@,
            },
            ConversionError::Write(detail) => ConversionFault {
                kind: ErrorKind::Write,
                detail: detail@,
            },
        }
    }
}

/// How the conversion of one file ended.
#[derive(Debug)]
pub enum ConversionOutcome {
    Success,
    /// The failure, in words.
    Failure(String),
}

/// The end of a conversion as plain values: nothing for a success, the
/// failure in words otherwise.
pub type OutcomeModel = Option<Seq<char>>;

impl View for ConversionOutcome {
    type V = OutcomeModel;

    open spec fn view(&self) -> OutcomeModel {
        match self {
            ConversionOutcome::Success => None,
            ConversionOutcome::Failure(message) => Some(message@),
        }
    }
}

/// What went wrong at a step, in words.
pub open spec fn kind_label(kind: ErrorKind) -> Seq<char> {
    match kind {
        ErrorKind::Read => "Failed to read SVG file"@,
        ErrorKind::Parse => "Failed to parse SVG"@,
        ErrorKind::RasterAlloc => "Failed to create pixmap"@,
        ErrorKind::Render => "Failed to render SVG"@,
        ErrorKind::Write => "Failed to save PNG"@,
    }
}

/// A failed conversion in words: what went wrong and, where one is known,
/// the cause.
pub open spec fn described(fault: ConversionFault) -> Seq<char> {
    if fault.detail.len() == 0 {
        kind_label(fault.kind)
    } else {
        kind_label(fault.kind) + ": "@ + fault.detail
    }
}

/// The text that is handed to the parser: the source text after the colour
/// rules, or the source text itself where the task has no rules.
pub open spec fn handed_to_parser(svg_data: Seq<char>, rules: Option<Seq<Substitution>>) -> Seq<
    char,
> {
    match rules {
        Some(list) => apply_rules(svg_data, list),
        None => svg_data,
    }
}

/// The text that is handed to the parser, for rules as a task holds them.
pub open spec fn prepared(svg_data: Seq<char>, colors: Option<Seq<Color>>) -> Seq<char> {
    handed_to_parser(
        svg_data,
        match colors {
            Some(list) => Some(rules_of(list)),
            None => None,
        },
    )
}

/// What a conversion has come to, as plain values.
pub open spec fn conversion_of(conversion: Result<Vec<u8>, ConversionError>) -> Result<
    Seq<u8>,
    ConversionFault,
> {
    match conversion {
        Ok(bytes) => Ok(bytes@),
        Err(error) => Err(error@),
    }
}

/// What a buffer's size says of the conversion: a document without width
/// or without height cannot be painted.
pub open spec fn size_verdict(width: u32, height: u32) -> Result<(), ErrorKind> {
    if width == 0 || height == 0 {
        Err(ErrorKind::RasterAlloc)
    } else {
        Ok(())
    }
}

impl ConversionError {
    /// The step at which the conversion failed.
    pub fn kind(&self) -> (kind: ErrorKind)
        ensures
            kind == self@.kind,
    {
        match self {
            ConversionError::Read(_) => ErrorKind::Read,
            ConversionError::Parse(_) => ErrorKind::Parse,
            ConversionError::RasterAlloc => ErrorKind::RasterAlloc,
            ConversionError::Render(_) => ErrorKind::Render,
            ConversionError::Write(_) => ErrorKind::Write,
        }
    }

    /// The failure in words, for a line of output.
    pub fn describe(&self) -> (words: String)
        ensures
            words@ == described(self@),
    {
        let (label, detail) = match self {
            ConversionError::Read(detail) => ("Failed to read SVG file", detail.as_str()),
            ConversionError::Parse(detail) => ("Failed to parse SVG", detail.as_str()),
            ConversionError::RasterAlloc => ("Failed to create pixmap", ""),
            ConversionError::Render(detail) => ("Failed to render SVG", detail.as_str()),
            ConversionError::Write(detail) => ("Failed to save PNG", detail.as_str()),
        };
        proof {
            reveal_strlit("");
        }
        let mut words = label.to_owned();
        if !detail.is_empty() {
            words.append(": ");
            words.append(detail);
        }
        words
    }
}

impl ConversionOutcome {
    /// The outcome that the result of a conversion stands for.
    pub fn from_result(result: &Result<(), ConversionError>) -> (outcome: ConversionOutcome)
        ensures
            outcome@ == match result {
                Ok(_) => None::<Seq<char>>,
                Err(error) => Some(described(error@)),
            },
    {
        match result {
            Ok(_) => ConversionOutcome::Success,
            Err(error) => ConversionOutcome::Failure(error.describe()),
        }
    }
}

/// The text that is handed to the parser.
pub fn prepare_markup(svg_data: &str, colors: Option<&Vec<Color>>) -> (text: String)
    ensures
        text@ == prepared(
            svg_data@,
            match colors {
                Some(list) => Some(list@),
                None => None,
            },
        ),
{
    match colors {
        Some(list) => apply(svg_data, list),
        None => svg_data.to_owned(),
    }
}

/// Decides from a document's size whether it can be painted.
pub fn check_size(width: u32, height: u32) -> (verdict: Result<(), ConversionError>)
    ensures
        match verdict {
            Ok(_) => size_verdict(width, height) is Ok,
            Err(error) => size_verdict(width, height) == Err::<(), ErrorKind>(error@.kind)
                && error@.detail.len() == 0,
        },
{
    if width == 0 || height == 0 {
        Err(ConversionError::RasterAlloc)
    } else {
        Ok(())
    }
}

/// Whether `parsed` is what the parser made of `text`.
pub closed spec fn is_parse_of(text: &str, parsed: Result<usvg::Tree, usvg::Error>) -> bool {
    call_ensures(parse_markup, (text,), parsed)
}

/// Whether `words` are what the parser's complaint says.
pub closed spec fn is_complaint_of(error: usvg::Error, words: String) -> bool {
    call_ensures(markup_error_text, (&error,), words)
}

/// Whether `width` and `height` are the size of `document` in whole
/// pixels.
pub closed spec fn is_size_of(document: usvg::Tree, width: u32, height: u32) -> bool {
    &&& call_ensures(document_width, (&document,), width)
    &&& call_ensures(document_height, (&document,), height)
}

/// Whether `buffer` is what came of asking for a pixel buffer of a size.
pub closed spec fn is_buffer_for(width: u32, height: u32, buffer: Option<tiny_skia::Pixmap>) -> bool {
    call_ensures(new_pixmap, (width, height), buffer)
}

/// Whether `painted` is what the renderer made of the buffer `blank` when
/// it painted `document` into it.
pub closed spec fn is_painting_of(
    document: usvg::Tree,
    blank: tiny_skia::Pixmap,
    painted: tiny_skia::Pixmap,
) -> bool {
    call_ensures(render_document, (&document, blank), painted)
}

/// Whether `png` is what the encoder made of the buffer `painted`.
pub closed spec fn is_encoding_of(painted: tiny_skia::Pixmap, png: Result<Vec<u8>, String>) -> bool {
    call_ensures(encode_pixmap, (&painted,), png)
}

/// Whether `encoded` is what the conversion of `text` comes to, given what
/// the parser, the renderer and the encoder made of it.
///
/// `parsed` is what the parser made of `text`. Where it is an error,
/// `complaint` is that error in words, and the conversion fails at parsing
/// with these words. Where it is a document, `width` and `height` are the
/// document's size. A document without width or without height fails at
/// the buffer. For any other, `buffer` is what came of asking for a buffer
/// of that size: none fails at the buffer; one is painted with the
/// document, which gives `painted`, and `png` is what the encoder made of
/// `painted`: its bytes are the result, its failure a failure at writing.
pub open spec fn follows_from(
    text: &str,
    parsed: Result<usvg::Tree, usvg::Error>,
    complaint: String,
    width: u32,
    height: u32,
    buffer: Option<tiny_skia::Pixmap>,
    painted: tiny_skia::Pixmap,
    png: Result<Vec<u8>, String>,
    encoded: Result<Vec<u8>, ConversionError>,
) -> bool {
    &&& is_parse_of(text, parsed)
    &&& match parsed {
        Err(error) => {
            &&& is_complaint_of(error, complaint)
            &&& encoded == Err::<Vec<u8>, ConversionError>(ConversionError::Parse(complaint))
        },
        Ok(document) => {
            &&& is_size_of(document, width, height)
            &&& if size_verdict(width, height) is Err {
                encoded == Err::<Vec<u8>, ConversionError>(ConversionError::RasterAlloc)
            } else {
                &&& is_buffer_for(width, height, buffer)
                &&& match buffer {
                    None => encoded == Err::<Vec<u8>, ConversionError>(
                        ConversionError::RasterAlloc,
                    ),
                    Some(blank) => {
                        &&& is_painting_of(document, blank, painted)
                        &&& is_encoding_of(painted, png)
                        &&& encoded == match png {
                            Ok(bytes) => Ok::<Vec<u8>, ConversionError>(bytes),
                            Err(detail) => Err::<Vec<u8>, ConversionError>(
                                ConversionError::Write(detail),
                            ),
                        }
                    },
                }
            }
        },
    }
}

/// Whether `encoded` is what a conversion of `text` can come to: the text
/// is parsed as it stands, the document is painted into a buffer of its
/// own size, and the buffer is encoded; the first of these that fails is
/// the failure of the conversion.
pub open spec fn is_rasterization(text: &str, encoded: Result<Vec<u8>, ConversionError>) -> bool {
    exists|
        parsed: Result<usvg::Tree, usvg::Error>,
        complaint: String,
        width: u32,
        height: u32,
        buffer: Option<tiny_skia::Pixmap>,
        painted: tiny_skia::Pixmap,
        png: Result<Vec<u8>, String>,
    |
        follows_from(text, parsed, complaint, width, height, buffer, painted, png, encoded)
}

/// Whether `encoded` is what converting a source text under colour rules
/// can come to: the rules are applied first, and what they leave is what
/// the parser is handed.
pub open spec fn is_conversion_of(
    svg_data: Seq<char>,
    colors: Option<Seq<Color>>,
    encoded: Result<Vec<u8>, ConversionError>,
) -> bool {
    exists|text: &str|
        text@ == prepared(svg_data, colors) && #[trigger] is_rasterization(text, encoded)
}

/// The step at which a conversion can fail: at parsing, at the buffer or
/// at encoding.
pub open spec fn fails_in_conversion(conversion: Result<Seq<u8>, ConversionFault>) -> bool {
    conversion matches Err(fault) ==> fault.kind == ErrorKind::Parse || fault.kind
        == ErrorKind::RasterAlloc || fault.kind == ErrorKind::Write
}

/// Whatever the parser, the renderer and the encoder make of a text, a
/// conversion that fails fails at parsing, at the buffer or at encoding.
pub proof fn lemma_rasterization_fails_in_conversion(
    text: &str,
    encoded: Result<Vec<u8>, ConversionError>,
)
    requires
        is_rasterization(text, encoded),
    ensures
        fails_in_conversion(conversion_of(encoded)),
{
}

/// Whether `bytes` are a picture of `text`: the parser took the text for
/// `document`, whose size has width and height; a buffer of that size was
/// granted, the renderer painted the document into it, and the encoder
/// made `bytes` of what was painted.
pub open spec fn is_picture_of(
    text: &str,
    document: usvg::Tree,
    width: u32,
    height: u32,
    blank: tiny_skia::Pixmap,
    painted: tiny_skia::Pixmap,
    bytes: Vec<u8>,
) -> bool {
    &&& is_parse_of(text, Ok(document))
    &&& is_size_of(document, width, height)
    &&& width > 0 && height > 0
    &&& is_buffer_for(width, height, Some(blank))
    &&& is_painting_of(document, blank, painted)
    &&& is_encoding_of(painted, Ok(bytes))
}

/// A conversion gives bytes only for a text that the parser took for a
/// document with width and height, and the bytes are those that the
/// encoder made of the buffer into which the document was painted.
pub proof fn lemma_bytes_are_the_encoders(text: &str, bytes: Vec<u8>)
    requires
        is_rasterization(text, Ok(bytes)),
    ensures
        exists|
            document: usvg::Tree,
            width: u32,
            height: u32,
            blank: tiny_skia::Pixmap,
            painted: tiny_skia::Pixmap,
        |
            is_picture_of(text, document, width, height, blank, painted, bytes),
{
    let (parsed, complaint, width, height, buffer, painted, png) = choose|
        parsed: Result<usvg::Tree, usvg::Error>,
        complaint: String,
        width: u32,
        height: u32,
        buffer: Option<tiny_skia::Pixmap>,
        painted: tiny_skia::Pixmap,
        png: Result<Vec<u8>, String>,
    |
        follows_from(
            text,
            parsed,
            complaint,
            width,
            height,
            buffer,
            painted,
            png,
            Ok::<Vec<u8>, ConversionError>(bytes),
        );
    assert(is_picture_of(text, parsed->Ok_0, width, height, buffer->Some_0, painted, bytes));
}

/// A document without width or without height fails at the buffer,
/// whatever else is given: nothing is painted or encoded for it.
pub proof fn lemma_document_without_size_fails_at_the_buffer(
    text: &str,
    document: usvg::Tree,
    complaint: String,
    width: u32,
    height: u32,
    buffer: Option<tiny_skia::Pixmap>,
    painted: tiny_skia::Pixmap,
    png: Result<Vec<u8>, String>,
    encoded: Result<Vec<u8>, ConversionError>,
)
    requires
        follows_from(text, Ok(document), complaint, width, height, buffer, painted, png, encoded),
        width == 0 || height == 0,
    ensures
        encoded == Err::<Vec<u8>, ConversionError>(ConversionError::RasterAlloc),
{
}

/// A text that the parser does not take for a document fails at parsing,
/// with the parser's complaint as the cause.
pub proof fn lemma_parser_complaint_fails_at_parsing(
    text: &str,
    error: usvg::Error,
    complaint: String,
    width: u32,
    height: u32,
    buffer: Option<tiny_skia::Pixmap>,
    painted: tiny_skia::Pixmap,
    png: Result<Vec<u8>, String>,
    encoded: Result<Vec<u8>, ConversionError>,
)
    requires
        follows_from(text, Err(error), complaint, width, height, buffer, painted, png, encoded),
    ensures
        encoded == Err::<Vec<u8>, ConversionError>(ConversionError::Parse(complaint)),
        is_complaint_of(error, complaint),
{
}

/// What the encoder made of a buffer, as plain values.
pub open spec fn png_of(png: Result<Vec<u8>, String>) -> Result<Seq<u8>, Seq<char>> {
    match png {
        Ok(bytes) => Ok(bytes@),
        Err(detail) => Err(detail@),
    }
}

/// Whether the parser, the renderer and the encoder each make one thing
/// of one input: the parser one document or one complaint of one text, in
/// the same words each time; a document has one size; a size is granted
/// one buffer or none; the renderer makes one picture of one document and
/// buffer; the encoder makes the same bytes of one picture, or fails in
/// the same words.
///
/// This is an assumption on those three. Nothing here shows it, and for
/// the parser it holds only as long as the files that a document refers to
/// stay as they are.
pub open spec fn collaborators_are_deterministic() -> bool {
    &&& forall|
        one: &str,
        other: &str,
        parsed: Result<usvg::Tree, usvg::Error>,
        again: Result<usvg::Tree, usvg::Error>,
    |
        #![trigger is_parse_of(one, parsed), is_parse_of(other, again)]
        one@ == other@ && is_parse_of(one, parsed) && is_parse_of(other, again) ==> parsed
            == again
    &&& forall|error: usvg::Error, words: String, again: String|
        #![trigger is_complaint_of(error, words), is_complaint_of(error, again)]
        is_complaint_of(error, words) && is_complaint_of(error, again) ==> words@ == again@
    &&& forall|document: usvg::Tree, width: u32, height: u32, wide: u32, high: u32|
        #![trigger is_size_of(document, width, height), is_size_of(document, wide, high)]
        is_size_of(document, width, height) && is_size_of(document, wide, high) ==> width
            == wide && height == high
    &&& forall|
        width: u32,
        height: u32,
        buffer: Option<tiny_skia::Pixmap>,
        again: Option<tiny_skia::Pixmap>,
    |
        #![trigger is_buffer_for(width, height, buffer), is_buffer_for(width, height, again)]
        is_buffer_for(width, height, buffer) && is_buffer_for(width, height, again) ==> buffer
            == again
    &&& forall|
        document: usvg::Tree,
        blank: tiny_skia::Pixmap,
        painted: tiny_skia::Pixmap,
        again: tiny_skia::Pixmap,
    |
        #![trigger is_painting_of(document, blank, painted), is_painting_of(document, blank, again)]
        is_painting_of(document, blank, painted) && is_painting_of(document, blank, again)
            ==> painted == again
    &&& forall|painted: tiny_skia::Pixmap, png: Result<Vec<u8>, String>, again: Result<Vec<u8>, String>|
        #![trigger is_encoding_of(painted, png), is_encoding_of(painted, again)]
        is_encoding_of(painted, png) && is_encoding_of(painted, again) ==> png_of(png) == png_of(
            again,
        )
}

/// With a parser, a renderer and an encoder that each make one thing of
/// one input, two conversions of texts that read the same come to the
/// same: the same bytes, or the same failure.
pub proof fn lemma_rasterizations_agree(
    one: &str,
    other: &str,
    first: Result<Vec<u8>, ConversionError>,
    second: Result<Vec<u8>, ConversionError>,
)
    requires
        collaborators_are_deterministic(),
        one@ == other@,
        is_rasterization(one, first),
        is_rasterization(other, second),
    ensures
        conversion_of(first) == conversion_of(second),
{
    let (parsed, complaint, width, height, buffer, painted, png) = choose|
        parsed: Result<usvg::Tree, usvg::Error>,
        complaint: String,
        width: u32,
        height: u32,
        buffer: Option<tiny_skia::Pixmap>,
        painted: tiny_skia::Pixmap,
        png: Result<Vec<u8>, String>,
    |
        follows_from(one, parsed, complaint, width, height, buffer, painted, png, first);
    let (parsed2, complaint2, width2, height2, buffer2, painted2, png2) = choose|
        parsed: Result<usvg::Tree, usvg::Error>,
        complaint: String,
        width: u32,
        height: u32,
        buffer: Option<tiny_skia::Pixmap>,
        painted: tiny_skia::Pixmap,
        png: Result<Vec<u8>, String>,
    |
        follows_from(other, parsed, complaint, width, height, buffer, painted, png, second);
    assert(is_parse_of(one, parsed) && is_parse_of(other, parsed2));
    assert(parsed == parsed2);
    match parsed {
        Err(error) => {
            assert(is_complaint_of(error, complaint) && is_complaint_of(error, complaint2));
            assert(complaint@ == complaint2@);
        },
        Ok(document) => {
            assert(is_size_of(document, width, height) && is_size_of(document, width2, height2));
            assert(width == width2 && height == height2);
            if size_verdict(width, height) is Ok {
                assert(is_buffer_for(width, height, buffer) && is_buffer_for(
                    width,
                    height,
                    buffer2,
                ));
                assert(buffer == buffer2);
                match buffer {
                    None => {},
                    Some(blank) => {
                        assert(is_painting_of(document, blank, painted) && is_painting_of(
                            document,
                            blank,
                            painted2,
                        ));
                        assert(painted == painted2);
                        assert(is_encoding_of(painted, png) && is_encoding_of(painted, png2));
                        assert(png_of(png) == png_of(png2));
                    },
                }
            }
        },
    }
}

/// With a parser, a renderer and an encoder that each make one thing of
/// one input, converting one source text twice under the same rules comes
/// to the same both times: the same bytes, or the same failure.
pub proof fn lemma_conversions_agree(
    svg_data: Seq<char>,
    colors: Option<Seq<Color>>,
    first: Result<Vec<u8>, ConversionError>,
    second: Result<Vec<u8>, ConversionError>,
)
    requires
        collaborators_are_deterministic(),
        is_conversion_of(svg_data, colors, first),
        is_conversion_of(svg_data, colors, second),
    ensures
        conversion_of(first) == conversion_of(second),
{
    let one = choose|text: &str|
        text@ == prepared(svg_data, colors) && is_rasterization(text, first);
    let other = choose|text: &str|
        text@ == prepared(svg_data, colors) && is_rasterization(text, second);
    lemma_rasterizations_agree(one, other, first, second);
}

/// Paints markup and encodes the picture.
///
/// The text is parsed as it stands. The document that the parser gives is
/// painted into a buffer of its own size, and the buffer is encoded. What
/// comes back is what follows from what the parser, the renderer and the
/// encoder did: the bytes of the encoder, or the failure of the first of
/// them that failed.
fn rasterize(text: &str) -> (encoded: Result<Vec<u8>, ConversionError>)
    ensures
        is_rasterization(text, encoded),
{
    let parsed = parse_markup(text);
    let ghost seen = parsed;
    let ghost no_words = arbitrary::<String>();
    let ghost no_buffer = arbitrary::<Option<tiny_skia::Pixmap>>();
    let ghost no_picture = arbitrary::<tiny_skia::Pixmap>();
    let ghost no_png = arbitrary::<Result<Vec<u8>, String>>();
    let document = match parsed {
        Err(error) => {
            let complaint = markup_error_text(&error);
            let ghost said = complaint;
            let encoded = Err(ConversionError::Parse(complaint));
            assert(follows_from(text, seen, said, 0, 0, no_buffer, no_picture, no_png, encoded));
            return encoded;
        },
        Ok(document) => document,
    };
    let width = document_width(&document);
    let height = document_height(&document);
    match check_size(width, height) {
        Err(error) => {
            let encoded = Err(error);
            assert(error == ConversionError::RasterAlloc);
            assert(follows_from(
                text,
                seen,
                no_words,
                width,
                height,
                no_buffer,
                no_picture,
                no_png,
                encoded,
            ));
            return encoded;
        },
        Ok(_) => {},
    }
    let buffer = new_pixmap(width, height);
    let ghost granted = buffer;
    let blank = match buffer {
        None => {
            let encoded = Err(ConversionError::RasterAlloc);
            assert(follows_from(
                text,
                seen,
                no_words,
                width,
                height,
                granted,
                no_picture,
                no_png,
                encoded,
            ));
            return encoded;
        },
        Some(blank) => blank,
    };
    let painted = render_document(&document, blank);
    let png = encode_pixmap(&painted);
    let ghost made = png;
    let encoded = match png {
        Ok(bytes) => Ok(bytes),
        Err(detail) => Err(ConversionError::Write(detail)),
    };
    assert(follows_from(text, seen, no_words, width, height, granted, painted, made, encoded));
    encoded
}

impl Converter {
    /// Converts the text of a vector document to the bytes of a raster
    /// file.
    ///
    /// The colour rules are applied first, in list order, and the parser
    /// is handed what they leave. The document that the parser gives is
    /// painted into a buffer of its own size, and the buffer is encoded.
    /// What comes back is what follows from what the parser, the renderer
    /// and the encoder did: the bytes of the encoder, or the failure of the
    /// first of them that failed, which is one of parsing, of the buffer or
    /// of encoding.
    pub fn svg_to_png(&self, svg_data: &str, colors: Option<&Vec<Color>>) -> (encoded: Result<
        Vec<u8>,
        ConversionError,
    >)
        ensures
            is_conversion_of(
                svg_data@,
                match colors {
                    Some(list) => Some(list@),
                    None => None,
                },
                encoded,
            ),
            fails_in_conversion(conversion_of(encoded)),
    {
        let text = prepare_markup(svg_data, colors);
        let handed = text.as_str();
        let encoded = rasterize(handed);
        proof {
            lemma_rasterization_fails_in_conversion(handed, encoded);
        }
        encoded
    }
}

} // verus!
