//! DirectWrite models: font options, text ranges, and the wide-string
//! arguments text formats and layouts are created from.

use vstd::prelude::*;
use crate::wide::{
    WideCString, WideStringError, has_interior_nul, lemma_nul_free_str_has_wide_form, utf16_encode,
    with_nul_terminator,
};

verus! {

pub const FONT_WEIGHT_THIN: u32 = 100;
pub const FONT_WEIGHT_EXTRA_LIGHT: u32 = 200;
pub const FONT_WEIGHT_ULTRA_LIGHT: u32 = 200;
pub const FONT_WEIGHT_LIGHT: u32 = 300;
pub const FONT_WEIGHT_NORMAL: u32 = 400;
pub const FONT_WEIGHT_REGULAR: u32 = 400;
pub const FONT_WEIGHT_MEDIUM: u32 = 500;
pub const FONT_WEIGHT_DEMI_BOLD: u32 = 600;
pub const FONT_WEIGHT_SEMI_BOLD: u32 = 600;
pub const FONT_WEIGHT_BOLD: u32 = 700;
pub const FONT_WEIGHT_EXTRA_BOLD: u32 = 800;
pub const FONT_WEIGHT_ULTRA_BOLD: u32 = 800;
pub const FONT_WEIGHT_BLACK: u32 = 900;
pub const FONT_WEIGHT_HEAVY: u32 = 900;
pub const FONT_WEIGHT_EXTRA_BLACK: u32 = 950;
pub const FONT_WEIGHT_ULTRA_BLACK: u32 = 950;

pub const FONT_STYLE_NORMAL: u32 = 0;
pub const FONT_STYLE_OBLIQUE: u32 = 1;
pub const FONT_STYLE_ITALIC: u32 = 2;

pub const FONT_STRETCH_ULTRA_CONDENSED: u32 = 1;
pub const FONT_STRETCH_EXTRA_CONDENSED: u32 = 2;
pub const FONT_STRETCH_CONDENSED: u32 = 3;
pub const FONT_STRETCH_SEMI_CONDENSED: u32 = 4;
pub const FONT_STRETCH_NORMAL: u32 = 5;
pub const FONT_STRETCH_MEDIUM: u32 = 5;
pub const FONT_STRETCH_SEMI_EXPANDED: u32 = 6;
pub const FONT_STRETCH_EXPANDED: u32 = 7;
pub const FONT_STRETCH_EXTRA_EXPANDED: u32 = 8;
pub const FONT_STRETCH_ULTRA_EXPANDED: u32 = 9;

pub const FONT_SIMULATIONS_NONE: u32 = 0;
pub const FONT_SIMULATIONS_BOLD: u32 = 1;
pub const FONT_SIMULATIONS_OBLIQUE: u32 = 2;

/// Factory type code for the shared DirectWrite factory.
pub const FACTORY_TYPE_SHARED: u32 = 0;

/// The font selection a text format is created with.
#[derive(Clone, Copy, Debug, PartialEq, Eq, Structural)]
pub struct FontOptions {
    pub weight: u32,
    pub style: u32,
    pub stretch: u32,
}

impl Default for FontOptions {
    /// Normal weight, style and stretch.
    fn default() -> (r: Self)
        ensures
            r.weight == FONT_WEIGHT_NORMAL,
            r.style == FONT_STYLE_NORMAL,
            r.stretch == FONT_STRETCH_NORMAL,
    {
        FontOptions {
            weight: FONT_WEIGHT_NORMAL,
            style: FONT_STYLE_NORMAL,
            stretch: FONT_STRETCH_NORMAL,
        }
    }
}

/// A range of text positions, as native text attributes take it.
#[derive(Clone, Copy, Debug, PartialEq, Eq, Structural)]
pub struct TextRange {
    pub start_position: u32,
    pub length: u32,
}

/// Converts a half-open position range to start and length.
pub fn text_range(start: u32, end: u32) -> (r: TextRange)
    requires
        start <= end,
    ensures
        r.start_position == start,
        r.length == end - start,
{
    TextRange { start_position: start, length: end - start }
}

/// The range covering every position of any text.
pub fn full_text_range() -> (r: TextRange)
    ensures
        r.start_position == 0,
        r.length == u32::MAX,
{
    TextRange { start_position: 0, length: u32::MAX }
}

/// Turns a family-name search answer into an index: the index exactly
/// when the name was found.
pub fn family_search_result(index: u32, exists: i32) -> (r: Option<u32>)
    ensures
        r is Some <==> exists != 0,
        r is Some ==> r->0 == index,
{
    if exists == 0 {
        None
    } else {
        Some(index)
    }
}

/// What the analysis of a font file reports, over plain values.
#[derive(Clone, Copy, Debug, PartialEq, Eq, Structural)]
pub struct FontFileAnalysis {
    pub is_supported: bool,
    pub file_type: u32,
    pub face_type: u32,
    pub face_count: u32,
}

/// Gathers the four raw answers of a font-file analysis, reading the
/// support flag as a boolean.
pub fn font_file_analysis(
    is_supported: i32,
    file_type: u32,
    face_type: u32,
    face_count: u32,
) -> (r: FontFileAnalysis)
    ensures
        r.is_supported == (is_supported != 0),
        r.file_type == file_type,
        r.face_type == face_type,
        r.face_count == face_count,
{
    FontFileAnalysis { is_supported: is_supported != 0, file_type, face_type, face_count }
}

/// The arguments a text format is created from: the family name and the
/// locale as wide strings, and the font selection.
#[derive(Clone, Debug, PartialEq, Eq)]
pub struct TextFormatRequest {
    pub family: WideCString,
    pub locale: WideCString,
    pub options: FontOptions,
}

/// Prepares the arguments of a text-format creation: the family name
/// encoded as a wide string, the Japanese locale name beside it, and the
/// font selection unchanged. A family name whose encoding holds an
/// interior nul is refused.
pub fn text_format_request(family_name: &str, options: FontOptions) -> (r: Result<
    TextFormatRequest,
    WideStringError,
>)
    ensures
        r is Ok <==> !has_interior_nul(utf16_encode(family_name@)),
        r is Ok ==> r->Ok_0.family@ == with_nul_terminator(utf16_encode(family_name@)),
        r is Ok ==> r->Ok_0.family.wf(),
        r is Ok ==> r->Ok_0.locale@ == with_nul_terminator(utf16_encode("ja-JP"@)),
        r is Ok ==> r->Ok_0.locale.wf(),
        r is Ok ==> r->Ok_0.options == options,
        r is Err ==> r->Err_0 == WideStringError::InteriorNul,
{
    let family = match WideCString::from_str(family_name) {
        Ok(f) => f,
        Err(e) => {
            return Err(e);
        },
    };
    proof {
        reveal_strlit("ja-JP");
        assert(!"ja-JP"@.contains('\0')) by {
            if "ja-JP"@.contains('\0') {
                let i = choose|i: int| 0 <= i < "ja-JP"@.len() && "ja-JP"@[i] == '\0';
            }
        }
        lemma_nul_free_str_has_wide_form("ja-JP"@);
    }
    let locale = match WideCString::from_str("ja-JP") {
        Ok(l) => l,
        Err(_) => {
            return Err(WideStringError::InteriorNul);
        },
    };
    Ok(TextFormatRequest { family, locale, options })
}

/// Whether the per-glyph arrays of an outline request agree in length:
/// each optional array, when given, must hold one entry per glyph.
pub fn glyph_run_arguments_consistent(
    index_count: usize,
    advance_count: Option<usize>,
    offset_count: Option<usize>,
) -> (r: bool)
    ensures
        r == ((advance_count is Some ==> advance_count->0 == index_count) && (offset_count is Some
            ==> offset_count->0 == index_count)),
{
    let advances_ok = match advance_count {
        Some(n) => n == index_count,
        None => true,
    };
    let offsets_ok = match offset_count {
        Some(n) => n == index_count,
        None => true,
    };
    advances_ok && offsets_ok
}

} // verus!
