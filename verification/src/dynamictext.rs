//! The text builder: one canonical text object from any of the three kinds
//! of source text.

use vstd::prelude::*;
use vstd::string::*;
use hex_color::HexColor;
use uuid::Uuid;
use unicode_segmentation::UnicodeSegmentation;
use crate::format::{extract_mtext_format, extracted, no_format, FormatModel, MTextFormatInfo};
use crate::normalize::{normalize_mtext, normalized_text};

verus! {

#[derive(Debug, Clone, Copy, PartialEq, Eq, Structural)]
pub enum HAlignment {
    Left,
    Center,
    Right,
}

#[derive(Debug, Clone, Copy, PartialEq, Eq, Structural)]
pub enum VAlignment {
    Top,
    Center,
    Bottom,
}

#[derive(Debug, Clone, Copy, PartialEq, Eq, Structural)]
pub enum FontStyle {
    Normal,
    Italic,
}

/// The horizontal alignment for a CAD horizontal justification, by its
/// code: 1 and 4 (centre and middle) are centred, 2 is right, every other
/// one is left.
pub open spec fn h_alignment_of_code(code: int) -> HAlignment {
    if code == 1 || code == 4 {
        HAlignment::Center
    } else if code == 2 {
        HAlignment::Right
    } else {
        HAlignment::Left
    }
}

/// The vertical alignment for a CAD vertical justification, by its code: 3
/// is top, 2 is centred, every other one (the base line too) is bottom.
pub open spec fn v_alignment_of_code(code: int) -> VAlignment {
    if code == 3 {
        VAlignment::Top
    } else if code == 2 {
        VAlignment::Center
    } else {
        VAlignment::Bottom
    }
}

/// The alignment for a CAD attachment point, by its code: the points run
/// from 1, top left, row by row to 9, bottom right. A code outside of that
/// counts as top left.
pub open spec fn alignment_of_attachment(code: int) -> (HAlignment, VAlignment) {
    if 1 <= code <= 9 {
        (
            if (code - 1) % 3 == 0 {
                HAlignment::Left
            } else if (code - 1) % 3 == 1 {
                HAlignment::Center
            } else {
                HAlignment::Right
            },
            if (code - 1) / 3 == 0 {
                VAlignment::Top
            } else if (code - 1) / 3 == 1 {
                VAlignment::Center
            } else {
                VAlignment::Bottom
            },
        )
    } else {
        (HAlignment::Left, VAlignment::Top)
    }
}

impl HAlignment {
    /// The alignment for a horizontal justification code.
    pub fn from_justification(code: i32) -> (h: Self)
        ensures
            h == h_alignment_of_code(code as int),
    {
        if code == 1 || code == 4 {
            HAlignment::Center
        } else if code == 2 {
            HAlignment::Right
        } else {
            HAlignment::Left
        }
    }

    /// The horizontal alignment for an attachment point code.
    pub fn from_attachment_point(code: i32) -> (h: Self)
        ensures
            h == alignment_of_attachment(code as int).0,
    {
        if code == 2 || code == 5 || code == 8 {
            HAlignment::Center
        } else if code == 3 || code == 6 || code == 9 {
            HAlignment::Right
        } else {
            HAlignment::Left
        }
    }
}

impl VAlignment {
    /// The alignment for a vertical justification code.
    pub fn from_justification(code: i32) -> (v: Self)
        ensures
            v == v_alignment_of_code(code as int),
    {
        if code == 3 {
            VAlignment::Top
        } else if code == 2 {
            VAlignment::Center
        } else {
            VAlignment::Bottom
        }
    }

    /// The vertical alignment for an attachment point code.
    pub fn from_attachment_point(code: i32) -> (v: Self)
        ensures
            v == alignment_of_attachment(code as int).1,
    {
        if 4 <= code && code <= 6 {
            VAlignment::Center
        } else if 7 <= code && code <= 9 {
            VAlignment::Bottom
        } else {
            VAlignment::Top
        }
    }
}

/// A colour by its four channels.
#[derive(Debug, Clone, Copy, PartialEq, Eq, Structural)]
pub struct Color {
    pub r: u8,
    pub g: u8,
    pub b: u8,
    pub a: u8,
}

/// The font of a text object, but for its size.
#[derive(Debug, Clone)]
pub struct FontInfo {
    pub family: String,
    pub weight: u32,
    pub style: FontStyle,
}

pub const WEIGHT_NORMAL: u32 = 50;

pub const WEIGHT_BOLD: u32 = 75;

/// The family of a text that names none.
pub open spec fn default_family() -> Seq<char> {
    "Sans Serif"@
}

/// Where a text object takes its text from.
pub open spec fn user_text() -> Seq<char> {
    "UserText"@
}

/// The text that a source entity carries.
#[derive(Debug, Clone)]
pub enum TextEntity {
    /// A simple text.
    Text { value: String },
    /// A multi-line rich text: the overflow chunks, then the primary text.
    MText { extended_text: Vec<String>, text: String },
    /// The text of a block attribute.
    Attrib { value: String },
}

/// The canonical text object, but for the numbers of its placement.
#[derive(Debug, Clone)]
pub struct DynamicText {
    pub text: String,
    pub info_name: Option<String>,
    pub uuid: u128,
    pub h_alignment: HAlignment,
    pub font: FontInfo,
    pub text_from: String,
    pub v_alignment: VAlignment,
    pub frame: bool,
    pub text_width: i32,
    pub keep_visual_rotation: bool,
    pub color: Color,
}

/// What a text object is built from: the source text, its alignment and the
/// colour to fall back on.
pub struct DTextBuilder {
    pub text: TextEntity,
    pub h_alignment: HAlignment,
    pub v_alignment: VAlignment,
    pub color: Option<Color>,
}

/// The first `n` chunks, one behind the other.
pub open spec fn joined(chunks: Seq<String>, n: nat) -> Seq<char>
    decreases n,
{
    if n == 0 || n > chunks.len() {
        Seq::empty()
    } else {
        joined(chunks, (n - 1) as nat) + chunks[n - 1]@
    }
}

impl TextEntity {
    /// The raw text of the entity: for a multi-line text the overflow
    /// chunks, in order, and then the primary text.
    pub open spec fn raw(&self) -> Seq<char> {
        match self {
            TextEntity::Text { value } => value@,
            TextEntity::MText { extended_text, text } => joined(
                extended_text@,
                extended_text@.len(),
            ) + text@,
            TextEntity::Attrib { value } => value@,
        }
    }

    /// The hints that the entity carries: those of its raw text, and none
    /// for the text of a block attribute.
    pub open spec fn format(&self) -> FormatModel {
        match self {
            TextEntity::Attrib { .. } => no_format(),
            _ => extracted(self.raw()),
        }
    }

    /// The raw text of the entity.
    pub fn raw_text(&self) -> (raw: String)
        ensures
            raw@ == self.raw(),
    {
        match self {
            TextEntity::Text { value } => value.clone(),
            TextEntity::Attrib { value } => value.clone(),
            TextEntity::MText { extended_text, text } => {
                let mut raw = String::new();
                let mut k: usize = 0;
                assert(raw@ =~= joined(extended_text@, 0));
                while k < extended_text.len()
                    invariant
                        k <= extended_text@.len(),
                        raw@ == joined(extended_text@, k as nat),
                    decreases extended_text@.len() - k,
                {
                    raw.append(extended_text[k].as_str());
                    k += 1;
                }
                raw.append(text.as_str());
                raw
            },
        }
    }
}

/// The solid black.
pub open spec fn black() -> Color {
    Color { r: 0, g: 0, b: 0, a: 255 }
}

/// The colour whose four channels are the four bytes of `v`, the red one
/// first and highest.
pub open spec fn color_of_number(v: u32) -> Color {
    Color {
        r: (v / 0x100_0000) as u8,
        g: ((v / 0x1_0000) % 0x100) as u8,
        b: ((v / 0x100) % 0x100) as u8,
        a: (v % 0x100) as u8,
    }
}

/// The colour of a text: that of its colour index where the index lies
/// strictly between 0 and 256, else the given one, else black.
pub open spec fn resolved_color(index: Option<i32>, given: Option<Color>) -> Color {
    match index {
        Some(i) if 0 < i < 256 => color_of_number(i as u32),
        _ => match given {
            Some(c) => c,
            None => black(),
        },
    }
}

/// Trusted: `HexColor::from_u32` of the crate hex_color, which reads the
/// number's four bytes, highest first, as red, green, blue and alpha.
#[verifier::external_body]
fn color_from_u32(v: u32) -> (c: Color)
    ensures
        c == color_of_number(v),
{
    let h = HexColor::from_u32(v);
    Color { r: h.r, g: h.g, b: h.b, a: h.a }
}

/// The number is that of a random identifier: its version is 4 and its
/// variant is the standard one.
pub open spec fn is_random_uuid(id: u128) -> bool {
    id & 0x0000_0000_0000_f000_c000_0000_0000_0000 == 0x0000_0000_0000_4000_8000_0000_0000_0000
}

/// Trusted: `Uuid::new_v4` of the crate uuid, read as a number by
/// `Uuid::as_u128`. The identifier is random: only its version and variant
/// bits are known.
#[verifier::external_body]
fn fresh_uuid() -> (id: u128)
    ensures
        is_random_uuid(id),
{
    Uuid::new_v4().as_u128()
}

/// Resolves the colour of a text from its colour index and the given colour.
pub fn resolve_color(index: Option<i32>, given: Option<Color>) -> (c: Color)
    ensures
        c == resolved_color(index, given),
{
    match index {
        Some(i) if 0 < i && i < 256 => color_from_u32(i as u32),
        _ => match given {
            Some(c) => c,
            None => Color { r: 0, g: 0, b: 0, a: 255 },
        },
    }
}

/// A rotation of this many whole degrees is kept: it is no whole number of
/// full turns.
pub open spec fn is_kept_rotation(rounded_degrees: int) -> bool {
    rounded_degrees % 360 != 0
}

/// Whether a rotation is kept, by its magnitude rounded to whole degrees: a
/// whole number of full turns is not.
pub fn rotation_is_kept(rounded_degrees: i64) -> (kept: bool)
    ensures
        kept == is_kept_rotation(rounded_degrees as int),
{
    rounded_degrees % 360 != 0
}

/// No whole number of full turns is kept, and every other rotation is.
pub proof fn lemma_full_turns_are_dropped(rounded_degrees: int, turns: int)
    ensures
        rounded_degrees == 360 * turns ==> !is_kept_rotation(rounded_degrees),
        !is_kept_rotation(rounded_degrees) ==> rounded_degrees == 360 * (rounded_degrees / 360),
{
}

/// `dt` is the text object of `builder` with the identifier `uuid`.
pub open spec fn is_built(dt: DynamicText, builder: DTextBuilder, uuid: u128) -> bool {
    let format = builder.text.format();
    &&& dt.text@ == normalized_text(builder.text.raw())
    &&& dt.info_name is None
    &&& dt.uuid == uuid
    &&& dt.h_alignment == builder.h_alignment
    &&& dt.v_alignment == builder.v_alignment
    &&& dt.font.family@ == (match format.family {
        Some(name) => name,
        None => default_family(),
    })
    &&& dt.font.weight == (if format.bold {
        WEIGHT_BOLD
    } else {
        WEIGHT_NORMAL
    })
    &&& dt.font.style == (if format.italic {
        FontStyle::Italic
    } else {
        FontStyle::Normal
    })
    &&& dt.text_from@ == user_text()
    &&& !dt.frame
    &&& dt.text_width == -1
    &&& !dt.keep_visual_rotation
    &&& dt.color == resolved_color(format.color_index, builder.color)
}

/// The number of user-perceived characters of a text: of its extended
/// grapheme clusters.
pub uninterp spec fn grapheme_count(s: Seq<char>) -> nat;

/// Trusted: `UnicodeSegmentation::graphemes` of the crate
/// unicode_segmentation, taken with extended clusters and counted.
#[verifier::external_body]
fn count_graphemes(s: &str) -> (n: usize)
    ensures
        n == grapheme_count(s@),
{
    s.graphemes(true).count()
}

impl DynamicText {
    /// The number of user-perceived characters of the text, by which its
    /// width is estimated where the source names none.
    pub fn glyph_count(&self) -> (n: usize)
        ensures
            n == grapheme_count(self.text@),
    {
        count_graphemes(self.text.as_str())
    }
}

impl DTextBuilder {
    /// A builder for a simple text.
    pub fn from_text(value: String, h_alignment: HAlignment, v_alignment: VAlignment) -> (b: Self)
        ensures
            b.text == (TextEntity::Text { value }),
            b.h_alignment == h_alignment,
            b.v_alignment == v_alignment,
            b.color is None,
    {
        DTextBuilder { text: TextEntity::Text { value }, h_alignment, v_alignment, color: None }
    }

    /// A builder for a multi-line rich text: its overflow chunks and its
    /// primary text.
    pub fn from_mtext(
        extended_text: Vec<String>,
        text: String,
        h_alignment: HAlignment,
        v_alignment: VAlignment,
    ) -> (b: Self)
        ensures
            b.text == (TextEntity::MText { extended_text, text }),
            b.h_alignment == h_alignment,
            b.v_alignment == v_alignment,
            b.color is None,
    {
        DTextBuilder {
            text: TextEntity::MText { extended_text, text },
            h_alignment,
            v_alignment,
            color: None,
        }
    }

    /// A builder for the text of a block attribute.
    pub fn from_attrib(value: String, h_alignment: HAlignment, v_alignment: VAlignment) -> (b:
        Self)
        ensures
            b.text == (TextEntity::Attrib { value }),
            b.h_alignment == h_alignment,
            b.v_alignment == v_alignment,
            b.color is None,
    {
        DTextBuilder { text: TextEntity::Attrib { value }, h_alignment, v_alignment, color: None }
    }

    /// Sets the colour that the text takes where its own hints name none.
    pub fn color(self, color: Color) -> (b: Self)
        ensures
            b.text == self.text,
            b.h_alignment == self.h_alignment,
            b.v_alignment == self.v_alignment,
            b.color == Some(color),
    {
        DTextBuilder { color: Some(color), ..self }
    }

    /// The hints of the builder's text.
    pub fn format_info(&self) -> (info: MTextFormatInfo)
        ensures
            info.model() == self.text.format(),
    {
        match &self.text {
            TextEntity::Attrib { .. } => MTextFormatInfo::empty(),
            _ => {
                let raw = self.text.raw_text();
                extract_mtext_format(raw.as_str())
            },
        }
    }

    /// Builds the text object with the identifier given.
    pub fn build_with_uuid(self, uuid: u128) -> (dt: DynamicText)
        ensures
            is_built(dt, self, uuid),
    {
        let info = self.format_info();
        let raw = self.text.raw_text();
        let text = normalize_mtext(raw.as_str());
        let family = match info.family {
            Some(name) => name,
            None => String::from_str("Sans Serif"),
        };
        let style = if info.italic {
            FontStyle::Italic
        } else {
            FontStyle::Normal
        };
        let weight: u32 = if info.bold {
            WEIGHT_BOLD
        } else {
            WEIGHT_NORMAL
        };
        let color = resolve_color(info.color_index, self.color);
        DynamicText {
            text,
            info_name: None,
            uuid,
            h_alignment: self.h_alignment,
            font: FontInfo { family, weight, style },
            text_from: String::from_str("UserText"),
            v_alignment: self.v_alignment,
            frame: false,
            text_width: -1,
            keep_visual_rotation: false,
            color,
        }
    }

    /// Builds the text object, with a fresh random identifier.
    pub fn build(self) -> (dt: DynamicText)
        ensures
            is_built(dt, self, dt.uuid),
            is_random_uuid(dt.uuid),
    {
        let uuid: u128 = fresh_uuid();
        self.build_with_uuid(uuid)
    }
}

} // verus!
