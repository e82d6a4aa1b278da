//! The XML node of a text object: its attributes in their fixed order and
//! the one child that carries the text.

use vstd::prelude::*;
use simple_xml_builder::XMLElement;
use hex_color::HexColor;
use uuid::Uuid;
use crate::dynamictext::{Color, DynamicText, HAlignment, VAlignment};

verus! {

/// Trusted: the element type of the crate simple_xml_builder. What an
/// element holds is spoken of through the four names below.
#[verifier::external_type_specification]
#[verifier::external_body]
pub struct ExXMLElement(simple_xml_builder::XMLElement);

/// The name of the element's tag.
pub uninterp spec fn xml_name(e: XMLElement) -> Seq<char>;

/// The element's attributes, each a name and an escaped value, in the order
/// in which they are written.
pub uninterp spec fn xml_attributes(e: XMLElement) -> Seq<(Seq<char>, Seq<char>)>;

/// The element's text content, escaped: no entry where it has none.
pub uninterp spec fn xml_texts(e: XMLElement) -> Seq<Seq<char>>;

/// The element's child elements in order, each by its name, its attributes
/// and its text content.
pub uninterp spec fn xml_children(e: XMLElement) -> Seq<
    (Seq<char>, Seq<(Seq<char>, Seq<char>)>, Seq<Seq<char>>),
>;

/// What stands for one character in an attribute's value or in text.
pub open spec fn escaped_char(c: char) -> Seq<char> {
    if c == '&' {
        "&amp;"@
    } else if c == '"' {
        "&quot;"@
    } else if c == '\'' {
        "&apos;"@
    } else if c == '<' {
        "&lt;"@
    } else if c == '>' {
        "&gt;"@
    } else {
        seq![c]
    }
}

/// The text `s` with the five characters that XML reserves replaced by
/// their entities.
pub open spec fn escaped(s: Seq<char>) -> Seq<char>
    decreases s.len(),
{
    if s.len() == 0 {
        Seq::empty()
    } else {
        escaped(s.drop_last()) + escaped_char(s.last())
    }
}

pub open spec fn has_key(attrs: Seq<(Seq<char>, Seq<char>)>, name: Seq<char>) -> bool {
    exists|i: int| 0 <= i < attrs.len() && (#[trigger] attrs[i]).0 == name
}

/// The attributes after one is set: a new name goes to the end, a name that
/// is there keeps its place and takes the new value.
pub open spec fn with_attribute(
    attrs: Seq<(Seq<char>, Seq<char>)>,
    name: Seq<char>,
    value: Seq<char>,
) -> Seq<(Seq<char>, Seq<char>)> {
    if has_key(attrs, name) {
        let i = choose|i: int| 0 <= i < attrs.len() && (#[trigger] attrs[i]).0 == name;
        attrs.update(i, (name, value))
    } else {
        attrs.push((name, value))
    }
}

/// Trusted: `XMLElement::new`, which makes an element of the given name
/// with no attribute and no content.
#[verifier::external_body]
fn xml_new(name: &str) -> (e: XMLElement)
    ensures
        xml_name(e) == name@,
        xml_attributes(e) == Seq::<(Seq<char>, Seq<char>)>::empty(),
        xml_texts(e) == Seq::<Seq<char>>::empty(),
        xml_children(e).len() == 0,
{
    XMLElement::new(name)
}

/// Trusted: `XMLElement::add_attribute`, which escapes the value and sets
/// the attribute of that name, and leaves the name and the content.
#[verifier::external_body]
fn xml_add_attribute(e: &mut XMLElement, name: &str, value: &str)
    ensures
        xml_attributes(*final(e)) == with_attribute(
            xml_attributes(*old(e)),
            name@,
            escaped(value@),
        ),
        xml_name(*final(e)) == xml_name(*old(e)),
        xml_texts(*final(e)) == xml_texts(*old(e)),
        xml_children(*final(e)) == xml_children(*old(e)),
{
    e.add_attribute(name, value);
}

/// Trusted: `XMLElement::add_text`, which gives an element without content
/// the escaped text as its content. It panics on an element with content.
#[verifier::external_body]
fn xml_add_text(e: &mut XMLElement, text: &str)
    requires
        xml_texts(*old(e)).len() == 0,
        xml_children(*old(e)).len() == 0,
    ensures
        xml_texts(*final(e)) == seq![escaped(text@)],
        xml_name(*final(e)) == xml_name(*old(e)),
        xml_attributes(*final(e)) == xml_attributes(*old(e)),
        xml_children(*final(e)) == xml_children(*old(e)),
{
    e.add_text(text);
}

/// Trusted: `XMLElement::add_child`, which puts the child behind the
/// children that are there. It panics on an element with text content.
#[verifier::external_body]
fn xml_add_child(e: &mut XMLElement, child: XMLElement)
    requires
        xml_texts(*old(e)).len() == 0,
    ensures
        xml_children(*final(e)) == xml_children(*old(e)).push(
            (xml_name(child), xml_attributes(child), xml_texts(child)),
        ),
        xml_name(*final(e)) == xml_name(*old(e)),
        xml_attributes(*final(e)) == xml_attributes(*old(e)),
        xml_texts(*final(e)) == xml_texts(*old(e)),
{
    e.add_child(child);
}

pub open spec fn hex_digit(n: int) -> char {
    if 0 <= n < 10 {
        (n + 0x30) as char
    } else {
        (n + 0x37) as char
    }
}

/// The colour as it is written: `#` and two upper-case hexadecimal digits
/// for each of red, green and blue.
pub open spec fn rgb_text(c: Color) -> Seq<char> {
    seq![
        '#',
        hex_digit(c.r as int / 16),
        hex_digit(c.r as int % 16),
        hex_digit(c.g as int / 16),
        hex_digit(c.g as int % 16),
        hex_digit(c.b as int / 16),
        hex_digit(c.b as int % 16),
    ]
}

/// Trusted: `HexColor::display_rgb` of the crate hex_color, written out,
/// which hides the alpha channel and writes the digits in upper case.
#[verifier::external_body]
fn color_text(c: Color) -> (s: String)
    ensures
        s@ == rgb_text(c),
{
    HexColor::rgba(c.r, c.g, c.b, c.a).display_rgb().to_string()
}

/// The identifier as it is written: lower-case hexadecimal digits in five
/// groups with hyphens between them.
pub uninterp spec fn uuid_text(id: u128) -> Seq<char>;

/// Trusted: the `Display` of `Uuid` in the crate uuid, for the identifier
/// with this number.
#[verifier::external_body]
fn uuid_to_text(id: u128) -> (s: String)
    ensures
        s@ == uuid_text(id),
{
    Uuid::from_u128(id).to_string()
}

/// The integer as it is written in decimal.
pub uninterp spec fn decimal_text(v: int) -> Seq<char>;

/// Trusted: `to_string` of std at `i32`.
#[verifier::external_body]
fn int_to_text(v: i32) -> (s: String)
    ensures
        s@ == decimal_text(v as int),
{
    v.to_string()
}

pub open spec fn h_alignment_text(h: HAlignment) -> Seq<char> {
    match h {
        HAlignment::Left => "AlignLeft"@,
        HAlignment::Center => "AlignHCenter"@,
        HAlignment::Right => "AlignRight"@,
    }
}

pub open spec fn v_alignment_text(v: VAlignment) -> Seq<char> {
    match v {
        VAlignment::Top => "AlignTop"@,
        VAlignment::Center => "AlignVCenter"@,
        VAlignment::Bottom => "AlignBottom"@,
    }
}

pub open spec fn bool_text(b: bool) -> Seq<char> {
    if b {
        "true"@
    } else {
        "false"@
    }
}

pub fn h_alignment_name(h: HAlignment) -> (s: &'static str)
    ensures
        s@ == h_alignment_text(h),
{
    match h {
        HAlignment::Left => "AlignLeft",
        HAlignment::Center => "AlignHCenter",
        HAlignment::Right => "AlignRight",
    }
}

pub fn v_alignment_name(v: VAlignment) -> (s: &'static str)
    ensures
        s@ == v_alignment_text(v),
{
    match v {
        VAlignment::Top => "AlignTop",
        VAlignment::Center => "AlignVCenter",
        VAlignment::Bottom => "AlignBottom",
    }
}

pub fn bool_name(b: bool) -> (s: &'static str)
    ensures
        s@ == bool_text(b),
{
    if b {
        "true"
    } else {
        "false"
    }
}

/// The numbers of a text object as they are to be written: the position
/// and the rotation with two decimals, and the font descriptor.
#[derive(Debug, Clone)]
pub struct TextNumbers {
    pub x: String,
    pub y: String,
    pub z: String,
    pub rotation: String,
    pub font: String,
}

/// The attributes that every text object has, in their order.
pub open spec fn fixed_attributes(txt: DynamicText, n: TextNumbers) -> Seq<
    (Seq<char>, Seq<char>),
> {
    seq![
        ("x"@, escaped(n.x@)),
        ("y"@, escaped(n.y@)),
        ("z"@, escaped(n.z@)),
        ("rotation"@, escaped(n.rotation@)),
        ("uuid"@, escaped(seq!['{'] + uuid_text(txt.uuid) + seq!['}'])),
        ("font"@, escaped(n.font@)),
        ("Halignment"@, escaped(h_alignment_text(txt.h_alignment))),
        ("Valignment"@, escaped(v_alignment_text(txt.v_alignment))),
        ("text_from"@, escaped(txt.text_from@)),
        ("frame"@, escaped(bool_text(txt.frame))),
        ("text_width"@, escaped(decimal_text(txt.text_width as int))),
        ("color"@, escaped(rgb_text(txt.color))),
    ]
}

/// The attributes of a text object: the fixed ones, then the information
/// name where there is one, then the mark of a kept visual rotation where
/// it is set.
pub open spec fn text_attributes(txt: DynamicText, n: TextNumbers) -> Seq<
    (Seq<char>, Seq<char>),
> {
    let fixed = fixed_attributes(txt, n);
    let named = match txt.info_name {
        Some(name) => fixed.push(("info_name"@, escaped(name@))),
        None => fixed,
    };
    if txt.keep_visual_rotation {
        named.push(("keep_visual_rotation"@, escaped(bool_text(true))))
    } else {
        named
    }
}

proof fn reveal_names()
    ensures
        "x"@.len() == 1 && "x"@[0] == 'x',
        "y"@.len() == 1 && "y"@[0] == 'y',
        "z"@.len() == 1 && "z"@[0] == 'z',
        "rotation"@.len() == 8,
        "uuid"@.len() == 4 && "uuid"@[0] == 'u',
        "font"@.len() == 4 && "font"@[0] == 'f',
        "Halignment"@.len() == 10 && "Halignment"@[0] == 'H',
        "Valignment"@.len() == 10 && "Valignment"@[0] == 'V',
        "text_from"@.len() == 9 && "text_from"@[0] == 't',
        "frame"@.len() == 5 && "frame"@[0] == 'f',
        "text_width"@.len() == 10 && "text_width"@[0] == 't',
        "color"@.len() == 5 && "color"@[0] == 'c',
        "info_name"@.len() == 9 && "info_name"@[0] == 'i',
        "keep_visual_rotation"@.len() == 20,
{
    reveal_strlit("x");
    reveal_strlit("y");
    reveal_strlit("z");
    reveal_strlit("rotation");
    reveal_strlit("uuid");
    reveal_strlit("font");
    reveal_strlit("Halignment");
    reveal_strlit("Valignment");
    reveal_strlit("text_from");
    reveal_strlit("frame");
    reveal_strlit("text_width");
    reveal_strlit("color");
    reveal_strlit("info_name");
    reveal_strlit("keep_visual_rotation");
}

/// Sets an attribute whose name the element does not have yet.
fn add_new_attribute(e: &mut XMLElement, name: &str, value: &str)
    requires
        !has_key(xml_attributes(*old(e)), name@),
    ensures
        xml_attributes(*final(e)) == xml_attributes(*old(e)).push((name@, escaped(value@))),
        xml_name(*final(e)) == xml_name(*old(e)),
        xml_texts(*final(e)) == xml_texts(*old(e)),
        xml_children(*final(e)) == xml_children(*old(e)),
{
    xml_add_attribute(e, name, value);
}

/// The XML node of a text object: the element `dynamic_text` with the
/// attributes in their fixed order, and one child `text` that carries the
/// text.
pub fn to_xml(txt: &DynamicText, numbers: &TextNumbers) -> (e: XMLElement)
    ensures
        xml_name(e) == "dynamic_text"@,
        xml_attributes(e) == text_attributes(*txt, *numbers),
        xml_texts(e).len() == 0,
        xml_children(e) == seq![
            ("text"@, Seq::<(Seq<char>, Seq<char>)>::empty(), seq![escaped(txt.text@)]),
        ],
{
    proof {
        reveal_names();
    }
    let mut e = xml_new("dynamic_text");
    add_new_attribute(&mut e, "x", numbers.x.as_str());
    add_new_attribute(&mut e, "y", numbers.y.as_str());
    add_new_attribute(&mut e, "z", numbers.z.as_str());
    add_new_attribute(&mut e, "rotation", numbers.rotation.as_str());
    let mut id = String::from_str("{");
    id.append(uuid_to_text(txt.uuid).as_str());
    id.append("}");
    proof {
        reveal_strlit("{");
        reveal_strlit("}");
        assert(id@ =~= seq!['{'] + uuid_text(txt.uuid) + seq!['}']);
    }
    add_new_attribute(&mut e, "uuid", id.as_str());
    add_new_attribute(&mut e, "font", numbers.font.as_str());
    add_new_attribute(&mut e, "Halignment", h_alignment_name(txt.h_alignment));
    add_new_attribute(&mut e, "Valignment", v_alignment_name(txt.v_alignment));
    add_new_attribute(&mut e, "text_from", txt.text_from.as_str());
    add_new_attribute(&mut e, "frame", bool_name(txt.frame));
    add_new_attribute(&mut e, "text_width", int_to_text(txt.text_width).as_str());
    add_new_attribute(&mut e, "color", color_text(txt.color).as_str());
    assert(xml_attributes(e) =~= fixed_attributes(*txt, *numbers));
    let mut child = xml_new("text");
    xml_add_text(&mut child, txt.text.as_str());
    xml_add_child(&mut e, child);
    assert(xml_children(e) =~= seq![
        ("text"@, Seq::<(Seq<char>, Seq<char>)>::empty(), seq![escaped(txt.text@)]),
    ]);
    if let Some(name) = &txt.info_name {
        add_new_attribute(&mut e, "info_name", name.as_str());
    }
    if txt.keep_visual_rotation {
        add_new_attribute(&mut e, "keep_visual_rotation", bool_name(txt.keep_visual_rotation));
    }
    e
}

} // verus!
