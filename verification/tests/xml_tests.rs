use dxf2elmt::dynamictext::{Color, DTextBuilder, DynamicText, HAlignment, VAlignment};
use dxf2elmt::xml::{bool_name, h_alignment_name, to_xml, v_alignment_name, TextNumbers};

fn numbers() -> TextNumbers {
    TextNumbers {
        x: "1.00".to_string(),
        y: "-2.50".to_string(),
        z: "0.00".to_string(),
        rotation: "0.00".to_string(),
        font: "Sans Serif,9,-1,5,50,0,0,0,0,0".to_string(),
    }
}

fn sample(text: &str) -> DynamicText {
    DTextBuilder::from_text(text.to_string(), HAlignment::Left, VAlignment::Top)
        .build_with_uuid(0x67e5504410b1426f9247bb680e5fe0c8)
}

#[test]
fn text_node_has_its_attributes_in_order() {
    let node = to_xml(&sample("Hello"), &numbers());
    let expected = "<?xml version = \"1.0\" encoding = \"UTF-8\"?>\n\
<dynamic_text x=\"1.00\" y=\"-2.50\" z=\"0.00\" rotation=\"0.00\" \
uuid=\"{67e55044-10b1-426f-9247-bb680e5fe0c8}\" font=\"Sans Serif,9,-1,5,50,0,0,0,0,0\" \
Halignment=\"AlignLeft\" Valignment=\"AlignTop\" text_from=\"UserText\" frame=\"false\" \
text_width=\"-1\" color=\"#000000\">\n\t<text>Hello</text>\n</dynamic_text>\n";
    assert_eq!(format!("{}", node), expected);
}

#[test]
fn optional_attributes_come_last_and_only_when_set() {
    let mut txt = sample("T");
    txt.info_name = Some("label".to_string());
    txt.keep_visual_rotation = true;
    txt.frame = true;
    txt.text_width = 120;
    txt.h_alignment = HAlignment::Center;
    txt.v_alignment = VAlignment::Bottom;
    txt.color = Color { r: 255, g: 10, b: 0, a: 7 };
    let out = format!("{}", to_xml(&txt, &numbers()));
    assert!(out.contains(
        "Halignment=\"AlignHCenter\" Valignment=\"AlignBottom\" text_from=\"UserText\" \
frame=\"true\" text_width=\"120\" color=\"#FF0A00\" info_name=\"label\" \
keep_visual_rotation=\"true\">"
    ));

    let plain = format!("{}", to_xml(&sample("T"), &numbers()));
    assert!(!plain.contains("info_name"));
    assert!(!plain.contains("keep_visual_rotation"));

    let mut named = sample("T");
    named.info_name = Some("n".to_string());
    let out = format!("{}", to_xml(&named, &numbers()));
    assert!(out.contains("color=\"#000000\" info_name=\"n\">"));
    assert!(!out.contains("keep_visual_rotation"));
}

#[test]
fn text_and_values_are_escaped() {
    let mut txt = sample("A<B & \"C\" 'd' >");
    txt.info_name = Some("a&b".to_string());
    let out = format!("{}", to_xml(&txt, &numbers()));
    assert!(out.contains("\t<text>A&lt;B &amp; &quot;C&quot; &apos;d&apos; &gt;</text>\n"));
    assert!(out.contains("info_name=\"a&amp;b\""));
}

#[test]
fn line_breaks_stay_in_the_text() {
    let out = format!("{}", to_xml(&sample("one\\Ptwo"), &numbers()));
    assert!(out.contains("\t<text>one\ntwo</text>\n"));
}

#[test]
fn names_of_alignments_and_flags() {
    assert_eq!(h_alignment_name(HAlignment::Left), "AlignLeft");
    assert_eq!(h_alignment_name(HAlignment::Center), "AlignHCenter");
    assert_eq!(h_alignment_name(HAlignment::Right), "AlignRight");
    assert_eq!(v_alignment_name(VAlignment::Top), "AlignTop");
    assert_eq!(v_alignment_name(VAlignment::Center), "AlignVCenter");
    assert_eq!(v_alignment_name(VAlignment::Bottom), "AlignBottom");
    assert_eq!(bool_name(true), "true");
    assert_eq!(bool_name(false), "false");
}
