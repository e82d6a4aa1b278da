use dxf2elmt::dynamictext::{
    resolve_color, rotation_is_kept, Color, DTextBuilder, FontStyle, HAlignment, TextEntity,
    VAlignment,
};

#[test]
fn simple_text_is_built_with_defaults() {
    let dt = DTextBuilder::from_text("Hello".to_string(), HAlignment::Left, VAlignment::Top)
        .build();
    assert_eq!(dt.text, "Hello");
    assert_eq!(dt.font.family, "Sans Serif");
    assert_eq!(dt.font.weight, 50);
    assert_eq!(dt.font.style, FontStyle::Normal);
    assert_eq!(dt.color, Color { r: 0, g: 0, b: 0, a: 255 });
    assert_eq!(dt.text_from, "UserText");
    assert_eq!(dt.text_width, -1);
    assert!(!dt.frame);
    assert!(!dt.keep_visual_rotation);
    assert_eq!(dt.info_name, None);
    assert_eq!(dt.h_alignment, HAlignment::Left);
    assert_eq!(dt.v_alignment, VAlignment::Top);
}

#[test]
fn rich_text_joins_its_chunks_before_the_text() {
    let b = DTextBuilder::from_mtext(
        vec!["{\\fGaramond|b1|".to_string(), "i1|c2;So".to_string()],
        "frel\\Ptwo}".to_string(),
        HAlignment::Center,
        VAlignment::Bottom,
    );
    assert_eq!(b.text.raw_text(), "{\\fGaramond|b1|i1|c2;Sofrel\\Ptwo}");
    let dt = b.build();
    assert_eq!(dt.text, "Sofrel\ntwo");
    assert_eq!(dt.font.family, "Garamond");
    assert_eq!(dt.font.weight, 75);
    assert_eq!(dt.font.style, FontStyle::Italic);
    assert_eq!(dt.color, Color { r: 0, g: 0, b: 0, a: 2 });
    assert_eq!(dt.h_alignment, HAlignment::Center);
    assert_eq!(dt.v_alignment, VAlignment::Bottom);
}

#[test]
fn attribute_text_is_normalized_and_carries_no_format() {
    let b = DTextBuilder::from_attrib(
        "\\fArial|b1;Tag\\~1".to_string(),
        HAlignment::Right,
        VAlignment::Center,
    )
    .color(Color { r: 1, g: 2, b: 3, a: 255 });
    let info = b.format_info();
    assert_eq!(info.family, None);
    assert!(!info.bold);
    let dt = b.build();
    assert_eq!(dt.text, "Tag 1");
    assert_eq!(dt.font.family, "Sans Serif");
    assert_eq!(dt.font.weight, 50);
    assert_eq!(dt.color, Color { r: 1, g: 2, b: 3, a: 255 });
}

#[test]
fn identifier_is_random_and_of_version_four() {
    let a = DTextBuilder::from_text("a".to_string(), HAlignment::Left, VAlignment::Top).build();
    let b = DTextBuilder::from_text("a".to_string(), HAlignment::Left, VAlignment::Top).build();
    assert_ne!(a.uuid, b.uuid);
    for id in [a.uuid, b.uuid] {
        assert_eq!((id >> 76) & 0xf, 4);
        assert_eq!((id >> 62) & 0x3, 2);
        assert_eq!(uuid::Uuid::from_u128(id).get_version_num(), 4);
    }
}

#[test]
fn identifier_given_is_kept() {
    let dt = DTextBuilder::from_text("a".to_string(), HAlignment::Left, VAlignment::Top)
        .build_with_uuid(42);
    assert_eq!(dt.uuid, 42);
}

#[test]
fn colour_comes_from_index_then_builder_then_black() {
    let given = Color { r: 9, g: 8, b: 7, a: 255 };
    let black = Color { r: 0, g: 0, b: 0, a: 255 };
    assert_eq!(resolve_color(Some(5), Some(given)), Color { r: 0, g: 0, b: 0, a: 5 });
    assert_eq!(resolve_color(Some(255), None), Color { r: 0, g: 0, b: 0, a: 255 });
    assert_eq!(resolve_color(Some(1), None), Color { r: 0, g: 0, b: 0, a: 1 });
    assert_eq!(resolve_color(Some(0), Some(given)), given);
    assert_eq!(resolve_color(Some(256), Some(given)), given);
    assert_eq!(resolve_color(Some(-3), None), black);
    assert_eq!(resolve_color(None, Some(given)), given);
    assert_eq!(resolve_color(None, None), black);
    let h = hex_color::HexColor::from_u32(5);
    assert_eq!(resolve_color(Some(5), None), Color { r: h.r, g: h.g, b: h.b, a: h.a });
    assert_eq!(black.a, hex_color::HexColor::BLACK.a);
}

#[test]
fn colour_of_the_builder_is_used_without_an_index() {
    let given = Color { r: 200, g: 100, b: 50, a: 255 };
    let dt = DTextBuilder::from_text("\\fArial|c0;x".to_string(), HAlignment::Left, VAlignment::Top)
        .color(given)
        .build();
    assert_eq!(dt.color, given);
    assert_eq!(dt.font.family, "Arial");
    assert_eq!(dt.text, "x");
}

#[test]
fn full_turns_are_not_kept() {
    assert!(!rotation_is_kept(0));
    assert!(!rotation_is_kept(360));
    assert!(!rotation_is_kept(720));
    assert!(rotation_is_kept(90));
    assert!(rotation_is_kept(180));
    assert!(rotation_is_kept(359));
    assert!(rotation_is_kept(361));
}

#[test]
fn raw_text_of_each_kind() {
    assert_eq!(TextEntity::Text { value: "a;b".to_string() }.raw_text(), "a;b");
    assert_eq!(TextEntity::Attrib { value: "c".to_string() }.raw_text(), "c");
    let m = TextEntity::MText { extended_text: vec![], text: "only".to_string() };
    assert_eq!(m.raw_text(), "only");
}

#[test]
fn glyphs_are_user_perceived_characters() {
    let count = |t: &str| {
        DTextBuilder::from_attrib(t.to_string(), HAlignment::Left, VAlignment::Top)
            .build_with_uuid(1)
            .glyph_count()
    };
    assert_eq!(count("Hello"), 5);
    assert_eq!(count(""), 0);
    assert_eq!(count("a\\Pb"), 3);
    let text = "e\u{301}\u{1F1E9}\u{1F1EA}";
    let dt = dxf2elmt::dynamictext::DynamicText {
        text: text.to_string(),
        ..DTextBuilder::from_text(String::new(), HAlignment::Left, VAlignment::Top)
            .build_with_uuid(1)
    };
    assert_eq!(dt.text.chars().count(), 4);
    assert_eq!(dt.glyph_count(), 2);
}

#[test]
fn alignment_of_justification_codes() {
    let h: Vec<HAlignment> = (-1..=6).map(HAlignment::from_justification).collect();
    assert_eq!(
        h,
        [
            HAlignment::Left,
            HAlignment::Left,
            HAlignment::Center,
            HAlignment::Right,
            HAlignment::Left,
            HAlignment::Center,
            HAlignment::Left,
            HAlignment::Left,
        ]
    );
    let v: Vec<VAlignment> = (-1..=4).map(VAlignment::from_justification).collect();
    assert_eq!(
        v,
        [
            VAlignment::Bottom,
            VAlignment::Bottom,
            VAlignment::Bottom,
            VAlignment::Center,
            VAlignment::Top,
            VAlignment::Bottom,
        ]
    );
}

#[test]
fn alignment_of_attachment_points() {
    let hs = [HAlignment::Left, HAlignment::Center, HAlignment::Right];
    let vs = [VAlignment::Top, VAlignment::Center, VAlignment::Bottom];
    for code in 1..=9 {
        let i = (code - 1) as usize;
        assert_eq!(HAlignment::from_attachment_point(code), hs[i % 3], "code {}", code);
        assert_eq!(VAlignment::from_attachment_point(code), vs[i / 3], "code {}", code);
    }
    for code in [-5, 0, 10, 71] {
        assert_eq!(HAlignment::from_attachment_point(code), HAlignment::Left);
        assert_eq!(VAlignment::from_attachment_point(code), VAlignment::Top);
    }
}
