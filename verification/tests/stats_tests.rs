use dxf2elmt::objects::{
    count_objects, count_objects_recursive, count_objects_within, try_count_objects, ObjectTally,
    Objects,
};
use dxf2elmt::stats::{
    tally_entities, try_tally_entities, ConversionResult, ConversionStats, EntityKind,
};

#[test]
fn drawing_with_seven_entities() {
    let kinds = vec![
        EntityKind::Circle,
        EntityKind::Line,
        EntityKind::Text,
        EntityKind::Line,
        EntityKind::Insert,
        EntityKind::Circle,
        EntityKind::Line,
    ];
    let stats = tally_entities(&kinds, 12);
    assert_eq!(stats.circles, 2);
    assert_eq!(stats.lines, 3);
    assert_eq!(stats.texts, 1);
    assert_eq!(stats.blocks, 1);
    assert_eq!(stats.arcs, 0);
    assert_eq!(stats.splines, 0);
    assert_eq!(stats.ellipses, 0);
    assert_eq!(stats.polylines, 0);
    assert_eq!(stats.lwpolylines, 0);
    assert_eq!(stats.solids, 0);
    assert_eq!(stats.unsupported, 0);
    assert_eq!(stats.total(), 7);
    assert_eq!(stats.elapsed_ms, 12);
    assert!(!stats.has_unsupported());

    let objects = vec![
        Objects::Ellipse,
        Objects::Line,
        Objects::DynamicText,
        Objects::Line,
        Objects::Group(vec![]),
        Objects::Ellipse,
        Objects::Line,
    ];
    let tally = count_objects(&objects);
    assert_eq!(tally.circles, 2);
    assert_eq!(tally.lines, 3);
    assert_eq!(tally.dynamic_texts + tally.texts, 1);
    assert_eq!(tally.groups, 1);
    assert_eq!(tally.arcs, 0);
    assert_eq!(tally.polygons, 0);
    assert_eq!(tally.total(), 7);
}

#[test]
fn every_source_kind_has_its_own_count() {
    let kinds = vec![
        EntityKind::Circle,
        EntityKind::Line,
        EntityKind::Arc,
        EntityKind::Spline,
        EntityKind::Text,
        EntityKind::Ellipse,
        EntityKind::Polyline,
        EntityKind::LwPolyline,
        EntityKind::Solid,
        EntityKind::Insert,
        EntityKind::Other,
        EntityKind::Other,
    ];
    let s = tally_entities(&kinds, 0);
    assert_eq!(
        [
            s.circles, s.lines, s.arcs, s.splines, s.texts, s.ellipses, s.polylines,
            s.lwpolylines, s.solids, s.blocks, s.unsupported
        ],
        [1, 1, 1, 1, 1, 1, 1, 1, 1, 1, 2]
    );
    assert_eq!(s.total(), kinds.len() as u64);
    assert!(s.has_unsupported());
}

#[test]
fn empty_drawing_counts_nothing() {
    let s = tally_entities(&Vec::new(), 5);
    assert_eq!(s.total(), 0);
    assert_eq!(s.elapsed_ms, 5);
    let t = count_objects(&Vec::new());
    assert_eq!(t, ObjectTally::new());
    assert_eq!(t.total(), 0);
    assert_eq!(ConversionStats::new(9).elapsed_ms, 9);
}

#[test]
fn groups_are_counted_and_their_children_flattened() {
    let objects = vec![
        Objects::Arc,
        Objects::Group(vec![
            Objects::Polygon,
            Objects::Text,
            Objects::Group(vec![Objects::Line, Objects::Group(vec![]), Objects::Ellipse]),
            Objects::DynamicText,
        ]),
        Objects::Polygon,
    ];
    let t = count_objects(&objects);
    assert_eq!(t.arcs, 1);
    assert_eq!(t.polygons, 2);
    assert_eq!(t.texts, 1);
    assert_eq!(t.dynamic_texts, 1);
    assert_eq!(t.lines, 1);
    assert_eq!(t.circles, 1);
    assert_eq!(t.groups, 3);
    assert_eq!(t.total(), 10);
}

#[test]
fn counting_adds_to_a_running_tally() {
    let mut t = ObjectTally::new();
    count_objects_recursive(&vec![Objects::Line, Objects::Group(vec![Objects::Line])], &mut t);
    count_objects_recursive(&vec![Objects::Arc], &mut t);
    assert_eq!(t.lines, 2);
    assert_eq!(t.groups, 1);
    assert_eq!(t.arcs, 1);
    assert_eq!(t.total(), 4);
}

#[test]
fn result_carries_its_parts() {
    let r = ConversionResult {
        success: true,
        message: "Successfully converted plan".to_string(),
        stats: Some(tally_entities(&vec![EntityKind::Arc], 3)),
        xml_content: None,
    };
    assert!(r.success);
    assert_eq!(r.stats.unwrap().arcs, 1);
    assert_eq!(r.xml_content, None);
}

#[test]
fn result_of_a_conversion_that_went_through() {
    let r = ConversionResult::converted("plan", tally_entities(&vec![EntityKind::Line], 3), None);
    assert!(r.success);
    assert_eq!(r.message, "Successfully converted plan");
    assert_eq!(r.stats.unwrap().lines, 1);
    assert_eq!(r.xml_content, None);
    let r = ConversionResult::converted("", ConversionStats::new(0), Some("<x />".to_string()));
    assert_eq!(r.message, "Successfully converted ");
    assert_eq!(r.xml_content.as_deref(), Some("<x />"));
}

#[test]
fn one_entity_more_is_recorded_under_its_kind() {
    let mut s = ConversionStats::new(1);
    s.record(EntityKind::Insert);
    s.record(EntityKind::Insert);
    s.record(EntityKind::Solid);
    assert_eq!(s.blocks, 2);
    assert_eq!(s.solids, 1);
    assert_eq!(s.total(), 3);
    assert_eq!(s.elapsed_ms, 1);
    let mut t = ObjectTally::new();
    t.record(Objects::Group(vec![Objects::Line]).kind_of());
    t.record(Objects::Ellipse.kind_of());
    assert_eq!(t.groups, 1);
    assert_eq!(t.circles, 1);
    assert_eq!(t.lines, 0);
    assert_eq!(t.total(), 2);
}

#[test]
fn counting_stops_where_the_counts_are_full() {
    let objects = vec![Objects::Line, Objects::Group(vec![Objects::Arc, Objects::Arc])];
    let t = try_count_objects(&objects).unwrap();
    assert_eq!(t, count_objects(&objects));
    assert_eq!(t.total(), 4);

    let mut nearly = ObjectTally::new();
    nearly.polygons = u32::MAX - 4;
    assert!(count_objects_within(&objects, &mut nearly));
    assert_eq!(nearly.total(), u64::from(u32::MAX));
    assert_eq!(nearly.arcs, 2);

    let mut full = ObjectTally::new();
    full.polygons = u32::MAX - 3;
    assert!(!count_objects_within(&objects, &mut full));

    let mut over = ObjectTally::new();
    over.polygons = u32::MAX;
    over.lines = 1;
    assert!(!count_objects_within(&Vec::new(), &mut over));
    let mut exact = ObjectTally::new();
    exact.polygons = u32::MAX;
    assert!(count_objects_within(&Vec::new(), &mut exact));

    let s = try_tally_entities(&vec![EntityKind::Arc, EntityKind::Other], 8).unwrap();
    assert_eq!(s.arcs, 1);
    assert_eq!(s.unsupported, 1);
    assert_eq!(s.total(), 2);
    assert_eq!(s.elapsed_ms, 8);
}
