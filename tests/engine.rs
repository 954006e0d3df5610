use diagram_engine::{
    create_default_shape, default_shape, Connector, Diagram, DiagramEngine, DiagramError,
    DiagramSettings, FloatBits, Shape, ShapePatch, ShapeType,
};

fn fb(v: f64) -> FloatBits {
    FloatBits { bits: v.to_bits() }
}

fn value(f: FloatBits) -> f64 {
    f64::from_bits(f.bits)
}

fn rect(id: &str, x: f64, y: f64, width: f64, height: f64) -> Shape {
    Shape {
        id: id.to_string(),
        shape_type: ShapeType::Rectangle,
        x: fb(x),
        y: fb(y),
        width: fb(width),
        height: fb(height),
        rotation: fb(0.0),
        fill: "#aaaaaa".to_string(),
        stroke: "#000000".to_string(),
        stroke_width: fb(1.0),
        text: None,
    }
}

fn link(id: &str, from: &str, to: &str) -> Connector {
    Connector {
        id: id.to_string(),
        from_shape_id: from.to_string(),
        to_shape_id: to.to_string(),
        from_anchor: "right".to_string(),
        to_anchor: "left".to_string(),
        stroke: "#111111".to_string(),
        stroke_width: fb(2.0),
    }
}

fn contains(s: &Shape, x: f64, y: f64) -> bool {
    x >= value(s.x)
        && x <= value(s.x) + value(s.width)
        && y >= value(s.y)
        && y <= value(s.y) + value(s.height)
}

fn hits_at(engine: &DiagramEngine, x: f64, y: f64) -> Vec<bool> {
    engine.get_shapes().iter().map(|s| contains(s, x, y)).collect()
}

#[test]
fn test_create_diagram() {
    let engine = DiagramEngine::new("test-id", "Test Diagram", "2024-01-01T00:00:00.000Z");
    let d = engine.diagram();
    assert!(d.id.contains("test-id"));
    assert!(d.name.contains("Test Diagram"));
}

#[test]
fn test_add_shape() {
    let mut engine = DiagramEngine::new("test-id", "Test", "t0");
    let shape = create_default_shape("rectangle", fb(100.0), fb(100.0)).unwrap();
    engine.add_shape(shape, "t1");
    let shapes = engine.get_shapes();
    assert_eq!(shapes.len(), 1);
    assert_eq!(shapes[0].shape_type, ShapeType::Rectangle);
}

#[test]
fn new_diagram_is_empty_with_defaults() {
    let engine = DiagramEngine::new("d1", "Plan", "2024-05-01T10:00:00.000Z");
    let d = engine.diagram();
    assert_eq!(d.id, "d1");
    assert_eq!(d.name, "Plan");
    assert!(engine.get_shapes().is_empty());
    assert!(engine.get_connectors().is_empty());
    assert_eq!(d.created_at, d.updated_at);
    assert_eq!(d.created_at, "2024-05-01T10:00:00.000Z");
    let s = engine.get_settings();
    assert_eq!(s.background_color, "#ffffff");
    assert!(s.grid_enabled);
    assert!(s.snap_to_grid);
    assert_eq!(value(s.grid_size), 20.0);
    assert_eq!(s, DiagramSettings::default());
}

#[test]
fn add_shapes_keeps_order_and_time() {
    let mut engine = DiagramEngine::new("d", "n", "t0");
    engine.add_shape(rect("a", 0.0, 0.0, 1.0, 1.0), "t1");
    assert_eq!(engine.diagram().updated_at, "t1");
    engine.add_shape(rect("b", 5.0, 5.0, 1.0, 1.0), "t2");
    assert_eq!(
        engine.get_shapes(),
        vec![rect("a", 0.0, 0.0, 1.0, 1.0), rect("b", 5.0, 5.0, 1.0, 1.0)]
    );
    assert_eq!(engine.diagram().updated_at, "t2");
    assert_eq!(engine.diagram().created_at, "t0");
}

#[test]
fn delete_shape_removes_attached_connectors() {
    let mut engine = DiagramEngine::new("d", "n", "t0");
    engine.add_shape(rect("a", 0.0, 0.0, 1.0, 1.0), "t1");
    engine.add_shape(rect("b", 5.0, 5.0, 1.0, 1.0), "t2");
    engine.add_shape(rect("c", 9.0, 9.0, 1.0, 1.0), "t3");
    engine.add_connector(link("ab", "a", "b"), "t4");
    engine.add_connector(link("ca", "c", "a"), "t5");
    engine.add_connector(link("bc", "b", "c"), "t6");
    assert_eq!(engine.delete_shape("a", "t7"), Ok(()));
    let ids: Vec<String> = engine.get_shapes().into_iter().map(|s| s.id).collect();
    assert_eq!(ids, vec!["b".to_string(), "c".to_string()]);
    assert_eq!(engine.get_connectors(), vec![link("bc", "b", "c")]);
    assert_eq!(engine.diagram().updated_at, "t7");
}

#[test]
fn delete_shape_removes_every_duplicate() {
    let mut engine = DiagramEngine::new("d", "n", "t0");
    engine.add_shape(rect("a", 0.0, 0.0, 1.0, 1.0), "t1");
    engine.add_shape(rect("b", 1.0, 0.0, 1.0, 1.0), "t2");
    engine.add_shape(rect("a", 2.0, 0.0, 1.0, 1.0), "t3");
    assert_eq!(engine.delete_shape("a", "t4"), Ok(()));
    assert_eq!(engine.get_shapes(), vec![rect("b", 1.0, 0.0, 1.0, 1.0)]);
}

#[test]
fn update_shape_patches_only_given_fields() {
    let mut engine = DiagramEngine::new("d", "n", "t0");
    engine.add_shape(rect("s", 1.0, 2.0, 3.0, 4.0), "t1");
    let mut patch = ShapePatch::empty();
    patch.x = Some(fb(5.0));
    assert_eq!(engine.update_shape("s", patch, "t2"), Ok(()));
    assert_eq!(engine.get_shapes(), vec![rect("s", 5.0, 2.0, 3.0, 4.0)]);
    assert_eq!(engine.diagram().updated_at, "t2");
}

#[test]
fn update_shape_sets_strings_and_text() {
    let mut engine = DiagramEngine::new("d", "n", "t0");
    engine.add_shape(rect("s", 1.0, 2.0, 3.0, 4.0), "t1");
    let mut patch = ShapePatch::empty();
    patch.fill = Some("#ff0000".to_string());
    patch.text = Some("hello".to_string());
    patch.rotation = Some(fb(45.0));
    assert_eq!(engine.update_shape("s", patch, "t2"), Ok(()));
    let mut expected = rect("s", 1.0, 2.0, 3.0, 4.0);
    expected.fill = "#ff0000".to_string();
    expected.text = Some("hello".to_string());
    expected.rotation = fb(45.0);
    assert_eq!(engine.get_shapes(), vec![expected]);
}

#[test]
fn update_shape_touches_first_match_only() {
    let mut engine = DiagramEngine::new("d", "n", "t0");
    engine.add_shape(rect("s", 1.0, 1.0, 1.0, 1.0), "t1");
    engine.add_shape(rect("s", 2.0, 2.0, 1.0, 1.0), "t2");
    let mut patch = ShapePatch::empty();
    patch.height = Some(fb(7.0));
    assert_eq!(engine.update_shape("s", patch, "t3"), Ok(()));
    assert_eq!(
        engine.get_shapes(),
        vec![rect("s", 1.0, 1.0, 1.0, 7.0), rect("s", 2.0, 2.0, 1.0, 1.0)]
    );
}

#[test]
fn update_missing_shape_is_not_found() {
    let mut engine = DiagramEngine::new("d", "n", "t0");
    engine.add_shape(rect("s", 1.0, 2.0, 3.0, 4.0), "t1");
    let mut patch = ShapePatch::empty();
    patch.x = Some(fb(5.0));
    assert_eq!(engine.update_shape("nope", patch, "t2"), Err(DiagramError::NotFound));
    assert_eq!(engine.get_shapes(), vec![rect("s", 1.0, 2.0, 3.0, 4.0)]);
    assert_eq!(engine.diagram().updated_at, "t1");
}

#[test]
fn delete_nonexistent_shape_changes_nothing() {
    let mut engine = DiagramEngine::new("d", "n", "t0");
    engine.add_shape(rect("a", 0.0, 0.0, 1.0, 1.0), "t1");
    engine.add_connector(link("dangling", "x", "nonexistent"), "t2");
    assert_eq!(engine.delete_shape("nonexistent", "t3"), Err(DiagramError::NotFound));
    assert_eq!(engine.get_shapes(), vec![rect("a", 0.0, 0.0, 1.0, 1.0)]);
    assert_eq!(engine.get_connectors(), vec![link("dangling", "x", "nonexistent")]);
    assert_eq!(engine.diagram().updated_at, "t2");
}

#[test]
fn delete_connector_found_and_missing() {
    let mut engine = DiagramEngine::new("d", "n", "t0");
    engine.add_connector(link("c1", "a", "b"), "t1");
    engine.add_connector(link("c2", "b", "a"), "t2");
    assert_eq!(engine.delete_connector("c3", "t3"), Err(DiagramError::NotFound));
    assert_eq!(engine.diagram().updated_at, "t2");
    assert_eq!(engine.delete_connector("c1", "t4"), Ok(()));
    assert_eq!(engine.get_connectors(), vec![link("c2", "b", "a")]);
    assert_eq!(engine.diagram().updated_at, "t4");
}

#[test]
fn update_settings_replaces_whole() {
    let mut engine = DiagramEngine::new("d", "n", "t0");
    let settings = DiagramSettings {
        background_color: "#000000".to_string(),
        grid_enabled: false,
        snap_to_grid: false,
        grid_size: fb(10.0),
    };
    engine.update_settings(settings.clone(), "t1");
    assert_eq!(engine.get_settings(), settings);
    assert_eq!(engine.diagram().updated_at, "t1");
}

#[test]
fn topmost_hit_prefers_later_shape() {
    let mut engine = DiagramEngine::new("d", "n", "t0");
    engine.add_shape(rect("A", 0.0, 0.0, 100.0, 100.0), "t1");
    engine.add_shape(rect("B", 50.0, 50.0, 100.0, 100.0), "t2");
    assert_eq!(engine.topmost_hit(&hits_at(&engine, 75.0, 75.0)), Some("B".to_string()));
    assert_eq!(engine.topmost_hit(&hits_at(&engine, 10.0, 10.0)), Some("A".to_string()));
    assert_eq!(engine.topmost_hit(&hits_at(&engine, 500.0, 500.0)), None);
    assert_eq!(engine.topmost_hit(&hits_at(&engine, 150.0, 150.0)), Some("B".to_string()));
}

#[test]
fn topmost_hit_on_empty_diagram() {
    let engine = DiagramEngine::new("d", "n", "t0");
    assert_eq!(engine.topmost_hit(&Vec::new()), None);
}

#[test]
fn default_shape_of_each_kind() {
    let r = default_shape("rectangle", "r1".to_string(), fb(3.0), fb(4.0)).unwrap();
    assert_eq!(r.id, "r1");
    assert_eq!(r.shape_type, ShapeType::Rectangle);
    assert_eq!(value(r.x), 3.0);
    assert_eq!(value(r.y), 4.0);
    assert_eq!(value(r.width), 100.0);
    assert_eq!(value(r.height), 100.0);
    assert_eq!(value(r.rotation), 0.0);
    assert_eq!(r.fill, "#4f46e5");
    assert_eq!(r.stroke, "#3730a3");
    assert_eq!(value(r.stroke_width), 2.0);
    assert_eq!(r.text, None);
    let t = default_shape("text", "t1".to_string(), fb(0.0), fb(0.0)).unwrap();
    assert_eq!(t.shape_type, ShapeType::Text);
    assert_eq!(t.text, Some("Text".to_string()));
    let c = default_shape("circle", "c1".to_string(), fb(0.0), fb(0.0)).unwrap();
    assert_eq!(c.shape_type, ShapeType::Circle);
    let d = default_shape("diamond", "d1".to_string(), fb(0.0), fb(0.0)).unwrap();
    assert_eq!(d.shape_type, ShapeType::Diamond);
}

#[test]
fn default_shape_rejects_unknown_kind() {
    assert_eq!(
        default_shape("hexagon", "h".to_string(), fb(0.0), fb(0.0)),
        Err(DiagramError::MalformedInput)
    );
    assert_eq!(create_default_shape("Rectangle", fb(0.0), fb(0.0)), Err(DiagramError::MalformedInput));
}

#[test]
fn create_default_shape_generates_fresh_ids() {
    let a = create_default_shape("circle", fb(1.0), fb(2.0)).unwrap();
    let b = create_default_shape("circle", fb(1.0), fb(2.0)).unwrap();
    assert_eq!(a.id.len(), 36);
    assert_eq!(b.id.len(), 36);
    assert_ne!(a.id, b.id);
    assert_eq!(value(a.x), 1.0);
    assert_eq!(value(a.y), 2.0);
}

#[test]
fn shape_type_names() {
    assert_eq!(ShapeType::from_name("rectangle"), Some(ShapeType::Rectangle));
    assert_eq!(ShapeType::from_name("circle"), Some(ShapeType::Circle));
    assert_eq!(ShapeType::from_name("diamond"), Some(ShapeType::Diamond));
    assert_eq!(ShapeType::from_name("text"), Some(ShapeType::Text));
    assert_eq!(ShapeType::from_name(""), None);
    assert_eq!(ShapeType::from_name("square"), None);
}

#[test]
fn loaded_diagram_is_kept_whole() {
    let d = Diagram {
        id: "d9".to_string(),
        name: "Loaded".to_string(),
        shapes: vec![rect("a", 1.5, 2.5, 3.0, 4.0)],
        connectors: vec![link("c", "a", "missing")],
        settings: DiagramSettings::default(),
        created_at: "t0".to_string(),
        updated_at: "t5".to_string(),
    };
    let expected = Diagram {
        id: d.id.clone(),
        name: d.name.clone(),
        shapes: d.shapes.clone(),
        connectors: d.connectors.clone(),
        settings: d.settings.clone(),
        created_at: d.created_at.clone(),
        updated_at: d.updated_at.clone(),
    };
    let engine = DiagramEngine::from_diagram(d);
    assert_eq!(engine.diagram(), &expected);
}

#[test]
fn empty_patch_changes_only_time() {
    let mut engine = DiagramEngine::new("d", "n", "t0");
    engine.add_shape(rect("s", 1.0, 2.0, 3.0, 4.0), "t1");
    assert_eq!(engine.update_shape("s", ShapePatch::empty(), "t2"), Ok(()));
    assert_eq!(engine.get_shapes(), vec![rect("s", 1.0, 2.0, 3.0, 4.0)]);
    assert_eq!(engine.diagram().updated_at, "t2");
}
