use chaos_game_3d::algorithms::{
    algorithm_kind, chaos_sets_complexity, plots_iteration, reports_progress, AlgorithmKind,
};
use chaos_game_3d::bbox::find_octant;
use chaos_game_3d::buffers::Buffer;
use chaos_game_3d::choosers::{chooser_kind, Chooser, ChooserKind, NoBacktrackingChooser, UniformChooser};
use chaos_game_3d::fractal_metadata::{ColorIfs, FractalMetadata, MetadataError};
use chaos_game_3d::implicit_coordinates::ImplicitCoordinates;
use chaos_game_3d::json_doc::{parse_parameters, JsonDoc};
use chaos_game_3d::octrees::{OctNode, OctreeEntry};
use chaos_game_3d::pnts_writer::PntsWriter;
use chaos_game_3d::point::Point;
use chaos_game_3d::tileset_writer::{is_scatter_plot, scatter_settings, ContentType, TilesetWriter};

#[test]
fn buffer_add_and_iterate() {
    let mut buffer: Buffer<u32> = Buffer::new();
    assert_eq!(buffer.len(), 0);
    buffer.add(1, 10);
    buffer.add(2, 20);
    assert_eq!(buffer.len(), 2);
    assert_eq!(buffer.get_points(), &vec![1, 2]);
    assert_eq!(buffer.get_colors(), &vec![10, 20]);
    assert!(buffer.get_feature_ids().is_empty());
    assert!(buffer.get_iterations().is_empty());
    assert!(buffer.get_last_xforms().is_empty());
    let mut iter = buffer.points_iter();
    assert_eq!(iter.next(), Some((&1, &10)));
    assert_eq!(iter.next(), Some((&2, &20)));
    assert_eq!(iter.next(), None);
    assert_eq!(iter.next(), None);
}

#[test]
fn buffer_from_vectors_and_clear() {
    let mut buffer = Buffer::from_vectors(vec![1u8, 2, 3], vec![4u8, 5, 6]);
    assert_eq!(buffer.len(), 3);
    buffer.clear();
    assert_eq!(buffer.len(), 0);
    assert!(buffer.get_colors().is_empty());
}

#[test]
fn point_fields() {
    let point = Point { position: 1u8, color: 2u8, feature_id: 3, iteration: 4, point_id: 5, last_xform: 6, last_color_xform: 7 };
    let copy = point.clone();
    assert_eq!(copy.iteration, 4);
    assert_eq!(copy.last_color_xform, 7);
}

#[test]
fn implicit_root_and_children() {
    let root = ImplicitCoordinates::root(3);
    assert_eq!((root.subtree_levels, root.level, root.x, root.y, root.z), (3, 0, 0, 0, 0));
    let child = root.get_child_coordinates(5);
    assert_eq!((child.level, child.x, child.y, child.z), (1, 1, 0, 1));
    let grandchild = child.get_child_coordinates(6);
    assert_eq!((grandchild.level, grandchild.x, grandchild.y, grandchild.z), (2, 2, 1, 3));
    assert_eq!(grandchild.subtree_levels, 3);
}

#[test]
fn implicit_children_are_distinct() {
    let parent = ImplicitCoordinates { subtree_levels: 2, level: 4, x: 5, y: 9, z: 2 };
    let mut seen = Vec::new();
    for i in 0..8 {
        let c = parent.get_child_coordinates(i);
        assert_eq!(c.x / 2, 5);
        assert_eq!(c.y / 2, 9);
        assert_eq!(c.z / 2, 2);
        assert_eq!(c.x % 2 + 2 * (c.y % 2) + 4 * (c.z % 2), i);
        assert!(!seen.contains(&(c.x, c.y, c.z)));
        seen.push((c.x, c.y, c.z));
    }
}

#[test]
fn no_backtracking_selection_skips_inverse() {
    // forbidden is 3 (the inverse of 2): 0 1 2 3 4 -> 0 1 2 4 5
    assert_eq!(NoBacktrackingChooser::select_avoiding(2, 0), 0);
    assert_eq!(NoBacktrackingChooser::select_avoiding(2, 2), 2);
    assert_eq!(NoBacktrackingChooser::select_avoiding(2, 3), 4);
    assert_eq!(NoBacktrackingChooser::select_avoiding(2, 4), 5);
    // forbidden is 0 (the inverse of 1)
    assert_eq!(NoBacktrackingChooser::select_avoiding(1, 0), 1);
}

#[test]
fn no_backtracking_never_backtracks() {
    let mut chooser = NoBacktrackingChooser::new(4);
    let mut last = chooser.choose_xform();
    assert!(last < 4);
    for _ in 0..1000 {
        let next = chooser.choose_xform();
        assert!(next < 4);
        let inverse = if last % 2 == 0 { last + 1 } else { last - 1 };
        assert_ne!(next, inverse);
        last = next;
    }
    chooser.reset();
    assert!(chooser.choose_xform() < 4);
}

#[test]
fn uniform_in_range() {
    let mut chooser = UniformChooser::new(3);
    for _ in 0..300 {
        assert!(chooser.choose_xform() < 3);
    }
    let mut single = UniformChooser::new(1);
    assert_eq!(single.choose_xform(), 0);
}

fn entry(octants: Vec<u8>, point: u32) -> OctreeEntry<u32> {
    OctreeEntry { octants, point }
}

#[test]
fn octree_subdivides_when_full() {
    let mut root: OctNode<u32> = OctNode::root_node(2);
    assert!(root.is_leaf() && root.is_empty());
    assert!(root.add_point(entry(vec![0, 1], 1), 2));
    assert!(root.add_point(entry(vec![1, 1], 2), 2));
    assert!(root.is_full());
    // the third point makes the root split into 8 octants
    assert!(root.add_point(entry(vec![1, 0], 3), 2));
    assert!(!root.is_leaf());
    assert!(root.is_empty());
    let children = root.get_children();
    assert_eq!(children.len(), 8);
    assert_eq!(children[0].get_points().len(), 1);
    assert_eq!(children[1].get_points().len(), 2);
    assert_eq!(children[1].get_points()[0].point, 2);
    assert_eq!(children[1].get_points()[1].point, 3);
    for q in 2..8 {
        assert!(children[q].is_empty() && children[q].is_leaf());
    }
}

#[test]
fn octree_discards_at_max_depth() {
    let mut root: OctNode<u32> = OctNode::root_node(1);
    assert!(root.add_point(entry(vec![3], 1), 1));
    // the root splits, octant 3 takes the new point... it is full
    // and at the maximum depth, so a third point in it is discarded
    assert!(root.add_point(entry(vec![5], 2), 1));
    assert!(!root.add_point(entry(vec![3], 3), 1));
    assert!(!root.add_point(entry(vec![5], 4), 1));
    assert!(root.add_point(entry(vec![6], 5), 1));
    let children = root.get_children();
    assert_eq!(children[3].get_points()[0].point, 1);
    assert_eq!(children[5].get_points()[0].point, 2);
    assert_eq!(children[6].get_points()[0].point, 5);
}

#[test]
fn octree_decimate_keeps_every_fourth() {
    let mut root: OctNode<u32> = OctNode::root_node(5);
    for i in 0..5 {
        assert!(root.add_point(entry(vec![0, 0], i), 2));
    }
    // the sixth point splits the root, then its octant 0, whose points
    // are split between octants 0 and 1
    assert!(root.add_point(entry(vec![0, 1], 5), 2));
    let kept = root.decimate();
    let children = root.get_children();
    let grandchildren = children[0].get_children();
    assert_eq!(grandchildren[0].get_points().len(), 5);
    // octant 0 takes in points 0 and 4 of its child 0, then point 5 of its
    // child 1
    let points: Vec<u32> = children[0].get_points().iter().map(|e| e.point).collect();
    assert_eq!(points, vec![0, 4, 5]);
    // the root takes in point 0 of its octant 0, and keeps it
    assert_eq!(root.get_points().len(), 1);
    assert_eq!(root.get_points()[0].point, 0);
    assert_eq!(kept.len(), 1);
    assert_eq!(kept[0].point, 0);
    assert_eq!(kept[0].octants, vec![0, 0]);
}

#[test]
fn metadata_defaults() {
    let metadata = FractalMetadata::from_fields(
        "sierpinski", "Sierpinski", None, "chaos", 1000, None, None, 4, ColorIfs::Absent,
    )
    .unwrap();
    assert_eq!(metadata.id, "sierpinski");
    assert_eq!(metadata.description, "");
    assert_eq!(metadata.cluster_copies, 1);
    assert_eq!(metadata.node_capacity, 5000);
    assert_eq!(metadata.ifs_xform_count, 4);
    assert_eq!(metadata.color_ifs_xform_count, 1);
    assert_eq!(metadata.cluster_point_count, 0);
    let truncated = FractalMetadata::from_fields(
        "a", "b", Some("c"), "chaos_sets", 1, Some(3), Some(10), 300, ColorIfs::Xforms(258),
    )
    .unwrap();
    assert_eq!(truncated.ifs_xform_count, 44);
    assert_eq!(truncated.color_ifs_xform_count, 2);
    assert_eq!(truncated.cluster_copies, 3);
    assert_eq!(truncated.node_capacity, 10);
    assert_eq!(truncated.description, "c");
    assert_eq!(
        FractalMetadata::from_fields("a", "b", None, "c", 1, None, None, 0, ColorIfs::Invalid).err(),
        Some(MetadataError::InvalidColorIfs)
    );
}

#[test]
fn metadata_from_json() {
    let json = json::parse(
        "{\"id\": \"grid\", \"name\": \"Grid\", \"algorithm\": \"chaos\", \"iters\": 50, \
         \"plotter\": {\"node_capacity\": 100}, \"ifs\": {\"xforms\": [[\"identity\"], [\"invert\"]]}, \
         \"color_ifs\": {\"xforms\": [[\"identity\"]]}}",
    )
    .unwrap();
    let metadata = FractalMetadata::from_json(&parse(&json)).unwrap();
    assert_eq!(metadata.id, "grid");
    assert_eq!(metadata.name, "Grid");
    assert_eq!(metadata.iterations, 50);
    assert_eq!(metadata.node_capacity, 100);
    assert_eq!(metadata.ifs_xform_count, 2);
    assert_eq!(metadata.color_ifs_xform_count, 1);
    assert_eq!(metadata.cluster_copies, 1);
    let missing = json::parse("{\"name\": \"Grid\"}").unwrap();
    assert_eq!(FractalMetadata::from_json(&parse(&missing)).err(), Some(MetadataError::MissingId));
    let bad = json::parse(
        "{\"id\": \"a\", \"name\": \"b\", \"algorithm\": \"chaos\", \"iters\": 1, \"color_ifs\": 3}",
    )
    .unwrap();
    assert_eq!(FractalMetadata::from_json(&parse(&bad)).err(), Some(MetadataError::InvalidColorIfs));
}

#[test]
fn tileset_directories() {
    let metadata = FractalMetadata::from_fields(
        "fern", "Fern", None, "chaos", 1, None, None, 1, ColorIfs::Absent,
    )
    .unwrap();
    let writer = TilesetWriter::new("fern", ContentType::Glb, metadata);
    assert_eq!(writer.tileset_dir(), "./viewer/fern");
    assert_eq!(writer.points_dir(), "./viewer/fern/points");
    assert_eq!(writer.content_type(), ContentType::Glb);
    assert_eq!(writer.metadata().name, "Fern");
    assert_eq!(ContentType::Pnts.get_extension(), "pnts");
    assert_eq!(ContentType::Glb.get_extension(), "glb");
}

#[test]
fn algorithm_bookkeeping() {
    assert_eq!(chaos_sets_complexity(10, 3, 5), 160);
    assert_eq!(chaos_sets_complexity(7, 2, 0), 7);
    assert!(!plots_iteration(9));
    assert!(plots_iteration(10));
    assert!(!reports_progress(10));
    assert!(reports_progress(100010));
    assert!(!reports_progress(100011));
}

#[test]
fn octant_numbering() {
    assert_eq!(find_octant(false, false, false), 0);
    assert_eq!(find_octant(true, false, false), 1);
    assert_eq!(find_octant(false, true, false), 2);
    assert_eq!(find_octant(false, false, true), 4);
    assert_eq!(find_octant(true, true, true), 7);
    assert_eq!(find_octant(true, false, true), 5);
}

#[test]
fn octant_selects_matching_child_tile() {
    let parent = ImplicitCoordinates { subtree_levels: 2, level: 1, x: 1, y: 0, z: 1 };
    let child = parent.get_child_coordinates(find_octant(true, false, true));
    assert_eq!((child.x % 2, child.y % 2, child.z % 2), (1, 0, 1));
    assert_eq!((child.x, child.y, child.z), (3, 0, 3));
}

#[test]
fn metadata_missing_fields() {
    let no_name = json::parse("{\"id\": \"a\", \"algorithm\": \"chaos\", \"iters\": 1}").unwrap();
    assert_eq!(FractalMetadata::from_json(&parse(&no_name)).err(), Some(MetadataError::MissingName));
    let no_algorithm = json::parse("{\"id\": \"a\", \"name\": \"b\", \"iters\": 1}").unwrap();
    assert_eq!(FractalMetadata::from_json(&parse(&no_algorithm)).err(), Some(MetadataError::MissingAlgorithm));
    let bad_iters =
        json::parse("{\"id\": \"a\", \"name\": \"b\", \"algorithm\": \"chaos\", \"iters\": \"many\"}").unwrap();
    assert_eq!(FractalMetadata::from_json(&parse(&bad_iters)).err(), Some(MetadataError::MissingIterations));
    let minimal =
        json::parse("{\"id\": \"a\", \"name\": \"b\", \"algorithm\": \"chaos\", \"iters\": 7, \"description\": \"d\", \"cluster_copies\": 4}")
            .unwrap();
    let metadata = FractalMetadata::from_json(&parse(&minimal)).unwrap();
    assert_eq!(metadata.description, "d");
    assert_eq!(metadata.cluster_copies, 4);
    assert_eq!(metadata.ifs_xform_count, 0);
    assert_eq!(metadata.color_ifs_xform_count, 1);
    assert_eq!(metadata.node_capacity, 5000);
}

/// The document of a JSON value, read back from its text
fn parse(value: &json::JsonValue) -> JsonDoc {
    parse_parameters(&value.dump()).unwrap()
}

fn member<'a>(doc: &'a JsonDoc, key: &str) -> &'a JsonDoc {
    doc.member(key)
}

fn uint(doc: &JsonDoc) -> u64 {
    doc.as_u64().unwrap()
}

#[test]
fn metadata_from_reviewed_parameters() {
    let json = json::parse(
        "{\"id\": \"t\", \"name\": \"T\", \"algorithm\": \"chaos\", \"iters\": 100, \
         \"ifs\": {\"xforms\": [[\"identity\"], [\"invert\"]]}}",
    )
    .unwrap();
    let m = FractalMetadata::from_json(&parse(&json)).unwrap();
    assert_eq!((m.id.as_str(), m.name.as_str(), m.description.as_str(), m.algorithm.as_str()), ("t", "T", "", "chaos"));
    assert_eq!((m.iterations, m.cluster_copies, m.node_capacity), (100, 1, 5000));
    assert_eq!((m.ifs_xform_count, m.color_ifs_xform_count), (2, 1));
    assert_eq!((m.cluster_point_count, m.subcluster_max_point_count), (0, 0));
}

#[test]
fn metadata_document_lists_the_properties() {
    let m = FractalMetadata::from_fields("fern", "Fern", None, "chaos", 42, None, Some(7), 3, ColorIfs::Absent).unwrap();
    let doc = m.metadata_document();
    let tileset = member(&doc, "tileset");
    assert_eq!(member(tileset, "class").as_str(), Some("tileset"));
    let values = member(tileset, "properties");
    assert_eq!(member(values, "id").as_str(), Some("fern"));
    assert_eq!(uint(member(values, "iterations")), 42);
    assert_eq!(uint(member(values, "node_capacity")), 7);
    assert_eq!(uint(member(values, "ifs_xform_count")), 3);
    let schema = member(member(member(member(&doc, "schema"), "classes"), "tileset"), "properties");
    assert_eq!(schema.len(), 10);
    assert_eq!(member(member(schema, "id"), "semantic").as_str(), Some("ID"));
    assert_eq!(member(member(schema, "iterations"), "componentType").as_str(), Some("UINT64"));
}

#[test]
fn pnts_feature_table_document() {
    let doc = PntsWriter::feature_table_document(10);
    assert_eq!(uint(member(&doc, "POINTS_LENGTH")), 10);
    assert_eq!(uint(member(member(&doc, "POSITION"), "byteOffset")), 0);
    assert_eq!(uint(member(member(&doc, "RGB"), "byteOffset")), 120);
}

#[test]
fn tile_plan_prunes_empty_leaves() {
    let mut root: OctNode<u32> = OctNode::root_node(1);
    assert!(root.tile_plan(&ImplicitCoordinates::root(1)).is_none());
    assert!(root.add_point(entry(vec![0, 0], 1), 2));
    assert!(root.add_point(entry(vec![3, 0], 2), 2));
    let plan = root.tile_plan(&ImplicitCoordinates::root(1)).unwrap();
    assert_eq!(plan.coordinates.level, 0);
    assert_eq!(plan.children.len(), 8);
    for (octant, child) in plan.children.iter().enumerate() {
        assert_eq!(child.is_some(), octant == 0 || octant == 3);
    }
    let child = plan.children[3].as_ref().unwrap();
    assert_eq!((child.coordinates.level, child.coordinates.x, child.coordinates.y, child.coordinates.z), (1, 1, 1, 0));
    assert!(child.children.is_empty());
}

#[test]
fn parameter_kinds() {
    let doc = |text: &str| parse(&json::parse(text).unwrap());
    assert_eq!(chooser_kind(&doc("null")), Some(ChooserKind::Uniform));
    assert_eq!(chooser_kind(&doc("{\"type\": \"no_backtracking\"}")), Some(ChooserKind::NoBacktracking));
    assert_eq!(chooser_kind(&doc("{\"type\": \"markov\"}")), Some(ChooserKind::Markov));
    assert_eq!(chooser_kind(&doc("{\"type\": \"other\"}")), None);
    assert_eq!(algorithm_kind(&doc("{\"algorithm\": \"chaos\"}")), Some(AlgorithmKind::ChaosGame));
    assert_eq!(algorithm_kind(&doc("{\"algorithm\": \"chaos_sets\"}")), Some(AlgorithmKind::ChaosSets));
    assert_eq!(algorithm_kind(&doc("{\"algorithm\": 3}")), None);
    assert!(is_scatter_plot(&doc("{\"radius\": 2.0}")));
    assert!(!is_scatter_plot(&doc("{\"type\": \"density\"}")));
}

#[test]
fn scatter_plot_defaults() {
    let doc = |text: &str| parse(&json::parse(text).unwrap());
    let defaults = scatter_settings(&doc("{\"radius\": 2.0}")).unwrap();
    assert_eq!(defaults.content_type, ContentType::Glb);
    assert_eq!((defaults.max_depth, defaults.node_capacity, defaults.fractal_dimension_levels), (10, 5000, 20));
    let given = scatter_settings(&doc(
        "{\"format\": \"pnts\", \"max_depth\": 4, \"node_capacity\": 64, \"fractal_dimension_depth\": 6}",
    ))
    .unwrap();
    assert_eq!(given.content_type, ContentType::Pnts);
    assert_eq!((given.max_depth, given.node_capacity, given.fractal_dimension_levels), (4, 64, 6));
    assert!(scatter_settings(&doc("{\"format\": \"las\"}")).is_none());
}

#[test]
fn content_paths_name_tiles_by_coordinates() {
    let c = ImplicitCoordinates { subtree_levels: 1, level: 3, x: 10, y: 0, z: 7 };
    assert_eq!(c.content_directory("points"), "points/3/10/0");
    assert_eq!(c.content_path("./viewer/fern/points", "glb"), "./viewer/fern/points/3/10/0/7.glb");
    let root = ImplicitCoordinates::root(1);
    assert_eq!(root.content_path("points", "pnts"), "points/0/0/0/0.pnts");
}

#[test]
fn parameters_are_parsed_from_text() {
    let doc = parse_parameters("{\"id\": \"x\", \"iters\": 12, \"radius\": 2.5, \"neg\": -3}").unwrap();
    assert_eq!(doc.member("id").as_str(), Some("x"));
    assert_eq!(doc.member("iters").as_u64(), Some(12));
    assert_eq!(doc.member("radius").as_u64(), None);
    assert!(matches!(doc.member("neg"), JsonDoc::Number(false, 3, 0)));
    assert!(parse_parameters("{not json").is_none());
}
