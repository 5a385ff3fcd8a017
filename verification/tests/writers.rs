use chaos_game_3d::glb_writer::{
    compute_padding_length, make_padding, BufferView, Chunk, GlbPoint, GlbWriter,
};
use chaos_game_3d::pnts_writer::PntsWriter;
use chaos_game_3d::vector::{Color, Vec3Bits, Vector3};

fn le(bytes: &[u8], at: usize) -> u32 {
    u32::from_le_bytes([bytes[at], bytes[at + 1], bytes[at + 2], bytes[at + 3]])
}

#[test]
fn vector_components() {
    let v = Vector3::new(1u32, 2u32, 3u32);
    assert_eq!(*v.x(), 1);
    assert_eq!(*v.y(), 2);
    assert_eq!(*v.z(), 3);
}

#[test]
fn vec3_bits_pack_little_endian() {
    let v: Vec3Bits = Vector3::new(1.0f32.to_bits(), 0x01020304, 0xffffffff);
    assert_eq!(
        v.pack(),
        [0x00, 0x00, 0x80, 0x3f, 0x04, 0x03, 0x02, 0x01, 0xff, 0xff, 0xff, 0xff]
    );
}

#[test]
fn color_pack() {
    let c: Color = Vector3::new(255u8, 128u8, 0u8);
    assert_eq!(c.pack(), [255, 128, 0]);
}

#[test]
fn pnts_padding_len() {
    assert_eq!(PntsWriter::compute_padding_len(0), 0);
    assert_eq!(PntsWriter::compute_padding_len(1), 7);
    assert_eq!(PntsWriter::compute_padding_len(8), 0);
    assert_eq!(PntsWriter::compute_padding_len(30), 2);
    assert_eq!(PntsWriter::make_padding(3), vec![0x20, 0x20, 0x20]);
    assert_eq!(PntsWriter::rgb_byte_offset(5), 60);
}

#[test]
fn pnts_encoding() {
    let json = String::from("{\"POINTS_LENGTH\":2,\"POSITION\":{\"byteOffset\":0},\"RGB\":{\"byteOffset\":24}}");
    let json_len = json.len();
    let positions = vec![Vector3::new(1u32, 2, 3), Vector3::new(4u32, 5, 6)];
    let colors = vec![Vector3::new(10u8, 20, 30), Vector3::new(40u8, 50, 60)];
    let mut writer = PntsWriter::new();
    let bytes = writer.encode(&positions, &colors).unwrap();
    // the feature table is the one the writer builds for 2 points
    assert_eq!(&bytes[28..28 + json_len], json.as_bytes());
    assert_eq!(&bytes[0..4], b"pnts");
    assert_eq!(le(&bytes, 4), 1);
    assert_eq!(le(&bytes, 8) as usize, bytes.len());
    let json_section = le(&bytes, 12) as usize;
    let bin_section = le(&bytes, 16) as usize;
    assert_eq!(le(&bytes, 20), 0);
    assert_eq!(le(&bytes, 24), 0);
    assert!(json_section >= json_len && json_section < json_len + 8);
    assert_eq!((28 + json_section) % 8, 0);
    // 2 * 12 bytes of positions, 2 * 3 bytes of colors, 2 bytes of padding
    assert_eq!(bin_section, 32);
    assert_eq!(28 + json_section + bin_section, bytes.len());
    for padding in &bytes[28 + json_len..28 + json_section] {
        assert_eq!(*padding, 0x20);
    }
    let body = &bytes[28 + json_section..];
    assert_eq!(&body[0..4], &[1, 0, 0, 0]);
    assert_eq!(&body[20..24], &[6, 0, 0, 0]);
    assert_eq!(&body[24..30], &[10, 20, 30, 40, 50, 60]);
    assert_eq!(&body[30..32], &[0x20, 0x20]);
}

#[test]
fn glb_padding_length() {
    assert_eq!(compute_padding_length(0, 8), 0);
    assert_eq!(compute_padding_length(12, 8), 4);
    assert_eq!(compute_padding_length(16, 8), 0);
    assert_eq!(compute_padding_length(5, 4), 3);
    assert_eq!(make_padding(2, 0x00), vec![0, 0]);
    assert_eq!(make_padding(0, 0x20), Vec::<u8>::new());
}

#[test]
fn buffer_view_and_chunk() {
    let view = BufferView::new("Positions", 0, 16, 36);
    assert_eq!(view.name, "Positions");
    assert_eq!(view.padding_length, 4);
    assert_eq!(view.byte_stride, None);
    assert_eq!(view.after_offset(), 56);
    let mut chunk = Chunk::new();
    assert_eq!(chunk.data_length(), 0);
    assert_eq!(chunk.total_length(), 8);
    chunk.chunk_length = 13;
    chunk.padding_length = 3;
    assert_eq!(chunk.data_length(), 16);
    assert_eq!(chunk.total_length(), 24);
}

fn glb_point(i: u32) -> GlbPoint {
    GlbPoint {
        position: Vector3::new(i, i + 1, i + 2),
        color: Vector3::new(i as u8, 7, 9),
        cluster_coordinates: Vector3::new(0, 0, 0),
        iteration: (i % 2) as u64,
        cluster_copy: 0,
        cluster_id: i as u16,
        point_id: 3,
        last_xform: 1,
        last_color_xform: 0,
        iteration_bits: ((i % 2) as f32).to_bits(),
        cluster_copy_bits: 0f32.to_bits(),
        cluster_id_bits: (i as f32).to_bits(),
        point_id_bits: 3f32.to_bits(),
        last_xform_bits: 1f32.to_bits(),
        last_color_xform_bits: 0f32.to_bits(),
    }
}

#[test]
fn glb_feature_counts() {
    let points: Vec<GlbPoint> = (0..5).map(glb_point).collect();
    let writer = GlbWriter::new();
    let counts = writer.compute_feature_id_counts(&points);
    assert_eq!(counts.iterations, 2);
    assert_eq!(counts.cluster_copies, 1);
    assert_eq!(counts.cluster_ids, 5);
    assert_eq!(counts.point_ids, 1);
}

#[test]
fn glb_encoding() {
    let points: Vec<GlbPoint> = (0..3).map(glb_point).collect();
    let mut writer = GlbWriter::new();
    writer.compute_layout(3);
    let json = String::from("{\"asset\":{\"version\":\"2.0\"}}");
    assert_eq!(json.len(), 27);
    writer.make_json(json);
    writer.compute_total_length();
    let bytes = writer.encode(&points);
    assert_eq!(&bytes[0..4], b"glTF");
    assert_eq!(le(&bytes, 4), 2);
    assert_eq!(le(&bytes, 8) as usize, bytes.len());
    // JSON chunk: 27 bytes of JSON padded to 32
    assert_eq!(le(&bytes, 12), 32);
    assert_eq!(&bytes[16..20], b"JSON");
    assert_eq!(&bytes[20 + 27..20 + 32], b"     ");
    let bin = 20 + 32;
    // 3 points: positions 36 + 4, colors 12 + 4, coordinates 36 + 4,
    // six scalars 12 + 4 each
    let buffer_length = 40 + 16 + 40 + 6 * 16;
    assert_eq!(le(&bytes, bin) as usize, buffer_length);
    assert_eq!(&bytes[bin + 4..bin + 8], b"BIN\0");
    assert_eq!(bytes.len(), bin + 8 + buffer_length);
    let buffer = &bytes[bin + 8..];
    // first position
    assert_eq!(&buffer[0..12], &[0, 0, 0, 0, 1, 0, 0, 0, 2, 0, 0, 0]);
    // positions are padded with zeros
    assert_eq!(&buffer[36..40], &[0, 0, 0, 0]);
    // colors start at 40, with a fourth byte of padding each
    assert_eq!(&buffer[40..48], &[0, 7, 9, 0, 1, 7, 9, 0]);
    // the cluster ids are the sixth view: after 40 + 16 + 40 + 16 + 16
    let cluster_ids = 40 + 16 + 40 + 16 + 16;
    assert_eq!(le(buffer, cluster_ids + 8), 2f32.to_bits());
}

#[test]
fn gltf_document_describes_the_layout() {
    let points: Vec<GlbPoint> = (0..3).map(glb_point).collect();
    let mut writer = GlbWriter::new();
    writer.compute_layout(3);
    let counts = writer.compute_feature_id_counts(&points);
    let doc = writer.gltf_document(&counts);
    let buffers = doc.member("buffers");
    assert_eq!(buffers.len(), 1);
    assert_eq!(doc.member("scene").as_u64(), Some(0));
    assert_eq!(doc.member("accessors").len(), 9);
    assert_eq!(doc.member("bufferViews").len(), 9);
    match doc.member("buffers") {
        chaos_game_3d::json_doc::JsonDoc::Array(items) => {
            assert_eq!(items[0].member("byteLength").as_u64(), Some(writer.get_buffer_length() as u64))
        }
        _ => panic!("buffers must be an array"),
    }
    match doc.member("accessors") {
        chaos_game_3d::json_doc::JsonDoc::Array(items) => {
            assert_eq!(items[0].member("type").as_str(), Some("VEC3"));
            assert!(matches!(items[1].member("normalized"), chaos_game_3d::json_doc::JsonDoc::Bool(true)));
        }
        _ => panic!("accessors must be an array"),
    }
    match doc.member("meshes") {
        chaos_game_3d::json_doc::JsonDoc::Array(meshes) => match meshes[0].member("primitives") {
            chaos_game_3d::json_doc::JsonDoc::Array(primitives) => {
                let attributes = primitives[0].member("attributes");
                assert_eq!(attributes.member("POSITION").as_u64(), Some(0));
                assert_eq!(attributes.member("COLOR_0").as_u64(), Some(1));
                let feature_ids = primitives[0].member("extensions").member("EXT_mesh_features").member("featureIds");
                assert_eq!(feature_ids.member("cluster_id").member("featureCount").as_u64(), Some(3));
            }
            _ => panic!("primitives must be an array"),
        },
        _ => panic!("meshes must be an array"),
    }
}
