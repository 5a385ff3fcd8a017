//! Writer for point clouds in binary glTF (GLB) format.
//!
//! A GLB file is a 12-byte header (magic, version, total length), a JSON
//! chunk and a BIN chunk. Each chunk is an 8-byte chunk header (data length
//! and chunk type) followed by the chunk data and padding. The BIN chunk
//! holds one buffer with nine buffer views, one per point attribute, each
//! padded to an 8-byte boundary.
//!
//! The glTF JSON is described by `gltf_document` from the layout computed
//! here (accessors, buffer views, buffer length and feature counts); the
//! caller adds the floating-point bounds of the positions, serializes it
//! and hands the text to `make_json`.
use vstd::prelude::*;
use std::collections::HashSet;
use crate::encoding::{le_u32, repeat_byte, utf8_bytes, push_u32_le, push_bytes, push_repeated};
use crate::vector::{Vector3, Vec3Bits, Color, packed_vec3, packed_color};
use crate::json_doc::{
    spec_uint,
    JsonDoc, JsonSpec, json_str, json_uint, json_object, json_array, add_member, add_item, new_members,
    new_items, items_view, entries_view, spec_get, spec_item, lemma_get_unique, object_keys,
};

verus! {

/// glTF version number. 2.0 is the latest as of this writing.
pub const GLTF_VERSION: u32 = 2;
/// glTF mode for point clouds
pub const GLTF_POINTS: u32 = 0;
/// glTF constant for FLOAT component type
pub const GLTF_FLOAT: u32 = 5126;
/// glTF constant for UNSIGNED_BYTE component type
pub const GLTF_UNSIGNED_BYTE: u32 = 5121;
/// Length of the glTF header
pub const GLTF_HEADER_LENGTH: u32 = 12;
/// Length of a chunk header (length + type)
pub const GLTF_CHUNK_HEADER_LENGTH: u32 = 8;

/// Size of a single-precision float
pub const SIZE_FLOAT: u32 = 4;
/// Size of a vec3
pub const SIZE_VEC3: u32 = 12;
/// Size of an RGB color encoded as unsigned bytes
pub const SIZE_COLOR_RGB: u32 = 3;

/// Alignment for each buffer view. They are all set to 8 as this is the
/// simplest way to satisfy both glTF and EXT_mesh_features requirements.
pub const ALIGNMENT: u32 = 8;

/// Padding character for the BIN chunk
pub const PADDING_BINARY: u8 = 0x00;
/// Padding character for the JSON chunk
pub const PADDING_JSON: u8 = 0x20;

/// Number of buffer views (and accessors) per point cloud
pub const ATTRIBUTE_COUNT: usize = 9;

/// Bytes of padding needed after `byte_length` bytes to reach a multiple of
/// `alignment`.
pub open spec fn glb_padding(byte_length: int, alignment: int) -> int {
    if byte_length % alignment == 0 {
        0
    } else {
        alignment - byte_length % alignment
    }
}

/// Compute the number of padding bytes needed to meet an alignment requirement
pub fn compute_padding_length(byte_length: u32, alignment_bytes: u32) -> (padding: u32)
    requires
        alignment_bytes > 0,
    ensures
        padding == glb_padding(byte_length as int, alignment_bytes as int),
{
    let remainder = byte_length % alignment_bytes;
    if remainder == 0 {
        // if already aligned, don't add padding
        0
    } else {
        alignment_bytes - remainder
    }
}

/// Create a padding of `byte_len` copies of a padding character
pub fn make_padding(byte_len: u32, pad_char: u8) -> (padding: Vec<u8>)
    ensures
        padding@ == repeat_byte(pad_char, byte_len as nat),
{
    let mut padding: Vec<u8> = Vec::new();
    push_repeated(&mut padding, pad_char, byte_len);
    assert(padding@ =~= repeat_byte(pad_char, byte_len as nat));
    padding
}

/// A struct for keeping track of the size of a buffer view within the buffer
pub struct BufferView {
    /// Human-readable name for the buffer view
    pub name: String,
    /// The index of the buffer view
    pub id: u32,
    /// The offset within the buffer that marks the start of the buffer view
    pub byte_offset: u32,
    /// The length of the buffer view
    pub byte_length: u32,
    /// For buffer views that are not aligned, the distance between elements
    pub byte_stride: Option<u32>,
    /// How many additional bytes of padding are needed to meet alignment
    /// requirements
    pub padding_length: u32,
}

impl BufferView {
    /// Create a buffer view without stride, padded to the alignment
    pub fn new(name: &str, id: u32, byte_offset: u32, byte_length: u32) -> (view: Self)
        ensures
            view.name@ == name@,
            view.id == id,
            view.byte_offset == byte_offset,
            view.byte_length == byte_length,
            view.byte_stride == None::<u32>,
            view.padding_length == glb_padding(byte_length as int, ALIGNMENT as int),
    {
        Self {
            name: name.to_owned(),
            id,
            byte_offset,
            byte_length,
            byte_stride: None,
            padding_length: compute_padding_length(byte_length, ALIGNMENT),
        }
    }

    /// Compute the offset after this buffer view and after the pad
    pub fn after_offset(&self) -> (offset: u32)
        requires
            self.byte_offset + self.byte_length + self.padding_length <= u32::MAX,
        ensures
            offset == self.byte_offset + self.byte_length + self.padding_length,
    {
        self.byte_offset + self.byte_length + self.padding_length
    }
}

/// The glTF accessor settings of one vertex attribute, from which the
/// accessor JSON is written
pub struct Accessor {
    /// Attribute semantic since every accessor will also be a vertex
    /// attribute
    pub semantic: String,
    /// ID of this accessor.
    pub accessor_id: u32,
    /// Human-readable name of the accessor
    pub name: String,
    /// The buffer view that holds the data
    pub buffer_view: u32,
    /// Number of elements (points)
    pub count: u32,
    /// "VEC3" or "SCALAR"
    pub accessor_type: String,
    /// glTF component type constant
    pub component_type: u32,
    /// Whether integer components are normalized to [0, 1]
    pub normalized: bool,
}

impl Accessor {
    pub fn new(
        semantic: &str,
        accessor_id: u32,
        name: &str,
        buffer_view: u32,
        count: u32,
        accessor_type: &str,
        component_type: u32,
        normalized: bool,
    ) -> (accessor: Self)
        ensures
            accessor.semantic@ == semantic@,
            accessor.accessor_id == accessor_id,
            accessor.name@ == name@,
            accessor.buffer_view == buffer_view,
            accessor.count == count,
            accessor.accessor_type@ == accessor_type@,
            accessor.component_type == component_type,
            accessor.normalized == normalized,
    {
        Self {
            semantic: semantic.to_owned(),
            accessor_id,
            name: name.to_owned(),
            buffer_view,
            count,
            accessor_type: accessor_type.to_owned(),
            component_type,
            normalized,
        }
    }
}

/// One of the two chunks in the GLB file (JSON and BIN)
pub struct Chunk {
    /// The length of the chunk data, not including header or padding
    pub chunk_length: u32,
    /// How many bytes of padding are needed to meet alignment requirements
    pub padding_length: u32,
}

impl Chunk {
    pub fn new() -> (chunk: Self)
        ensures
            chunk.chunk_length == 0,
            chunk.padding_length == 0,
    {
        Self { chunk_length: 0, padding_length: 0 }
    }

    /// Get the length of data + padding
    pub fn data_length(&self) -> (length: u32)
        requires
            self.chunk_length + self.padding_length <= u32::MAX,
        ensures
            length == self.chunk_length + self.padding_length,
    {
        self.chunk_length + self.padding_length
    }

    /// Get the length of header, data and padding
    pub fn total_length(&self) -> (length: u32)
        requires
            GLTF_CHUNK_HEADER_LENGTH + self.chunk_length + self.padding_length <= u32::MAX,
        ensures
            length == GLTF_CHUNK_HEADER_LENGTH + self.chunk_length + self.padding_length,
    {
        GLTF_CHUNK_HEADER_LENGTH + self.chunk_length + self.padding_length
    }
}

/// A point as stored in the glTF: positions and cluster coordinates as the
/// bit patterns of single-precision floats, an RGB color, and the integer
/// metadata of the point together with the bit patterns of their
/// single-precision float values, which is how the glTF stores them.
pub struct GlbPoint {
    pub position: Vec3Bits,
    pub color: Color,
    pub cluster_coordinates: Vec3Bits,
    pub iteration: u64,
    pub cluster_copy: u16,
    pub cluster_id: u16,
    pub point_id: u16,
    pub last_xform: u8,
    pub last_color_xform: u8,
    pub iteration_bits: u32,
    pub cluster_copy_bits: u32,
    pub cluster_id_bits: u32,
    pub point_id_bits: u32,
    pub last_xform_bits: u32,
    pub last_color_xform_bits: u32,
}

/// Size in bytes of one element of attribute `k`: the vec3 attributes
/// (positions, cluster coordinates) take 12 bytes, the colors 3 bytes plus
/// one byte of padding, the scalar attributes 4 bytes.
pub open spec fn attribute_length(point_count: int, k: int) -> int {
    if k == 0 || k == 2 {
        12 * point_count
    } else {
        4 * point_count
    }
}

/// Offset of the buffer view of attribute `k` within the buffer: the views
/// are laid out one after the other, each padded to the alignment.
pub open spec fn attribute_offset(point_count: int, k: int) -> int
    decreases k,
{
    if k <= 0 {
        0
    } else {
        attribute_offset(point_count, k - 1) + attribute_length(point_count, k - 1) + glb_padding(
            attribute_length(point_count, k - 1),
            ALIGNMENT as int,
        )
    }
}

/// The length of the whole binary buffer for `point_count` points.
pub open spec fn glb_buffer_length(point_count: int) -> int {
    attribute_offset(point_count, ATTRIBUTE_COUNT as int)
}

/// Names of the buffer views
pub open spec fn view_name(k: int) -> Seq<char> {
    if k == 0 {
        "Positions"@
    } else if k == 1 {
        "Colors"@
    } else if k == 2 {
        "Cluster Coordinates"@
    } else if k == 3 {
        "Feature ID 0 (iterations)"@
    } else if k == 4 {
        "Feature ID 1 (cluster copy)"@
    } else if k == 5 {
        "Feature ID 2 (cluster id)"@
    } else if k == 6 {
        "Feature ID 3 (point id)"@
    } else {
        "Last xform applied"@
    }
}

/// Names of the accessors
pub open spec fn accessor_name(k: int) -> Seq<char> {
    if k == 8 {
        "Last color xform applied"@
    } else {
        view_name(k)
    }
}

/// Vertex attribute semantics of the accessors
pub open spec fn attribute_semantic(k: int) -> Seq<char> {
    if k == 0 {
        "POSITION"@
    } else if k == 1 {
        "COLOR_0"@
    } else if k == 2 {
        "_CLUSTER_COORDINATES"@
    } else if k == 3 {
        "_FEATURE_ID_0"@
    } else if k == 4 {
        "_FEATURE_ID_1"@
    } else if k == 5 {
        "_FEATURE_ID_2"@
    } else if k == 6 {
        "_FEATURE_ID_3"@
    } else if k == 7 {
        "_LAST_XFORM"@
    } else {
        "_LAST_COLOR_XFORM"@
    }
}

/// Accessor types
pub open spec fn attribute_type(k: int) -> Seq<char> {
    if k <= 2 {
        "VEC3"@
    } else {
        "SCALAR"@
    }
}

/// Accessor component types: the colors are unsigned bytes, the rest floats
pub open spec fn attribute_component_type(k: int) -> u32 {
    if k == 1 {
        GLTF_UNSIGNED_BYTE
    } else {
        GLTF_FLOAT
    }
}

/// The buffer view of attribute `k`, given the id it was assigned.
pub open spec fn is_attribute_view(view: BufferView, point_count: int, k: int, id: int) -> bool {
    &&& view.name@ == view_name(k)
    &&& view.id == id
    &&& view.byte_offset == attribute_offset(point_count, k)
    &&& view.byte_length == attribute_length(point_count, k)
    &&& view.byte_stride == (if k == 1 { Some(4u32) } else { None::<u32> })
    &&& view.padding_length == glb_padding(attribute_length(point_count, k), ALIGNMENT as int)
}

/// The accessor of attribute `k`, given the ids it and its view were assigned.
pub open spec fn is_attribute_accessor(
    accessor: Accessor,
    point_count: int,
    k: int,
    id: int,
    view_id: int,
) -> bool {
    &&& accessor.semantic@ == attribute_semantic(k)
    &&& accessor.accessor_id == id
    &&& accessor.name@ == accessor_name(k)
    &&& accessor.buffer_view == view_id
    &&& accessor.count == point_count
    &&& accessor.accessor_type@ == attribute_type(k)
    &&& accessor.component_type == attribute_component_type(k)
    &&& accessor.normalized == (k == 1)
}

/// Bytes that attribute `k` stores for one point.
pub open spec fn point_attribute_bytes(p: GlbPoint, k: int) -> Seq<u8> {
    if k == 0 {
        packed_vec3(p.position@)
    } else if k == 1 {
        // colors are a normalized vec3 of 3 bytes, plus a fourth byte of
        // padding
        packed_color(p.color@).push(0u8)
    } else if k == 2 {
        packed_vec3(p.cluster_coordinates@)
    } else if k == 3 {
        le_u32(p.iteration_bits)
    } else if k == 4 {
        le_u32(p.cluster_copy_bits)
    } else if k == 5 {
        le_u32(p.cluster_id_bits)
    } else if k == 6 {
        le_u32(p.point_id_bits)
    } else if k == 7 {
        le_u32(p.last_xform_bits)
    } else {
        le_u32(p.last_color_xform_bits)
    }
}

/// The data of the buffer view of attribute `k`: the bytes of each point in
/// turn.
pub open spec fn attribute_bytes(points: Seq<GlbPoint>, k: int) -> Seq<u8>
    decreases points.len(),
{
    if points.len() == 0 {
        Seq::empty()
    } else {
        attribute_bytes(points.drop_last(), k) + point_attribute_bytes(points.last(), k)
    }
}

pub proof fn lemma_attribute_bytes_len(points: Seq<GlbPoint>, k: int)
    requires
        0 <= k < 9,
    ensures
        attribute_bytes(points, k).len() == attribute_length(points.len() as int, k),
    decreases points.len(),
{
    if points.len() > 0 {
        lemma_attribute_bytes_len(points.drop_last(), k);
    }
}

/// The data of attribute `k` followed by the padding of its buffer view.
pub open spec fn padded_attribute_bytes(points: Seq<GlbPoint>, views: Seq<BufferView>, k: int) -> Seq<u8> {
    attribute_bytes(points, k) + repeat_byte(PADDING_BINARY, views[k].padding_length as nat)
}

/// The binary buffer: the nine padded buffer views one after the other.
#[verifier::opaque]
pub open spec fn buffer_bytes(points: Seq<GlbPoint>, views: Seq<BufferView>) -> Seq<u8> {
    padded_attribute_bytes(points, views, 0) + padded_attribute_bytes(points, views, 1)
        + padded_attribute_bytes(points, views, 2) + padded_attribute_bytes(points, views, 3)
        + padded_attribute_bytes(points, views, 4) + padded_attribute_bytes(points, views, 5)
        + padded_attribute_bytes(points, views, 6) + padded_attribute_bytes(points, views, 7)
        + padded_attribute_bytes(points, views, 8)
}

/// The magic number "glTF"
pub open spec fn glb_magic() -> Seq<u8> {
    seq![0x67u8, 0x6cu8, 0x54u8, 0x46u8]
}

/// The chunk type "JSON"
pub open spec fn json_chunk_type() -> Seq<u8> {
    seq![0x4au8, 0x53u8, 0x4fu8, 0x4eu8]
}

/// The chunk type "BIN\0"
pub open spec fn binary_chunk_type() -> Seq<u8> {
    seq![0x42u8, 0x49u8, 0x4eu8, 0x00u8]
}

/// The set of distinct iteration numbers of the points
pub open spec fn distinct_iterations(points: Seq<GlbPoint>) -> Set<u64> {
    Set::new(|v: u64| exists|i: int| 0 <= i < points.len() && points[i].iteration == v)
}

/// The set of distinct cluster copies of the points
pub open spec fn distinct_cluster_copies(points: Seq<GlbPoint>) -> Set<u16> {
    Set::new(|v: u16| exists|i: int| 0 <= i < points.len() && points[i].cluster_copy == v)
}

/// The set of distinct cluster ids of the points
pub open spec fn distinct_cluster_ids(points: Seq<GlbPoint>) -> Set<u16> {
    Set::new(|v: u16| exists|i: int| 0 <= i < points.len() && points[i].cluster_id == v)
}

/// The set of distinct point ids of the points
pub open spec fn distinct_point_ids(points: Seq<GlbPoint>) -> Set<u16> {
    Set::new(|v: u16| exists|i: int| 0 <= i < points.len() && points[i].point_id == v)
}

/// The number of distinct values of each feature ID, as the glTF
/// `featureCount` requires
pub struct FeatureCounts {
    pub iterations: usize,
    pub cluster_copies: usize,
    pub cluster_ids: usize,
    pub point_ids: usize,
}

/// An object that can write a point cloud as a binary GLTF (GLB) file.
pub struct GlbWriter {
    /// Number of points in this glTF point cloud
    point_count: u32,
    /// Total length of binary glTF, including header and all chunks
    total_length: u32,
    /// The layout of the JSON chunk
    json_chunk: Chunk,
    /// The layout of the BIN chunk
    binary_chunk: Chunk,
    /// The total length of the buffer in the BIN chunk
    buffer_length: u32,
    /// The glTF accessors.
    accessors: Vec<Accessor>,
    /// The glTF buffer views.
    buffer_views: Vec<BufferView>,
    /// The final JSON string that will be written to the JSON chunk
    json: String,
}

impl GlbWriter {
    pub closed spec fn layout_point_count(&self) -> u32 {
        self.point_count
    }

    pub closed spec fn layout_total_length(&self) -> u32 {
        self.total_length
    }

    pub closed spec fn layout_json_chunk(&self) -> (u32, u32) {
        (self.json_chunk.chunk_length, self.json_chunk.padding_length)
    }

    pub closed spec fn layout_binary_chunk(&self) -> (u32, u32) {
        (self.binary_chunk.chunk_length, self.binary_chunk.padding_length)
    }

    pub closed spec fn layout_buffer_length(&self) -> u32 {
        self.buffer_length
    }

    pub closed spec fn layout_accessors(&self) -> Seq<Accessor> {
        self.accessors@
    }

    pub closed spec fn layout_buffer_views(&self) -> Seq<BufferView> {
        self.buffer_views@
    }

    pub closed spec fn layout_json(&self) -> Seq<u8> {
        utf8_bytes(&self.json)
    }

    /// An empty writer
    pub fn new() -> (w: Self)
        ensures
            w.layout_point_count() == 0,
            w.layout_total_length() == 0,
            w.layout_json_chunk() == (0u32, 0u32),
            w.layout_binary_chunk() == (0u32, 0u32),
            w.layout_buffer_length() == 0,
            w.layout_accessors() == Seq::<Accessor>::empty(),
            w.layout_buffer_views() == Seq::<BufferView>::empty(),
            w.layout_json() == Seq::<u8>::empty(),
    {
        let w = Self {
            point_count: 0,
            total_length: 0,
            json_chunk: Chunk::new(),
            binary_chunk: Chunk::new(),
            buffer_length: 0,
            accessors: Vec::new(),
            buffer_views: Vec::new(),
            json: String::new(),
        };
        assert(utf8_bytes(&w.json) =~= Seq::<u8>::empty());
        w
    }

    /// The accessors, for writing the glTF JSON
    pub fn get_accessors(&self) -> (accessors: &Vec<Accessor>)
        ensures
            accessors@ == self.layout_accessors(),
    {
        &self.accessors
    }

    /// The buffer views, for writing the glTF JSON
    pub fn get_buffer_views(&self) -> (views: &Vec<BufferView>)
        ensures
            views@ == self.layout_buffer_views(),
    {
        &self.buffer_views
    }

    /// The length of the buffer in the BIN chunk
    pub fn get_buffer_length(&self) -> (length: u32)
        ensures
            length == self.layout_buffer_length(),
    {
        self.buffer_length
    }

    /// The number of points the layout is for
    pub fn get_point_count(&self) -> (count: u32)
        ensures
            count == self.layout_point_count(),
    {
        self.point_count
    }

    /// Add a buffer view starting at `byte_offset` and an accessor for it;
    /// return the offset after the view and its padding.
    fn add_attribute(
        &mut self,
        view_name: &str,
        byte_offset: u32,
        byte_length: u32,
        byte_stride: Option<u32>,
        semantic: &str,
        name: &str,
        accessor_type: &str,
        component_type: u32,
        normalized: bool,
    ) -> (next_offset: u32)
        requires
            byte_offset + byte_length + glb_padding(byte_length as int, ALIGNMENT as int)
                <= u32::MAX,
            old(self).buffer_views@.len() < u32::MAX,
            old(self).accessors@.len() < u32::MAX,
        ensures
            next_offset == byte_offset + byte_length + glb_padding(
                byte_length as int,
                ALIGNMENT as int,
            ),
            final(self).buffer_views@.len() == old(self).buffer_views@.len() + 1,
            final(self).buffer_views@.drop_last() == old(self).buffer_views@,
            ({
                let view = final(self).buffer_views@.last();
                &&& view.name@ == view_name@
                &&& view.id == old(self).buffer_views@.len()
                &&& view.byte_offset == byte_offset
                &&& view.byte_length == byte_length
                &&& view.byte_stride == byte_stride
                &&& view.padding_length == glb_padding(byte_length as int, ALIGNMENT as int)
            }),
            final(self).accessors@.len() == old(self).accessors@.len() + 1,
            final(self).accessors@.drop_last() == old(self).accessors@,
            ({
                let accessor = final(self).accessors@.last();
                &&& accessor.semantic@ == semantic@
                &&& accessor.accessor_id == old(self).accessors@.len()
                &&& accessor.name@ == name@
                &&& accessor.buffer_view == old(self).buffer_views@.len()
                &&& accessor.count == old(self).point_count
                &&& accessor.accessor_type@ == accessor_type@
                &&& accessor.component_type == component_type
                &&& accessor.normalized == normalized
            }),
            final(self).point_count == old(self).point_count,
            final(self).total_length == old(self).total_length,
            final(self).json_chunk == old(self).json_chunk,
            final(self).binary_chunk == old(self).binary_chunk,
            final(self).buffer_length == old(self).buffer_length,
            final(self).json == old(self).json,
    {
        let mut view = BufferView::new(
            view_name,
            self.buffer_views.len() as u32,
            byte_offset,
            byte_length,
        );
        view.byte_stride = byte_stride;
        let view_id = view.id;
        let next_offset = view.after_offset();
        self.buffer_views.push(view);
        let accessor = Accessor::new(
            semantic,
            self.accessors.len() as u32,
            name,
            view_id,
            self.point_count,
            accessor_type,
            component_type,
            normalized,
        );
        self.accessors.push(accessor);
        next_offset
    }

    /// The last `count` buffer views and accessors, starting at indices
    /// `base_v` and `base_a`, are those of the first `count` attributes for
    /// `point_count` points.
    #[verifier::opaque]
    pub open spec fn has_attribute_layout(
        &self,
        point_count: int,
        base_v: int,
        base_a: int,
        count: int,
    ) -> bool {
        &&& self.layout_buffer_views().len() == base_v + count
        &&& self.layout_accessors().len() == base_a + count
        &&& forall|k: int|
            0 <= k < count ==> is_attribute_view(
                #[trigger] self.layout_buffer_views()[base_v + k],
                point_count,
                k,
                base_v + k,
            )
        &&& forall|k: int|
            0 <= k < count ==> is_attribute_accessor(
                #[trigger] self.layout_accessors()[base_a + k],
                point_count,
                k,
                base_a + k,
                base_v + k,
            )
    }

    proof fn lemma_extend_layout(self, n: int, base_v: int, base_a: int, k: int)
        requires
            0 <= k < 9,
            self.buffer_views@.len() == base_v + k + 1,
            self.accessors@.len() == base_a + k + 1,
            self.buffer_views@.drop_last().len() == base_v + k,
            forall|j: int|
                0 <= j < k ==> is_attribute_view(
                    #[trigger] self.buffer_views@[base_v + j],
                    n,
                    j,
                    base_v + j,
                ),
            forall|j: int|
                0 <= j < k ==> is_attribute_accessor(
                    #[trigger] self.accessors@[base_a + j],
                    n,
                    j,
                    base_a + j,
                    base_v + j,
                ),
            is_attribute_view(self.buffer_views@[base_v + k], n, k, base_v + k),
            is_attribute_accessor(self.accessors@[base_a + k], n, k, base_a + k, base_v + k),
        ensures
            self.has_attribute_layout(n, base_v, base_a, k + 1),
    {
        reveal(GlbWriter::has_attribute_layout);
    }

    /// Compute the layout of the .glb file (byte offsets and lengths): nine
    /// buffer views laid out one after the other, each padded to 8 bytes,
    /// with one accessor each, and the BIN chunk that holds them.
    pub fn compute_layout(&mut self, point_count: u32)
        requires
            glb_buffer_length(point_count as int) <= u32::MAX,
            old(self).layout_buffer_views().len() + ATTRIBUTE_COUNT <= u32::MAX,
            old(self).layout_accessors().len() + ATTRIBUTE_COUNT <= u32::MAX,
        ensures
            final(self).layout_point_count() == point_count,
            final(self).has_attribute_layout(
                point_count as int,
                old(self).layout_buffer_views().len() as int,
                old(self).layout_accessors().len() as int,
                ATTRIBUTE_COUNT as int,
            ),
            final(self).layout_buffer_views().subrange(
                0,
                old(self).layout_buffer_views().len() as int,
            ) == old(self).layout_buffer_views(),
            final(self).layout_accessors().subrange(0, old(self).layout_accessors().len() as int)
                == old(self).layout_accessors(),
            final(self).layout_buffer_length() == glb_buffer_length(point_count as int),
            final(self).layout_binary_chunk() == (
                glb_buffer_length(point_count as int) as u32,
                0u32,
            ),
            final(self).layout_total_length() == old(self).layout_total_length(),
            final(self).layout_json_chunk() == old(self).layout_json_chunk(),
            final(self).layout_json() == old(self).layout_json(),
    {
        self.point_count = point_count;
        let ghost n = point_count as int;
        let ghost base_v = self.buffer_views@.len() as int;
        let ghost base_a = self.accessors@.len() as int;
        let ghost old_views = self.buffer_views@;
        let ghost old_accessors = self.accessors@;
        proof {
            reveal_with_fuel(attribute_offset, 10);
            reveal(GlbWriter::has_attribute_layout);
        }
        let mut next_offset: u32 = 0;
        // vec3 POSITION
        next_offset = self.add_attribute(
            "Positions", next_offset, point_count * SIZE_VEC3, None, "POSITION", "Positions", "VEC3", GLTF_FLOAT, false);
        proof {
            self.lemma_extend_layout(n, base_v, base_a, 0);
        }
        // vec3 COLOR_0, stored as 3 x UNSIGNED_BYTE + 1 byte padding; a normalized vec3 is only 3 bytes, so set the stride
        next_offset = self.add_attribute(
            "Colors", next_offset, point_count * (SIZE_COLOR_RGB + 1), Some(SIZE_COLOR_RGB + 1), "COLOR_0", "Colors", "VEC3", GLTF_UNSIGNED_BYTE, true);
        proof {
            self.lemma_extend_layout(n, base_v, base_a, 1);
        }
        // vec3 _CLUSTER_COORDINATES (aka uvw coordinates)
        next_offset = self.add_attribute(
            "Cluster Coordinates", next_offset, point_count * SIZE_VEC3, None, "_CLUSTER_COORDINATES", "Cluster Coordinates", "VEC3", GLTF_FLOAT, false);
        proof {
            self.lemma_extend_layout(n, base_v, base_a, 2);
        }
        // float _FEATURE_ID_0 (iterations)
        next_offset = self.add_attribute(
            "Feature ID 0 (iterations)", next_offset, point_count * SIZE_FLOAT, None, "_FEATURE_ID_0", "Feature ID 0 (iterations)", "SCALAR", GLTF_FLOAT, false);
        proof {
            self.lemma_extend_layout(n, base_v, base_a, 3);
        }
        // float _FEATURE_ID_1 (cluster copy)
        next_offset = self.add_attribute(
            "Feature ID 1 (cluster copy)", next_offset, point_count * SIZE_FLOAT, None, "_FEATURE_ID_1", "Feature ID 1 (cluster copy)", "SCALAR", GLTF_FLOAT, false);
        proof {
            self.lemma_extend_layout(n, base_v, base_a, 4);
        }
        // float _FEATURE_ID_2 (cluster id)
        next_offset = self.add_attribute(
            "Feature ID 2 (cluster id)", next_offset, point_count * SIZE_FLOAT, None, "_FEATURE_ID_2", "Feature ID 2 (cluster id)", "SCALAR", GLTF_FLOAT, false);
        proof {
            self.lemma_extend_layout(n, base_v, base_a, 5);
        }
        // float _FEATURE_ID_3 (point id)
        next_offset = self.add_attribute(
            "Feature ID 3 (point id)", next_offset, point_count * SIZE_FLOAT, None, "_FEATURE_ID_3", "Feature ID 3 (point id)", "SCALAR", GLTF_FLOAT, false);
        proof {
            self.lemma_extend_layout(n, base_v, base_a, 6);
        }
        // float _LAST_XFORM
        next_offset = self.add_attribute(
            "Last xform applied", next_offset, point_count * SIZE_FLOAT, None, "_LAST_XFORM", "Last xform applied", "SCALAR", GLTF_FLOAT, false);
        proof {
            self.lemma_extend_layout(n, base_v, base_a, 7);
        }
        // float _LAST_COLOR_XFORM
        next_offset = self.add_attribute(
            "Last xform applied", next_offset, point_count * SIZE_FLOAT, None, "_LAST_COLOR_XFORM", "Last color xform applied", "SCALAR", GLTF_FLOAT, false);
        proof {
            self.lemma_extend_layout(n, base_v, base_a, 8);
        }

        // The offset after the last buffer view is equal to the length of
        // the entire buffer. Since the buffer views are already padded, no
        // extra padding is needed
        self.binary_chunk.chunk_length = next_offset;
        self.binary_chunk.padding_length = 0;
        self.buffer_length = next_offset;
        proof {
            assert(self.buffer_views@.subrange(0, base_v) =~= old_views);
            assert(self.accessors@.subrange(0, base_a) =~= old_accessors);
        }
    }
    /// Store the glTF JSON for the JSON chunk and its length, padded to 8
    /// bytes.
    pub fn make_json(&mut self, json: String)
        requires
            utf8_bytes(&json).len() + ALIGNMENT <= u32::MAX,
        ensures
            final(self).layout_json() == utf8_bytes(&json),
            final(self).layout_json_chunk() == (
                utf8_bytes(&json).len() as u32,
                glb_padding(utf8_bytes(&json).len() as int, ALIGNMENT as int) as u32,
            ),
            final(self).layout_point_count() == old(self).layout_point_count(),
            final(self).layout_total_length() == old(self).layout_total_length(),
            final(self).layout_binary_chunk() == old(self).layout_binary_chunk(),
            final(self).layout_buffer_length() == old(self).layout_buffer_length(),
            final(self).layout_accessors() == old(self).layout_accessors(),
            final(self).layout_buffer_views() == old(self).layout_buffer_views(),
    {
        let length = json.as_str().len() as u32;
        self.json = json;
        self.json_chunk.chunk_length = length;
        self.json_chunk.padding_length = compute_padding_length(length, ALIGNMENT);
    }

    /// Now that both chunks are laid out, compute the total length: header
    /// and both chunks.
    pub fn compute_total_length(&mut self)
        requires
            GLTF_HEADER_LENGTH + GLTF_CHUNK_HEADER_LENGTH + old(self).layout_json_chunk().0
                + old(self).layout_json_chunk().1 + GLTF_CHUNK_HEADER_LENGTH
                + old(self).layout_binary_chunk().0 + old(self).layout_binary_chunk().1
                <= u32::MAX,
        ensures
            final(self).layout_total_length() == GLTF_HEADER_LENGTH + GLTF_CHUNK_HEADER_LENGTH
                + old(self).layout_json_chunk().0 + old(self).layout_json_chunk().1
                + GLTF_CHUNK_HEADER_LENGTH + old(self).layout_binary_chunk().0
                + old(self).layout_binary_chunk().1,
            final(self).layout_point_count() == old(self).layout_point_count(),
            final(self).layout_json_chunk() == old(self).layout_json_chunk(),
            final(self).layout_binary_chunk() == old(self).layout_binary_chunk(),
            final(self).layout_buffer_length() == old(self).layout_buffer_length(),
            final(self).layout_accessors() == old(self).layout_accessors(),
            final(self).layout_buffer_views() == old(self).layout_buffer_views(),
            final(self).layout_json() == old(self).layout_json(),
    {
        self.total_length = GLTF_HEADER_LENGTH + self.json_chunk.total_length()
            + self.binary_chunk.total_length();
    }

    /// Count the number of unique IDs for each of the feature IDs, since
    /// featureCount is required.
    pub fn compute_feature_id_counts(&self, points: &Vec<GlbPoint>) -> (counts: FeatureCounts)
        ensures
            counts.iterations == distinct_iterations(points@).len(),
            counts.cluster_copies == distinct_cluster_copies(points@).len(),
            counts.cluster_ids == distinct_cluster_ids(points@).len(),
            counts.point_ids == distinct_point_ids(points@).len(),
    {
        broadcast use vstd::std_specs::hash::group_hash_axioms;

        let mut iterations: HashSet<u64> = HashSet::new();
        let mut cluster_copies: HashSet<u16> = HashSet::new();
        let mut cluster_ids: HashSet<u16> = HashSet::new();
        let mut point_ids: HashSet<u16> = HashSet::new();
        let mut i: usize = 0;
        while i < points.len()
            invariant
                i <= points@.len(),
                iterations@ == distinct_iterations(points@.take(i as int)),
                cluster_copies@ == distinct_cluster_copies(points@.take(i as int)),
                cluster_ids@ == distinct_cluster_ids(points@.take(i as int)),
                point_ids@ == distinct_point_ids(points@.take(i as int)),
            decreases points@.len() - i,
        {
            let point = &points[i];
            iterations.insert(point.iteration);
            cluster_copies.insert(point.cluster_copy);
            cluster_ids.insert(point.cluster_id);
            point_ids.insert(point.point_id);
            let ghost prefix = points@.take(i + 1);
            assert(prefix[i as int] == points@[i as int]);
            assert forall|j: int| 0 <= j < i implies prefix[j] == points@.take(i as int)[j] by {}
            assert(iterations@ =~= distinct_iterations(prefix));
            assert(cluster_copies@ =~= distinct_cluster_copies(prefix));
            assert(cluster_ids@ =~= distinct_cluster_ids(prefix));
            assert(point_ids@ =~= distinct_point_ids(prefix));
            i = i + 1;
        }
        assert(points@.take(i as int) =~= points@);
        FeatureCounts {
            iterations: iterations.len(),
            cluster_copies: cluster_copies.len(),
            cluster_ids: cluster_ids.len(),
            point_ids: point_ids.len(),
        }
    }
    /// The GLB header: magic, version, total length.
    pub open spec fn header_bytes(&self) -> Seq<u8> {
        glb_magic() + le_u32(GLTF_VERSION) + le_u32(self.layout_total_length())
    }

    /// The JSON chunk: data length, chunk type, JSON, space padding.
    pub open spec fn json_chunk_bytes(&self) -> Seq<u8> {
        le_u32((self.layout_json_chunk().0 + self.layout_json_chunk().1) as u32)
            + json_chunk_type() + self.layout_json() + repeat_byte(
            PADDING_JSON,
            self.layout_json_chunk().1 as nat,
        )
    }

    /// The BIN chunk: data length, chunk type, buffer.
    pub open spec fn binary_chunk_bytes(&self, points: Seq<GlbPoint>) -> Seq<u8> {
        le_u32((self.layout_binary_chunk().0 + self.layout_binary_chunk().1) as u32)
            + binary_chunk_type() + buffer_bytes(points, self.layout_buffer_views())
    }

    /// The whole GLB file.
    pub open spec fn glb_bytes(&self, points: Seq<GlbPoint>) -> Seq<u8> {
        self.header_bytes() + self.json_chunk_bytes() + self.binary_chunk_bytes(points)
    }

    /// Encode the GLB header
    pub fn encode_header(&self) -> (bytes: Vec<u8>)
        ensures
            bytes@ == self.header_bytes(),
    {
        let mut bytes: Vec<u8> = Vec::new();
        bytes.push(0x67);
        bytes.push(0x6c);
        bytes.push(0x54);
        bytes.push(0x46);
        push_u32_le(&mut bytes, GLTF_VERSION);
        push_u32_le(&mut bytes, self.total_length);
        assert(bytes@ =~= self.header_bytes());
        bytes
    }

    /// Encode the JSON chunk
    pub fn encode_json_chunk(&self) -> (bytes: Vec<u8>)
        requires
            self.layout_json_chunk().0 + self.layout_json_chunk().1 <= u32::MAX,
        ensures
            bytes@ == self.json_chunk_bytes(),
    {
        let mut bytes: Vec<u8> = Vec::new();
        push_u32_le(&mut bytes, self.json_chunk.data_length());
        bytes.push(0x4a);
        bytes.push(0x53);
        bytes.push(0x4f);
        bytes.push(0x4e);
        push_bytes(&mut bytes, self.json.as_str().as_bytes());
        let padding = make_padding(self.json_chunk.padding_length, PADDING_JSON);
        push_bytes(&mut bytes, padding.as_slice());
        assert(bytes@ =~= self.json_chunk_bytes());
        bytes
    }

    /// Encode the binary chunk
    pub fn encode_binary_chunk(&self, points: &Vec<GlbPoint>) -> (bytes: Vec<u8>)
        requires
            self.layout_binary_chunk().0 + self.layout_binary_chunk().1 <= u32::MAX,
            self.layout_buffer_views().len() >= ATTRIBUTE_COUNT,
        ensures
            bytes@ == self.binary_chunk_bytes(points@),
    {
        let mut bytes: Vec<u8> = Vec::new();
        push_u32_le(&mut bytes, self.binary_chunk.data_length());
        bytes.push(0x42);
        bytes.push(0x49);
        bytes.push(0x4e);
        bytes.push(0x00);
        let buffer = self.encode_buffer(points);
        push_bytes(&mut bytes, buffer.as_slice());
        assert(bytes@ =~= self.binary_chunk_bytes(points@));
        bytes
    }

    /// Encode the binary buffer from a list of points: the data of each
    /// buffer view followed by its padding
    pub fn encode_buffer(&self, points: &Vec<GlbPoint>) -> (bytes: Vec<u8>)
        requires
            self.layout_buffer_views().len() >= ATTRIBUTE_COUNT,
        ensures
            bytes@ == buffer_bytes(points@, self.layout_buffer_views()),
    {
        let mut positions: Vec<u8> = Vec::new();
        let mut colors: Vec<u8> = Vec::new();
        let mut cluster_coordinates: Vec<u8> = Vec::new();
        let mut iterations: Vec<u8> = Vec::new();
        let mut cluster_copies: Vec<u8> = Vec::new();
        let mut cluster_ids: Vec<u8> = Vec::new();
        let mut point_ids: Vec<u8> = Vec::new();
        let mut last_xforms: Vec<u8> = Vec::new();
        let mut last_color_xforms: Vec<u8> = Vec::new();
        let mut i: usize = 0;
        while i < points.len()
            invariant
                i <= points@.len(),
                positions@ == attribute_bytes(points@.take(i as int), 0),
                colors@ == attribute_bytes(points@.take(i as int), 1),
                cluster_coordinates@ == attribute_bytes(points@.take(i as int), 2),
                iterations@ == attribute_bytes(points@.take(i as int), 3),
                cluster_copies@ == attribute_bytes(points@.take(i as int), 4),
                cluster_ids@ == attribute_bytes(points@.take(i as int), 5),
                point_ids@ == attribute_bytes(points@.take(i as int), 6),
                last_xforms@ == attribute_bytes(points@.take(i as int), 7),
                last_color_xforms@ == attribute_bytes(points@.take(i as int), 8),
            decreases points@.len() - i,
        {
            let point = &points[i];
            push_bytes(&mut positions, point.position.pack().as_slice());
            // colors is a normalized vec3. Since each one is only 3 bytes,
            // we need to add a fourth byte of padding.
            push_bytes(&mut colors, point.color.pack().as_slice());
            colors.push(0x00);
            push_bytes(&mut cluster_coordinates, point.cluster_coordinates.pack().as_slice());
            // all of the ids, though they are actually integers, are stored
            // in the glTF as FLOAT accessors since this is easiest for use
            // on the GPU.
            push_u32_le(&mut iterations, point.iteration_bits);
            push_u32_le(&mut cluster_copies, point.cluster_copy_bits);
            push_u32_le(&mut cluster_ids, point.cluster_id_bits);
            push_u32_le(&mut point_ids, point.point_id_bits);
            push_u32_le(&mut last_xforms, point.last_xform_bits);
            push_u32_le(&mut last_color_xforms, point.last_color_xform_bits);
            let ghost prefix = points@.take(i + 1);
            assert(prefix.drop_last() =~= points@.take(i as int));
            assert(positions@ =~= attribute_bytes(prefix, 0));
            assert(colors@ =~= attribute_bytes(prefix, 1));
            assert(cluster_coordinates@ =~= attribute_bytes(prefix, 2));
            assert(iterations@ =~= attribute_bytes(prefix, 3));
            assert(cluster_copies@ =~= attribute_bytes(prefix, 4));
            assert(cluster_ids@ =~= attribute_bytes(prefix, 5));
            assert(point_ids@ =~= attribute_bytes(prefix, 6));
            assert(last_xforms@ =~= attribute_bytes(prefix, 7));
            assert(last_color_xforms@ =~= attribute_bytes(prefix, 8));
            i = i + 1;
        }
        assert(points@.take(i as int) =~= points@);
        let mut bytes: Vec<u8> = Vec::new();
        push_bytes(&mut bytes, positions.as_slice());
        let padding = make_padding(self.buffer_views[0].padding_length, PADDING_BINARY);
        push_bytes(&mut bytes, padding.as_slice());
        push_bytes(&mut bytes, colors.as_slice());
        let padding = make_padding(self.buffer_views[1].padding_length, PADDING_BINARY);
        push_bytes(&mut bytes, padding.as_slice());
        push_bytes(&mut bytes, cluster_coordinates.as_slice());
        let padding = make_padding(self.buffer_views[2].padding_length, PADDING_BINARY);
        push_bytes(&mut bytes, padding.as_slice());
        push_bytes(&mut bytes, iterations.as_slice());
        let padding = make_padding(self.buffer_views[3].padding_length, PADDING_BINARY);
        push_bytes(&mut bytes, padding.as_slice());
        push_bytes(&mut bytes, cluster_copies.as_slice());
        let padding = make_padding(self.buffer_views[4].padding_length, PADDING_BINARY);
        push_bytes(&mut bytes, padding.as_slice());
        push_bytes(&mut bytes, cluster_ids.as_slice());
        let padding = make_padding(self.buffer_views[5].padding_length, PADDING_BINARY);
        push_bytes(&mut bytes, padding.as_slice());
        push_bytes(&mut bytes, point_ids.as_slice());
        let padding = make_padding(self.buffer_views[6].padding_length, PADDING_BINARY);
        push_bytes(&mut bytes, padding.as_slice());
        push_bytes(&mut bytes, last_xforms.as_slice());
        let padding = make_padding(self.buffer_views[7].padding_length, PADDING_BINARY);
        push_bytes(&mut bytes, padding.as_slice());
        push_bytes(&mut bytes, last_color_xforms.as_slice());
        let padding = make_padding(self.buffer_views[8].padding_length, PADDING_BINARY);
        push_bytes(&mut bytes, padding.as_slice());
        assert(bytes@ =~= buffer_bytes(points@, self.layout_buffer_views())) by {
            reveal(buffer_bytes);
        }
        bytes
    }

    /// Encode a list of points in GLB format, with the layout and JSON that
    /// were computed for them
    pub fn encode(&self, points: &Vec<GlbPoint>) -> (bytes: Vec<u8>)
        requires
            self.layout_json_chunk().0 + self.layout_json_chunk().1 <= u32::MAX,
            self.layout_binary_chunk().0 + self.layout_binary_chunk().1 <= u32::MAX,
            self.layout_buffer_views().len() >= ATTRIBUTE_COUNT,
        ensures
            bytes@ == self.glb_bytes(points@),
    {
        let mut bytes = self.encode_header();
        let json_chunk = self.encode_json_chunk();
        push_bytes(&mut bytes, json_chunk.as_slice());
        let binary_chunk = self.encode_binary_chunk(points);
        push_bytes(&mut bytes, binary_chunk.as_slice());
        bytes
    }
}

} // verus!

verus! {

/// The first `k` padded buffer views of the binary buffer.
pub open spec fn buffer_prefix(points: Seq<GlbPoint>, views: Seq<BufferView>, k: int) -> Seq<u8>
    decreases k,
{
    if k <= 0 {
        Seq::empty()
    } else {
        buffer_prefix(points, views, k - 1) + padded_attribute_bytes(points, views, k - 1)
    }
}

proof fn lemma_padding_aligns(x: int)
    requires
        x >= 0,
    ensures
        (x + glb_padding(x, ALIGNMENT as int)) % 8 == 0,
        0 <= glb_padding(x, ALIGNMENT as int) < 8,
{
}

proof fn lemma_buffer_prefix(points: Seq<GlbPoint>, views: Seq<BufferView>, j: int)
    requires
        0 <= j <= 9,
        forall|k: int|
            0 <= k < 9 ==> is_attribute_view(
                #[trigger] views[k],
                points.len() as int,
                k,
                k,
            ),
    ensures
        buffer_prefix(points, views, j).len() == attribute_offset(points.len() as int, j),
        forall|k: int|
            0 <= k < j ==> (#[trigger] buffer_prefix(points, views, j).subrange(
                attribute_offset(points.len() as int, k),
                attribute_offset(points.len() as int, k) + attribute_length(
                    points.len() as int,
                    k,
                ),
            )) == attribute_bytes(points, k),
    decreases j,
{
    let n = points.len() as int;
    if j > 0 {
        lemma_buffer_prefix(points, views, j - 1);
        lemma_attribute_bytes_len(points, j - 1);
        let prev = buffer_prefix(points, views, j - 1);
        let piece = padded_attribute_bytes(points, views, j - 1);
        assert forall|k: int| 0 <= k < j implies (#[trigger] buffer_prefix(
            points,
            views,
            j,
        ).subrange(attribute_offset(n, k), attribute_offset(n, k) + attribute_length(n, k)))
            == attribute_bytes(points, k) by {
            lemma_attribute_bytes_len(points, k);
            lemma_attribute_offset_monotonic(n, 0, k);
            if k < j - 1 {
                lemma_attribute_offset_monotonic(n, k, k + 1);
                lemma_attribute_offset_monotonic(n, k + 1, j - 1);
                assert((prev + piece).subrange(
                    attribute_offset(n, k),
                    attribute_offset(n, k) + attribute_length(n, k),
                ) =~= prev.subrange(
                    attribute_offset(n, k),
                    attribute_offset(n, k) + attribute_length(n, k),
                ));
            } else {
                assert((prev + piece).subrange(
                    attribute_offset(n, k),
                    attribute_offset(n, k) + attribute_length(n, k),
                ) =~= attribute_bytes(points, k));
            }
        }
    }
}

proof fn lemma_attribute_offset_monotonic(n: int, i: int, j: int)
    requires
        n >= 0,
        0 <= i <= j,
    ensures
        attribute_offset(n, i) + (if i < j { attribute_length(n, i) } else { 0 })
            <= attribute_offset(n, j),
    decreases j - i,
{
    if i < j {
        lemma_attribute_offset_monotonic(n, i + 1, j);
    }
}

/// The padding after an attribute is at most 4 bytes: every attribute
/// length is a multiple of 4.
proof fn lemma_attribute_padding(n: int, k: int)
    requires
        n >= 0,
    ensures
        0 <= glb_padding(attribute_length(n, k), ALIGNMENT as int) <= 4,
        (attribute_length(n, k) + glb_padding(attribute_length(n, k), ALIGNMENT as int)) % 8 == 0,
{
    lemma_padding_aligns(attribute_length(n, k));
    let m = 4 * n;
    assert(m % 8 == 0 || m % 8 == 4) by (nonlinear_arith)
        requires
            m == 4 * n,
            n >= 0,
    ;
    assert((12 * n) % 8 == m % 8) by (nonlinear_arith)
        requires
            m == 4 * n,
    ;
}

/// The offsets of the buffer views are multiples of 8, and each is at most
/// the lengths before it plus 4 bytes of padding per view.
proof fn lemma_attribute_offset_aligned(n: int, k: int)
    requires
        n >= 0,
        0 <= k,
    ensures
        attribute_offset(n, k) % 8 == 0,
        attribute_offset(n, k) <= unpadded_offset(n, k) + 4 * k,
    decreases k,
{
    if k > 0 {
        lemma_attribute_offset_aligned(n, k - 1);
        lemma_attribute_padding(n, k - 1);
        let prev = attribute_offset(n, k - 1);
        let step = attribute_length(n, k - 1) + glb_padding(attribute_length(n, k - 1), ALIGNMENT as int);
        assert(attribute_offset(n, k) == prev + step);
        assert((prev + step) % 8 == 0) by (nonlinear_arith)
            requires
                prev % 8 == 0,
                step % 8 == 0,
        ;
    }
}

/// The offset of buffer view `k` without padding: the lengths before it
spec fn unpadded_offset(n: int, k: int) -> int
    decreases k,
{
    if k <= 0 {
        0
    } else {
        unpadded_offset(n, k - 1) + attribute_length(n, k - 1)
    }
}

/// Buffer view layout: each buffer view starts at a multiple of 8 bytes,
/// right after the padding of the one before, and the buffer length is the
/// offset after the last one.
pub proof fn lemma_buffer_views_aligned(point_count: int, k: int)
    requires
        point_count >= 0,
        0 <= k <= 9,
    ensures
        attribute_offset(point_count, k) % 8 == 0,
        k < 9 ==> attribute_offset(point_count, k + 1) == attribute_offset(point_count, k)
            + attribute_length(point_count, k) + glb_padding(
            attribute_length(point_count, k),
            ALIGNMENT as int,
        ),
        glb_buffer_length(point_count) % 8 == 0,
        glb_buffer_length(point_count) <= 52 * point_count + 36,
{
    lemma_attribute_offset_aligned(point_count, k);
    lemma_attribute_offset_aligned(point_count, 9);
    reveal_with_fuel(unpadded_offset, 10);
    assert(unpadded_offset(point_count, 9) == 52 * point_count);
}

/// Where the data is: for a writer whose buffer views were laid out by
/// `compute_layout` for these points, the bytes of the buffer at the offset
/// and length of the buffer view of attribute `k` are exactly that
/// attribute's data, and the buffer has the length that the layout gives.
pub proof fn lemma_buffer_views_locate_attributes(
    w: GlbWriter,
    points: Seq<GlbPoint>,
    k: int,
)
    requires
        w.has_attribute_layout(points.len() as int, 0, 0, 9),
        0 <= k < 9,
    ensures
        buffer_bytes(points, w.layout_buffer_views()).len() == glb_buffer_length(
            points.len() as int,
        ),
        buffer_bytes(points, w.layout_buffer_views()).subrange(
            w.layout_buffer_views()[k].byte_offset as int,
            w.layout_buffer_views()[k].byte_offset + w.layout_buffer_views()[k].byte_length,
        ) == attribute_bytes(points, k),
{
    reveal(GlbWriter::has_attribute_layout);
    let views = w.layout_buffer_views();
    assert forall|j: int| 0 <= j < 9 implies is_attribute_view(
        #[trigger] views[j],
        points.len() as int,
        j,
        j,
    ) by {
        assert(is_attribute_view(views[0 + j], points.len() as int, j, 0 + j));
    }
    lemma_buffer_prefix(points, views, 9);
    reveal_with_fuel(buffer_prefix, 10);
    assert(buffer_bytes(points, views) =~= buffer_prefix(points, views, 9)) by {
        reveal(buffer_bytes);
    }
    assert(is_attribute_view(views[k], points.len() as int, k, k));
}

proof fn lemma_glb_bytes_len(w: GlbWriter, points: Seq<GlbPoint>)
    ensures
        w.glb_bytes(points).len() == 12 + 8 + w.layout_json_chunk().1 + w.layout_json().len() + 8
            + buffer_bytes(points, w.layout_buffer_views()).len(),
{
}

/// The GLB file of a point cloud is exactly as long as its header says, and
/// both chunks end on 4-byte boundaries, as glTF requires: the JSON chunk
/// data is padded to a multiple of 8 and the BIN chunk holds the buffer of
/// 8-byte aligned buffer views.
#[verifier::rlimit(30)]
pub proof fn lemma_glb_file_length(w: GlbWriter, points: Seq<GlbPoint>)
    requires
        w.has_attribute_layout(points.len() as int, 0, 0, 9),
        w.layout_binary_chunk().0 == glb_buffer_length(points.len() as int),
        w.layout_binary_chunk().1 == 0,
        w.layout_json_chunk().0 == w.layout_json().len(),
        w.layout_json_chunk().1 == glb_padding(w.layout_json().len() as int, ALIGNMENT as int),
        w.layout_total_length() == GLTF_HEADER_LENGTH + GLTF_CHUNK_HEADER_LENGTH
            + w.layout_json_chunk().0 + w.layout_json_chunk().1 + GLTF_CHUNK_HEADER_LENGTH
            + w.layout_binary_chunk().0 + w.layout_binary_chunk().1,
    ensures
        w.glb_bytes(points).len() == w.layout_total_length(),
        (w.layout_json_chunk().0 + w.layout_json_chunk().1) % 8 == 0,
        w.layout_binary_chunk().0 % 8 == 0,
        w.layout_total_length() % 4 == 0,
{
    let n = points.len() as int;
    let buffer_len = buffer_bytes(points, w.layout_buffer_views()).len() as int;
    let json_len = w.layout_json().len() as int;
    let buffer_length = glb_buffer_length(n);
    let json_padding = glb_padding(json_len, ALIGNMENT as int);
    assert(buffer_len == buffer_length) by {
        lemma_buffer_views_locate_attributes(w, points, 0);
    }
    assert(buffer_length % 8 == 0) by {
        lemma_buffer_views_aligned(n, 9);
    }
    assert((json_len + json_padding) % 8 == 0) by {
        lemma_padding_aligns(json_len);
    }
    assert(w.glb_bytes(points).len() == 28 + json_padding + json_len + buffer_len) by {
        lemma_glb_bytes_len(w, points);
    }
    lemma_aligned_sum(json_len + json_padding, buffer_length);
}

/// Two multiples of 8 together, after the 28 bytes of the headers, are a
/// multiple of 4.
proof fn lemma_aligned_sum(a: int, b: int)
    requires
        a % 8 == 0,
        b % 8 == 0,
    ensures
        (28 + a + b) % 4 == 0,
{
    assert((28 + a + b) % 4 == 0) by (nonlinear_arith)
        requires
            a % 8 == 0,
            b % 8 == 0,
    ;
}


/// A property of the fractal metadata class: a type of single-precision
/// components
pub open spec fn spec_class_property(property_type: Seq<char>) -> JsonSpec {
    JsonSpec::Object(Seq::empty()
        .push(("type"@, JsonSpec::Str(property_type)))
        .push(("componentType"@, JsonSpec::Str("FLOAT32"@))))
}

/// The per-point properties of the fractal metadata class
pub open spec fn spec_class_properties() -> JsonSpec {
    JsonSpec::Object(Seq::empty()
        .push(("cluster_coordinates"@, spec_class_property("VEC3"@)))
        .push(("iteration"@, spec_class_property("SCALAR"@)))
        .push(("cluster_copy"@, spec_class_property("SCALAR"@)))
        .push(("cluster_id"@, spec_class_property("SCALAR"@)))
        .push(("point_id"@, spec_class_property("SCALAR"@)))
        .push(("last_xform"@, spec_class_property("SCALAR"@)))
        .push(("last_color_xform"@, spec_class_property("SCALAR"@))))
}

/// The attribute that holds a property
pub open spec fn spec_attribute_mapping(attribute: Seq<char>) -> JsonSpec {
    JsonSpec::Object(Seq::empty().push(("attribute"@, JsonSpec::Str(attribute))))
}

/// The attributes that hold each property
pub open spec fn spec_property_mappings() -> JsonSpec {
    JsonSpec::Object(Seq::empty()
        .push(("cluster_coordinates"@, spec_attribute_mapping("_CLUSTER_COORDINATES"@)))
        .push(("iteration"@, spec_attribute_mapping("_FEATURE_ID_0"@)))
        .push(("cluster_copy"@, spec_attribute_mapping("_FEATURE_ID_1"@)))
        .push(("cluster_id"@, spec_attribute_mapping("_FEATURE_ID_2"@)))
        .push(("point_id"@, spec_attribute_mapping("_FEATURE_ID_3"@)))
        .push(("last_xform"@, spec_attribute_mapping("_LAST_XFORM"@)))
        .push(("last_color_xform"@, spec_attribute_mapping("_LAST_COLOR_XFORM"@))))
}

/// The EXT_structural_metadata extension of the glTF: a class `fractal`
/// of per-point properties, and the attributes that hold them.
pub open spec fn spec_structural_metadata() -> JsonSpec {
    JsonSpec::Object(Seq::empty()
        .push(("schema"@, JsonSpec::Object(Seq::empty()
            .push(("classes"@, JsonSpec::Object(Seq::empty()
                .push(("fractal"@, JsonSpec::Object(Seq::empty()
                    .push(("name"@, JsonSpec::Str("Fractal"@)))
                    .push(("description"@, JsonSpec::Str("Per-point fractal properties"@)))
                    .push(("properties"@, spec_class_properties())))))))))))
        .push(("propertyMappings"@, JsonSpec::Object(Seq::empty()
            .push(("class"@, JsonSpec::Str("fractal"@)))
            .push(("properties"@, spec_property_mappings()))))))
}

/// A feature ID of EXT_mesh_features: the number of features and the
/// index `n` of the `_FEATURE_ID_n` attribute
pub open spec fn spec_feature_id(count: usize, attribute: u64) -> JsonSpec {
    JsonSpec::Object(Seq::empty()
        .push(("featureCount"@, spec_uint(count as u64)))
        .push(("attribute"@, spec_uint(attribute))))
}

/// The feature IDs of the points
pub open spec fn spec_feature_ids(counts: FeatureCounts) -> JsonSpec {
    JsonSpec::Object(Seq::empty()
        .push(("iterations"@, spec_feature_id(counts.iterations, 0)))
        .push(("cluster_copy"@, spec_feature_id(counts.cluster_copies, 1)))
        .push(("cluster_id"@, spec_feature_id(counts.cluster_ids, 2)))
        .push(("point_id"@, spec_feature_id(counts.point_ids, 3))))
}

/// The attributes of the primitive: each accessor's semantic with its id
pub open spec fn spec_attributes(accessors: Seq<Accessor>) -> Seq<(Seq<char>, JsonSpec)> {
    Seq::new(
        accessors.len(),
        |k: int| (accessors[k].semantic@, spec_uint(accessors[k].accessor_id as u64)),
    )
}

/// The glTF JSON of an accessor (the bounds of the positions are left to
/// the caller: they are floating point)
pub open spec fn spec_accessor(a: Accessor) -> JsonSpec {
    let members = Seq::empty()
        .push(("name"@, JsonSpec::Str(a.name@)))
        .push(("bufferView"@, spec_uint(a.buffer_view as u64)))
        .push(("count"@, spec_uint(a.count as u64)))
        .push(("type"@, JsonSpec::Str(a.accessor_type@)))
        .push(("componentType"@, spec_uint(a.component_type as u64)));
    JsonSpec::Object(
        if a.normalized {
            members.push(("normalized"@, JsonSpec::Bool(true)))
        } else {
            members
        },
    )
}

/// The glTF JSON of the accessors, in order
pub open spec fn spec_accessors(accessors: Seq<Accessor>) -> Seq<JsonSpec> {
    Seq::new(accessors.len(), |k: int| spec_accessor(accessors[k]))
}

/// The glTF JSON of a buffer view of buffer 0
pub open spec fn spec_buffer_view(v: BufferView) -> JsonSpec {
    let members = Seq::empty()
        .push(("name"@, JsonSpec::Str(v.name@)))
        .push(("buffer"@, spec_uint(0)))
        .push(("byteOffset"@, spec_uint(v.byte_offset as u64)))
        .push(("byteLength"@, spec_uint(v.byte_length as u64)));
    JsonSpec::Object(
        match v.byte_stride {
            Some(stride) => members.push(("byteStride"@, spec_uint(stride as u64))),
            None => members,
        },
    )
}

/// The glTF JSON of the buffer views, in order
pub open spec fn spec_buffer_views(views: Seq<BufferView>) -> Seq<JsonSpec> {
    Seq::new(views.len(), |k: int| spec_buffer_view(views[k]))
}

/// The node of the point cloud: mesh 0, with a matrix that turns the z-up
/// coordinates of the fractal into the y-up coordinates of glTF
pub open spec fn spec_node() -> JsonSpec {
    JsonSpec::Object(Seq::empty()
        .push(("mesh"@, spec_uint(0)))
        .push(("matrix"@, JsonSpec::Array(Seq::empty()
                .push(spec_uint(1))
                .push(spec_uint(0))
                .push(spec_uint(0))
                .push(spec_uint(0))
                .push(spec_uint(0))
                .push(spec_uint(0))
                .push(JsonSpec::Number(false, 1, 0))
                .push(spec_uint(0))
                .push(spec_uint(0))
                .push(spec_uint(1))
                .push(spec_uint(0))
                .push(spec_uint(0))
                .push(spec_uint(0))
                .push(spec_uint(0))
                .push(spec_uint(0))
                .push(spec_uint(1))))))
}

/// The single primitive of the mesh: points, with their attributes, feature
/// IDs and property mappings
pub open spec fn spec_primitive(accessors: Seq<Accessor>, counts: FeatureCounts) -> JsonSpec {
    JsonSpec::Object(Seq::empty()
        .push(("attributes"@, JsonSpec::Object(spec_attributes(accessors))))
        .push(("mode"@, spec_uint(GLTF_POINTS as u64)))
        .push(("extensions"@, JsonSpec::Object(Seq::empty()
            .push(("EXT_mesh_features"@, JsonSpec::Object(Seq::empty()
                .push(("featureIds"@, spec_feature_ids(counts))))))
            .push(("EXT_structural_metadata"@, JsonSpec::Object(Seq::empty()
                .push(("propertyMappings"@, JsonSpec::Array(Seq::empty()
                    .push(spec_uint(0))))))))))))
}

/// The glTF JSON of a point cloud with the given accessors, buffer views,
/// buffer length and feature counts: one scene with one node holding one
/// mesh of points, and the structural metadata of the points.
pub open spec fn spec_gltf_document(
    accessors: Seq<Accessor>,
    views: Seq<BufferView>,
    buffer_length: u32,
    counts: FeatureCounts,
) -> JsonSpec {
    JsonSpec::Object(Seq::empty()
        .push(("asset"@, JsonSpec::Object(Seq::empty()
            .push(("version"@, JsonSpec::Str("2.0"@))))))
        .push(("extensions"@, JsonSpec::Object(Seq::empty()
            .push(("EXT_structural_metadata"@, spec_structural_metadata())))))
        .push(("scene"@, spec_uint(0)))
        .push(("scenes"@, JsonSpec::Array(Seq::empty()
            .push(JsonSpec::Object(Seq::empty()
                .push(("nodes"@, JsonSpec::Array(Seq::empty()
                    .push(spec_uint(0))))))))))
        .push(("nodes"@, JsonSpec::Array(Seq::empty()
            .push(spec_node()))))
        .push(("meshes"@, JsonSpec::Array(Seq::empty()
            .push(JsonSpec::Object(Seq::empty()
                .push(("primitives"@, JsonSpec::Array(Seq::empty()
                    .push(spec_primitive(accessors, counts))))))))))
        .push(("accessors"@, JsonSpec::Array(spec_accessors(accessors))))
        .push(("bufferViews"@, JsonSpec::Array(spec_buffer_views(views))))
        .push(("buffers"@, JsonSpec::Array(Seq::empty()
            .push(JsonSpec::Object(Seq::empty()
                .push(("byteLength"@, spec_uint(buffer_length as u64)))))))))
}

/// The glTF JSON of a buffer view states that view's own name, buffer,
/// byte offset and byte length.
pub proof fn lemma_buffer_view_members(v: BufferView)
    ensures
        spec_get(spec_buffer_view(v), "name"@) == JsonSpec::Str(v.name@),
        spec_get(spec_buffer_view(v), "buffer"@) == spec_uint(0),
        spec_get(spec_buffer_view(v), "byteOffset"@) == spec_uint(v.byte_offset as u64),
        spec_get(spec_buffer_view(v), "byteLength"@) == spec_uint(v.byte_length as u64),
{
    reveal_strlit("name");
    reveal_strlit("buffer");
    reveal_strlit("byteOffset");
    reveal_strlit("byteLength");
    reveal_strlit("byteStride");
    assert("byteOffset"@[4] != "byteLength"@[4]);
    assert("byteOffset"@[4] != "byteStride"@[4]);
    assert("byteLength"@[4] != "byteStride"@[4]);
    let members = spec_buffer_view(v)->Object_0;
    assert(members[0].0 == "name"@);
    assert(members[1].0 == "buffer"@);
    assert(members[2].0 == "byteOffset"@);
    assert(members[3].0 == "byteLength"@);
    lemma_get_unique(members, "name"@, 0);
    lemma_get_unique(members, "buffer"@, 1);
    lemma_get_unique(members, "byteOffset"@, 2);
    lemma_get_unique(members, "byteLength"@, 3);
}

/// The value of `key` in the feature ID under `feature` of a featureIds
/// object
pub open spec fn feature_id_member(feature_ids: JsonSpec, feature: Seq<char>, key: Seq<char>) -> JsonSpec {
    spec_get(spec_get(feature_ids, feature), key)
}

/// The attribute that the structural metadata maps a per-point property to
pub open spec fn mapped_attribute(metadata: JsonSpec, property: Seq<char>) -> JsonSpec {
    spec_get(
        spec_get(spec_get(spec_get(metadata, "propertyMappings"@), "properties"@), property),
        "attribute"@,
    )
}

/// Each per-point property of the fractal is held by the attribute of the
/// same meaning: the cluster coordinates by attribute 2, the iteration,
/// cluster copy, cluster id and point id by the feature IDs 0 to 3
/// (attributes 3 to 6), the last xforms by attributes 7 and 8.
pub proof fn lemma_property_mappings()
    ensures
        mapped_attribute(spec_structural_metadata(), "cluster_coordinates"@) == JsonSpec::Str(
            attribute_semantic(2),
        ),
        mapped_attribute(spec_structural_metadata(), "iteration"@) == JsonSpec::Str(
            attribute_semantic(3),
        ),
        mapped_attribute(spec_structural_metadata(), "cluster_copy"@) == JsonSpec::Str(
            attribute_semantic(4),
        ),
        mapped_attribute(spec_structural_metadata(), "cluster_id"@) == JsonSpec::Str(
            attribute_semantic(5),
        ),
        mapped_attribute(spec_structural_metadata(), "point_id"@) == JsonSpec::Str(
            attribute_semantic(6),
        ),
        mapped_attribute(spec_structural_metadata(), "last_xform"@) == JsonSpec::Str(
            attribute_semantic(7),
        ),
        mapped_attribute(spec_structural_metadata(), "last_color_xform"@) == JsonSpec::Str(
            attribute_semantic(8),
        ),
{
    reveal_strlit("schema");
    reveal_strlit("propertyMappings");
    reveal_strlit("class");
    reveal_strlit("properties");
    reveal_strlit("attribute");
    reveal_strlit("cluster_coordinates");
    reveal_strlit("iteration");
    reveal_strlit("cluster_copy");
    reveal_strlit("cluster_id");
    reveal_strlit("point_id");
    reveal_strlit("last_xform");
    reveal_strlit("last_color_xform");
    assert("cluster_id"@[0] != "last_xform"@[0]);
    let top = spec_structural_metadata()->Object_0;
    assert(top[1].0 == "propertyMappings"@);
    lemma_get_unique(top, "propertyMappings"@, 1);
    let mappings = top[1].1->Object_0;
    assert(mappings[1].0 == "properties"@);
    lemma_get_unique(mappings, "properties"@, 1);
    let properties = mappings[1].1->Object_0;
    assert(properties[0].0 == "cluster_coordinates"@);
    assert(properties[1].0 == "iteration"@);
    assert(properties[2].0 == "cluster_copy"@);
    assert(properties[3].0 == "cluster_id"@);
    assert(properties[4].0 == "point_id"@);
    assert(properties[5].0 == "last_xform"@);
    assert(properties[6].0 == "last_color_xform"@);
    lemma_get_unique(properties, "cluster_coordinates"@, 0);
    lemma_get_unique(properties, "iteration"@, 1);
    lemma_get_unique(properties, "cluster_copy"@, 2);
    lemma_get_unique(properties, "cluster_id"@, 3);
    lemma_get_unique(properties, "point_id"@, 4);
    lemma_get_unique(properties, "last_xform"@, 5);
    lemma_get_unique(properties, "last_color_xform"@, 6);
    lemma_get_unique(properties[0].1->Object_0, "attribute"@, 0);
    lemma_get_unique(properties[1].1->Object_0, "attribute"@, 0);
    lemma_get_unique(properties[2].1->Object_0, "attribute"@, 0);
    lemma_get_unique(properties[3].1->Object_0, "attribute"@, 0);
    lemma_get_unique(properties[4].1->Object_0, "attribute"@, 0);
    lemma_get_unique(properties[5].1->Object_0, "attribute"@, 0);
    lemma_get_unique(properties[6].1->Object_0, "attribute"@, 0);
}

/// The structural metadata maps exactly the properties that its class
/// declares to attributes, in the same order.
pub proof fn lemma_structural_metadata_maps_class()
    ensures
        ({
            let metadata = spec_structural_metadata();
            let declared = spec_get(
                spec_get(spec_get(spec_get(metadata, "schema"@), "classes"@), "fractal"@),
                "properties"@,
            );
            let mapped = spec_get(spec_get(metadata, "propertyMappings"@), "properties"@);
            &&& object_keys(declared) == object_keys(mapped)
            &&& object_keys(mapped).len() == 7
        }),
{
    reveal_strlit("schema");
    reveal_strlit("propertyMappings");
    reveal_strlit("classes");
    reveal_strlit("fractal");
    reveal_strlit("name");
    reveal_strlit("description");
    reveal_strlit("class");
    reveal_strlit("properties");
    let top = spec_structural_metadata()->Object_0;
    assert(top[0].0 == "schema"@);
    assert(top[1].0 == "propertyMappings"@);
    lemma_get_unique(top, "schema"@, 0);
    lemma_get_unique(top, "propertyMappings"@, 1);
    let schema = top[0].1->Object_0;
    lemma_get_unique(schema, "classes"@, 0);
    let classes = schema[0].1->Object_0;
    lemma_get_unique(classes, "fractal"@, 0);
    let fractal = classes[0].1->Object_0;
    assert(fractal[0].0 == "name"@);
    assert(fractal[1].0 == "description"@);
    assert(fractal[2].0 == "properties"@);
    lemma_get_unique(fractal, "properties"@, 2);
    let mappings = top[1].1->Object_0;
    assert(mappings[1].0 == "properties"@);
    lemma_get_unique(mappings, "properties"@, 1);
    assert(object_keys(fractal[2].1) =~= object_keys(mappings[1].1));
}

/// A feature ID states its own count and attribute index.
pub proof fn lemma_feature_id_members(count: usize, attribute: u64)
    ensures
        spec_get(spec_feature_id(count, attribute), "featureCount"@) == spec_uint(count as u64),
        spec_get(spec_feature_id(count, attribute), "attribute"@) == spec_uint(attribute),
{
    reveal_strlit("featureCount");
    reveal_strlit("attribute");
    let members = spec_feature_id(count, attribute)->Object_0;
    assert(members[0].0 == "featureCount"@);
    assert(members[1].0 == "attribute"@);
    lemma_get_unique(members, "featureCount"@, 0);
    lemma_get_unique(members, "attribute"@, 1);
}

/// Each feature ID counts the distinct values of its own attribute and
/// names the index of that attribute: iterations 0, cluster copies 1,
/// cluster ids 2, point ids 3.
pub proof fn lemma_feature_ids_members(counts: FeatureCounts)
    ensures
        feature_id_member(spec_feature_ids(counts), "iterations"@, "featureCount"@) == spec_uint(
            counts.iterations as u64,
        ),
        feature_id_member(spec_feature_ids(counts), "iterations"@, "attribute"@) == spec_uint(0),
        feature_id_member(spec_feature_ids(counts), "cluster_copy"@, "featureCount"@) == spec_uint(
            counts.cluster_copies as u64,
        ),
        feature_id_member(spec_feature_ids(counts), "cluster_copy"@, "attribute"@) == spec_uint(1),
        feature_id_member(spec_feature_ids(counts), "cluster_id"@, "featureCount"@) == spec_uint(
            counts.cluster_ids as u64,
        ),
        feature_id_member(spec_feature_ids(counts), "cluster_id"@, "attribute"@) == spec_uint(2),
        feature_id_member(spec_feature_ids(counts), "point_id"@, "featureCount"@) == spec_uint(
            counts.point_ids as u64,
        ),
        feature_id_member(spec_feature_ids(counts), "point_id"@, "attribute"@) == spec_uint(3),
{
    reveal_strlit("iterations");
    reveal_strlit("cluster_copy");
    reveal_strlit("cluster_id");
    reveal_strlit("point_id");
    reveal_strlit("featureCount");
    reveal_strlit("attribute");
    assert("iterations"@[0] != "cluster_id"@[0]);
    let members = spec_feature_ids(counts)->Object_0;
    assert(members[0].0 == "iterations"@);
    assert(members[1].0 == "cluster_copy"@);
    assert(members[2].0 == "cluster_id"@);
    assert(members[3].0 == "point_id"@);
    lemma_get_unique(members, "iterations"@, 0);
    lemma_get_unique(members, "cluster_copy"@, 1);
    lemma_get_unique(members, "cluster_id"@, 2);
    lemma_get_unique(members, "point_id"@, 3);
    lemma_feature_id_members(counts.iterations, 0);
    lemma_feature_id_members(counts.cluster_copies, 1);
    lemma_feature_id_members(counts.cluster_ids, 2);
    lemma_feature_id_members(counts.point_ids, 3);
}

/// The featureIds of EXT_mesh_features on the first primitive of the first
/// mesh of a glTF document
pub open spec fn gltf_feature_ids(doc: JsonSpec) -> JsonSpec {
    spec_get(
        spec_get(spec_get(gltf_primitive(doc), "extensions"@), "EXT_mesh_features"@),
        "featureIds"@,
    )
}

/// The first primitive of the first mesh of a glTF document
pub open spec fn gltf_primitive(doc: JsonSpec) -> JsonSpec {
    spec_item(spec_get(spec_item(spec_get(doc, "meshes"@), 0), "primitives"@), 0)
}

/// Once the layout is computed, the primitive of the point cloud maps the
/// semantic of each attribute `k` to accessor `k`.
pub proof fn lemma_gltf_attributes_follow_layout(w: GlbWriter, counts: FeatureCounts, k: int)
    requires
        w.has_attribute_layout(w.layout_point_count() as int, 0, 0, ATTRIBUTE_COUNT as int),
        0 <= k < ATTRIBUTE_COUNT,
    ensures
        spec_get(
            spec_get(
                gltf_primitive(
                    spec_gltf_document(
                        w.layout_accessors(),
                        w.layout_buffer_views(),
                        w.layout_buffer_length(),
                        counts,
                    ),
                ),
                "attributes"@,
            ),
            attribute_semantic(k),
        ) == spec_uint(k as u64),
{
    reveal(GlbWriter::has_attribute_layout);
    reveal_strlit("asset");
    reveal_strlit("extensions");
    reveal_strlit("scene");
    reveal_strlit("scenes");
    reveal_strlit("nodes");
    reveal_strlit("meshes");
    reveal_strlit("accessors");
    reveal_strlit("bufferViews");
    reveal_strlit("buffers");
    reveal_strlit("primitives");
    reveal_strlit("attributes");
    reveal_strlit("mode");
    reveal_strlit("POSITION");
    reveal_strlit("COLOR_0");
    reveal_strlit("_CLUSTER_COORDINATES");
    reveal_strlit("_FEATURE_ID_0");
    reveal_strlit("_FEATURE_ID_1");
    reveal_strlit("_FEATURE_ID_2");
    reveal_strlit("_FEATURE_ID_3");
    reveal_strlit("_LAST_XFORM");
    reveal_strlit("_LAST_COLOR_XFORM");
    assert("attributes"@[0] != "extensions"@[0]);
    assert("meshes"@[0] != "scenes"@[0]);
    let accessors = w.layout_accessors();
    let members = spec_gltf_document(
        accessors,
        w.layout_buffer_views(),
        w.layout_buffer_length(),
        counts,
    )->Object_0;
    assert(members[5].0 == "meshes"@);
    lemma_get_unique(members, "meshes"@, 5);
    let mesh = members[5].1->Array_0[0]->Object_0;
    lemma_get_unique(mesh, "primitives"@, 0);
    let primitive = mesh[0].1->Array_0[0]->Object_0;
    assert(primitive[0].0 == "attributes"@);
    lemma_get_unique(primitive, "attributes"@, 0);
    let attributes = spec_attributes(accessors);
    assert forall|i: int| 0 <= i < 9 implies #[trigger] attributes[i].0 == attribute_semantic(i)
        && attributes[i].1 == spec_uint(i as u64) by {
        assert(is_attribute_accessor(accessors[0 + i], w.layout_point_count() as int, i, 0 + i, 0 + i));
    }
    assert forall|i: int| 0 <= i < 9 && i != k implies attribute_semantic(i) != attribute_semantic(k) by {
        assert("POSITION"@.len() == 8);
        assert("COLOR_0"@.len() == 7);
        assert("_CLUSTER_COORDINATES"@.len() == 20);
        assert("_FEATURE_ID_0"@.len() == 13);
        assert("_FEATURE_ID_1"@.len() == 13);
        assert("_FEATURE_ID_2"@.len() == 13);
        assert("_FEATURE_ID_3"@.len() == 13);
        assert("_LAST_XFORM"@.len() == 11);
        assert("_LAST_COLOR_XFORM"@.len() == 17);
        assert("_FEATURE_ID_0"@[12] != "_FEATURE_ID_1"@[12]);
        assert("_FEATURE_ID_0"@[12] != "_FEATURE_ID_2"@[12]);
        assert("_FEATURE_ID_0"@[12] != "_FEATURE_ID_3"@[12]);
        assert("_FEATURE_ID_1"@[12] != "_FEATURE_ID_2"@[12]);
        assert("_FEATURE_ID_1"@[12] != "_FEATURE_ID_3"@[12]);
        assert("_FEATURE_ID_2"@[12] != "_FEATURE_ID_3"@[12]);
    }
    lemma_get_unique(attributes, attribute_semantic(k), k);
}

/// The point cloud's primitive carries the feature IDs of the given counts:
/// each counts the distinct values of its attribute.
pub proof fn lemma_gltf_feature_ids(
    accessors: Seq<Accessor>,
    views: Seq<BufferView>,
    buffer_length: u32,
    counts: FeatureCounts,
)
    ensures
        ({
            let ids = gltf_feature_ids(spec_gltf_document(accessors, views, buffer_length, counts));
            &&& feature_id_member(ids, "iterations"@, "featureCount"@) == spec_uint(
                counts.iterations as u64,
            )
            &&& feature_id_member(ids, "cluster_copy"@, "featureCount"@) == spec_uint(
                counts.cluster_copies as u64,
            )
            &&& feature_id_member(ids, "cluster_id"@, "featureCount"@) == spec_uint(
                counts.cluster_ids as u64,
            )
            &&& feature_id_member(ids, "point_id"@, "featureCount"@) == spec_uint(
                counts.point_ids as u64,
            )
        }),
{
    reveal_strlit("asset");
    reveal_strlit("extensions");
    reveal_strlit("scene");
    reveal_strlit("scenes");
    reveal_strlit("nodes");
    reveal_strlit("meshes");
    reveal_strlit("accessors");
    reveal_strlit("bufferViews");
    reveal_strlit("buffers");
    reveal_strlit("primitives");
    reveal_strlit("attributes");
    reveal_strlit("mode");
    reveal_strlit("EXT_mesh_features");
    reveal_strlit("EXT_structural_metadata");
    reveal_strlit("featureIds");
    assert("attributes"@[0] != "extensions"@[0]);
    assert("meshes"@[0] != "scenes"@[0]);
    let members = spec_gltf_document(accessors, views, buffer_length, counts)->Object_0;
    assert(members[5].0 == "meshes"@);
    lemma_get_unique(members, "meshes"@, 5);
    let mesh = members[5].1->Array_0[0]->Object_0;
    lemma_get_unique(mesh, "primitives"@, 0);
    let primitive = mesh[0].1->Array_0[0]->Object_0;
    assert(primitive[0].0 == "attributes"@);
    assert(primitive[2].0 == "extensions"@);
    lemma_get_unique(primitive, "extensions"@, 2);
    let extensions = primitive[2].1->Object_0;
    assert(extensions[0].0 == "EXT_mesh_features"@);
    lemma_get_unique(extensions, "EXT_mesh_features"@, 0);
    lemma_get_unique(extensions[0].1->Object_0, "featureIds"@, 0);
    lemma_feature_ids_members(counts);
}

/// The glTF JSON of an accessor states that accessor's own name, buffer
/// view, count, type and component type.
pub proof fn lemma_accessor_members(a: Accessor)
    ensures
        spec_get(spec_accessor(a), "name"@) == JsonSpec::Str(a.name@),
        spec_get(spec_accessor(a), "bufferView"@) == spec_uint(a.buffer_view as u64),
        spec_get(spec_accessor(a), "count"@) == spec_uint(a.count as u64),
        spec_get(spec_accessor(a), "type"@) == JsonSpec::Str(a.accessor_type@),
        spec_get(spec_accessor(a), "componentType"@) == spec_uint(a.component_type as u64),
{
    reveal_strlit("name");
    reveal_strlit("bufferView");
    reveal_strlit("count");
    reveal_strlit("type");
    reveal_strlit("componentType");
    reveal_strlit("normalized");
    assert("name"@[0] != "type"@[0]);
    assert("bufferView"@[0] != "normalized"@[0]);
    let members = spec_accessor(a)->Object_0;
    assert(members[0].0 == "name"@);
    assert(members[1].0 == "bufferView"@);
    assert(members[2].0 == "count"@);
    assert(members[3].0 == "type"@);
    assert(members[4].0 == "componentType"@);
    lemma_get_unique(members, "name"@, 0);
    lemma_get_unique(members, "bufferView"@, 1);
    lemma_get_unique(members, "count"@, 2);
    lemma_get_unique(members, "type"@, 3);
    lemma_get_unique(members, "componentType"@, 4);
}

/// The glTF JSON of the point cloud describes each accessor of the layout at
/// its own index, and its one buffer has the length of the binary buffer.
pub proof fn lemma_gltf_accessors_and_buffer(
    accessors: Seq<Accessor>,
    views: Seq<BufferView>,
    buffer_length: u32,
    counts: FeatureCounts,
    k: int,
)
    requires
        0 <= k < accessors.len(),
    ensures
        ({
            let doc = spec_gltf_document(accessors, views, buffer_length, counts);
            let accessor = spec_item(spec_get(doc, "accessors"@), k);
            &&& spec_get(accessor, "name"@) == JsonSpec::Str(accessors[k].name@)
            &&& spec_get(accessor, "bufferView"@) == spec_uint(accessors[k].buffer_view as u64)
            &&& spec_get(accessor, "count"@) == spec_uint(accessors[k].count as u64)
            &&& spec_get(accessor, "type"@) == JsonSpec::Str(accessors[k].accessor_type@)
            &&& spec_get(accessor, "componentType"@) == spec_uint(
                accessors[k].component_type as u64,
            )
            &&& spec_get(spec_item(spec_get(doc, "buffers"@), 0), "byteLength"@) == spec_uint(
                buffer_length as u64,
            )
        }),
{
    reveal_strlit("asset");
    reveal_strlit("extensions");
    reveal_strlit("scene");
    reveal_strlit("scenes");
    reveal_strlit("nodes");
    reveal_strlit("meshes");
    reveal_strlit("accessors");
    reveal_strlit("bufferViews");
    reveal_strlit("buffers");
    reveal_strlit("byteLength");
    let members = spec_gltf_document(accessors, views, buffer_length, counts)->Object_0;
    assert(members[6].0 == "accessors"@);
    assert(members[8].0 == "buffers"@);
    lemma_get_unique(members, "accessors"@, 6);
    lemma_get_unique(members, "buffers"@, 8);
    assert(spec_accessors(accessors)[k] == spec_accessor(accessors[k]));
    lemma_accessor_members(accessors[k]);
    let buffer = members[8].1->Array_0[0]->Object_0;
    lemma_get_unique(buffer, "byteLength"@, 0);
}

/// The glTF JSON of the point cloud describes each buffer view of the layout
/// at its own index: item `k` of `bufferViews` has the name, byte offset and
/// byte length of view `k`.
pub proof fn lemma_gltf_buffer_views(
    accessors: Seq<Accessor>,
    views: Seq<BufferView>,
    buffer_length: u32,
    counts: FeatureCounts,
    k: int,
)
    requires
        0 <= k < views.len(),
    ensures
        ({
            let view = spec_item(
                spec_get(spec_gltf_document(accessors, views, buffer_length, counts), "bufferViews"@),
                k,
            );
            &&& spec_get(view, "name"@) == JsonSpec::Str(views[k].name@)
            &&& spec_get(view, "byteOffset"@) == spec_uint(views[k].byte_offset as u64)
            &&& spec_get(view, "byteLength"@) == spec_uint(views[k].byte_length as u64)
        }),
{
    reveal_strlit("asset");
    reveal_strlit("extensions");
    reveal_strlit("scene");
    reveal_strlit("scenes");
    reveal_strlit("nodes");
    reveal_strlit("meshes");
    reveal_strlit("accessors");
    reveal_strlit("bufferViews");
    reveal_strlit("buffers");
    let members = spec_gltf_document(accessors, views, buffer_length, counts)->Object_0;
    assert(members[7].0 == "bufferViews"@);
    lemma_get_unique(members, "bufferViews"@, 7);
    assert(spec_buffer_views(views)[k] == spec_buffer_view(views[k]));
    lemma_buffer_view_members(views[k]);
}

/// Once the layout of `n` points is computed, the glTF JSON places buffer
/// view `k` at the offset of attribute `k`, with the length of attribute `k`.
pub proof fn lemma_gltf_views_follow_layout(w: GlbWriter, counts: FeatureCounts, k: int)
    requires
        w.has_attribute_layout(w.layout_point_count() as int, 0, 0, ATTRIBUTE_COUNT as int),
        0 <= k < ATTRIBUTE_COUNT,
    ensures
        ({
            let n = w.layout_point_count() as int;
            let view = spec_item(
                spec_get(
                    spec_gltf_document(
                        w.layout_accessors(),
                        w.layout_buffer_views(),
                        w.layout_buffer_length(),
                        counts,
                    ),
                    "bufferViews"@,
                ),
                k,
            );
            &&& spec_get(view, "name"@) == JsonSpec::Str(view_name(k))
            &&& spec_get(view, "byteOffset"@) == spec_uint(attribute_offset(n, k) as u64)
            &&& spec_get(view, "byteLength"@) == spec_uint(attribute_length(n, k) as u64)
        }),
{
    reveal(GlbWriter::has_attribute_layout);
    let views = w.layout_buffer_views();
    assert(is_attribute_view(views[0 + k], w.layout_point_count() as int, k, 0 + k));
    lemma_gltf_buffer_views(w.layout_accessors(), views, w.layout_buffer_length(), counts, k);
}

fn class_property(property_type: &str) -> (doc: JsonDoc)
    ensures
        doc@ == spec_class_property(property_type@),
{
    let mut members1 = new_members();
    add_member(&mut members1, "type", json_str(property_type));
    add_member(&mut members1, "componentType", json_str("FLOAT32"));
    json_object(members1)
}

fn class_properties() -> (doc: JsonDoc)
    ensures
        doc@ == spec_class_properties(),
{
    let mut members2 = new_members();
    add_member(&mut members2, "cluster_coordinates", class_property("VEC3"));
    add_member(&mut members2, "iteration", class_property("SCALAR"));
    add_member(&mut members2, "cluster_copy", class_property("SCALAR"));
    add_member(&mut members2, "cluster_id", class_property("SCALAR"));
    add_member(&mut members2, "point_id", class_property("SCALAR"));
    add_member(&mut members2, "last_xform", class_property("SCALAR"));
    add_member(&mut members2, "last_color_xform", class_property("SCALAR"));
    json_object(members2)
}

fn attribute_mapping(attribute: &str) -> (doc: JsonDoc)
    ensures
        doc@ == spec_attribute_mapping(attribute@),
{
    let mut members3 = new_members();
    add_member(&mut members3, "attribute", json_str(attribute));
    json_object(members3)
}

fn property_mappings() -> (doc: JsonDoc)
    ensures
        doc@ == spec_property_mappings(),
{
    let mut members4 = new_members();
    add_member(&mut members4, "cluster_coordinates", attribute_mapping("_CLUSTER_COORDINATES"));
    add_member(&mut members4, "iteration", attribute_mapping("_FEATURE_ID_0"));
    add_member(&mut members4, "cluster_copy", attribute_mapping("_FEATURE_ID_1"));
    add_member(&mut members4, "cluster_id", attribute_mapping("_FEATURE_ID_2"));
    add_member(&mut members4, "point_id", attribute_mapping("_FEATURE_ID_3"));
    add_member(&mut members4, "last_xform", attribute_mapping("_LAST_XFORM"));
    add_member(&mut members4, "last_color_xform", attribute_mapping("_LAST_COLOR_XFORM"));
    json_object(members4)
}

fn structural_metadata() -> (doc: JsonDoc)
    ensures
        doc@ == spec_structural_metadata(),
{
    let mut members9 = new_members();
    let mut members7 = new_members();
    let mut members6 = new_members();
    let mut members5 = new_members();
    add_member(&mut members5, "name", json_str("Fractal"));
    add_member(&mut members5, "description", json_str("Per-point fractal properties"));
    add_member(&mut members5, "properties", class_properties());
    add_member(&mut members6, "fractal", json_object(members5));
    add_member(&mut members7, "classes", json_object(members6));
    add_member(&mut members9, "schema", json_object(members7));
    let mut members8 = new_members();
    add_member(&mut members8, "class", json_str("fractal"));
    add_member(&mut members8, "properties", property_mappings());
    add_member(&mut members9, "propertyMappings", json_object(members8));
    json_object(members9)
}

fn feature_id(count: usize, attribute: u64) -> (doc: JsonDoc)
    ensures
        doc@ == spec_feature_id(count, attribute),
{
    let mut members10 = new_members();
    add_member(&mut members10, "featureCount", json_uint(count as u64));
    add_member(&mut members10, "attribute", json_uint(attribute));
    json_object(members10)
}

fn feature_ids(counts: &FeatureCounts) -> (doc: JsonDoc)
    ensures
        doc@ == spec_feature_ids(*counts),
{
    let mut members11 = new_members();
    add_member(&mut members11, "iterations", feature_id(counts.iterations, 0));
    add_member(&mut members11, "cluster_copy", feature_id(counts.cluster_copies, 1));
    add_member(&mut members11, "cluster_id", feature_id(counts.cluster_ids, 2));
    add_member(&mut members11, "point_id", feature_id(counts.point_ids, 3));
    json_object(members11)
}

fn node() -> (doc: JsonDoc)
    ensures
        doc@ == spec_node(),
{
    let mut members13 = new_members();
    add_member(&mut members13, "mesh", json_uint(0));
    let mut items12 = new_items();
    add_item(&mut items12, json_uint(1));
    add_item(&mut items12, json_uint(0));
    add_item(&mut items12, json_uint(0));
    add_item(&mut items12, json_uint(0));
    add_item(&mut items12, json_uint(0));
    add_item(&mut items12, json_uint(0));
    add_item(&mut items12, JsonDoc::Number(false, 1, 0));
    add_item(&mut items12, json_uint(0));
    add_item(&mut items12, json_uint(0));
    add_item(&mut items12, json_uint(1));
    add_item(&mut items12, json_uint(0));
    add_item(&mut items12, json_uint(0));
    add_item(&mut items12, json_uint(0));
    add_item(&mut items12, json_uint(0));
    add_item(&mut items12, json_uint(0));
    add_item(&mut items12, json_uint(1));
    add_member(&mut members13, "matrix", json_array(items12));
    json_object(members13)
}

fn accessor_json(a: &Accessor) -> (doc: JsonDoc)
    ensures
        doc@ == spec_accessor(*a),
{
    let mut members = new_members();
    add_member(&mut members, "name", json_str(a.name.as_str()));
    add_member(&mut members, "bufferView", json_uint(a.buffer_view as u64));
    add_member(&mut members, "count", json_uint(a.count as u64));
    add_member(&mut members, "type", json_str(a.accessor_type.as_str()));
    add_member(&mut members, "componentType", json_uint(a.component_type as u64));
    if a.normalized {
        add_member(&mut members, "normalized", JsonDoc::Bool(true));
    }
    json_object(members)
}

fn buffer_view_json(v: &BufferView) -> (doc: JsonDoc)
    ensures
        doc@ == spec_buffer_view(*v),
{
    let mut members = new_members();
    add_member(&mut members, "name", json_str(v.name.as_str()));
    add_member(&mut members, "buffer", json_uint(0));
    add_member(&mut members, "byteOffset", json_uint(v.byte_offset as u64));
    add_member(&mut members, "byteLength", json_uint(v.byte_length as u64));
    match v.byte_stride {
        Some(stride) => add_member(&mut members, "byteStride", json_uint(stride as u64)),
        None => {},
    }
    json_object(members)
}

fn primitive(accessors: &Vec<Accessor>, counts: &FeatureCounts) -> (doc: JsonDoc)
    ensures
        doc@ == spec_primitive(accessors@, *counts),
{
    let mut attributes = new_members();
    let mut k: usize = 0;
    while k < accessors.len()
        invariant
            k <= accessors@.len(),
            entries_view(attributes@) == spec_attributes(accessors@.subrange(0, k as int)),
        decreases accessors@.len() - k,
    {
        let a = &accessors[k];
        add_member(&mut attributes, a.semantic.as_str(), json_uint(a.accessor_id as u64));
        assert(spec_attributes(accessors@.subrange(0, k + 1)) =~= spec_attributes(
            accessors@.subrange(0, k as int),
        ).push((a.semantic@, spec_uint(a.accessor_id as u64))));
        k = k + 1;
    }
    assert(accessors@.subrange(0, k as int) =~= accessors@);
    let mut mapping_list = new_items();
    add_item(&mut mapping_list, json_uint(0));
    let mut structural = new_members();
    add_member(&mut structural, "propertyMappings", json_array(mapping_list));
    let mut mesh_features = new_members();
    add_member(&mut mesh_features, "featureIds", feature_ids(counts));
    let mut extensions = new_members();
    add_member(&mut extensions, "EXT_mesh_features", json_object(mesh_features));
    add_member(&mut extensions, "EXT_structural_metadata", json_object(structural));
    let mut members = new_members();
    add_member(&mut members, "attributes", json_object(attributes));
    add_member(&mut members, "mode", json_uint(GLTF_POINTS as u64));
    add_member(&mut members, "extensions", json_object(extensions));
    json_object(members)
}

fn accessors_json(accessors: &Vec<Accessor>) -> (doc: JsonDoc)
    ensures
        doc@ == JsonSpec::Array(spec_accessors(accessors@)),
{
    let mut items = new_items();
    let mut k: usize = 0;
    while k < accessors.len()
        invariant
            k <= accessors@.len(),
            items_view(items@) == spec_accessors(accessors@.subrange(0, k as int)),
        decreases accessors@.len() - k,
    {
        add_item(&mut items, accessor_json(&accessors[k]));
        assert(spec_accessors(accessors@.subrange(0, k + 1)) =~= spec_accessors(
            accessors@.subrange(0, k as int),
        ).push(spec_accessor(accessors@[k as int])));
        k = k + 1;
    }
    assert(accessors@.subrange(0, k as int) =~= accessors@);
    json_array(items)
}

fn buffer_views_json(views: &Vec<BufferView>) -> (doc: JsonDoc)
    ensures
        doc@ == JsonSpec::Array(spec_buffer_views(views@)),
{
    let mut items = new_items();
    let mut k: usize = 0;
    while k < views.len()
        invariant
            k <= views@.len(),
            items_view(items@) == spec_buffer_views(views@.subrange(0, k as int)),
        decreases views@.len() - k,
    {
        add_item(&mut items, buffer_view_json(&views[k]));
        assert(spec_buffer_views(views@.subrange(0, k + 1)) =~= spec_buffer_views(
            views@.subrange(0, k as int),
        ).push(spec_buffer_view(views@[k as int])));
        k = k + 1;
    }
    assert(views@.subrange(0, k as int) =~= views@);
    json_array(items)
}

impl GlbWriter {
    /// The glTF JSON of the point cloud laid out by this writer, with the
    /// given feature counts. The bounds of the positions, which glTF asks of
    /// the position accessor, are floating point and left to the caller.
    pub fn gltf_document(&self, counts: &FeatureCounts) -> (doc: JsonDoc)
        ensures
            doc@ == spec_gltf_document(
                self.layout_accessors(),
                self.layout_buffer_views(),
                self.layout_buffer_length(),
                *counts,
            ),
            forall|k: int|
                0 <= k < self.layout_buffer_views().len() ==> spec_get(
                    #[trigger] spec_item(spec_get(doc@, "bufferViews"@), k),
                    "byteOffset"@,
                ) == spec_uint(self.layout_buffer_views()[k].byte_offset as u64),
    {
        let mut version = new_members();
        add_member(&mut version, "version", json_str("2.0"));
        let mut extensions = new_members();
        add_member(&mut extensions, "EXT_structural_metadata", structural_metadata());
        let mut scene_nodes = new_items();
        add_item(&mut scene_nodes, json_uint(0));
        let mut scene = new_members();
        add_member(&mut scene, "nodes", json_array(scene_nodes));
        let mut scenes = new_items();
        add_item(&mut scenes, json_object(scene));
        let mut nodes = new_items();
        add_item(&mut nodes, node());
        let mut primitives = new_items();
        add_item(&mut primitives, primitive(&self.accessors, counts));
        let mut mesh = new_members();
        add_member(&mut mesh, "primitives", json_array(primitives));
        let mut meshes = new_items();
        add_item(&mut meshes, json_object(mesh));
        let mut buffer = new_members();
        add_member(&mut buffer, "byteLength", json_uint(self.buffer_length as u64));
        let mut buffers = new_items();
        add_item(&mut buffers, json_object(buffer));
        let mut doc = new_members();
        add_member(&mut doc, "asset", json_object(version));
        add_member(&mut doc, "extensions", json_object(extensions));
        add_member(&mut doc, "scene", json_uint(0));
        add_member(&mut doc, "scenes", json_array(scenes));
        add_member(&mut doc, "nodes", json_array(nodes));
        add_member(&mut doc, "meshes", json_array(meshes));
        add_member(&mut doc, "accessors", accessors_json(&self.accessors));
        add_member(&mut doc, "bufferViews", buffer_views_json(&self.buffer_views));
        add_member(&mut doc, "buffers", json_array(buffers));
        let doc = json_object(doc);
        proof {
            assert forall|k: int| 0 <= k < self.layout_buffer_views().len() implies spec_get(
                #[trigger] spec_item(spec_get(doc@, "bufferViews"@), k),
                "byteOffset"@,
            ) == spec_uint(self.layout_buffer_views()[k].byte_offset as u64) by {
                lemma_gltf_buffer_views(
                    self.layout_accessors(),
                    self.layout_buffer_views(),
                    self.layout_buffer_length(),
                    *counts,
                    k,
                );
            }
        }
        doc
    }
}

} // verus!
