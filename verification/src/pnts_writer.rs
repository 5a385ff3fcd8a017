//! Writer for the Cesium 3D Tiles 1.0 point cloud format (`.pnts`).
//!
//! The file is a 28-byte header, the feature table JSON padded with spaces
//! so that it ends on an 8-byte boundary, then the feature table binary:
//! all positions, then all RGB colors, padded to an 8-byte boundary.
//! See
//! https://github.com/AnalyticalGraphicsInc/3d-tiles/tree/master/specification/TileFormats/PointCloud
use vstd::prelude::*;
use crate::encoding::{le_u32, repeat_byte, utf8_bytes, push_u32_le, push_bytes, push_repeated};
use crate::vector::{Vector3, Vec3Bits, Color, packed_vec3, packed_color};
use crate::json_doc::{
    json_text, stringify,
    spec_uint,JsonDoc, JsonSpec, json_uint, json_object, add_member, new_members, spec_get,
    lemma_get_unique};

verus! {

/// Cesium Point Cloud format version 1.0
pub const PNTS_VERSION: u32 = 1;

/// The .pnts format uses single-precision floats for compactness
pub const FLOAT_SIZE: u32 = 4;

/// A position is a triple of floats, x, y, z
pub const POSITION_SIZE: u32 = 12;

/// Colors are represented with 3 bytes, r, g, b
pub const COLOR_SIZE: u32 = 3;

/// Each section of the .pnts file must be aligned to 8-byte boundaries
pub const ALIGNMENT: u32 = 8;

/// The header is always 28 bytes
pub const HEADER_LENGTH: u32 = 28;

/// This application doesn't need the batch table
pub const BATCH_TABLE_JSON_LENGTH: u32 = 0;
pub const BATCH_TABLE_BINARY_LENGTH: u32 = 0;
pub const BATCH_TABLE_LENGTH: u32 = 0;

/// The padding character, a space
pub const PADDING_BYTE: u8 = 0x20;

/// The magic number "pnts"
pub open spec fn pnts_magic() -> Seq<u8> {
    seq![0x70u8, 0x6eu8, 0x74u8, 0x73u8]
}

/// Bytes of padding that bring `num_bytes` up to the next multiple of 8.
pub open spec fn pnts_padding(num_bytes: int) -> int {
    (8 - num_bytes % 8) % 8
}

/// Packed positions, one after the other.
pub open spec fn packed_positions(ps: Seq<Vec3Bits>) -> Seq<u8>
    decreases ps.len(),
{
    if ps.len() == 0 {
        Seq::empty()
    } else {
        packed_positions(ps.drop_last()) + packed_vec3(ps.last()@)
    }
}

/// Packed colors, one after the other.
pub open spec fn packed_colors(cs: Seq<Color>) -> Seq<u8>
    decreases cs.len(),
{
    if cs.len() == 0 {
        Seq::empty()
    } else {
        packed_colors(cs.drop_last()) + packed_color(cs.last()@)
    }
}

pub proof fn lemma_packed_positions_len(ps: Seq<Vec3Bits>)
    ensures
        packed_positions(ps).len() == 12 * ps.len(),
    decreases ps.len(),
{
    if ps.len() > 0 {
        lemma_packed_positions_len(ps.drop_last());
    }
}

pub proof fn lemma_packed_colors_len(cs: Seq<Color>)
    ensures
        packed_colors(cs).len() == 3 * cs.len(),
    decreases cs.len(),
{
    if cs.len() > 0 {
        lemma_packed_colors_len(cs.drop_last());
    }
}

/// Custom writer for a Cesium 3D Tiles .pnts file that records points and
/// colors to a binary file.
///
/// Note that these fields are u32 and not usize, this is for compliance with
/// the spec.
pub struct PntsWriter {
    /// String representation of the feature table JSON
    feature_table_json: String,
    /// How much padding to align the feature table JSON portion with the
    /// 8-byte boundary
    json_padding_len: u32,
    /// How much padding to align the binary feature table portion with the
    /// 8-byte boundary
    bin_padding_len: u32,
    /// JSON length + padding
    total_json_len: u32,
    /// Binary length + padding
    total_bin_len: u32,
    /// Total length of the .pnts file
    total_len: u32,
}

impl PntsWriter {
    /// The bytes of the feature table JSON.
    pub closed spec fn json_bytes(&self) -> Seq<u8> {
        utf8_bytes(&self.feature_table_json)
    }

    pub closed spec fn json_padding(&self) -> u32 {
        self.json_padding_len
    }

    pub closed spec fn bin_padding(&self) -> u32 {
        self.bin_padding_len
    }

    pub closed spec fn json_section_len(&self) -> u32 {
        self.total_json_len
    }

    pub closed spec fn bin_section_len(&self) -> u32 {
        self.total_bin_len
    }

    pub closed spec fn file_len(&self) -> u32 {
        self.total_len
    }

    /// The lengths that `prepare_header` computes for a feature table JSON
    /// and a number of points.
    pub open spec fn is_prepared_for(&self, json: Seq<u8>, num_positions: nat) -> bool {
        let binary_len = 15 * num_positions;
        &&& self.json_bytes() == json
        &&& self.json_padding() == pnts_padding(HEADER_LENGTH + json.len())
        &&& self.bin_padding() == pnts_padding(binary_len as int)
        &&& self.json_section_len() == json.len() + self.json_padding()
        &&& self.bin_section_len() == binary_len + self.bin_padding()
        &&& self.file_len() == HEADER_LENGTH + self.json_section_len() + self.bin_section_len()
            + BATCH_TABLE_LENGTH
    }

    /// A writer with an empty feature table and all lengths zero.
    pub fn new() -> (w: Self)
        ensures
            w.json_bytes() == Seq::<u8>::empty(),
            w.json_padding() == 0,
            w.bin_padding() == 0,
            w.json_section_len() == 0,
            w.bin_section_len() == 0,
            w.file_len() == 0,
    {
        let w = Self {
            feature_table_json: String::new(),
            json_padding_len: 0,
            bin_padding_len: 0,
            total_json_len: 0,
            total_bin_len: 0,
            total_len: 0,
        };
        assert(utf8_bytes(&w.feature_table_json) =~= Seq::<u8>::empty());
        w
    }

    /// The byte offset of the RGB colors in the feature table binary: they
    /// follow the positions.
    pub fn rgb_byte_offset(num_positions: u32) -> (offset: u32)
        requires
            POSITION_SIZE * num_positions <= u32::MAX,
        ensures
            offset == POSITION_SIZE * num_positions,
    {
        num_positions * POSITION_SIZE
    }

    /// Store a feature table JSON for the number of points, with the padding
    /// and the lengths of the sections and of the whole file for the header.
    fn set_header(&mut self, num_positions: u32, feature_table_json: String)
        requires
            HEADER_LENGTH + utf8_bytes(&feature_table_json).len() + 15 * num_positions + 14
                <= u32::MAX,
        ensures
            final(self).is_prepared_for(utf8_bytes(&feature_table_json), num_positions as nat),
    {
        let positions_length = Self::rgb_byte_offset(num_positions);
        let feature_table_json_length = feature_table_json.as_str().len() as u32;

        // Align the json to an 8-byte boundary
        let header_and_json_len = HEADER_LENGTH + feature_table_json_length;
        let json_padding_len = Self::compute_padding_len(header_and_json_len);

        // Align the binary portion to an 8-byte boundary
        let colors_length = num_positions * COLOR_SIZE;
        let feature_table_binary_length = positions_length + colors_length;
        let bin_padding_len = Self::compute_padding_len(feature_table_binary_length);

        // Total length is header + feature table + empty batch table
        let total_json_len = feature_table_json_length + json_padding_len;
        let total_bin_len = feature_table_binary_length + bin_padding_len;
        self.feature_table_json = feature_table_json;
        self.json_padding_len = json_padding_len;
        self.bin_padding_len = bin_padding_len;
        self.total_json_len = total_json_len;
        self.total_bin_len = total_bin_len;
        self.total_len = HEADER_LENGTH + total_json_len + total_bin_len + BATCH_TABLE_LENGTH;
    }

    /// The header: magic, version, lengths, then the feature table JSON and
    /// its padding.
    pub open spec fn header_bytes(&self) -> Seq<u8> {
        pnts_magic() + le_u32(PNTS_VERSION) + le_u32(self.file_len()) + le_u32(
            self.json_section_len(),
        ) + le_u32(self.bin_section_len()) + le_u32(BATCH_TABLE_JSON_LENGTH) + le_u32(
            BATCH_TABLE_BINARY_LENGTH,
        ) + self.json_bytes() + repeat_byte(PADDING_BYTE, self.json_padding() as nat)
    }

    /// The body: all packed positions, all packed colors, then padding.
    pub open spec fn body_bytes(&self, positions: Seq<Vec3Bits>, colors: Seq<Color>) -> Seq<u8> {
        packed_positions(positions) + packed_colors(colors) + repeat_byte(
            PADDING_BYTE,
            self.bin_padding() as nat,
        )
    }

    /// Encode the header portion of the .pnts file
    pub fn encode_header(&self) -> (bytes: Vec<u8>)
        ensures
            bytes@ == self.header_bytes(),
    {
        let mut bytes: Vec<u8> = Vec::new();
        // magic number
        bytes.push(0x70);
        bytes.push(0x6e);
        bytes.push(0x74);
        bytes.push(0x73);
        push_u32_le(&mut bytes, PNTS_VERSION);
        push_u32_le(&mut bytes, self.total_len);
        push_u32_le(&mut bytes, self.total_json_len);
        push_u32_le(&mut bytes, self.total_bin_len);
        push_u32_le(&mut bytes, BATCH_TABLE_JSON_LENGTH);
        push_u32_le(&mut bytes, BATCH_TABLE_BINARY_LENGTH);
        push_bytes(&mut bytes, self.feature_table_json.as_str().as_bytes());
        let padding = Self::make_padding(self.json_padding_len);
        push_bytes(&mut bytes, padding.as_slice());
        assert(bytes@ =~= self.header_bytes());
        bytes
    }

    /// Encode the body portion of the .pnts file, a packed list of points
    /// followed by a packed list of colors.
    pub fn encode_body(&self, positions: &Vec<Vec3Bits>, colors: &Vec<Color>) -> (bytes: Vec<u8>)
        ensures
            bytes@ == self.body_bytes(positions@, colors@),
    {
        let mut bytes: Vec<u8> = Vec::new();
        let mut i: usize = 0;
        while i < positions.len()
            invariant
                i <= positions@.len(),
                bytes@ == packed_positions(positions@.subrange(0, i as int)),
            decreases positions@.len() - i,
        {
            let packed = positions[i].pack();
            push_bytes(&mut bytes, packed.as_slice());
            assert(positions@.subrange(0, i + 1).drop_last() =~= positions@.subrange(0, i as int));
            i = i + 1;
        }
        assert(positions@.subrange(0, i as int) =~= positions@);
        let ghost after_positions = bytes@;
        let mut j: usize = 0;
        while j < colors.len()
            invariant
                j <= colors@.len(),
                bytes@ == after_positions + packed_colors(colors@.subrange(0, j as int)),
            decreases colors@.len() - j,
        {
            let packed = colors[j].pack();
            push_bytes(&mut bytes, packed.as_slice());
            assert(colors@.subrange(0, j + 1).drop_last() =~= colors@.subrange(0, j as int));
            j = j + 1;
            assert(bytes@ =~= after_positions + packed_colors(colors@.subrange(0, j as int)));
        }
        assert(colors@.subrange(0, j as int) =~= colors@);
        let padding = Self::make_padding(self.bin_padding_len);
        push_bytes(&mut bytes, padding.as_slice());
        bytes
    }

    /// Prepare the header for the given points and encode the whole file:
    /// header followed by body.
    /// Given the number of points, write the feature table JSON
    /// (`feature_table_document`) and compute the padding and the lengths of
    /// the sections and of the whole file for the header. This fails, and
    /// leaves the writer as it was, when the file would be longer than the
    /// 32-bit lengths of its header allow.
    pub fn prepare_header(&mut self, num_positions: u32) -> (prepared: bool)
        ensures
            prepared <==> fits_header(num_positions as nat),
            prepared ==> final(self).is_prepared_for(
                feature_table_bytes(num_positions),
                num_positions as nat,
            ),
            !prepared ==> *final(self) == *old(self),
    {
        let text = stringify(&Self::feature_table_document(num_positions));
        let json_length = text.as_str().as_bytes().len();
        assert(json_length == utf8_bytes(&text).len());
        if json_length > u32::MAX as usize {
            return false;
        }
        if HEADER_LENGTH as u64 + json_length as u64 + 15 * (num_positions as u64) + 14
            > u32::MAX as u64 {
            return false;
        }
        self.set_header(num_positions, text);
        true
    }

    /// Prepare the header for the given points and encode the whole file:
    /// header followed by body; `None` when the file would be longer than
    /// the 32-bit lengths of its header allow.
    pub fn encode(&mut self, positions: &Vec<Vec3Bits>, colors: &Vec<Color>) -> (bytes: Option<
        Vec<u8>,
    >)
        requires
            positions@.len() == colors@.len(),
            positions@.len() <= u32::MAX,
        ensures
            bytes is Some <==> fits_header(positions@.len()),
            bytes matches Some(b) ==> {
                &&& final(self).is_prepared_for(
                    feature_table_bytes(positions@.len() as u32),
                    positions@.len(),
                )
                &&& b@ == final(self).header_bytes() + final(self).body_bytes(positions@, colors@)
                &&& b@.len() == final(self).file_len()
            },
    {
        let num_positions = positions.len() as u32;
        if !self.prepare_header(num_positions) {
            return None;
        }
        let mut bytes = self.encode_header();
        let body = self.encode_body(positions, colors);
        push_bytes(&mut bytes, body.as_slice());
        proof {
            lemma_packed_positions_len(positions@);
            lemma_packed_colors_len(colors@);
        }
        Some(bytes)
    }

    /// Given a number of bytes, compute how much padding is needed to
    /// align to 8 bytes
    pub fn compute_padding_len(num_bytes: u32) -> (padding: u32)
        ensures
            padding == pnts_padding(num_bytes as int),
            padding < ALIGNMENT,
            (num_bytes + padding) % 8 == 0,
    {
        let remainder = num_bytes % ALIGNMENT;
        (ALIGNMENT - remainder) % ALIGNMENT
    }

    /// Create a padding of space characters of a given length
    pub fn make_padding(byte_len: u32) -> (padding: Vec<u8>)
        ensures
            padding@ == repeat_byte(PADDING_BYTE, byte_len as nat),
    {
        let mut padding: Vec<u8> = Vec::new();
        push_repeated(&mut padding, PADDING_BYTE, byte_len);
        assert(padding@ =~= repeat_byte(PADDING_BYTE, byte_len as nat));
        padding
    }
}

} // verus!

verus! {

proof fn lemma_pnts_padding_aligns(x: int)
    requires
        x >= 0,
    ensures
        (x + pnts_padding(x)) % 8 == 0,
        0 <= pnts_padding(x) < 8,
{
}

/// Layout of a .pnts file: the header with the feature table JSON and its
/// padding ends on an 8-byte boundary, so does the feature table binary; the
/// file is exactly as long as the header says; the positions start the
/// binary, and the colors follow them at the RGB byte offset.
pub proof fn lemma_pnts_layout(
    w: PntsWriter,
    json: Seq<u8>,
    positions: Seq<Vec3Bits>,
    colors: Seq<Color>,
)
    requires
        w.is_prepared_for(json, positions.len()),
        colors.len() == positions.len(),
    ensures
        w.header_bytes().len() == HEADER_LENGTH + w.json_section_len(),
        w.header_bytes().len() % 8 == 0,
        w.body_bytes(positions, colors).len() == w.bin_section_len(),
        w.bin_section_len() % 8 == 0,
        (w.header_bytes() + w.body_bytes(positions, colors)).len() == w.file_len(),
        w.body_bytes(positions, colors).subrange(0, 12 * positions.len() as int) == packed_positions(
            positions,
        ),
        w.body_bytes(positions, colors).subrange(12 * positions.len() as int, 15 * positions.len() as int)
            == packed_colors(colors),
{
    lemma_packed_positions_len(positions);
    lemma_packed_colors_len(colors);
    let n = positions.len() as int;
    let body = w.body_bytes(positions, colors);
    let header_and_json = HEADER_LENGTH + json.len();
    assert((header_and_json + pnts_padding(header_and_json)) % 8 == 0) by {
        lemma_pnts_padding_aligns(header_and_json);
    }
    assert((15 * n + pnts_padding(15 * n)) % 8 == 0) by {
        lemma_pnts_padding_aligns(15 * n);
    }
    assert(w.header_bytes().len() == HEADER_LENGTH + json.len() + w.json_padding());
    assert(body.len() == 15 * n + w.bin_padding());
    assert(body.subrange(0, 12 * n) =~= packed_positions(positions));
    assert(body.subrange(12 * n, 15 * n) =~= packed_colors(colors));
}


/// The feature table JSON of a point cloud of `num_positions` points: the
/// number of points, the positions at the start of the binary and the RGB
/// colors after them.
pub open spec fn spec_feature_table(num_positions: u32) -> JsonSpec {
    JsonSpec::Object(Seq::empty()
        .push(("POINTS_LENGTH"@, spec_uint(num_positions as u64)))
        .push(("POSITION"@, JsonSpec::Object(Seq::empty().push(("byteOffset"@, spec_uint(0))))))
        .push(("RGB"@, JsonSpec::Object(Seq::empty()
            .push(("byteOffset"@, spec_uint((POSITION_SIZE * num_positions) as u64)))))))
}

/// The feature table counts the points, places the positions at the start
/// of the body and the colors right after the positions.
pub proof fn lemma_feature_table_members(num_positions: u32)
    ensures
        spec_get(spec_feature_table(num_positions), "POINTS_LENGTH"@) == spec_uint(
            num_positions as u64,
        ),
        spec_get(spec_get(spec_feature_table(num_positions), "POSITION"@), "byteOffset"@)
            == spec_uint(0),
        spec_get(spec_get(spec_feature_table(num_positions), "RGB"@), "byteOffset"@) == spec_uint(
            (POSITION_SIZE * num_positions) as u64,
        ),
{
    reveal_strlit("POINTS_LENGTH");
    reveal_strlit("POSITION");
    reveal_strlit("RGB");
    let members = spec_feature_table(num_positions)->Object_0;
    assert(members[0].0 == "POINTS_LENGTH"@);
    assert(members[1].0 == "POSITION"@);
    assert(members[2].0 == "RGB"@);
    lemma_get_unique(members, "POINTS_LENGTH"@, 0);
    lemma_get_unique(members, "POSITION"@, 1);
    lemma_get_unique(members, "RGB"@, 2);
    lemma_get_unique(members[1].1->Object_0, "byteOffset"@, 0);
    lemma_get_unique(members[2].1->Object_0, "byteOffset"@, 0);
}

impl PntsWriter {
    /// The feature table JSON for `num_positions` points, which the caller
    /// serializes for `prepare_header`
    pub fn feature_table_document(num_positions: u32) -> (doc: JsonDoc)
        ensures
            doc@ == spec_feature_table(num_positions),
            spec_get(doc@, "POINTS_LENGTH"@) == spec_uint(num_positions as u64),
            spec_get(spec_get(doc@, "POSITION"@), "byteOffset"@) == spec_uint(0),
            spec_get(spec_get(doc@, "RGB"@), "byteOffset"@) == spec_uint(
                (POSITION_SIZE * num_positions) as u64,
            ),
    {
        proof {
            lemma_feature_table_members(num_positions);
        }
        let mut position = new_members();
        add_member(&mut position, "byteOffset", json_uint(0));
        let mut rgb = new_members();
        add_member(&mut rgb, "byteOffset", json_uint(POSITION_SIZE as u64 * num_positions as u64));
        let mut table = new_members();
        add_member(&mut table, "POINTS_LENGTH", json_uint(num_positions as u64));
        add_member(&mut table, "POSITION", json_object(position));
        add_member(&mut table, "RGB", json_object(rgb));
        json_object(table)
    }
}


/// The bytes of the feature table JSON for `num_positions` points
pub open spec fn feature_table_bytes(num_positions: u32) -> Seq<u8> {
    vstd::utf8::encode_utf8(json_text(spec_feature_table(num_positions)))
}

/// Whether a file of `n` points with its feature table fits the 32-bit
/// lengths of the header
pub open spec fn fits_header(n: nat) -> bool {
    n <= u32::MAX && HEADER_LENGTH + feature_table_bytes(n as u32).len() + 15 * n + 14 <= u32::MAX
}

} // verus!
