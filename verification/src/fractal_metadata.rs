//! Metadata about the fractal, included in the tileset.
use vstd::prelude::*;
use crate::json_doc::{
    spec_uint,
    JsonDoc, JsonSpec, spec_member, spec_as_str, spec_as_u64, spec_as_u16, spec_len, json_str,
    json_uint, json_object, add_member, new_members, spec_get, lemma_get_unique, object_keys,
};

verus! {

/// Metadata about the fractal. This will be included in the tileset
/// when generating 3D Tiles Next for styling and other purposes
#[derive(Clone)]
pub struct FractalMetadata {
    /// unique ID for this fractal, corresponding to the filename
    pub id: String,
    /// Name of the fractal for display purposes
    pub name: String,
    /// Description of the fractal. Defaults to empty string
    pub description: String,
    /// The number of iterations
    pub iterations: u64,
    /// How many copies of the initial set
    pub cluster_copies: u16,
    /// How many points in the initial set in total
    pub cluster_point_count: u16,
    /// For ManyClusters, what is the maximum number of points in any
    /// sub cluster
    pub subcluster_max_point_count: u16,
    /// How many transformations are in the IFS
    pub ifs_xform_count: u8,
    /// How many transformations are in the color IFS. Default is 1 (identity)
    pub color_ifs_xform_count: u8,
    /// The algorithm that was used
    pub algorithm: String,
    /// how many points are stored in each octree node
    pub node_capacity: u16,
}

/// Why the parameters do not describe a fractal
#[derive(Debug, Clone, Copy, PartialEq, Eq, Structural)]
pub enum MetadataError {
    /// id must be a string
    MissingId,
    /// name must be a string
    MissingName,
    /// algorithm must be a string
    MissingAlgorithm,
    /// iters must be a number
    MissingIterations,
    /// color_ifs must be an object
    InvalidColorIfs,
}

/// What the `color_ifs` member of the parameters is
#[derive(Debug, Clone, Copy, PartialEq, Eq, Structural)]
pub enum ColorIfs {
    /// absent: the identity IFS is used, which has 1 xform
    Absent,
    /// an IFS with this many xforms
    Xforms(usize),
    /// anything else, which is refused
    Invalid,
}

/// The low byte of a count, as stored in the metadata.
pub open spec fn low_byte(n: usize) -> u8 {
    (n % 256) as u8
}

impl FractalMetadata {
    /// The metadata of a fractal from its parameters, with the defaults of
    /// the parameter file: an empty description, one cluster copy, a node
    /// capacity of 5000 and one color xform when there is no color IFS. The
    /// point counts are determined later and start at 0.
    pub fn from_fields(
        id: &str,
        name: &str,
        description: Option<&str>,
        algorithm: &str,
        iterations: u64,
        cluster_copies: Option<u16>,
        node_capacity: Option<u16>,
        ifs_xform_count: usize,
        color_ifs: ColorIfs,
    ) -> (result: Result<Self, MetadataError>)
        ensures
            color_ifs == ColorIfs::Invalid <==> result == Err::<Self, MetadataError>(
                MetadataError::InvalidColorIfs,
            ),
            color_ifs != ColorIfs::Invalid <==> result is Ok,
            result matches Ok(m) ==> {
                &&& m.id@ == id@
                &&& m.name@ == name@
                &&& m.description@ == (match description {
                    Some(d) => d@,
                    None => ""@,
                })
                &&& m.algorithm@ == algorithm@
                &&& m.iterations == iterations
                &&& m.cluster_copies == (match cluster_copies {
                    Some(c) => c,
                    None => 1,
                })
                &&& m.node_capacity == (match node_capacity {
                    Some(c) => c,
                    None => 5000,
                })
                &&& m.cluster_point_count == 0
                &&& m.subcluster_max_point_count == 0
                &&& m.ifs_xform_count == low_byte(ifs_xform_count)
                &&& m.color_ifs_xform_count == (match color_ifs {
                    ColorIfs::Xforms(n) => low_byte(n),
                    _ => 1,
                })
            },
    {
        let color_ifs_xform_count: usize = match color_ifs {
            // if not present, the identity IFS is used, which has 1 xform
            ColorIfs::Absent => 1,
            ColorIfs::Xforms(n) => n,
            ColorIfs::Invalid => {
                return Err(MetadataError::InvalidColorIfs);
            },
        };
        let description = match description {
            Some(d) => d.to_owned(),
            None => "".to_owned(),
        };
        let cluster_copies = match cluster_copies {
            Some(c) => c,
            None => 1,
        };
        let node_capacity = match node_capacity {
            Some(c) => c,
            None => 5000,
        };
        Ok(
            Self {
                id: id.to_owned(),
                name: name.to_owned(),
                description,
                iterations,
                cluster_copies,
                // these point counts will be determined later
                cluster_point_count: 0,
                subcluster_max_point_count: 0,
                ifs_xform_count: (ifs_xform_count % 256) as u8,
                color_ifs_xform_count: (color_ifs_xform_count % 256) as u8,
                algorithm: algorithm.to_owned(),
                node_capacity,
            },
        )
    }

    /// The 3DTILES_metadata of the fractal: the schema of the tileset class
    /// and the values of its properties.
    pub fn metadata_document(&self) -> (doc: JsonDoc)
        ensures
            doc@ == spec_metadata_document(*self),
            tileset_property(doc@, "id"@) == JsonSpec::Str(self.id@),
            tileset_property(doc@, "name"@) == JsonSpec::Str(self.name@),
            tileset_property(doc@, "description"@) == JsonSpec::Str(self.description@),
            tileset_property(doc@, "iterations"@) == spec_uint(self.iterations),
            tileset_property(doc@, "cluster_point_count"@) == spec_uint(
                self.cluster_point_count as u64,
            ),
            tileset_property(doc@, "cluster_copies"@) == spec_uint(self.cluster_copies as u64),
            tileset_property(doc@, "ifs_xform_count"@) == spec_uint(self.ifs_xform_count as u64),
            tileset_property(doc@, "color_ifs_xform_count"@) == spec_uint(
                self.color_ifs_xform_count as u64,
            ),
            tileset_property(doc@, "algorithm"@) == JsonSpec::Str(self.algorithm@),
            tileset_property(doc@, "node_capacity"@) == spec_uint(self.node_capacity as u64),
    {
        let mut values = new_members();
        add_member(&mut values, "id", json_str(self.id.as_str()));
        add_member(&mut values, "name", json_str(self.name.as_str()));
        add_member(&mut values, "description", json_str(self.description.as_str()));
        add_member(&mut values, "iterations", json_uint(self.iterations as u64));
        add_member(&mut values, "cluster_point_count", json_uint(self.cluster_point_count as u64));
        add_member(&mut values, "cluster_copies", json_uint(self.cluster_copies as u64));
        add_member(&mut values, "ifs_xform_count", json_uint(self.ifs_xform_count as u64));
        add_member(&mut values, "color_ifs_xform_count", json_uint(self.color_ifs_xform_count as u64));
        add_member(&mut values, "algorithm", json_str(self.algorithm.as_str()));
        add_member(&mut values, "node_capacity", json_uint(self.node_capacity as u64));
        let mut tileset = new_members();
        add_member(&mut tileset, "class", json_str("tileset"));
        add_member(&mut tileset, "properties", json_object(values));
        let mut class = new_members();
        add_member(&mut class, "properties", schema_properties());
        let mut classes = new_members();
        add_member(&mut classes, "tileset", json_object(class));
        let mut schema = new_members();
        add_member(&mut schema, "classes", json_object(classes));
        let mut doc = new_members();
        add_member(&mut doc, "schema", json_object(schema));
        add_member(&mut doc, "tileset", json_object(tileset));
        let doc = json_object(doc);
        proof {
            lemma_metadata_property_values(*self);
        }
        doc
    }

    /// Extract the metadata from the JSON parameter file:
    ///
    /// ```text
    /// {
    ///     "id": "...", "name": "...", "description": "..." (optional),
    ///     "algorithm": "...", "iters": N, "cluster_copies": M (optional),
    ///     "plotter": { "node_capacity": C (optional), ... },
    ///     "ifs": { "xforms": [...] }, "color_ifs": { "xforms": [...] } (optional)
    /// }
    /// ```
    ///
    /// The first of id, name, algorithm and iters that is missing or of the
    /// wrong type is the error; then a color IFS that is neither absent nor
    /// an object. Otherwise the fields are those of `from_fields`.
    pub fn from_json(json: &JsonDoc) -> (result: Result<Self, MetadataError>)
        ensures
            ({
                let id = spec_as_str(spec_member(*json, "id"@));
                let name = spec_as_str(spec_member(*json, "name"@));
                let algorithm = spec_as_str(spec_member(*json, "algorithm"@));
                let iters = spec_as_u64(spec_member(*json, "iters"@));
                let color_ifs = spec_color_ifs(*json);
                &&& (result == Err::<Self, MetadataError>(MetadataError::MissingId)) <==> id is None
                &&& (result == Err::<Self, MetadataError>(MetadataError::MissingName)) <==> (id is Some
                    && name is None)
                &&& (result == Err::<Self, MetadataError>(MetadataError::MissingAlgorithm)) <==> (
                id is Some && name is Some && algorithm is None)
                &&& (result == Err::<Self, MetadataError>(MetadataError::MissingIterations)) <==> (
                id is Some && name is Some && algorithm is Some && iters is None)
                &&& (result == Err::<Self, MetadataError>(MetadataError::InvalidColorIfs)) <==> (
                id is Some && name is Some && algorithm is Some && iters is Some && color_ifs
                    == ColorIfs::Invalid)
                &&& result matches Ok(m) ==> {
                    &&& id == Some(m.id@)
                    &&& name == Some(m.name@)
                    &&& algorithm == Some(m.algorithm@)
                    &&& iters == Some(m.iterations)
                    &&& m.description@ == match spec_as_str(spec_member(*json, "description"@)) {
                        Some(d) => d,
                        None => ""@,
                    }
                    &&& m.cluster_copies == match spec_as_u16(
                        spec_member(*json, "cluster_copies"@),
                    ) {
                        Some(c) => c,
                        None => 1,
                    }
                    &&& m.node_capacity == match spec_as_u16(
                        spec_member(spec_member(*json, "plotter"@), "node_capacity"@),
                    ) {
                        Some(c) => c,
                        None => 5000,
                    }
                    &&& m.ifs_xform_count == (spec_len(
                        spec_member(spec_member(*json, "ifs"@), "xforms"@),
                    ) % 256) as u8
                    &&& m.color_ifs_xform_count == match color_ifs {
                        ColorIfs::Xforms(n) => low_byte(n),
                        _ => 1,
                    }
                    &&& m.cluster_point_count == 0
                    &&& m.subcluster_max_point_count == 0
                }
            }),
    {
        let id = match json.member("id").as_str() {
            Some(s) => s,
            None => {
                return Err(MetadataError::MissingId);
            },
        };
        let name = match json.member("name").as_str() {
            Some(s) => s,
            None => {
                return Err(MetadataError::MissingName);
            },
        };
        let description = json.member("description").as_str();
        let algorithm = match json.member("algorithm").as_str() {
            Some(s) => s,
            None => {
                return Err(MetadataError::MissingAlgorithm);
            },
        };
        let iterations = match json.member("iters").as_u64() {
            Some(n) => n,
            None => {
                return Err(MetadataError::MissingIterations);
            },
        };
        let cluster_copies = json.member("cluster_copies").as_u16();
        let node_capacity = json.member("plotter").member("node_capacity").as_u16();
        let ifs_xform_count = json.member("ifs").member("xforms").len();
        let color_ifs_json = json.member("color_ifs");
        let color_ifs = if color_ifs_json.is_null() {
            ColorIfs::Absent
        } else if color_ifs_json.is_object() {
            ColorIfs::Xforms(color_ifs_json.member("xforms").len())
        } else {
            ColorIfs::Invalid
        };
        Self::from_fields(
            id,
            name,
            description,
            algorithm,
            iterations,
            cluster_copies,
            node_capacity,
            ifs_xform_count,
            color_ifs,
        )
    }
}

/// What the `color_ifs` member of the parameters is
pub open spec fn spec_color_ifs(json: JsonDoc) -> ColorIfs {
    let color_ifs = spec_member(json, "color_ifs"@);
    if color_ifs is Null {
        ColorIfs::Absent
    } else if color_ifs is Object {
        ColorIfs::Xforms(spec_len(spec_member(color_ifs, "xforms"@)) as usize)
    } else {
        ColorIfs::Invalid
    }
}

/// A property of a metadata class with the given component type
pub open spec fn spec_property(component_type: Seq<char>) -> JsonSpec {
    JsonSpec::Object(Seq::empty().push(("componentType"@, JsonSpec::Str(component_type))))
}

/// A property of a metadata class with a component type and a semantic
pub open spec fn spec_property_with_semantic(component_type: Seq<char>, semantic: Seq<char>) -> JsonSpec {
    JsonSpec::Object(
        Seq::empty().push(("componentType"@, JsonSpec::Str(component_type))).push(("semantic"@, JsonSpec::Str(semantic))),
    )
}

/// The properties of the tileset metadata class
pub open spec fn spec_schema_properties() -> JsonSpec {
    JsonSpec::Object(
        Seq::empty()
            .push(("id"@, spec_property_with_semantic("STRING"@, "ID"@)))
            .push(("name"@, spec_property_with_semantic("STRING"@, "NAME"@)))
            .push(("description"@, spec_property_with_semantic("STRING"@, "DESCRIPTION"@)))
            .push(("iterations"@, spec_property("UINT64"@)))
            .push(("cluster_point_count"@, spec_property("UINT16"@)))
            .push(("cluster_copies"@, spec_property("UINT16"@)))
            .push(("ifs_xform_count"@, spec_property("UINT8"@)))
            .push(("color_ifs_xform_count"@, spec_property("UINT8"@)))
            .push(("algorithm"@, spec_property("STRING"@)))
            .push(("node_capacity"@, spec_property("UINT16"@))),
    )
}

/// The 3DTILES_metadata of a fractal: a schema with the class `tileset`,
/// and the tileset's values of its properties.
pub open spec fn spec_metadata_document(m: FractalMetadata) -> JsonSpec {
    JsonSpec::Object(
        Seq::empty()
            .push(("schema"@, JsonSpec::Object(Seq::empty()
            .push(("classes"@, JsonSpec::Object(Seq::empty()
            .push(("tileset"@, JsonSpec::Object(Seq::empty()
            .push(("properties"@, spec_schema_properties())))))))))))
            .push(("tileset"@, JsonSpec::Object(Seq::empty()
            .push(("class"@, JsonSpec::Str("tileset"@)))
            .push(("properties"@, JsonSpec::Object(Seq::empty()
            .push(("id"@, JsonSpec::Str(m.id@)))
            .push(("name"@, JsonSpec::Str(m.name@)))
            .push(("description"@, JsonSpec::Str(m.description@)))
            .push(("iterations"@, spec_uint(m.iterations)))
            .push(("cluster_point_count"@, spec_uint(m.cluster_point_count as u64)))
            .push(("cluster_copies"@, spec_uint(m.cluster_copies as u64)))
            .push(("ifs_xform_count"@, spec_uint(m.ifs_xform_count as u64)))
            .push(("color_ifs_xform_count"@, spec_uint(m.color_ifs_xform_count as u64)))
            .push(("algorithm"@, JsonSpec::Str(m.algorithm@)))
            .push(("node_capacity"@, spec_uint(m.node_capacity as u64))))))))),
    )
}

/// The value of the property `name` of the tileset in a 3DTILES_metadata
/// document
pub open spec fn tileset_property(doc: JsonSpec, name: Seq<char>) -> JsonSpec {
    spec_get(spec_get(spec_get(doc, "tileset"@), "properties"@), name)
}

/// Each value of the tileset's properties in the metadata document is the
/// field of the metadata with the same name.
pub proof fn lemma_metadata_property_values(m: FractalMetadata)
    ensures
        tileset_property(spec_metadata_document(m), "id"@) == JsonSpec::Str(m.id@),
        tileset_property(spec_metadata_document(m), "name"@) == JsonSpec::Str(m.name@),
        tileset_property(spec_metadata_document(m), "description"@) == JsonSpec::Str(
            m.description@,
        ),
        tileset_property(spec_metadata_document(m), "iterations"@) == spec_uint(m.iterations),
        tileset_property(spec_metadata_document(m), "cluster_point_count"@) == spec_uint(
            m.cluster_point_count as u64,
        ),
        tileset_property(spec_metadata_document(m), "cluster_copies"@) == spec_uint(
            m.cluster_copies as u64,
        ),
        tileset_property(spec_metadata_document(m), "ifs_xform_count"@) == spec_uint(
            m.ifs_xform_count as u64,
        ),
        tileset_property(spec_metadata_document(m), "color_ifs_xform_count"@) == spec_uint(
            m.color_ifs_xform_count as u64,
        ),
        tileset_property(spec_metadata_document(m), "algorithm"@) == JsonSpec::Str(
            m.algorithm@,
        ),
        tileset_property(spec_metadata_document(m), "node_capacity"@) == spec_uint(
            m.node_capacity as u64,
        ),
{
    reveal_strlit("schema");
    reveal_strlit("tileset");
    reveal_strlit("class");
    reveal_strlit("properties");
    reveal_strlit("id");
    reveal_strlit("name");
    reveal_strlit("description");
    reveal_strlit("iterations");
    reveal_strlit("cluster_point_count");
    reveal_strlit("cluster_copies");
    reveal_strlit("ifs_xform_count");
    reveal_strlit("color_ifs_xform_count");
    reveal_strlit("algorithm");
    reveal_strlit("node_capacity");
    let top = spec_metadata_document(m)->Object_0;
    assert(top[1].0 == "tileset"@);
    lemma_get_unique(top, "tileset"@, 1);
    let tileset = top[1].1->Object_0;
    assert(tileset[1].0 == "properties"@);
    lemma_get_unique(tileset, "properties"@, 1);
    let values = tileset[1].1->Object_0;
    assert(values[0].0 == "id"@);
    assert(values[1].0 == "name"@);
    assert(values[2].0 == "description"@);
    assert(values[3].0 == "iterations"@);
    assert(values[4].0 == "cluster_point_count"@);
    assert(values[5].0 == "cluster_copies"@);
    assert(values[6].0 == "ifs_xform_count"@);
    assert(values[7].0 == "color_ifs_xform_count"@);
    assert(values[8].0 == "algorithm"@);
    assert(values[9].0 == "node_capacity"@);
    lemma_get_unique(values, "id"@, 0);
    lemma_get_unique(values, "name"@, 1);
    lemma_get_unique(values, "description"@, 2);
    lemma_get_unique(values, "iterations"@, 3);
    lemma_get_unique(values, "cluster_point_count"@, 4);
    lemma_get_unique(values, "cluster_copies"@, 5);
    lemma_get_unique(values, "ifs_xform_count"@, 6);
    lemma_get_unique(values, "color_ifs_xform_count"@, 7);
    lemma_get_unique(values, "algorithm"@, 8);
    lemma_get_unique(values, "node_capacity"@, 9);
}

/// The schema of the metadata document declares exactly the properties
/// whose values the tileset gives, in the same order.
pub proof fn lemma_metadata_schema_declares_values(m: FractalMetadata)
    ensures
        ({
            let doc = spec_metadata_document(m);
            let declared = spec_get(
                spec_get(spec_get(spec_get(doc, "schema"@), "classes"@), "tileset"@),
                "properties"@,
            );
            let given = spec_get(spec_get(doc, "tileset"@), "properties"@);
            &&& object_keys(declared) == object_keys(given)
            &&& object_keys(given).len() == 10
        }),
{
    reveal_strlit("schema");
    reveal_strlit("tileset");
    reveal_strlit("class");
    reveal_strlit("classes");
    reveal_strlit("properties");
    let top = spec_metadata_document(m)->Object_0;
    assert(top[0].0 == "schema"@);
    assert(top[1].0 == "tileset"@);
    lemma_get_unique(top, "schema"@, 0);
    lemma_get_unique(top, "tileset"@, 1);
    let schema = top[0].1->Object_0;
    lemma_get_unique(schema, "classes"@, 0);
    let classes = schema[0].1->Object_0;
    lemma_get_unique(classes, "tileset"@, 0);
    let class = classes[0].1->Object_0;
    lemma_get_unique(class, "properties"@, 0);
    let tileset = top[1].1->Object_0;
    assert(tileset[1].0 == "properties"@);
    lemma_get_unique(tileset, "properties"@, 1);
    assert(object_keys(class[0].1) =~= object_keys(tileset[1].1));
}

fn property(component_type: &str) -> (doc: JsonDoc)
    ensures
        doc@ == spec_property(component_type@),
{
    let mut entries = new_members();
    add_member(&mut entries, "componentType", json_str(component_type));
    json_object(entries)
}

fn property_with_semantic(component_type: &str, semantic: &str) -> (doc: JsonDoc)
    ensures
        doc@ == spec_property_with_semantic(component_type@, semantic@),
{
    let mut entries = new_members();
    add_member(&mut entries, "componentType", json_str(component_type));
    add_member(&mut entries, "semantic", json_str(semantic));
    json_object(entries)
}

fn schema_properties() -> (doc: JsonDoc)
    ensures
        doc@ == spec_schema_properties(),
{
    let mut entries = new_members();
    add_member(&mut entries, "id", property_with_semantic("STRING", "ID"));
    add_member(&mut entries, "name", property_with_semantic("STRING", "NAME"));
    add_member(&mut entries, "description", property_with_semantic("STRING", "DESCRIPTION"));
    add_member(&mut entries, "iterations", property("UINT64"));
    add_member(&mut entries, "cluster_point_count", property("UINT16"));
    add_member(&mut entries, "cluster_copies", property("UINT16"));
    add_member(&mut entries, "ifs_xform_count", property("UINT8"));
    add_member(&mut entries, "color_ifs_xform_count", property("UINT8"));
    add_member(&mut entries, "algorithm", property("STRING"));
    add_member(&mut entries, "node_capacity", property("UINT16"));
    json_object(entries)
}

} // verus!
