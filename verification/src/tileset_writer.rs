//! The layout of a 3D Tiles tileset on disk.
use vstd::prelude::*;
use vstd::string::StringExecFns;
use crate::fractal_metadata::FractalMetadata;
use crate::json_doc::{JsonDoc, spec_member, spec_as_str, spec_is_str, spec_as_u8, spec_as_usize};

verus! {

/// Type of 3D Tiles content
#[derive(Debug, Clone, Copy, PartialEq, Eq, Structural)]
pub enum ContentType {
    /// .pnts: 3D Tiles 1.0 Point Cloud
    Pnts,
    /// .glb: Binary glTF. For 3D Tiles, this requires 3DTILES_content_gltf
    Glb,
}

impl ContentType {
    /// Get the file extension for this content
    pub fn get_extension(&self) -> (extension: &str)
        ensures
            extension@ == (match self {
                ContentType::Pnts => "pnts"@,
                ContentType::Glb => "glb"@,
            }),
    {
        match self {
            ContentType::Pnts => "pnts",
            ContentType::Glb => "glb",
        }
    }
}

/// An object that can generate a 3D Tileset
pub struct TilesetWriter {
    /// The type of content to store in each tile
    content_type: ContentType,
    /// Metadata to include in the tileset when using 3D Tiles Next
    /// (.glb content)
    metadata: FractalMetadata,
    /// The directory where the tileset will go
    /// ./viewer/{tileset_id}
    tileset_dir: String,
    /// The directory where the point files will go,
    /// ./viewer/{tileset_id}/points
    points_dir: String,
}

impl TilesetWriter {
    pub closed spec fn spec_content_type(&self) -> ContentType {
        self.content_type
    }

    pub closed spec fn spec_metadata(&self) -> FractalMetadata {
        self.metadata
    }

    pub closed spec fn spec_tileset_dir(&self) -> Seq<char> {
        self.tileset_dir@
    }

    pub closed spec fn spec_points_dir(&self) -> Seq<char> {
        self.points_dir@
    }

    /// A writer for the tileset of the given id, in `./viewer/{id}` with
    /// the point files in `./viewer/{id}/points`
    pub fn new(tileset_id: &str, content_type: ContentType, metadata: FractalMetadata) -> (w: Self)
        ensures
            w.spec_content_type() == content_type,
            w.spec_metadata() == metadata,
            w.spec_tileset_dir() == "./viewer/"@ + tileset_id@,
            w.spec_points_dir() == "./viewer/"@ + tileset_id@ + "/points"@,
    {
        let mut tileset_dir = String::from_str("./viewer/");
        tileset_dir.append(tileset_id);
        let mut points_dir = String::from_str("./viewer/");
        points_dir.append(tileset_id);
        points_dir.append("/points");
        Self { content_type, metadata, tileset_dir, points_dir }
    }

    /// The type of content in the tiles
    pub fn content_type(&self) -> (content_type: ContentType)
        ensures
            content_type == self.spec_content_type(),
    {
        self.content_type
    }

    /// The metadata included in the tileset
    pub fn metadata(&self) -> (metadata: &FractalMetadata)
        ensures
            *metadata == self.spec_metadata(),
    {
        &self.metadata
    }

    /// The directory of the tileset
    pub fn tileset_dir(&self) -> (dir: &str)
        ensures
            dir@ == self.spec_tileset_dir(),
    {
        self.tileset_dir.as_str()
    }

    /// The directory of the point files
    pub fn points_dir(&self) -> (dir: &str)
        ensures
            dir@ == self.spec_points_dir(),
    {
        self.points_dir.as_str()
    }
}


/// The settings of a scatter plot that the plotter JSON gives, with their
/// defaults (the radius of the octree is floating point and read by the
/// caller)
pub struct ScatterSettings {
    /// The content of the tiles
    pub content_type: ContentType,
    /// The depth of the octree
    pub max_depth: u8,
    /// How many points fit in a node
    pub node_capacity: usize,
    /// How many levels the fractal dimension estimate counts boxes at
    pub fractal_dimension_levels: usize,
}

/// Whether the plotter JSON asks for a scatter plot: the default type
pub open spec fn spec_is_scatter_plot(json: JsonDoc) -> bool {
    let plot_type = spec_member(json, "type"@);
    spec_as_str(plot_type) is None || spec_is_str(plot_type, "scatter"@)
}

/// The content type that the `format` of the plotter JSON asks for: glb
/// when there is none, `None` for an unknown format.
pub open spec fn spec_content_format(json: JsonDoc) -> Option<ContentType> {
    let format = spec_member(json, "format"@);
    if spec_as_str(format) is None || spec_is_str(format, "glb"@) {
        Some(ContentType::Glb)
    } else if spec_is_str(format, "pnts"@) {
        Some(ContentType::Pnts)
    } else {
        None
    }
}

/// A plotter whose type is "scatter", or whose type is no string, is a
/// scatter plot; one with any other string for its type is not.
pub proof fn lemma_scatter_plot_by_type(json: JsonDoc)
    ensures
        spec_is_str(spec_member(json, "type"@), "scatter"@) ==> spec_is_scatter_plot(json),
        spec_as_str(spec_member(json, "type"@)) is None ==> spec_is_scatter_plot(json),
        spec_as_str(spec_member(json, "type"@)) matches Some(t) && t != "scatter"@
            ==> !spec_is_scatter_plot(json),
{
}

/// The format "glb", or no format string, gives glb tiles; "pnts" gives
/// pnts tiles; any other string is no format.
pub proof fn lemma_content_format_by_name(json: JsonDoc)
    ensures
        spec_is_str(spec_member(json, "format"@), "glb"@) ==> spec_content_format(json) == Some(
            ContentType::Glb,
        ),
        spec_is_str(spec_member(json, "format"@), "pnts"@) ==> spec_content_format(json) == Some(
            ContentType::Pnts,
        ),
        spec_as_str(spec_member(json, "format"@)) is None ==> spec_content_format(json) == Some(
            ContentType::Glb,
        ),
        spec_as_str(spec_member(json, "format"@)) matches Some(f) && f != "glb"@ && f != "pnts"@
            ==> spec_content_format(json) is None,
{
    reveal_strlit("glb");
    reveal_strlit("pnts");
    assert("pnts"@.len() != "glb"@.len());
}

/// Whether the plotter JSON `{ "type": "scatter", ... }` asks for a scatter
/// plot, which is the default
pub fn is_scatter_plot(json: &JsonDoc) -> (scatter: bool)
    ensures
        scatter == spec_is_scatter_plot(*json),
        spec_is_str(spec_member(*json, "type"@), "scatter"@) ==> scatter,
        spec_as_str(spec_member(*json, "type"@)) is None ==> scatter,
        spec_as_str(spec_member(*json, "type"@)) matches Some(t) && t != "scatter"@ ==> !scatter,
{
    proof {
        lemma_scatter_plot_by_type(*json);
    }
    let plot_type = json.member("type");
    plot_type.as_str().is_none() || plot_type.is_str("scatter")
}

/// The settings of a scatter plot from JSON of the form
/// ```text
/// {
///     "type": "scatter",
///     "format": "pnts" | "glb" (default "glb"),
///     "max_depth": d (default 10),
///     "node_capacity": n (default 5000),
///     "fractal_dimension_depth": n (default 20),
///     ...
/// }
/// ```
/// or `None` when the format is neither pnts nor glb.
pub fn scatter_settings(json: &JsonDoc) -> (settings: Option<ScatterSettings>)
    ensures
        spec_is_str(spec_member(*json, "format"@), "glb"@) ==> (settings matches Some(s)
            && s.content_type == ContentType::Glb),
        spec_is_str(spec_member(*json, "format"@), "pnts"@) ==> (settings matches Some(s)
            && s.content_type == ContentType::Pnts),
        spec_as_str(spec_member(*json, "format"@)) is None ==> (settings matches Some(s)
            && s.content_type == ContentType::Glb),
        spec_as_str(spec_member(*json, "format"@)) matches Some(f) && f != "glb"@ && f
            != "pnts"@ ==> settings is None,
        settings is Some <==> spec_content_format(*json) is Some,
        settings matches Some(s) ==> {
            &&& Some(s.content_type) == spec_content_format(*json)
            &&& s.max_depth == match spec_as_u8(spec_member(*json, "max_depth"@)) {
                Some(d) => d,
                None => 10,
            }
            &&& s.node_capacity == match spec_as_usize(spec_member(*json, "node_capacity"@)) {
                Some(c) => c,
                None => 5000,
            }
            &&& s.fractal_dimension_levels == match spec_as_usize(
                spec_member(*json, "fractal_dimension_depth"@),
            ) {
                Some(l) => l,
                None => 20,
            }
        },
{
    proof {
        lemma_content_format_by_name(*json);
    }
    let format = json.member("format");
    let content_type = if format.as_str().is_none() || format.is_str("glb") {
        ContentType::Glb
    } else if format.is_str("pnts") {
        ContentType::Pnts
    } else {
        return None;
    };
    let max_depth = match json.member("max_depth").as_u8() {
        Some(d) => d,
        None => 10,
    };
    let node_capacity = match json.member("node_capacity").as_usize() {
        Some(c) => c,
        None => 5000,
    };
    let fractal_dimension_levels = match json.member("fractal_dimension_depth").as_usize() {
        Some(l) => l,
        None => 20,
    };
    Some(ScatterSettings { content_type, max_depth, node_capacity, fractal_dimension_levels })
}

} // verus!
