//! The named inputs of the shading program.

use vstd::prelude::*;

verus! {

/// A per-vertex input of the vertex stage.
#[derive(Clone, Copy, Debug, PartialEq, Eq, Structural)]
pub enum Attribute {
    Position,
    Normal,
    TexCoord,
}

impl Attribute {
    /// The identifier under which the program declares this attribute.
    pub open spec fn spec_name(self) -> Seq<char> {
        match self {
            Attribute::Position => "position"@,
            Attribute::Normal => "normal"@,
            Attribute::TexCoord => "tex_coord"@,
        }
    }

    /// The identifier to look this attribute up by.
    pub fn name(&self) -> (name: &'static str)
        ensures
            name@ == self.spec_name(),
    {
        match self {
            Attribute::Position => "position",
            Attribute::Normal => "normal",
            Attribute::TexCoord => "tex_coord",
        }
    }
}

/// A per-draw input of the program, shared by both stages.
#[derive(Clone, Copy, Debug, PartialEq, Eq, Structural)]
pub enum Uniform {
    View,
    Proj,
    Transform,
    Scale,
    HeightMap,
    CameraPosition,
    TextureMap,
    SpecularMap,
    CloudMap,
    NightMap,
    LightDir,
    Time,
}

impl Uniform {
    /// The identifier under which the program declares this uniform.
    pub open spec fn spec_name(self) -> Seq<char> {
        match self {
            Uniform::View => "view"@,
            Uniform::Proj => "proj"@,
            Uniform::Transform => "transform"@,
            Uniform::Scale => "scale"@,
            Uniform::HeightMap => "height_map"@,
            Uniform::CameraPosition => "camera_position"@,
            Uniform::TextureMap => "texture_map"@,
            Uniform::SpecularMap => "specular_map"@,
            Uniform::CloudMap => "cloud_map"@,
            Uniform::NightMap => "night_map"@,
            Uniform::LightDir => "lightdir"@,
            Uniform::Time => "time"@,
        }
    }

    /// Whether the uniform selects a texture unit rather than carrying a value.
    pub open spec fn spec_is_sampler(self) -> bool {
        self == Uniform::HeightMap || self == Uniform::TextureMap || self == Uniform::SpecularMap
            || self == Uniform::CloudMap || self == Uniform::NightMap
    }

    /// The identifier to look this uniform up by.
    pub fn name(&self) -> (name: &'static str)
        ensures
            name@ == self.spec_name(),
    {
        match self {
            Uniform::View => "view",
            Uniform::Proj => "proj",
            Uniform::Transform => "transform",
            Uniform::Scale => "scale",
            Uniform::HeightMap => "height_map",
            Uniform::CameraPosition => "camera_position",
            Uniform::TextureMap => "texture_map",
            Uniform::SpecularMap => "specular_map",
            Uniform::CloudMap => "cloud_map",
            Uniform::NightMap => "night_map",
            Uniform::LightDir => "lightdir",
            Uniform::Time => "time",
        }
    }
}

/// No two attributes share an identifier, so a lookup by name cannot hand one
/// attribute the location of another.
pub proof fn lemma_attribute_names_distinct(a: Attribute, b: Attribute)
    requires
        a != b,
    ensures
        a.spec_name() != b.spec_name(),
{
    reveal_strlit("position");
    reveal_strlit("normal");
    reveal_strlit("tex_coord");
    assert(a.spec_name().len() != b.spec_name().len());
}

/// No two uniforms share an identifier.
pub proof fn lemma_uniform_names_distinct(a: Uniform, b: Uniform)
    requires
        a != b,
    ensures
        a.spec_name() != b.spec_name(),
{
    reveal_strlit("view");
    reveal_strlit("proj");
    reveal_strlit("transform");
    reveal_strlit("scale");
    reveal_strlit("height_map");
    reveal_strlit("camera_position");
    reveal_strlit("texture_map");
    reveal_strlit("specular_map");
    reveal_strlit("cloud_map");
    reveal_strlit("night_map");
    reveal_strlit("lightdir");
    reveal_strlit("time");
    let x = a.spec_name();
    let y = b.spec_name();
    if x.len() == y.len() {
        assert(x[0] != y[0] || x[1] != y[1]);
    }
}

} // verus!
