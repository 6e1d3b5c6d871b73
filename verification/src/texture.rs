//! The five image layers of the planet and the texture units they occupy.

use vstd::prelude::*;
use crate::shader::Uniform;

verus! {

/// The number of texture units a frame occupies.
pub const TEXTURE_UNITS: u32 = 5;

/// One image layer of the planet.
#[derive(Clone, Copy, Debug, PartialEq, Eq, Structural)]
pub enum TextureSlot {
    /// Base surface colour.
    Albedo,
    /// Surface relief, read by the vertex stage.
    Bump,
    /// Reflectivity mask: oceans against land.
    Specular,
    /// Cloud cover, scrolled sideways as time passes.
    Cloud,
    /// City lights of the unlit hemisphere.
    Night,
}

impl TextureSlot {
    /// The texture unit reserved for this layer.
    pub open spec fn spec_unit(self) -> nat {
        match self {
            TextureSlot::Albedo => 0,
            TextureSlot::Bump => 1,
            TextureSlot::Specular => 2,
            TextureSlot::Cloud => 3,
            TextureSlot::Night => 4,
        }
    }

    /// The sampler uniform through which the program reads this layer.
    pub open spec fn spec_sampler(self) -> Uniform {
        match self {
            TextureSlot::Albedo => Uniform::TextureMap,
            TextureSlot::Bump => Uniform::HeightMap,
            TextureSlot::Specular => Uniform::SpecularMap,
            TextureSlot::Cloud => Uniform::CloudMap,
            TextureSlot::Night => Uniform::NightMap,
        }
    }

    /// The key under which the layer's texture is registered.
    pub open spec fn spec_registry_key(self) -> Seq<char> {
        match self {
            TextureSlot::Albedo => "earth"@,
            TextureSlot::Bump => "bump"@,
            TextureSlot::Specular => "specular"@,
            TextureSlot::Cloud => "cloud"@,
            TextureSlot::Night => "nights"@,
        }
    }

    /// The image file the layer is loaded from, relative to the working
    /// directory.
    pub open spec fn spec_asset_path(self) -> Seq<char> {
        match self {
            TextureSlot::Albedo => "8081_earthmap4k.jpg"@,
            TextureSlot::Bump => "8081_earthbump4k.jpg"@,
            TextureSlot::Specular => "8081_earthspec4k.jpg"@,
            TextureSlot::Cloud => "Clouds.jpg"@,
            TextureSlot::Night => "night_lights_modified.jpg"@,
        }
    }

    /// Whether the layer wraps around horizontally. Only the cloud layer
    /// does: its lookup coordinate is scrolled past the image's edge.
    pub open spec fn spec_repeats_horizontally(self) -> bool {
        self == TextureSlot::Cloud
    }

    /// The five layers in the order of their units.
    pub fn all() -> (slots: [TextureSlot; 5])
        ensures
            slots@ == all_slots(),
    {
        let slots = [
            TextureSlot::Albedo,
            TextureSlot::Bump,
            TextureSlot::Specular,
            TextureSlot::Cloud,
            TextureSlot::Night,
        ];
        assert(slots@ =~= all_slots());
        slots
    }

    /// The texture unit reserved for this layer.
    pub fn unit(&self) -> (unit: u32)
        ensures
            unit == self.spec_unit(),
            unit < TEXTURE_UNITS,
    {
        match self {
            TextureSlot::Albedo => 0,
            TextureSlot::Bump => 1,
            TextureSlot::Specular => 2,
            TextureSlot::Cloud => 3,
            TextureSlot::Night => 4,
        }
    }

    /// The sampler uniform through which the program reads this layer.
    pub fn sampler(&self) -> (uniform: Uniform)
        ensures
            uniform == self.spec_sampler(),
            uniform.spec_is_sampler(),
    {
        match self {
            TextureSlot::Albedo => Uniform::TextureMap,
            TextureSlot::Bump => Uniform::HeightMap,
            TextureSlot::Specular => Uniform::SpecularMap,
            TextureSlot::Cloud => Uniform::CloudMap,
            TextureSlot::Night => Uniform::NightMap,
        }
    }

    /// The key under which the layer's texture is registered.
    pub fn registry_key(&self) -> (key: &'static str)
        ensures
            key@ == self.spec_registry_key(),
    {
        match self {
            TextureSlot::Albedo => "earth",
            TextureSlot::Bump => "bump",
            TextureSlot::Specular => "specular",
            TextureSlot::Cloud => "cloud",
            TextureSlot::Night => "nights",
        }
    }

    /// The image file the layer is loaded from, relative to the working
    /// directory.
    pub fn asset_path(&self) -> (path: &'static str)
        ensures
            path@ == self.spec_asset_path(),
    {
        match self {
            TextureSlot::Albedo => "8081_earthmap4k.jpg",
            TextureSlot::Bump => "8081_earthbump4k.jpg",
            TextureSlot::Specular => "8081_earthspec4k.jpg",
            TextureSlot::Cloud => "Clouds.jpg",
            TextureSlot::Night => "night_lights_modified.jpg",
        }
    }

    /// Whether the layer wraps around horizontally.
    pub fn repeats_horizontally(&self) -> (repeats: bool)
        ensures
            repeats == self.spec_repeats_horizontally(),
    {
        match self {
            TextureSlot::Cloud => true,
            _ => false,
        }
    }
}

/// The five layers in the order of their units.
pub open spec fn all_slots() -> Seq<TextureSlot> {
    seq![
        TextureSlot::Albedo,
        TextureSlot::Bump,
        TextureSlot::Specular,
        TextureSlot::Cloud,
        TextureSlot::Night,
    ]
}

/// Each layer has a unit of its own, and the units are exactly `0` to `4`,
/// in the order in which the layers are listed.
pub proof fn lemma_units_are_a_bijection(a: TextureSlot, b: TextureSlot, unit: nat)
    ensures
        a.spec_unit() < TEXTURE_UNITS,
        a.spec_unit() == b.spec_unit() ==> a == b,
        all_slots().len() == TEXTURE_UNITS,
        all_slots()[a.spec_unit() as int] == a,
        unit < TEXTURE_UNITS ==> all_slots()[unit as int].spec_unit() == unit,
{
}

/// No two layers read through the same sampler, and every sampler uniform of
/// the program belongs to a layer.
pub proof fn lemma_samplers_are_a_bijection(a: TextureSlot, b: TextureSlot, uniform: Uniform)
    ensures
        a.spec_sampler() == b.spec_sampler() ==> a == b,
        a.spec_sampler().spec_is_sampler(),
        uniform.spec_is_sampler() ==> exists|s: TextureSlot| #[trigger] s.spec_sampler() == uniform,
{
    if uniform.spec_is_sampler() {
        let s = match uniform {
            Uniform::TextureMap => TextureSlot::Albedo,
            Uniform::HeightMap => TextureSlot::Bump,
            Uniform::SpecularMap => TextureSlot::Specular,
            Uniform::CloudMap => TextureSlot::Cloud,
            _ => TextureSlot::Night,
        };
        assert(s.spec_sampler() == uniform);
    }
}

} // verus!
