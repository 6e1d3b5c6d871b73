use earth_material::shader::{Attribute, Uniform};
use earth_material::texture::{TextureSlot, TEXTURE_UNITS};

#[test]
fn attribute_names_match_the_program() {
    assert_eq!(Attribute::Position.name(), "position");
    assert_eq!(Attribute::Normal.name(), "normal");
    assert_eq!(Attribute::TexCoord.name(), "tex_coord");
}

#[test]
fn uniform_names_match_the_program() {
    assert_eq!(Uniform::View.name(), "view");
    assert_eq!(Uniform::Proj.name(), "proj");
    assert_eq!(Uniform::Transform.name(), "transform");
    assert_eq!(Uniform::Scale.name(), "scale");
    assert_eq!(Uniform::HeightMap.name(), "height_map");
    assert_eq!(Uniform::CameraPosition.name(), "camera_position");
    assert_eq!(Uniform::TextureMap.name(), "texture_map");
    assert_eq!(Uniform::SpecularMap.name(), "specular_map");
    assert_eq!(Uniform::CloudMap.name(), "cloud_map");
    assert_eq!(Uniform::NightMap.name(), "night_map");
    assert_eq!(Uniform::LightDir.name(), "lightdir");
    assert_eq!(Uniform::Time.name(), "time");
}

#[test]
fn uniform_names_are_pairwise_distinct() {
    let all = [
        Uniform::View,
        Uniform::Proj,
        Uniform::Transform,
        Uniform::Scale,
        Uniform::HeightMap,
        Uniform::CameraPosition,
        Uniform::TextureMap,
        Uniform::SpecularMap,
        Uniform::CloudMap,
        Uniform::NightMap,
        Uniform::LightDir,
        Uniform::Time,
    ];
    for (i, a) in all.iter().enumerate() {
        for (j, b) in all.iter().enumerate() {
            assert_eq!(i == j, a.name() == b.name());
        }
    }
}

#[test]
fn attribute_names_are_pairwise_distinct() {
    let all = [Attribute::Position, Attribute::Normal, Attribute::TexCoord];
    for (i, a) in all.iter().enumerate() {
        for (j, b) in all.iter().enumerate() {
            assert_eq!(i == j, a.name() == b.name());
        }
    }
}

#[test]
fn layers_are_listed_in_unit_order() {
    let all = TextureSlot::all();
    assert_eq!(
        all,
        [
            TextureSlot::Albedo,
            TextureSlot::Bump,
            TextureSlot::Specular,
            TextureSlot::Cloud,
            TextureSlot::Night,
        ]
    );
    assert_eq!(all.len() as u32, TEXTURE_UNITS);
    for (i, slot) in all.iter().enumerate() {
        assert_eq!(slot.unit() as usize, i);
    }
}

#[test]
fn texture_units_are_fixed() {
    assert_eq!(TextureSlot::Albedo.unit(), 0);
    assert_eq!(TextureSlot::Bump.unit(), 1);
    assert_eq!(TextureSlot::Specular.unit(), 2);
    assert_eq!(TextureSlot::Cloud.unit(), 3);
    assert_eq!(TextureSlot::Night.unit(), 4);
}

#[test]
fn each_layer_reads_through_its_own_sampler() {
    assert_eq!(TextureSlot::Albedo.sampler(), Uniform::TextureMap);
    assert_eq!(TextureSlot::Bump.sampler(), Uniform::HeightMap);
    assert_eq!(TextureSlot::Specular.sampler(), Uniform::SpecularMap);
    assert_eq!(TextureSlot::Cloud.sampler(), Uniform::CloudMap);
    assert_eq!(TextureSlot::Night.sampler(), Uniform::NightMap);
}

#[test]
fn layers_are_registered_under_their_keys() {
    assert_eq!(TextureSlot::Albedo.registry_key(), "earth");
    assert_eq!(TextureSlot::Bump.registry_key(), "bump");
    assert_eq!(TextureSlot::Specular.registry_key(), "specular");
    assert_eq!(TextureSlot::Cloud.registry_key(), "cloud");
    assert_eq!(TextureSlot::Night.registry_key(), "nights");
}

#[test]
fn layers_are_loaded_from_their_files() {
    assert_eq!(TextureSlot::Albedo.asset_path(), "8081_earthmap4k.jpg");
    assert_eq!(TextureSlot::Bump.asset_path(), "8081_earthbump4k.jpg");
    assert_eq!(TextureSlot::Specular.asset_path(), "8081_earthspec4k.jpg");
    assert_eq!(TextureSlot::Cloud.asset_path(), "Clouds.jpg");
    assert_eq!(TextureSlot::Night.asset_path(), "night_lights_modified.jpg");
}

#[test]
fn only_the_cloud_layer_repeats() {
    assert!(!TextureSlot::Albedo.repeats_horizontally());
    assert!(!TextureSlot::Bump.repeats_horizontally());
    assert!(!TextureSlot::Specular.repeats_horizontally());
    assert!(TextureSlot::Cloud.repeats_horizontally());
    assert!(!TextureSlot::Night.repeats_horizontally());
}
