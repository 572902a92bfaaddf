use retro_pixel_test::material::ColorSrgba;
use retro_pixel_test::material::CustomMaterial;
use retro_pixel_test::material::ImageHandle;
use retro_pixel_test::material::FLAGS_NONE;
use retro_pixel_test::material::FLAGS_TEXTURE;
use retro_pixel_test::material::FLAGS_UNINITIALIZED;

fn textured(path: &str) -> CustomMaterial {
    CustomMaterial {
        color: ColorSrgba::white(),
        texture: Some(ImageHandle::Asset { path: path.to_string() }),
    }
}

#[test]
fn flags_without_texture_are_zero() {
    let material = CustomMaterial { color: ColorSrgba::red(), texture: None };
    let uniform = material.as_bind_group_shader_type();
    assert_eq!(uniform.flags, 0);
    assert_eq!(uniform.flags, FLAGS_NONE);
}

#[test]
fn flags_with_texture_are_one() {
    let uniform = textured("textures/player_proto.png").as_bind_group_shader_type();
    assert_eq!(uniform.flags, 1);
    assert_eq!(uniform.flags, FLAGS_TEXTURE);
}

#[test]
fn uninitialized_sentinel_is_never_emitted() {
    let plain = CustomMaterial { color: ColorSrgba::white(), texture: None };
    assert_ne!(plain.as_bind_group_shader_type().flags, FLAGS_UNINITIALIZED);
    let with_texture = textured("textures/enemy_proto.png");
    assert_ne!(with_texture.as_bind_group_shader_type().flags, FLAGS_UNINITIALIZED);
}

#[test]
fn uniform_carries_the_stored_color() {
    let material = CustomMaterial { color: ColorSrgba::red(), texture: None };
    let uniform = material.as_bind_group_shader_type();
    assert_eq!(uniform.color, ColorSrgba { red: 255, green: 0, blue: 0, alpha: 255 });
}

#[test]
fn default_material_is_untextured_white() {
    let material = CustomMaterial::default();
    assert_eq!(material.color, ColorSrgba { red: 255, green: 255, blue: 255, alpha: 255 });
    assert!(material.texture.is_none());
}

#[test]
fn material_from_color_has_no_texture() {
    let material = CustomMaterial::from(ColorSrgba::red());
    assert_eq!(material.color, ColorSrgba { red: 255, green: 0, blue: 0, alpha: 255 });
    assert!(material.texture.is_none());
}

#[test]
fn material_from_texture_is_white() {
    let handle = ImageHandle::Asset { path: "textures/player_proto.png".to_string() };
    let material = CustomMaterial::from(handle);
    assert_eq!(material.color, ColorSrgba { red: 255, green: 255, blue: 255, alpha: 255 });
    match material.texture {
        Some(ImageHandle::Asset { path }) => assert_eq!(path, "textures/player_proto.png"),
        other => panic!("expected the asset handle, got {:?}", other),
    }
}

#[test]
fn fragment_shader_path() {
    assert_eq!(CustomMaterial::fragment_shader(), "shaders/smooth_pixel.wgsl");
}
