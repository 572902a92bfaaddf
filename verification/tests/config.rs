use retro_pixel_test::camera::camera_scale;
use retro_pixel_test::camera::setup_camera;
use retro_pixel_test::plugin::LibPlugin;
use retro_pixel_test::plugin::Registration;
use retro_pixel_test::plugin::Schedule;
use retro_pixel_test::plugin::SystemId;
use retro_pixel_test::window::primary_window_config;
use retro_pixel_test::window::PresentMode;

#[test]
fn camera_scale_of_reference_resolutions() {
    // Reference (320, 192) shown in a (960, 576) window: scale 320/960.
    let scale = camera_scale(320, 192, 960, 576);
    assert_eq!(scale.num, 320);
    assert_eq!(scale.den, 960);
}

#[test]
fn camera_scale_of_other_resolutions() {
    let scale = camera_scale(100, 50, 200, 400);
    assert_eq!(scale.num, 100);
    assert_eq!(scale.den, 400);

    let tall = camera_scale(50, 300, 640, 480);
    assert_eq!(tall.num, 300);
    assert_eq!(tall.den, 640);
}

#[test]
fn startup_camera_configuration() {
    let camera = setup_camera();
    assert_eq!(camera.position.x, 0);
    assert_eq!(camera.position.y, 0);
    assert_eq!(camera.position.z, 10000);
    assert_eq!(camera.fixed_vertical_size, 960);
    assert_eq!(camera.scale.num, 320);
    assert_eq!(camera.scale.den, 960);
}

#[test]
fn primary_window_values() {
    let window = primary_window_config();
    assert_eq!(window.title, "Retro Pixel Test");
    assert_eq!(window.width, 960);
    assert_eq!(window.height, 576);
    assert_eq!(window.present_mode, PresentMode::Fifo);
    assert!(window.resizable);
    assert_eq!(window.canvas, "#bevy");
}

fn system(schedule: Schedule, id: SystemId) -> Registration {
    Registration::System { schedule, system: id }
}

#[test]
fn default_plugin_registrations() {
    let plan = LibPlugin::default().build();
    assert_eq!(
        plan,
        vec![
            Registration::MaterialPlugin,
            system(Schedule::Startup, SystemId::SetupCamera),
            system(Schedule::Startup, SystemId::SetupPlayer),
            system(Schedule::Update, SystemId::MovePlayer),
        ]
    );
}

#[test]
fn plugin_variants_differ_only_in_material_registration() {
    let with_material = LibPlugin { custom_material: true, diagnostics: false }.build();
    let without_material = LibPlugin { custom_material: false, diagnostics: false }.build();
    assert_eq!(with_material[0], Registration::MaterialPlugin);
    assert_eq!(with_material[1..], without_material[..]);
    assert_eq!(without_material.len(), 3);
}

#[test]
fn diagnostics_variant_appends_overlays() {
    let plan = LibPlugin { custom_material: true, diagnostics: true }.build();
    assert_eq!(plan.len(), 6);
    assert_eq!(plan[4], Registration::FrameTimeDiagnosticsPlugin);
    assert_eq!(plan[5], Registration::LogDiagnosticsPlugin);
}
