//! Environment dispatch tests: every recognized command, malformed
//! payloads, and the unrecognized-command guarantee.

use retro_frontend::frontend::Frontend;
use retro_frontend::libretro_abi::ENVIRONMENT_GET_CAN_DUPE;
use retro_frontend::libretro_abi::ENVIRONMENT_GET_LOG_INTERFACE;
use retro_frontend::libretro_abi::ENVIRONMENT_GET_SAVE_DIRECTORY;
use retro_frontend::libretro_abi::ENVIRONMENT_GET_SYSTEM_DIRECTORY;
use retro_frontend::libretro_abi::ENVIRONMENT_GET_VARIABLE;
use retro_frontend::libretro_abi::ENVIRONMENT_GET_VARIABLE_UPDATE;
use retro_frontend::libretro_abi::ENVIRONMENT_SET_GEOMETRY;
use retro_frontend::libretro_abi::ENVIRONMENT_SET_HW_RENDER;
use retro_frontend::libretro_abi::ENVIRONMENT_SET_PERFORMANCE_LEVEL;
use retro_frontend::libretro_abi::ENVIRONMENT_SET_PIXEL_FORMAT;
use retro_frontend::libretro_abi::ENVIRONMENT_SET_VARIABLES;
use retro_frontend::libretro_abi::PixelFormat;
use retro_frontend::libretro_callbacks::EnvOutcome;
use retro_frontend::libretro_callbacks::EnvPayload;

#[test]
fn unrecognized_command_is_not_handled_and_mutates_nothing() {
    let mut f = Frontend::new();
    f.on_resize(320, 240);
    let before_len = f.converted_pixel_buffer.len();
    let r = f.environment_callback(0xDEAD, EnvPayload::Opaque);
    assert!(matches!(r, EnvOutcome::NotHandled));
    // Observable state is untouched.
    assert_eq!(f.get_size(), (320, 240));
    assert_eq!(f.converted_pixel_buffer.len(), before_len);
    assert_eq!(f.pixel_format, PixelFormat::RGB565);
    assert!(!f.core_loaded());
}

#[test]
fn can_dupe_always_writes_true() {
    let mut f = Frontend::new();
    let r = f.environment_callback(ENVIRONMENT_GET_CAN_DUPE, EnvPayload::Opaque);
    assert!(matches!(r, EnvOutcome::WriteBool(true)));
}

#[test]
fn variable_update_flag_is_never_set() {
    let mut f = Frontend::new();
    let r = f.environment_callback(ENVIRONMENT_GET_VARIABLE_UPDATE, EnvPayload::Opaque);
    assert!(matches!(r, EnvOutcome::WriteBool(false)));
}

#[test]
fn directories_are_reported_from_host_owned_storage() {
    let mut f = Frontend::new();
    match f.environment_callback(ENVIRONMENT_GET_SYSTEM_DIRECTORY, EnvPayload::Opaque) {
        EnvOutcome::WritePath(p) => assert_eq!(p.as_str(), "system"),
        _ => panic!("expected the system directory"),
    }
    match f.environment_callback(ENVIRONMENT_GET_SAVE_DIRECTORY, EnvPayload::Opaque) {
        EnvOutcome::WritePath(p) => assert_eq!(p.as_str(), "save"),
        _ => panic!("expected the save directory"),
    }
}

#[test]
fn set_pixel_format_accepts_only_known_formats() {
    let mut f = Frontend::new();
    let r = f.environment_callback(ENVIRONMENT_SET_PIXEL_FORMAT, EnvPayload::Uint(0));
    assert!(matches!(r, EnvOutcome::Handled));
    assert_eq!(f.pixel_format, PixelFormat::ARGB1555);
    let r = f.environment_callback(ENVIRONMENT_SET_PIXEL_FORMAT, EnvPayload::Uint(2));
    assert!(matches!(r, EnvOutcome::Handled));
    assert_eq!(f.pixel_format, PixelFormat::RGB565);
    // An unknown format value fails the call without mutating state.
    let r = f.environment_callback(ENVIRONMENT_SET_PIXEL_FORMAT, EnvPayload::Uint(9));
    assert!(matches!(r, EnvOutcome::NotHandled));
    assert_eq!(f.pixel_format, PixelFormat::RGB565);
}

#[test]
fn set_geometry_notifies_only_on_change() {
    let mut f = Frontend::new();
    let r = f.environment_callback(
        ENVIRONMENT_SET_GEOMETRY,
        EnvPayload::Geometry { width: 256, height: 224 },
    );
    assert!(matches!(r, EnvOutcome::Resize { width: 256, height: 224 }));
    assert_eq!(f.get_size(), (256, 224));
    // Unchanged geometry: handled, but no resize notification.
    let r = f.environment_callback(
        ENVIRONMENT_SET_GEOMETRY,
        EnvPayload::Geometry { width: 256, height: 224 },
    );
    assert!(matches!(r, EnvOutcome::Handled));
    // A null payload is rejected.
    let r = f.environment_callback(ENVIRONMENT_SET_GEOMETRY, EnvPayload::Invalid);
    assert!(matches!(r, EnvOutcome::NotHandled));
}

#[test]
fn hw_render_accepts_only_the_opengl_variants() {
    let mut f = Frontend::new();
    // OpenGL and core-profile OpenGL are negotiated.
    let r = f.environment_callback(ENVIRONMENT_SET_HW_RENDER, EnvPayload::Uint(1));
    assert!(matches!(r, EnvOutcome::SetupHwRender));
    let r = f.environment_callback(ENVIRONMENT_SET_HW_RENDER, EnvPayload::Uint(3));
    assert!(matches!(r, EnvOutcome::SetupHwRender));
    // Anything else degrades gracefully to software rendering.
    let r = f.environment_callback(ENVIRONMENT_SET_HW_RENDER, EnvPayload::Uint(6));
    assert!(matches!(r, EnvOutcome::NotHandled));
    let r = f.environment_callback(ENVIRONMENT_SET_HW_RENDER, EnvPayload::Uint(0));
    assert!(matches!(r, EnvOutcome::NotHandled));
}

#[test]
fn hw_render_target_id_round_trips() {
    let mut f = Frontend::new();
    assert_eq!(f.get_current_framebuffer(), 0);
    f.set_gl_fbo(42);
    assert_eq!(f.get_current_framebuffer(), 42);
}

#[test]
fn log_interface_and_performance_level_are_handled() {
    let mut f = Frontend::new();
    let r = f.environment_callback(ENVIRONMENT_GET_LOG_INTERFACE, EnvPayload::Opaque);
    assert!(matches!(r, EnvOutcome::ProvideLogInterface));
    let r = f.environment_callback(ENVIRONMENT_SET_PERFORMANCE_LEVEL, EnvPayload::Uint(3));
    assert!(matches!(r, EnvOutcome::Handled));
    // A malformed payload for a recognized command is still rejected.
    let r = f.environment_callback(ENVIRONMENT_SET_PERFORMANCE_LEVEL, EnvPayload::Invalid);
    assert!(matches!(r, EnvOutcome::NotHandled));
}

fn declare(f: &mut Frontend, decls: Vec<(&str, &str)>) -> EnvOutcome {
    let owned: Vec<(String, String)> = decls
        .into_iter()
        .map(|(k, v)| (String::from(k), String::from(v)))
        .collect();
    f.environment_callback(ENVIRONMENT_SET_VARIABLES, EnvPayload::Variables(owned))
}

#[test]
fn set_variables_installs_the_table_and_requests_a_settings_load() {
    let mut f = Frontend::new();
    let r = declare(
        &mut f,
        vec![
            ("core_speed", "Speed; normal|fast|slow"),
            ("core_region", "Region; auto|pal|ntsc"),
        ],
    );
    assert!(matches!(r, EnvOutcome::LoadSettings));
    // The defaults are the first declared choices.
    match f.environment_callback(
        ENVIRONMENT_GET_VARIABLE,
        EnvPayload::Key(String::from("core_speed")),
    ) {
        EnvOutcome::WriteVariable(v) => assert_eq!(v.as_str(), "normal"),
        _ => panic!("expected a variable value"),
    }
}

#[test]
fn get_variable_misses_report_not_handled() {
    let mut f = Frontend::new();
    declare(&mut f, vec![("core_speed", "Speed; normal|fast")]);
    let r = f.environment_callback(
        ENVIRONMENT_GET_VARIABLE,
        EnvPayload::Key(String::from("nonexistent")),
    );
    assert!(matches!(r, EnvOutcome::NotHandled));
    // A null or undecodable key payload is rejected too.
    let r = f.environment_callback(ENVIRONMENT_GET_VARIABLE, EnvPayload::Invalid);
    assert!(matches!(r, EnvOutcome::NotHandled));
}

#[test]
fn set_variables_is_atomic_on_a_malformed_declaration() {
    let mut f = Frontend::new();
    declare(&mut f, vec![("core_speed", "Speed; normal|fast")]);
    // The second declaration lacks the "; " separator, so nothing of the
    // new list is installed and the old table stays.
    let r = declare(
        &mut f,
        vec![("core_region", "Region; auto|pal"), ("bad", "no separator")],
    );
    assert!(matches!(r, EnvOutcome::NotHandled));
    let r = f.environment_callback(
        ENVIRONMENT_GET_VARIABLE,
        EnvPayload::Key(String::from("core_region")),
    );
    assert!(matches!(r, EnvOutcome::NotHandled));
    match f.environment_callback(
        ENVIRONMENT_GET_VARIABLE,
        EnvPayload::Key(String::from("core_speed")),
    ) {
        EnvOutcome::WriteVariable(v) => assert_eq!(v.as_str(), "normal"),
        _ => panic!("the old table should still answer"),
    }
}

#[test]
fn set_variables_last_declaration_wins() {
    let mut f = Frontend::new();
    declare(
        &mut f,
        vec![
            ("core_speed", "Speed; normal|fast"),
            ("core_speed", "Speed; slow|slower"),
        ],
    );
    match f.environment_callback(
        ENVIRONMENT_GET_VARIABLE,
        EnvPayload::Key(String::from("core_speed")),
    ) {
        EnvOutcome::WriteVariable(v) => assert_eq!(v.as_str(), "slow"),
        _ => panic!("expected a variable value"),
    }
}
