//! Input routing tests: devices, ports, class checks and ranges.

use retro_frontend::frontend::CoreLoadResult;
use retro_frontend::frontend::Frontend;
use retro_frontend::input_devices::Device;
use retro_frontend::input_devices::InputDevice;
use retro_frontend::input_devices::Mouse;
use retro_frontend::input_devices::RetroPad;
use retro_frontend::libretro_abi::DEVICE_JOYPAD;
use retro_frontend::libretro_abi::DEVICE_MOUSE;
use retro_frontend::libretro_abi::DEVICE_NONE;
use retro_frontend::libretro_abi::GameGeometry;
use retro_frontend::libretro_abi::SystemAvInfo;
use retro_frontend::libretro_abi::SystemInfo;
use retro_frontend::loader::SYMBOL_COUNT;

fn loaded_frontend() -> Frontend {
    let mut symbols: Vec<Option<u64>> = Vec::new();
    for i in 0..SYMBOL_COUNT {
        symbols.push(Some(0x3000 + i as u64));
    }
    let mut f = Frontend::new();
    f.load_core(CoreLoadResult {
        module: Some(2),
        symbols,
        api_version: 1,
        system_info: SystemInfo {
            library_name: String::from("padcore"),
            library_version: String::from("1"),
            valid_extensions: String::from(""),
            need_fullpath: true,
            block_extract: false,
        },
        av_info: SystemAvInfo {
            geometry: GameGeometry {
                base_width: 10,
                base_height: 10,
                max_width: 10,
                max_height: 10,
            },
        },
    })
    .unwrap();
    f
}

#[test]
fn devices_report_their_class_and_buttons() {
    let mut pad = RetroPad::new();
    assert_eq!(pad.device_type(), DEVICE_JOYPAD);
    assert_eq!(pad.get_button(4), 0);
    pad.press_button(4, None);
    assert_eq!(pad.get_button(4), 0x7fff);
    pad.press_button(5, Some(123));
    assert_eq!(pad.get_button(5), 123);
    pad.reset();
    assert_eq!(pad.get_button(4), 0);
    assert_eq!(pad.get_button(5), 0);

    let mut mouse = Mouse::new();
    assert_eq!(mouse.device_type(), DEVICE_MOUSE);
    mouse.press_button(2, Some(7));
    assert_eq!(mouse.get_button(2), 7);
}

#[test]
fn out_of_range_button_ids_read_zero_and_ignore_presses() {
    let mut pad = RetroPad::new();
    pad.press_button(16, Some(5));
    assert_eq!(pad.get_button(16), 0);
    assert_eq!(pad.get_button(9999), 0);
    let mut mouse = Mouse::new();
    mouse.press_button(8, Some(5));
    assert_eq!(mouse.get_button(8), 0);
}

#[test]
fn state_queries_route_to_the_plugged_device() {
    let mut f = loaded_frontend();
    let mut pad = RetroPad::new();
    pad.press_button(3, Some(77));
    let told = f.plug_input_device(0, Device::Pad(pad));
    assert_eq!(told, Some(DEVICE_JOYPAD));
    assert_eq!(f.input_state(0, DEVICE_JOYPAD, 3), 77);
    // An unplugged port reads zero.
    assert_eq!(f.input_state(1, DEVICE_JOYPAD, 3), 0);
    // Out-of-range ids read zero.
    assert_eq!(f.input_state(0, DEVICE_JOYPAD, 99), 0);
}

#[test]
fn class_mismatch_reads_zero() {
    let mut f = loaded_frontend();
    let mut mouse = Mouse::new();
    mouse.press_button(1, Some(9));
    f.plug_input_device(2, Device::Mouse(mouse));
    // Reading the pointing device as a gamepad is refused.
    assert_eq!(f.input_state(2, DEVICE_JOYPAD, 1), 0);
    assert_eq!(f.input_state(2, DEVICE_MOUSE, 1), 9);
}

#[test]
fn last_plug_for_a_port_wins() {
    let mut f = loaded_frontend();
    let mut first = RetroPad::new();
    first.press_button(0, Some(1));
    f.plug_input_device(0, Device::Pad(first));
    let mut second = RetroPad::new();
    second.press_button(0, Some(2));
    f.plug_input_device(0, Device::Pad(second));
    assert_eq!(f.input_state(0, DEVICE_JOYPAD, 0), 2);
}

#[test]
fn unplug_removes_the_device() {
    let mut f = loaded_frontend();
    let mut pad = RetroPad::new();
    pad.press_button(0, Some(4));
    f.plug_input_device(1, Device::Pad(pad));
    assert_eq!(f.input_state(1, DEVICE_JOYPAD, 0), 4);
    let told = f.unplug_input_device(1);
    assert_eq!(told, Some(DEVICE_NONE));
    assert_eq!(f.input_state(1, DEVICE_JOYPAD, 0), 0);
}

#[test]
fn routing_is_ignored_while_no_core_is_loaded() {
    let mut f = Frontend::new();
    assert_eq!(f.plug_input_device(0, Device::Pad(RetroPad::new())), None);
    assert_eq!(f.unplug_input_device(0), None);
    assert_eq!(f.input_state(0, DEVICE_JOYPAD, 0), 0);
}

#[test]
fn unload_core_disconnects_all_devices() {
    let mut f = loaded_frontend();
    let mut pad = RetroPad::new();
    pad.press_button(0, Some(4));
    f.plug_input_device(0, Device::Pad(pad));
    f.unload_core().unwrap();
    assert!(f.input_devices.is_empty());
}
