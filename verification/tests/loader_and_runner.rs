//! Entry-point table and game-thread step tests.

use retro_frontend::frontend::CoreLoadResult;
use retro_frontend::frontend::GameLoadOutcome;
use retro_frontend::frontend::LifecycleState;
use retro_frontend::libretro_abi::GameGeometry;
use retro_frontend::libretro_abi::PixelFormat;
use retro_frontend::libretro_abi::SystemAvInfo;
use retro_frontend::libretro_abi::SystemInfo;
use retro_frontend::loader::SYMBOL_COUNT;
use retro_frontend::loader::build_function_table;
use retro_frontend::loader::required_symbols;
use retro_frontend::result::Error;
use retro_frontend::retro_core::Core;
use retro_frontend::runner::Game;
use retro_frontend::runner::GameThreadMessage;
use retro_frontend::runner::MessageAction;
use retro_frontend::runner::Proceed;
use retro_frontend::runner::RetroGame;
use retro_frontend::runner::ThreadEvent;
use retro_frontend::runner::game_thread_step;
use retro_frontend::util::bytes_per_pixel_from_libretro;

#[test]
fn the_required_symbol_table_is_fixed_and_ordered() {
    let names = required_symbols();
    assert_eq!(names.len(), SYMBOL_COUNT);
    assert_eq!(names[0], "retro_set_environment");
    assert_eq!(names[6], "retro_init");
    assert_eq!(names[8], "retro_api_version");
    assert_eq!(names[13], "retro_run");
    assert_eq!(names[19], "retro_load_game");
    assert_eq!(names[21], "retro_unload_game");
    assert_eq!(names[24], "retro_get_memory_size");
}

#[test]
fn table_building_is_atomic() {
    let mut addrs: Vec<Option<u64>> = (0..SYMBOL_COUNT).map(|i| Some(i as u64 + 1)).collect();
    let table = build_function_table(&addrs).unwrap();
    assert_eq!(table.addr(0), 1);
    assert_eq!(table.addr(24), 25);
    addrs[7] = None;
    assert!(matches!(build_function_table(&addrs), Err(Error::LibError)));
    // A short list is refused too.
    let short: Vec<Option<u64>> = vec![Some(1); SYMBOL_COUNT - 1];
    assert!(matches!(build_function_table(&short), Err(Error::LibError)));
}

#[test]
fn bytes_per_pixel_by_format() {
    assert_eq!(bytes_per_pixel_from_libretro(PixelFormat::ARGB1555), 2);
    assert_eq!(bytes_per_pixel_from_libretro(PixelFormat::RGB565), 2);
    assert_eq!(bytes_per_pixel_from_libretro(PixelFormat::ARGB8888), 4);
}

#[test]
fn pixel_format_numbering() {
    assert_eq!(PixelFormat::from_uint(0), Some(PixelFormat::ARGB1555));
    assert_eq!(PixelFormat::from_uint(1), Some(PixelFormat::ARGB8888));
    assert_eq!(PixelFormat::from_uint(2), Some(PixelFormat::RGB565));
    assert_eq!(PixelFormat::from_uint(3), None);
}

fn good_load() -> CoreLoadResult {
    CoreLoadResult {
        module: Some(11),
        symbols: (0..SYMBOL_COUNT).map(|i| Some(i as u64 + 0x10)).collect(),
        api_version: 1,
        system_info: SystemInfo {
            library_name: String::from("wrapped"),
            library_version: String::from("1"),
            valid_extensions: String::from("bin"),
            need_fullpath: false,
            block_extract: false,
        },
        av_info: SystemAvInfo {
            geometry: GameGeometry {
                base_width: 8,
                base_height: 8,
                max_width: 8,
                max_height: 8,
            },
        },
    }
}

#[test]
fn core_wrapper_keeps_a_loaded_core() {
    let mut core = Core::load(good_load()).unwrap();
    assert_eq!(core.frontend.state(), LifecycleState::CoreLoaded);
    core.load_game(GameLoadOutcome::CoreAccepted).unwrap();
    assert_eq!(core.frontend.state(), LifecycleState::GameLoaded);
    assert!(core.unload_game().unwrap());
    assert_eq!(core.frontend.state(), LifecycleState::CoreLoaded);
}

#[test]
fn core_wrapper_reports_load_failures() {
    let mut load = good_load();
    load.api_version = 9;
    assert!(matches!(
        Core::load(load),
        Err(Error::InvalidLibRetroAPI { expected: 1, got: 9 })
    ));
}

#[test]
fn thread_stops_on_shutdown_and_disconnect() {
    let step = game_thread_step(false, ThreadEvent::Message(GameThreadMessage::Shutdown));
    assert_eq!(step.proceed, Proceed::Stop);
    let step = game_thread_step(true, ThreadEvent::Disconnected);
    assert_eq!(step.proceed, Proceed::Stop);
}

#[test]
fn thread_sleeps_while_suspended_and_steps_otherwise() {
    let step = game_thread_step(true, ThreadEvent::Empty);
    assert_eq!(step.proceed, Proceed::Sleep);
    assert!(step.next_suspended);
    let step = game_thread_step(false, ThreadEvent::Empty);
    assert_eq!(step.proceed, Proceed::RunOne);
}

#[test]
fn thread_applies_a_message_and_still_proceeds_in_the_same_turn() {
    let step = game_thread_step(
        false,
        ThreadEvent::Message(GameThreadMessage::Reset),
    );
    assert!(matches!(step.action, MessageAction::Reset));
    assert_eq!(step.proceed, Proceed::RunOne);

    let step = game_thread_step(
        true,
        ThreadEvent::Message(GameThreadMessage::SetProperty {
            key: String::from("libretro.core"),
            value: String::from("cores/example.so"),
        }),
    );
    match step.action {
        MessageAction::SetProperty { key, value } => {
            assert_eq!(key.as_str(), "libretro.core");
            assert_eq!(value.as_str(), "cores/example.so");
        }
        _ => panic!("expected the property to be applied"),
    }
    assert_eq!(step.proceed, Proceed::Sleep);
}

#[test]
fn thread_suspension_toggles() {
    let step = game_thread_step(
        true,
        ThreadEvent::Message(GameThreadMessage::Suspend { suspend: false }),
    );
    assert!(!step.next_suspended);
    assert_eq!(step.proceed, Proceed::RunOne);
    let step = game_thread_step(
        false,
        ThreadEvent::Message(GameThreadMessage::Suspend { suspend: true }),
    );
    assert!(step.next_suspended);
    assert_eq!(step.proceed, Proceed::Sleep);
}

#[test]
fn retro_game_records_its_core_path() {
    let mut game = RetroGame::new();
    assert!(game.core_path.is_none());
    game.set_property("libretro.core", "cores/example.so");
    assert_eq!(game.core_path.as_ref().unwrap().as_str(), "cores/example.so");
    game.set_property("unrelated", "x");
    assert_eq!(game.core_path.as_ref().unwrap().as_str(), "cores/example.so");
    game.init();
    game.run_one();
    game.reset();
}
