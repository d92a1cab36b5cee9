//! Lifecycle state machine tests: loading and unloading cores and games,
//! and the single-active-host guard.

use retro_frontend::frontend::CoreCall;
use retro_frontend::frontend::CoreLoadResult;
use retro_frontend::frontend::Frontend;
use retro_frontend::frontend::GameLoadOutcome;
use retro_frontend::frontend::HostSlot;
use retro_frontend::frontend::LifecycleState;
use retro_frontend::libretro_abi::GameGeometry;
use retro_frontend::libretro_abi::SystemAvInfo;
use retro_frontend::libretro_abi::SystemInfo;
use retro_frontend::loader::SYMBOL_COUNT;
use retro_frontend::result::Error;

fn test_system_info() -> SystemInfo {
    SystemInfo {
        library_name: String::from("testcore"),
        library_version: String::from("1.0"),
        valid_extensions: String::from("bin"),
        need_fullpath: false,
        block_extract: false,
    }
}

fn test_av_info() -> SystemAvInfo {
    SystemAvInfo {
        geometry: GameGeometry {
            base_width: 320,
            base_height: 240,
            max_width: 640,
            max_height: 480,
        },
    }
}

fn good_load() -> CoreLoadResult {
    let mut symbols: Vec<Option<u64>> = Vec::new();
    for i in 0..SYMBOL_COUNT {
        symbols.push(Some(0x1000 + i as u64));
    }
    CoreLoadResult {
        module: Some(7),
        symbols,
        api_version: 1,
        system_info: test_system_info(),
        av_info: test_av_info(),
    }
}

#[test]
fn fresh_host_is_unloaded() {
    let f = Frontend::new();
    assert!(!f.core_loaded());
    assert_eq!(f.state(), LifecycleState::Unloaded);
}

#[test]
fn load_core_succeeds_with_complete_table() {
    let mut f = Frontend::new();
    assert!(f.load_core(good_load()).is_ok());
    assert!(f.core_loaded());
    assert_eq!(f.state(), LifecycleState::CoreLoaded);
    assert!(f.get_av_info().is_ok());
    assert_eq!(f.get_av_info().unwrap().geometry.base_width, 320);
    assert_eq!(
        f.get_system_info().unwrap().library_name.as_str(),
        "testcore"
    );
}

#[test]
fn load_core_fails_when_module_open_failed() {
    let mut f = Frontend::new();
    let mut load = good_load();
    load.module = None;
    assert!(matches!(f.load_core(load), Err(Error::LibError)));
    assert!(!f.core_loaded());
}

#[test]
fn load_core_is_atomic_on_missing_symbol() {
    let mut f = Frontend::new();
    let mut load = good_load();
    load.symbols[13] = None;
    assert!(matches!(f.load_core(load), Err(Error::LibError)));
    // No partial function table was installed.
    assert!(f.core_api.is_none());
    assert!(f.core_library.is_none());
    assert!(!f.core_loaded());
}

#[test]
fn load_core_rejects_wrong_api_version() {
    let mut f = Frontend::new();
    let mut load = good_load();
    load.api_version = 2;
    match f.load_core(load) {
        Err(Error::InvalidLibRetroAPI { expected, got }) => {
            assert_eq!(expected, 1);
            assert_eq!(got, 2);
        }
        other => panic!("expected a version mismatch, got {:?}", other),
    }
    assert!(!f.core_loaded());
}

#[test]
fn load_core_while_loaded_fails_and_changes_nothing() {
    let mut f = Frontend::new();
    assert!(f.load_core(good_load()).is_ok());
    let mut second = good_load();
    second.module = Some(8);
    second.system_info.library_name = String::from("other");
    assert!(matches!(
        f.load_core(second),
        Err(Error::CoreAlreadyLoaded)
    ));
    // All existing state is unchanged.
    assert_eq!(f.core_library, Some(7));
    assert_eq!(
        f.get_system_info().unwrap().library_name.as_str(),
        "testcore"
    );
    assert_eq!(f.state(), LifecycleState::CoreLoaded);
}

#[test]
fn load_game_while_unloaded_fails_with_core_not_loaded() {
    let mut f = Frontend::new();
    assert!(matches!(
        f.load_game(GameLoadOutcome::CoreAccepted),
        Err(Error::CoreNotLoaded)
    ));
    assert_eq!(f.state(), LifecycleState::Unloaded);
}

#[test]
fn load_game_outcomes() {
    let mut f = Frontend::new();
    f.load_core(good_load()).unwrap();
    assert!(matches!(
        f.load_game(GameLoadOutcome::ReadFailed),
        Err(Error::IoError)
    ));
    assert_eq!(f.state(), LifecycleState::CoreLoaded);
    assert!(matches!(
        f.load_game(GameLoadOutcome::CoreRejected),
        Err(Error::RomLoadFailed)
    ));
    assert_eq!(f.state(), LifecycleState::CoreLoaded);
    assert!(f.load_game(GameLoadOutcome::CoreAccepted).is_ok());
    assert_eq!(f.state(), LifecycleState::GameLoaded);
}

#[test]
fn unload_core_from_core_loaded_ends_unloaded() {
    let mut f = Frontend::new();
    f.load_core(good_load()).unwrap();
    let calls = f.unload_core().unwrap();
    assert_eq!(calls, vec![CoreCall::Deinit, CoreCall::CloseModule]);
    assert_eq!(f.state(), LifecycleState::Unloaded);
}

#[test]
fn unload_core_from_game_loaded_unloads_game_first() {
    let mut f = Frontend::new();
    f.load_core(good_load()).unwrap();
    f.load_game(GameLoadOutcome::CoreAccepted).unwrap();
    let calls = f.unload_core().unwrap();
    assert_eq!(
        calls,
        vec![CoreCall::UnloadGame, CoreCall::Deinit, CoreCall::CloseModule]
    );
    assert_eq!(f.state(), LifecycleState::Unloaded);
}

#[test]
fn unload_core_while_unloaded_fails() {
    let mut f = Frontend::new();
    assert!(matches!(f.unload_core(), Err(Error::CoreNotLoaded)));
}

#[test]
fn end_to_end_load_run_unload() {
    let mut f = Frontend::new();
    f.load_core(good_load()).unwrap();
    f.load_game(GameLoadOutcome::CoreAccepted).unwrap();
    for _ in 0..10 {
        assert!(f.run_frame().is_ok());
    }
    assert!(f.unload_game().unwrap());
    f.unload_core().unwrap();
    assert_eq!(f.state(), LifecycleState::Unloaded);
    // No retained module handle and no retained metadata.
    assert!(f.core_library.is_none());
    assert!(f.core_api.is_none());
    assert!(f.av_info.is_none());
    assert!(f.sys_info.is_none());
}

#[test]
fn run_frame_requires_a_core() {
    let f = Frontend::new();
    assert!(matches!(f.run_frame(), Err(Error::CoreNotLoaded)));
    assert!(matches!(f.reset(), Err(Error::CoreNotLoaded)));
}

#[test]
fn second_active_host_is_refused_without_disturbing_the_first() {
    let mut slot = HostSlot::new();
    let mut first = Frontend::new();
    first.load_core(good_load()).unwrap();
    slot.activate(first).unwrap();
    assert!(slot.is_active());

    let second = Frontend::new();
    assert!(matches!(
        slot.activate(second),
        Err(Error::HostAlreadyActive)
    ));
    // The first host is still there, untouched.
    assert!(slot.is_active());
    let first = slot.deactivate().unwrap();
    assert!(first.core_loaded());
    assert_eq!(first.core_library, Some(7));
    assert!(!slot.is_active());
}
