use zygisk_loader::controller::{HookController, HookState, PostAction, PreAction};
use zygisk_loader::identity::AppSpecializeArgs;
use zygisk_loader::payload::{conclude_open, AcquireError, PayloadReference};
use zygisk_loader::target::ConfigReadError;

const PAYLOAD_PATH: &str = "/data/adb/modules/zygisk-loader/payload.so";

fn loaded_relay() -> HookController {
    let mut c = HookController::with_descriptor_relay();
    assert!(c.on_load());
    c
}

fn loaded_direct() -> HookController {
    let mut c = HookController::with_direct_path(String::from(PAYLOAD_PATH));
    assert!(c.on_load());
    c
}

fn relay_with_handle(target: &str, identity: &str, fd: i32) -> HookController {
    let mut c = loaded_relay();
    assert!(c.enter_pre_specialize());
    assert!(c.config_loaded(Ok(String::from(target))));
    assert_eq!(c.pre_match(identity), PreAction::AcquireHandle);
    assert_eq!(c.handle_result(conclude_open(fd)), Some(fd));
    assert_eq!(c.state(), HookState::HandleAcquired);
    c
}

#[test]
fn a_new_controller_is_idle() {
    let relay = HookController::with_descriptor_relay();
    assert_eq!(relay.state(), HookState::Idle);
    assert!(!relay.is_host_ready());
    assert!(relay.relays());
    assert_eq!(relay.target(), None);
    assert!(!relay.holds_reference());
    assert!(!relay.is_acquiring());
    let direct = HookController::with_direct_path(String::from(PAYLOAD_PATH));
    assert_eq!(direct.state(), HookState::Idle);
    assert!(!direct.relays());
}

#[test]
fn on_load_is_taken_once() {
    let mut c = HookController::with_descriptor_relay();
    assert!(c.on_load());
    assert_eq!(c.state(), HookState::Loaded);
    assert!(c.is_host_ready());
    assert!(!c.on_load());
    assert_eq!(c.state(), HookState::Loaded);
    assert!(c.is_host_ready());
}

#[test]
fn no_phase_opens_before_the_host_has_loaded() {
    let mut relay = HookController::with_descriptor_relay();
    assert!(!relay.enter_pre_specialize());
    assert!(!relay.enter_post_specialize());
    assert_eq!(relay.state(), HookState::Idle);
    let mut direct = HookController::with_direct_path(String::from(PAYLOAD_PATH));
    assert!(!direct.enter_post_specialize());
    assert_eq!(direct.state(), HookState::Idle);
}

#[test]
fn relay_cycle_injects_through_the_descriptor() {
    let mut c = loaded_relay();
    assert!(c.enter_pre_specialize());
    assert_eq!(c.state(), HookState::AwaitingPreMatch);
    assert!(c.config_loaded(Ok(String::from("com.example.app"))));
    assert_eq!(c.target(), Some(String::from("com.example.app")));
    assert_eq!(c.pre_match("com.example.app"), PreAction::AcquireHandle);
    assert!(c.is_acquiring());
    assert_eq!(c.state(), HookState::AwaitingPreMatch);
    assert_eq!(c.handle_result(conclude_open(31)), Some(31));
    assert!(!c.is_acquiring());
    assert!(c.holds_reference());
    assert_eq!(c.state(), HookState::HandleAcquired);
    assert!(c.enter_post_specialize());
    assert_eq!(c.state(), HookState::AwaitingPostMatch);
    assert_eq!(
        c.post_match("com.example.app:service"),
        PostAction::Inject(PayloadReference::Descriptor(31))
    );
    assert_eq!(c.state(), HookState::Injected);
    assert!(!c.holds_reference());
}

#[test]
fn relay_cycle_without_match_acquires_nothing() {
    let mut c = loaded_relay();
    assert!(c.enter_pre_specialize());
    assert!(c.config_loaded(Ok(String::from("com.example.app"))));
    assert_eq!(c.pre_match("org.other.app"), PreAction::Proceed);
    assert_eq!(c.state(), HookState::NoMatch);
    assert!(!c.is_acquiring());
    assert_eq!(c.handle_result(conclude_open(31)), None);
    assert!(!c.holds_reference());
    assert_eq!(c.state(), HookState::NoMatch);
    assert!(c.enter_post_specialize());
    assert_eq!(c.post_match("com.example.app"), PostAction::Skip);
    assert_eq!(c.state(), HookState::Skipped);
}

#[test]
fn empty_target_matches_no_process() {
    let mut c = loaded_relay();
    assert!(c.enter_pre_specialize());
    assert!(c.config_loaded(Ok(String::new())));
    assert_eq!(c.pre_match("com.example.app"), PreAction::Proceed);
    assert_eq!(c.state(), HookState::NoMatch);
    let mut d = loaded_direct();
    assert!(d.enter_post_specialize());
    assert!(d.config_loaded(Ok(String::new())));
    assert_eq!(d.post_match("com.example.app"), PostAction::Skip);
    assert_eq!(d.state(), HookState::Skipped);
}

#[test]
fn empty_identity_matches_no_target() {
    let mut c = loaded_relay();
    assert!(c.enter_pre_specialize());
    assert!(c.config_loaded(Ok(String::from("com.example.app"))));
    assert_eq!(c.pre_match(""), PreAction::Proceed);
    assert_eq!(c.state(), HookState::NoMatch);
}

#[test]
fn unreadable_config_ends_the_cycle() {
    let mut c = loaded_relay();
    assert!(c.enter_pre_specialize());
    assert!(!c.config_loaded(Err(ConfigReadError::Unreadable)));
    assert_eq!(c.state(), HookState::Skipped);
    assert_eq!(c.target(), None);
    for identity in ["", "com.example.app", "anything"] {
        assert_eq!(c.pre_match(identity), PreAction::Proceed);
        assert_eq!(c.handle_result(conclude_open(31)), None);
        assert!(!c.enter_post_specialize());
        assert_eq!(c.post_match(identity), PostAction::Skip);
        assert_eq!(c.state(), HookState::Skipped);
        assert!(!c.holds_reference());
    }
}

#[test]
fn unreadable_config_ends_the_cycle_without_earlier_phase() {
    let mut c = loaded_direct();
    assert!(c.enter_post_specialize());
    assert!(!c.config_loaded(Err(ConfigReadError::Unreadable)));
    assert_eq!(c.state(), HookState::Skipped);
    assert_eq!(c.post_match("com.example.app"), PostAction::Skip);
    assert_eq!(c.post_match(""), PostAction::Skip);
}

#[test]
fn invalid_config_ends_the_cycle_too() {
    let mut c = loaded_relay();
    assert!(c.enter_pre_specialize());
    assert!(!c.config_loaded(Err(ConfigReadError::InvalidText)));
    assert_eq!(c.state(), HookState::Skipped);
}

#[test]
fn cycle_without_config_never_matches() {
    let mut c = loaded_relay();
    assert!(c.enter_pre_specialize());
    assert_eq!(c.pre_match("com.example.app"), PreAction::Proceed);
    assert_eq!(c.state(), HookState::NoMatch);
    assert!(c.enter_post_specialize());
    assert_eq!(c.post_match("com.example.app"), PostAction::Skip);
    assert_eq!(c.state(), HookState::Skipped);
}

#[test]
fn config_is_kept_once_per_cycle() {
    let mut c = loaded_relay();
    assert!(!c.config_loaded(Ok(String::from("too.early"))));
    assert_eq!(c.target(), None);
    assert!(c.enter_pre_specialize());
    assert!(c.config_loaded(Ok(String::from("com.example.app"))));
    assert!(!c.config_loaded(Ok(String::from("org.other.app"))));
    assert!(!c.config_loaded(Err(ConfigReadError::Unreadable)));
    assert_eq!(c.target(), Some(String::from("com.example.app")));
    assert_eq!(c.state(), HookState::AwaitingPreMatch);
}

#[test]
fn failed_acquisition_leaves_the_cycle_without_handle() {
    let mut c = loaded_relay();
    assert!(c.enter_pre_specialize());
    assert!(c.config_loaded(Ok(String::from("com.example.app"))));
    assert_eq!(c.pre_match("com.example.app"), PreAction::AcquireHandle);
    assert_eq!(c.handle_result(conclude_open(-1)), None);
    assert_eq!(c.state(), HookState::NoMatch);
    assert!(!c.holds_reference());
    assert!(c.enter_post_specialize());
    assert_eq!(c.post_match("com.example.app"), PostAction::Skip);
    assert_eq!(c.state(), HookState::Skipped);
}

#[test]
fn missing_module_directory_leaves_the_cycle_without_handle() {
    let mut c = loaded_relay();
    assert!(c.enter_pre_specialize());
    assert!(c.config_loaded(Ok(String::from("com.example.app"))));
    assert_eq!(c.pre_match("com.example.app"), PreAction::AcquireHandle);
    assert_eq!(c.handle_result(Err(AcquireError::ModuleDirUnavailable)), None);
    assert_eq!(c.state(), HookState::NoMatch);
}

#[test]
fn handle_is_dropped_when_the_later_match_fails() {
    let mut c = relay_with_handle("com.example.app", "com.example.app", 31);
    assert!(c.enter_post_specialize());
    assert!(c.holds_reference());
    assert_eq!(c.post_match("org.other.app"), PostAction::Skip);
    assert_eq!(c.state(), HookState::Skipped);
    assert!(!c.holds_reference());
    assert_eq!(c.post_match("com.example.app"), PostAction::Skip);
    assert_eq!(c.state(), HookState::Skipped);
}

#[test]
fn handle_is_handed_out_once() {
    let mut c = relay_with_handle("com.example.app", "com.example.app", 31);
    assert!(c.enter_post_specialize());
    assert_eq!(
        c.post_match("com.example.app"),
        PostAction::Inject(PayloadReference::Descriptor(31))
    );
    assert_eq!(c.post_match("com.example.app"), PostAction::Skip);
    assert!(!c.enter_post_specialize());
    assert_eq!(c.post_match("com.example.app"), PostAction::Skip);
    assert_eq!(c.state(), HookState::Injected);
}

#[test]
fn match_is_asked_once_per_phase() {
    let mut c = loaded_relay();
    assert!(c.enter_pre_specialize());
    assert!(c.config_loaded(Ok(String::from("com.example.app"))));
    assert_eq!(c.pre_match("com.example.app"), PreAction::AcquireHandle);
    assert_eq!(c.pre_match("com.example.app"), PreAction::Proceed);
    assert!(c.is_acquiring());
    assert_eq!(c.state(), HookState::AwaitingPreMatch);
}

#[test]
fn later_phase_does_not_open_before_the_earlier_one_is_over() {
    let mut c = loaded_relay();
    assert!(!c.enter_post_specialize());
    assert_eq!(c.state(), HookState::Loaded);
    assert!(c.enter_pre_specialize());
    assert!(!c.enter_post_specialize());
    assert_eq!(c.post_match("com.example.app"), PostAction::Skip);
    assert_eq!(c.state(), HookState::AwaitingPreMatch);
}

#[test]
fn direct_cycle_injects_by_path() {
    let mut c = loaded_direct();
    assert!(!c.enter_pre_specialize());
    assert_eq!(c.state(), HookState::Loaded);
    assert!(c.enter_post_specialize());
    assert_eq!(c.state(), HookState::AwaitingPostMatch);
    assert!(c.config_loaded(Ok(String::from("com.example.app"))));
    assert_eq!(
        c.post_match("com.example.app:service"),
        PostAction::Inject(PayloadReference::Path(String::from(PAYLOAD_PATH)))
    );
    assert_eq!(c.state(), HookState::Injected);
}

#[test]
fn direct_cycle_injects_exactly_on_a_match() {
    let targets = ["", "a", "com.a", "com.a:b", "com.b"];
    let identities = ["", "a", "com.a", "com.a:b", "x.com.a", "COM.A"];
    for target in targets {
        for identity in identities {
            let mut c = loaded_direct();
            assert!(c.enter_post_specialize());
            assert!(c.config_loaded(Ok(String::from(target))));
            let action = c.post_match(identity);
            let expected = !target.is_empty() && identity.contains(target);
            assert_eq!(
                action != PostAction::Skip,
                expected,
                "target {:?} identity {:?}",
                target,
                identity
            );
            assert_eq!(
                c.state(),
                if expected { HookState::Injected } else { HookState::Skipped }
            );
        }
    }
}

#[test]
fn relay_cycle_injects_exactly_when_both_phases_match() {
    let target = "com.a";
    for earlier in ["com.a", "com.a:b", "org.c", ""] {
        for later in ["com.a", "x.com.a", "org.c", ""] {
            let mut c = loaded_relay();
            assert!(c.enter_pre_specialize());
            assert!(c.config_loaded(Ok(String::from(target))));
            let asked = c.pre_match(earlier) == PreAction::AcquireHandle;
            assert_eq!(asked, earlier.contains(target));
            if asked {
                assert_eq!(c.handle_result(conclude_open(9)), Some(9));
            }
            assert!(c.enter_post_specialize());
            let action = c.post_match(later);
            if earlier.contains(target) && later.contains(target) {
                assert_eq!(action, PostAction::Inject(PayloadReference::Descriptor(9)));
            } else {
                assert_eq!(action, PostAction::Skip);
            }
        }
    }
}

#[test]
fn a_path_reference_needs_no_exemption() {
    let mut c = loaded_relay();
    assert!(c.enter_pre_specialize());
    assert!(c.config_loaded(Ok(String::from("com.example.app"))));
    assert_eq!(c.pre_match("com.example.app"), PreAction::AcquireHandle);
    assert_eq!(c.handle_result(Ok(PayloadReference::Path(String::from(PAYLOAD_PATH)))), None);
    assert_eq!(c.state(), HookState::HandleAcquired);
    assert!(c.enter_post_specialize());
    assert_eq!(
        c.post_match("com.example.app"),
        PostAction::Inject(PayloadReference::Path(String::from(PAYLOAD_PATH)))
    );
}

#[test]
fn end_cycle_forgets_the_cycle_and_keeps_the_host_state() {
    let mut c = relay_with_handle("com.example.app", "com.example.app", 31);
    assert!(!c.end_cycle());
    assert_eq!(c.state(), HookState::HandleAcquired);
    assert!(c.enter_post_specialize());
    assert!(!c.end_cycle());
    assert_eq!(
        c.post_match("com.example.app"),
        PostAction::Inject(PayloadReference::Descriptor(31))
    );
    assert!(c.end_cycle());
    assert_eq!(c.state(), HookState::Idle);
    assert!(c.is_host_ready());
    assert_eq!(c.target(), None);
    assert!(!c.holds_reference());
    assert!(!c.on_load());
    assert!(!c.end_cycle());
}

#[test]
fn next_cycle_starts_clean() {
    let mut c = relay_with_handle("com.example.app", "com.example.app", 31);
    assert!(c.enter_post_specialize());
    assert_eq!(c.post_match("org.other.app"), PostAction::Skip);
    assert!(c.end_cycle());
    assert!(c.enter_pre_specialize());
    assert_eq!(c.state(), HookState::AwaitingPreMatch);
    assert_eq!(c.target(), None);
    assert!(c.config_loaded(Ok(String::from("org.other.app"))));
    assert_eq!(c.pre_match("org.other.app"), PreAction::AcquireHandle);
    assert_eq!(c.handle_result(conclude_open(40)), Some(40));
    assert!(c.enter_post_specialize());
    assert_eq!(
        c.post_match("org.other.app"),
        PostAction::Inject(PayloadReference::Descriptor(40))
    );
}

#[test]
fn next_direct_cycle_reads_its_own_config() {
    let mut c = loaded_direct();
    assert!(c.enter_post_specialize());
    assert!(!c.config_loaded(Err(ConfigReadError::Unreadable)));
    assert!(c.end_cycle());
    assert!(c.enter_post_specialize());
    assert!(c.config_loaded(Ok(String::from("com.example.app"))));
    assert_eq!(
        c.post_match("com.example.app"),
        PostAction::Inject(PayloadReference::Path(String::from(PAYLOAD_PATH)))
    );
}

fn runtime(nice_name: Option<&str>, app_data_dir: Option<&str>) -> AppSpecializeArgs {
    AppSpecializeArgs {
        nice_name: nice_name.map(String::from),
        app_data_dir: app_data_dir.map(String::from),
    }
}

#[test]
fn whole_relay_cycle_from_raw_inputs() {
    let mut c = loaded_relay();
    let before = runtime(Some("com.example.app"), Some("/data/user/0/com.example.app"));
    assert_eq!(
        c.pre_app_specialize(Some(b" com.example.app \nignored\n"), &before, b"zygote64\0"),
        PreAction::AcquireHandle
    );
    assert_eq!(c.target(), Some(String::from("com.example.app")));
    assert_eq!(c.handle_result(conclude_open(12)), Some(12));
    let after = runtime(Some(""), Some("/data/user/0/com.example.app"));
    assert_eq!(
        c.post_app_specialize(None, &after, b"zygote64\0"),
        PostAction::Inject(PayloadReference::Descriptor(12))
    );
    assert_eq!(c.state(), HookState::Injected);
}

#[test]
fn whole_cycle_resolves_the_identity_from_the_command_line() {
    let mut c = loaded_relay();
    let nothing = runtime(None, None);
    assert_eq!(
        c.pre_app_specialize(Some(b"com.example.app"), &nothing, b"com.example.app:remote\0x"),
        PreAction::AcquireHandle
    );
    assert_eq!(c.handle_result(conclude_open(3)), Some(3));
    assert_eq!(c.post_app_specialize(None, &nothing, b"zygote64\0"), PostAction::Skip);
    assert_eq!(c.state(), HookState::Skipped);
    assert!(!c.holds_reference());
}

#[test]
fn whole_cycle_with_absent_config_does_nothing() {
    for identity in ["com.example.app", "", "zygote64"] {
        let mut c = loaded_relay();
        let args = runtime(Some(identity), None);
        assert_eq!(c.pre_app_specialize(None, &args, b""), PreAction::Proceed);
        assert_eq!(c.state(), HookState::Skipped);
        assert!(!c.holds_reference());
        assert_eq!(c.post_app_specialize(Some(b"com.example.app"), &args, b""), PostAction::Skip);
        assert_eq!(c.state(), HookState::Skipped);

        let mut d = loaded_direct();
        assert_eq!(d.pre_app_specialize(None, &args, b""), PreAction::Proceed);
        assert_eq!(d.post_app_specialize(None, &args, b""), PostAction::Skip);
        assert_eq!(d.state(), HookState::Skipped);
    }
}

#[test]
fn whole_cycle_with_invalid_config_does_nothing() {
    let mut c = loaded_relay();
    let args = runtime(Some("com.example.app"), None);
    assert_eq!(c.pre_app_specialize(Some(&[0xFF, b'\n']), &args, b""), PreAction::Proceed);
    assert_eq!(c.state(), HookState::Skipped);
}

#[test]
fn whole_direct_cycle_from_raw_inputs() {
    let mut c = loaded_direct();
    let args = runtime(Some(""), Some("/data/data/com.example.app/"));
    assert_eq!(c.pre_app_specialize(Some(b"com.example.app\n"), &args, b""), PreAction::Proceed);
    assert_eq!(c.state(), HookState::Loaded);
    assert_eq!(
        c.post_app_specialize(Some(b"com.example.app\n"), &args, b""),
        PostAction::Inject(PayloadReference::Path(String::from(PAYLOAD_PATH)))
    );
    assert_eq!(c.state(), HookState::Injected);
}

#[test]
fn whole_phase_out_of_turn_changes_nothing() {
    let mut c = HookController::with_descriptor_relay();
    let args = runtime(Some("com.example.app"), None);
    assert_eq!(c.pre_app_specialize(Some(b"com.example.app"), &args, b""), PreAction::Proceed);
    assert_eq!(c.post_app_specialize(Some(b"com.example.app"), &args, b""), PostAction::Skip);
    assert_eq!(c.state(), HookState::Idle);
    assert_eq!(c.target(), None);
}
