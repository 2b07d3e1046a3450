use std::cell::RefCell;
use std::collections::VecDeque;
use std::rc::Rc;

use sha2::{Digest, Sha256};

use verge::domain::{AppError, ErrorCode};
use verge::platform::app_bundle::{plist_string_value, short_version_from_plist};
use verge::platform::helper_install::{
    bundled_digest_path, bundled_helper, shell_quote, verify_bundle_source, HelperBundle, HelperInstallLayout,
    MacHelperInstaller,
};
use verge::platform::login_item::{
    enabled_from_status, set_registration, CallbackRegistration, LoginItemStatus,
};
use verge::platform::{
    default_login_item_service, validate_argument, CallbackRunner, DefaultLoginItem, LoginItemService, MacKeychain,
    MacNotifier,
};

const SECURITY: &str = "/usr/bin/security";
const OSASCRIPT: &str = "/usr/bin/osascript";
const HELPER_LABEL: &str = "com.zzzgydi.verge.helper";
const HELPER_SOCKET_PATH: &str = "/var/run/verge-helper.sock";

/// Scripted command outputs, and the commands that were run.
#[derive(Default)]
struct Script {
    outputs: RefCell<VecDeque<Result<String, AppError>>>,
    calls: RefCell<Vec<Vec<String>>>,
}

impl Script {
    fn with(outputs: Vec<Result<String, AppError>>) -> Rc<Script> {
        Rc::new(Script { outputs: RefCell::new(outputs.into()), calls: RefCell::new(Vec::new()) })
    }

    fn run(&self, program: &str, args: &[String]) -> Result<String, AppError> {
        let mut call = vec![program.to_owned()];
        call.extend_from_slice(args);
        self.calls.borrow_mut().push(call);
        self.outputs.borrow_mut().pop_front().unwrap_or_else(|| Ok(String::new()))
    }

    fn calls(&self) -> Vec<Vec<String>> {
        self.calls.borrow().clone()
    }
}

fn runner(script: &Rc<Script>) -> CallbackRunner<impl Fn(&str, &[String]) -> Result<String, AppError>> {
    let script = script.clone();
    CallbackRunner::new(move |program: &str, args: &[String]| script.run(program, args))
}

#[test]
fn keychain_uses_argumentized_security_commands() {
    let script = Script::with(vec![Ok("stored-secret\n".into()), Ok(String::new()), Ok(String::new())]);
    let mut keychain = MacKeychain::new(runner(&script), "com.zzzgydi.verge").unwrap();
    assert_eq!(keychain.get("openai").unwrap(), "stored-secret");
    keychain.set("openai", "new-secret").unwrap();
    keychain.delete("openai").unwrap();
    assert_eq!(script.calls().len(), 3);
    assert!(script.calls().iter().all(|call| call.first().is_some_and(|program| program == SECURITY)));
    assert_eq!(
        MacKeychain::new(runner(&Script::with(Vec::new())), "bad\nservice").err().unwrap().code,
        ErrorCode::InvalidInput
    );
}

#[test]
fn notifications_pass_dynamic_text_as_argv() {
    let script = Script::with(vec![Ok(String::new())]);
    let mut notifier = MacNotifier::new(runner(&script));
    notifier.notify("Verge", "Diagnostics exported").unwrap();
    let calls = script.calls();
    let call = &calls[0];
    assert_eq!(call[0], OSASCRIPT);
    assert_eq!(&call[4..], ["Verge", "Diagnostics exported"]);
    assert_eq!(notifier.notify("Verge", "bad\nbody").unwrap_err().code, ErrorCode::InvalidInput);
}

#[derive(Default)]
struct FakeLoginItem {
    enabled: bool,
    calls: Vec<&'static str>,
    failure: Option<AppError>,
}

impl LoginItemService for FakeLoginItem {
    fn status(&mut self) -> Result<bool, AppError> {
        self.calls.push("status");
        match &self.failure {
            Some(error) => Err(error.clone()),
            None => Ok(self.enabled),
        }
    }

    fn set_enabled(&mut self, enabled: bool) -> Result<(), AppError> {
        self.calls.push(if enabled { "enable" } else { "disable" });
        match self.failure.take() {
            Some(error) => Err(error),
            None => {
                self.enabled = enabled;
                Ok(())
            }
        }
    }
}

#[test]
fn login_item_service_fake_records_sequence_and_maps_errors() {
    let mut item = FakeLoginItem::default();
    assert!(!item.status().unwrap());
    item.set_enabled(true).unwrap();
    assert!(item.status().unwrap());
    item.set_enabled(false).unwrap();
    assert_eq!(item.calls, ["status", "enable", "status", "disable"]);

    item.failure = Some(AppError::new(ErrorCode::PlatformFailed, "not a bundled .app"));
    let error = item.set_enabled(true).unwrap_err();
    assert_eq!(error.code, ErrorCode::PlatformFailed);
    assert!(error.message.contains("not a bundled .app"));
    assert!(!item.status().unwrap());
}

/// The registration type of a platform without a native one.
type NoRegistration = CallbackRegistration<fn() -> LoginItemStatus, fn(bool) -> Result<(), String>>;

#[test]
fn default_login_item_service_is_constructible() {
    let mut service = default_login_item_service::<NoRegistration>(None, false);
    let _ = &mut service;
}

#[test]
fn unsupported_login_item_reports_a_platform_error() {
    let mut service = default_login_item_service::<NoRegistration>(None, false);
    assert!(matches!(service, DefaultLoginItem::Unsupported(_)));
    let error = service.status().unwrap_err();
    assert_eq!(error.code, ErrorCode::PlatformFailed);
    assert_eq!(error.message, "launch at login is not supported on this platform");
    assert_eq!(service.set_enabled(true).unwrap_err().code, ErrorCode::PlatformFailed);
}

/// A registration backend as the system keeps it.
struct FakeRegistration {
    status: LoginItemStatus,
    after_change: LoginItemStatus,
    failure: Option<String>,
    calls: Vec<bool>,
}

impl FakeRegistration {
    fn new(status: LoginItemStatus, after_change: LoginItemStatus) -> Rc<RefCell<Self>> {
        Rc::new(RefCell::new(Self { status, after_change, failure: None, calls: Vec::new() }))
    }
}

/// The library's registration over the fake.
fn registration(
    fake: &Rc<RefCell<FakeRegistration>>,
) -> CallbackRegistration<impl Fn() -> LoginItemStatus, impl Fn(bool) -> Result<(), String>> {
    let read = fake.clone();
    let change = fake.clone();
    CallbackRegistration::new(
        move || read.borrow().status,
        move |enabled: bool| {
            let mut fake = change.borrow_mut();
            fake.calls.push(enabled);
            match fake.failure.take() {
                Some(detail) => Err(detail),
                None => {
                    fake.status = fake.after_change;
                    Ok(())
                }
            }
        },
    )
}

#[test]
fn registration_checks_bundle_and_missing_service_before_writes() {
    let backend = FakeRegistration::new(LoginItemStatus::NotRegistered, LoginItemStatus::Enabled);
    let mut service = registration(&backend);
    assert!(set_registration(&mut service, true, false).unwrap_err().message.contains("bundled .app"));
    backend.borrow_mut().status = LoginItemStatus::NotFound;
    assert!(set_registration(&mut service, true, true).is_err());
    assert!(backend.borrow().calls.is_empty());
}

#[test]
fn registration_is_idempotent_and_verifies_both_changes() {
    let backend = FakeRegistration::new(LoginItemStatus::NotRegistered, LoginItemStatus::Enabled);
    let mut service = registration(&backend);
    set_registration(&mut service, false, true).unwrap();
    set_registration(&mut service, true, true).unwrap();
    set_registration(&mut service, true, true).unwrap();
    backend.borrow_mut().after_change = LoginItemStatus::NotRegistered;
    set_registration(&mut service, false, true).unwrap();
    assert_eq!(backend.borrow().calls, [true, false]);
    backend.borrow_mut().after_change = LoginItemStatus::NotRegistered;
    assert!(set_registration(&mut service, true, true).is_err());
    backend.borrow_mut().status = LoginItemStatus::Enabled;
    backend.borrow_mut().after_change = LoginItemStatus::Enabled;
    assert!(set_registration(&mut service, false, true).is_err());
}

#[test]
fn pending_registration_requires_approval_but_can_be_removed() {
    let backend = FakeRegistration::new(LoginItemStatus::NotRegistered, LoginItemStatus::RequiresApproval);
    let mut service = registration(&backend);
    assert!(set_registration(&mut service, true, true).unwrap_err().message.contains("System Settings"));
    assert!(!enabled_from_status(backend.borrow().status).unwrap());
    assert!(set_registration(&mut service, true, true).unwrap_err().message.contains("System Settings"));
    assert_eq!(backend.borrow().calls, [true]);
    backend.borrow_mut().after_change = LoginItemStatus::NotRegistered;
    set_registration(&mut service, false, true).unwrap();
    assert_eq!(backend.borrow().calls, [true, false]);
}

#[test]
fn registration_errors_keep_native_reason_and_code() {
    let backend = FakeRegistration::new(LoginItemStatus::NotRegistered, LoginItemStatus::Enabled);
    let mut service = registration(&backend);
    let code = 22;
    backend.borrow_mut().failure = Some(format!("the code signature is invalid (ServiceManagement code {code})"));
    let error = set_registration(&mut service, true, true).unwrap_err();
    assert_eq!(error.code, ErrorCode::PlatformFailed);
    assert!(error.message.contains("signature"));
    assert!(error.message.contains(&code.to_string()));
    assert_eq!(backend.borrow().status, LoginItemStatus::NotRegistered);
    assert_eq!(error.message, format!("launch at login enable failed: the code signature is invalid (ServiceManagement code {code})"));
}

#[test]
fn native_login_item_reads_and_changes_the_registration() {
    let backend = FakeRegistration::new(LoginItemStatus::RequiresApproval, LoginItemStatus::Enabled);
    let mut service = default_login_item_service(Some(registration(&backend)), true);
    assert!(matches!(service, DefaultLoginItem::Native(_)));
    assert!(!service.status().unwrap());
    assert!(service.set_enabled(true).unwrap_err().message.contains("System Settings"));
    backend.borrow_mut().status = LoginItemStatus::NotRegistered;
    service.set_enabled(true).unwrap();
    assert!(service.status().unwrap());
    assert_eq!(backend.borrow().calls, [true]);
    backend.borrow_mut().status = LoginItemStatus::NotFound;
    assert!(service.status().unwrap_err().message.contains("not found"));

    let unbundled = FakeRegistration::new(LoginItemStatus::NotRegistered, LoginItemStatus::Enabled);
    let mut item = default_login_item_service(Some(registration(&unbundled)), false);
    assert!(item.set_enabled(true).unwrap_err().message.contains("bundled .app"));
    assert!(unbundled.borrow().calls.is_empty());
}

#[test]
fn arguments_with_control_characters_are_refused() {
    assert!(validate_argument("name", "ok").is_ok());
    let error = validate_argument("name", "bad\u{7}").unwrap_err();
    assert_eq!(error.code, ErrorCode::InvalidInput);
    assert_eq!(error.message, "name must be non-empty and contain no control characters");
    assert!(validate_argument("name", "").is_err());
}

fn layout() -> HelperInstallLayout {
    HelperInstallLayout { install_dir: "/tmp/verge-test/PrivilegedHelperTools".into(), daemons_dir: "/tmp/verge-test/LaunchDaemons".into() }
}

fn bundle(bytes: &[u8]) -> HelperBundle {
    HelperBundle {
        binary: "/tmp/verge-test/verge-helper".into(),
        expected_sha256: format!("{:x}", Sha256::digest(bytes)),
    }
}

fn make_installer(
    script: &Rc<Script>,
) -> MacHelperInstaller<CallbackRunner<impl Fn(&str, &[String]) -> Result<String, AppError>>> {
    MacHelperInstaller::new(runner(script), layout(), "/tmp/verge-test/staging".into(), 501).unwrap()
}

fn privileged_scripts(script: &Script) -> Vec<String> {
    script
        .calls()
        .iter()
        .map(|call| {
            assert_eq!(call[0], OSASCRIPT);
            assert_eq!(call[1], "-e");
            call[2].clone()
        })
        .collect()
}

#[test]
fn install_runs_cleanup_then_privileged_install_with_admin_authorization() {
    let bytes = b"verge-helper-binary";
    let bundle = bundle(bytes);
    let script = Script::with(Vec::new());
    let mut installer = make_installer(&script);
    let staged = installer.staged_plist_path();
    installer.install(&bundle, bytes, &staged).unwrap();

    let scripts = privileged_scripts(&script);
    assert_eq!(scripts.len(), 2);
    for script in &scripts {
        assert!(script.starts_with("do shell script \""));
        assert!(script.ends_with("\" with administrator privileges"));
    }
    assert!(scripts[0].contains(&format!("bootout system/{HELPER_LABEL}")));
    assert!(scripts[0].contains("|| true;"));
    let install = &scripts[1];
    let helper = layout().helper_binary();
    let plist = layout().daemon_plist();
    for fragment in [
        format!("/bin/mkdir -p '{}'", layout().install_dir),
        format!("ditto '{}' '{}'", bundle.binary, helper),
        format!("/usr/sbin/chown root:wheel '{}'", helper),
        format!("/bin/chmod 755 '{}'", helper),
        format!("/bin/chmod 644 '{}'", plist),
        format!("/bin/launchctl bootstrap system '{}'", plist),
        format!("/bin/launchctl kickstart -k system/{HELPER_LABEL}"),
    ] {
        assert!(install.contains(&fragment), "install script misses {fragment}");
    }
    let content = installer.daemon_plist_content().unwrap();
    assert!(content.contains(&format!("<string>{HELPER_LABEL}</string>")));
    assert!(content.contains(&format!("<string>{HELPER_SOCKET_PATH}</string>")));
    assert!(content.contains(&format!("<string>{}</string>", helper)));
    assert!(content.contains("<string>501</string>"));
    assert_eq!(staged, format!("/tmp/verge-test/staging/{HELPER_LABEL}.plist"));
}

#[test]
fn install_rejects_a_digest_mismatch_before_any_privileged_call() {
    let bytes = b"verge-helper-binary";
    let mut bundle = bundle(bytes);
    bundle.expected_sha256 = "0".repeat(64);
    let script = Script::with(Vec::new());
    let mut installer = make_installer(&script);
    let staged = installer.staged_plist_path();
    let error = installer.install(&bundle, bytes, &staged).unwrap_err();
    assert_eq!(error.code, ErrorCode::ValidationFailed);
    assert!(error.message.contains("SHA-256 mismatch"));
    assert!(script.calls().is_empty());

    let mut malformed = self::bundle(bytes);
    malformed.expected_sha256 = "not-hex".into();
    let second_script = Script::with(Vec::new());
    let mut second = make_installer(&second_script);
    assert_eq!(second.install(&malformed, bytes, &staged).unwrap_err().code, ErrorCode::ValidationFailed);
    assert!(second_script.calls().is_empty());
}

#[test]
fn failed_install_rolls_back_completed_steps() {
    let bytes = b"verge-helper-binary";
    let bundle = bundle(bytes);
    let script = Script::with(vec![
        Ok(String::new()),
        Err(AppError::new(ErrorCode::PlatformFailed, "osascript: User canceled")),
        Ok(String::new()),
    ]);
    let mut installer = make_installer(&script);
    let staged = installer.staged_plist_path();
    let error = installer.install(&bundle, bytes, &staged).unwrap_err();
    assert!(error.message.contains("User canceled"));
    assert!(error.message.contains("rolled back"));
    let scripts = privileged_scripts(&script);
    assert_eq!(scripts.len(), 3);
    assert!(scripts[2].contains("bootout"));
}

#[test]
fn rollback_failure_is_reported_in_the_error() {
    let bytes = b"verge-helper-binary";
    let bundle = bundle(bytes);
    let script = Script::with(vec![
        Ok(String::new()),
        Err(AppError::new(ErrorCode::PlatformFailed, "install broke")),
        Err(AppError::new(ErrorCode::PlatformFailed, "rollback broke")),
    ]);
    let mut installer = make_installer(&script);
    let staged = installer.staged_plist_path();
    let error = installer.install(&bundle, bytes, &staged).unwrap_err();
    assert!(error.message.contains("install broke"));
    assert!(error.message.contains("rollback failed: rollback broke"));
}

#[test]
fn uninstall_boots_out_the_daemon_and_removes_both_files() {
    let script = Script::with(Vec::new());
    let mut installer = make_installer(&script);
    installer.uninstall().unwrap();
    let scripts = privileged_scripts(&script);
    assert_eq!(scripts.len(), 1);
    assert!(scripts[0].contains(&format!("bootout system/{HELPER_LABEL}")));
    assert!(scripts[0].contains(&format!("rm -f '{}'", layout().daemon_plist())));
    assert!(scripts[0].contains(&format!("rm -f '{}'", layout().helper_binary())));
}

#[test]
fn paths_with_shell_metacharacters_are_rejected_before_running() {
    let bytes = b"verge-helper-binary";
    let mut bundle = bundle(bytes);
    bundle.binary = "/tmp/verge-test/evil'; shutdown -h now; 'helper".into();
    let script = Script::with(Vec::new());
    let mut installer = make_installer(&script);
    let staged = installer.staged_plist_path();
    let error = installer.install(&bundle, bytes, &staged).unwrap_err();
    assert_eq!(error.code, ErrorCode::InvalidInput);
    let scripts = privileged_scripts(&script);
    assert_eq!(scripts.len(), 1);
    assert!(!scripts[0].contains("evil"));
}

#[test]
fn relative_layout_is_rejected() {
    let layout = HelperInstallLayout { install_dir: "relative".into(), ..layout() };
    let result = MacHelperInstaller::new(runner(&Script::with(Vec::new())), layout, "/tmp/verge-test/staging".into(), 501);
    assert_eq!(result.err().map(|error| error.code), Some(ErrorCode::InvalidInput));
}

#[test]
fn shell_quote_wraps_safe_paths_and_refuses_quotes() {
    assert_eq!(shell_quote("/Library/Verge").unwrap(), "'/Library/Verge'");
    assert_eq!(shell_quote("/tmp/it's").unwrap_err().code, ErrorCode::InvalidInput);
    assert_eq!(shell_quote("relative").unwrap_err().code, ErrorCode::InvalidInput);
}

#[test]
fn reads_short_version_from_bundled_plist() {
    let text = r#"<?xml version="1.0" encoding="UTF-8"?>
<plist version="1.0">
<dict>
    <key>CFBundleName</key>
    <string>Verge</string>
    <key>CFBundleShortVersionString</key>
    <string>0.2.1</string>
</dict>
</plist>
"#;
    assert_eq!(short_version_from_plist("Verge.app/Contents/Info.plist", text).unwrap(), "0.2.1");
    let error = short_version_from_plist("Verge.app/Contents/Info.plist", "<plist><dict></dict></plist>").unwrap_err();
    assert_eq!(error.code, ErrorCode::PlatformFailed);
    assert_eq!(error.message, "Verge.app/Contents/Info.plist has no CFBundleShortVersionString");
}

#[test]
fn plist_values_are_trimmed_and_blank_values_are_missing() {
    assert_eq!(plist_string_value("<key>A</key>\n  <string>  1.0 </string>", "A").as_deref(), Some("1.0"));
    assert_eq!(plist_string_value("<key>A</key><string>   </string>", "A"), None);
    assert_eq!(plist_string_value("<key>A</key><string>x", "A"), None);
    assert_eq!(plist_string_value("<key>B</key><string>x</string>", "A"), None);
}

#[test]
fn bundled_helper_is_found_in_the_resources() {
    let bundle = bundled_helper("/Applications/Verge.app/Contents/Resources", "  abc123\n");
    assert_eq!(bundle.binary, "/Applications/Verge.app/Contents/Resources/helper/verge-helper");
    assert_eq!(bundle.expected_sha256, "abc123");
    assert_eq!(
        bundled_digest_path("/Resources/"),
        "/Resources/helper/verge-helper.sha256"
    );
}

#[test]
fn bundle_source_errors_name_the_expected_and_actual_digests() {
    let bytes = b"verge-helper-binary";
    let actual = format!("{:x}", Sha256::digest(bytes));
    let mut recorded = bundle(bytes);
    recorded.expected_sha256 = format!("  {}\n", actual.to_ascii_uppercase());
    assert!(verify_bundle_source(&recorded, bytes).is_ok());
    recorded.expected_sha256 = format!(" {} ", "A".repeat(64));
    let error = verify_bundle_source(&recorded, bytes).unwrap_err();
    assert_eq!(error.code, ErrorCode::ValidationFailed);
    assert_eq!(
        error.message,
        format!("bundled helper SHA-256 mismatch: expected {}, got {actual}", "a".repeat(64))
    );
    recorded.expected_sha256 = "not-hex".into();
    assert_eq!(
        verify_bundle_source(&recorded, bytes).unwrap_err().message,
        "bundled helper digest is malformed (expected 64 hex characters)"
    );
}
