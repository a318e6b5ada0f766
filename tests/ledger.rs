use audiospeedhack::cache::{extend_recorded, CommandKind, DllCleanup, RemovalOutcome};
use audiospeedhack::constant;
use audiospeedhack::reg::{after_step, registry_op, ComClass, RegistryKey, RegistryOperation, StepDecision};
use audiospeedhack::tui::{is_exec_option, speed_options};
use audiospeedhack::utils::{DetectError, SupportedDLLs, System};

#[test]
fn registry_for_dsound_is_empty() {
    assert!(registry_op(&RegistryOperation::Add, Some(SupportedDLLs::DSound)).is_empty());
}

#[test]
fn registry_for_mmdevapi_has_eight_keys() {
    let steps = registry_op(&RegistryOperation::Delete, Some(SupportedDLLs::MMDevAPI));
    assert_eq!(steps.len(), 8);
    assert!(steps.iter().all(|s| s.operation == RegistryOperation::Delete));
    assert_eq!(
        steps[0].key.path(),
        "SOFTWARE\\Classes\\CLSID\\{06CCA63E-9941-441B-B004-39F999ADA412}\\InprocServer32"
    );
    assert_eq!(
        steps[7].key.path(),
        "SOFTWARE\\Classes\\WOW6432Node\\CLSID\\{E2F7A62A-862B-40AE-BBC2-5C0CA9A5B7E1}\\InprocServer32"
    );
    assert_eq!(steps[3].key.class.threading_model(), "free");
    assert_eq!(steps[2].key.class.threading_model(), "both");
}

#[test]
fn registry_for_all_dlls_matches_mmdevapi() {
    let all = registry_op(&RegistryOperation::Add, None);
    let mm = registry_op(&RegistryOperation::Add, Some(SupportedDLLs::MMDevAPI));
    assert_eq!(all, mm);
}

#[test]
fn registry_key_path_uses_class_id() {
    let key = RegistryKey { class: ComClass::ClassBCDE0395, wow64: true };
    assert!(key.path().contains(key.class.clsid()));
}

#[test]
fn selection_is_one_or_all() {
    assert_eq!(SupportedDLLs::selection(Some(SupportedDLLs::MMDevAPI)), vec![SupportedDLLs::MMDevAPI]);
    assert_eq!(SupportedDLLs::selection(None), vec![SupportedDLLs::DSound, SupportedDLLs::MMDevAPI]);
    assert!(SupportedDLLs::MMDevAPI.needs_registry());
    assert!(!SupportedDLLs::DSound.needs_registry());
    assert_eq!(SupportedDLLs::DSound.file_name(), "dsound.dll");
}

#[test]
fn system_from_flag() {
    assert_eq!(System::from(true), System::X86);
    assert_eq!(System::from(false), System::X64);
    assert_eq!(System::from_is_64(true), System::X64);
    assert_eq!(System::X86.name(), "x86");
    assert_ne!(constant::System::Win32, constant::System::Win64);
}

#[test]
fn detect_rejects_non_executables() {
    assert_eq!(System::detect(b"not a portable executable"), Err(DetectError::NotAnExecutable));
    assert_eq!(System::detect(&[]), Err(DetectError::NotAnExecutable));
}

#[test]
fn speed_options_run_from_one_to_two_and_a_half() {
    let options = speed_options();
    assert_eq!(options.len(), 16);
    assert_eq!(options[0], "1.0");
    assert_eq!(options[10], "2.0");
    assert_eq!(options[15], "2.5");
}

#[test]
fn cleanup_removes_newest_first_and_skips_missing() {
    let mut cleanup = DllCleanup::new(Some(vec!["a", "b"]), "note");
    assert_eq!(cleanup.next(), Some(&"note"));
    cleanup.record(RemovalOutcome::Missing);
    assert_eq!(cleanup.next(), Some(&"b"));
    cleanup.record(RemovalOutcome::Removed);
    assert_eq!(cleanup.next(), Some(&"a"));
    cleanup.record(RemovalOutcome::Removed);
    assert_eq!(cleanup.next(), None);
    assert!(cleanup.into_remaining().is_empty());
}

#[test]
fn cleanup_stops_at_first_failure() {
    let mut cleanup = DllCleanup::new(Some(vec!["a", "b", "c"]), "note");
    cleanup.record(RemovalOutcome::Removed);
    assert_eq!(cleanup.next(), Some(&"c"));
    cleanup.record(RemovalOutcome::Failed);
    assert_eq!(cleanup.next(), None);
    assert_eq!(cleanup.into_remaining(), vec!["a", "b", "c"]);
}

#[test]
fn recorded_files_are_extended() {
    assert_eq!(extend_recorded(Some(vec![1, 2]), vec![3]), vec![1, 2, 3]);
    assert_eq!(extend_recorded(None, vec![4]), vec![4]);
}

#[test]
fn exec_options_take_exe_files_of_other_programs() {
    assert!(is_exec_option("game.exe", Some("exe"), "audiospeedhack"));
    assert!(is_exec_option("GAME.EXE", Some("EXE"), "audiospeedhack"));
    assert!(is_exec_option("game.Exe", Some("Exe"), "audiospeedhack"));
    assert!(!is_exec_option("audiospeedhack.exe", Some("exe"), "audiospeedhack"));
    assert!(!is_exec_option("run.bat", Some("bat"), "audiospeedhack"));
    assert!(!is_exec_option("exe", None, "audiospeedhack"));
    assert!(!is_exec_option("game.exes", Some("exes"), "audiospeedhack"));
}

#[test]
fn failed_addition_stops_failed_deletion_goes_on() {
    assert_eq!(after_step(&RegistryOperation::Add, true), StepDecision::Abort);
    assert_eq!(after_step(&RegistryOperation::Add, false), StepDecision::Continue);
    assert_eq!(after_step(&RegistryOperation::Delete, true), StepDecision::Continue);
    assert_eq!(after_step(&RegistryOperation::Delete, false), StepDecision::Continue);
}

#[test]
fn clean_is_not_remembered() {
    assert!(!CommandKind::Clean.is_remembered());
    assert!(CommandKind::Detect.is_remembered());
    assert!(CommandKind::UnpackDll(None).is_remembered());
}

#[test]
fn registry_target_comes_from_the_last_unpacking() {
    assert_eq!(
        CommandKind::UnpackDll(Some(SupportedDLLs::DSound)).registry_target(),
        Some(SupportedDLLs::DSound)
    );
    assert_eq!(CommandKind::UnpackDll(None).registry_target(), None);
    assert_eq!(CommandKind::Detect.registry_target(), None);
}
