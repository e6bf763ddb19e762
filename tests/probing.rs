use openmw_config::debug::{DebugLog, DEBUG_MARKER};
use openmw_config::error::IoKind;
use openmw_config::writable::{write_allowed, write_probe, WriteProbe, PROBE_FILE_NAME};

#[test]
fn existing_path_is_opened() {
    assert_eq!(write_probe("/home/u/openmw.cfg", true), WriteProbe::OpenExisting);
}

#[test]
fn missing_path_probes_its_parent() {
    assert_eq!(
        write_probe("/home/u/openmw.cfg", false),
        WriteProbe::CreateProbe("/home/u/.write_test_tmp".to_string())
    );
}

#[test]
fn missing_relative_file_probes_the_current_directory() {
    assert_eq!(write_probe("openmw.cfg", false), WriteProbe::CreateProbe(PROBE_FILE_NAME.to_string()));
}

#[test]
fn root_has_no_parent() {
    assert_eq!(write_probe("/", false), WriteProbe::NoParent);
}

#[test]
fn success_allows_writing() {
    assert!(write_allowed(Ok(())));
}

#[test]
fn denied_permission_forbids_writing() {
    assert!(!write_allowed(Err(IoKind::PermissionDenied)));
}

#[test]
fn other_failures_allow_writing() {
    assert!(write_allowed(Err(IoKind::Other)));
    assert!(write_allowed(Err(IoKind::NotFound)));
}

#[test]
fn disabled_log_emits_nothing() {
    assert_eq!(DebugLog::new(false).line("hello"), None);
}

#[test]
fn enabled_log_emits_marker_and_message() {
    let line = DebugLog::new(true).line("loading /etc/openmw").unwrap();
    assert_eq!(line, "[CONFIG DEBUG]: loading /etc/openmw");
    assert!(line.starts_with(DEBUG_MARKER));
}

#[test]
fn enabled_log_emits_marker_for_empty_message() {
    assert_eq!(DebugLog::new(true).line(""), Some(DEBUG_MARKER.to_string()));
}
