use libnoir_ffi::backend::{
    backend_kind_for, find_bb_binary, get_api, installer_path, legacy_path, select_backend,
    Access, BackendKind, BackendSlot, BinaryProbe, PIPE_REQUEST_DEPTH,
};
use libnoir_ffi::error::{Error, ErrorKind};

fn probe(
    configured: Option<&str>,
    on_search_path: bool,
    installer_found: bool,
    legacy_found: bool,
) -> BinaryProbe {
    BinaryProbe {
        configured: configured.map(|s| s.to_string()),
        on_search_path,
        home: "/home/u".to_string(),
        installer_found,
        legacy_found,
    }
}

#[test]
fn configured_path_comes_first() {
    assert_eq!(find_bb_binary(probe(Some("/opt/bb"), true, true, true)), "/opt/bb");
    assert_eq!(find_bb_binary(probe(Some(""), false, false, false)), "");
}

#[test]
fn search_path_comes_second() {
    assert_eq!(find_bb_binary(probe(None, true, true, true)), "bb");
}

#[test]
fn installer_place_comes_third() {
    assert_eq!(find_bb_binary(probe(None, false, true, true)), "/home/u/.aztec/bin/bb");
}

#[test]
fn legacy_place_comes_fourth() {
    assert_eq!(find_bb_binary(probe(None, false, false, true)), "/home/u/.bb/bb");
}

#[test]
fn bare_name_is_the_last_resort() {
    assert_eq!(find_bb_binary(probe(None, false, false, false)), "bb");
}

#[test]
fn places_hang_under_the_home_directory() {
    assert_eq!(installer_path("/root"), "/root/.aztec/bin/bb");
    assert_eq!(legacy_path("/root"), "/root/.bb/bb");
    assert_eq!(installer_path(""), "/.aztec/bin/bb");
    assert_eq!(legacy_path(""), "/.bb/bb");
}

#[test]
fn native_is_the_default_where_it_is_built_in() {
    assert_eq!(select_backend(None, true), BackendKind::Native);
    assert_eq!(select_backend(None, false), BackendKind::Pipe);
}

#[test]
fn configured_kind_is_read_without_regard_to_case() {
    for text in ["native", "NATIVE", "Native", "nAtIvE"] {
        assert_eq!(select_backend(Some(text), true), BackendKind::Native);
        assert_eq!(select_backend(Some(text), false), BackendKind::Pipe);
    }
}

#[test]
fn any_other_kind_is_the_executable() {
    for text in ["pipe", "", "native ", "external", "nativ"] {
        assert_eq!(select_backend(Some(text), true), BackendKind::Pipe);
        assert_eq!(select_backend(Some(text), false), BackendKind::Pipe);
    }
}

#[test]
fn lower_case_kind_is_compared_exactly() {
    assert_eq!(backend_kind_for(&"native".to_string(), true), BackendKind::Native);
    assert_eq!(backend_kind_for(&"Native".to_string(), true), BackendKind::Pipe);
    assert_eq!(backend_kind_for(&"native".to_string(), false), BackendKind::Pipe);
}

#[test]
fn pipe_depth_is_sixteen() {
    assert_eq!(PIPE_REQUEST_DEPTH, 16);
}

#[test]
fn empty_handle_asks_for_creation() {
    let slot = BackendSlot::new();
    assert!(matches!(slot, BackendSlot::Empty));
    assert_eq!(get_api(Ok(&slot)).unwrap(), Access::Create);
}

#[test]
fn created_handle_keeps_its_kind() {
    let mut slot = BackendSlot::new();
    slot.settle(BackendKind::Pipe, Ok(()));
    assert_eq!(get_api(Ok(&slot)).unwrap(), Access::Use(BackendKind::Pipe));
    slot.settle(BackendKind::Native, Ok(()));
    assert_eq!(get_api(Ok(&slot)).unwrap(), Access::Use(BackendKind::Pipe));
    slot.settle(BackendKind::Native, Err("late".to_string()));
    assert_eq!(get_api(Ok(&slot)).unwrap(), Access::Use(BackendKind::Pipe));
}

#[test]
fn failed_creation_is_not_tried_again() {
    let mut slot = BackendSlot::new();
    slot.settle(BackendKind::Pipe, Err("no executable".to_string()));
    let fault = get_api(Ok(&slot)).unwrap_err();
    assert!(matches!(&fault, Error::Initialization(text) if text == "no executable"));
    assert_eq!(fault.kind(), ErrorKind::Initialization);
    assert_eq!(fault.message(), "no executable");
    slot.settle(BackendKind::Native, Ok(()));
    assert!(matches!(get_api(Ok(&slot)), Err(Error::Initialization(_))));
    assert!(matches!(get_api(Ok(&slot)), Err(Error::Initialization(_))));
}

#[test]
fn failed_lock_is_reported() {
    let fault = get_api(Err("poisoned".to_string())).unwrap_err();
    assert!(matches!(&fault, Error::LockFailed(text) if text == "poisoned"));
    assert_eq!(fault.message(), "Mutex lock failed: poisoned");
    assert_eq!(fault.kind(), ErrorKind::Initialization);
}
