use winutils::error::WinError;
use winutils::library::FnWrapper;
use winutils::library::LibType;
use winutils::library::Library;
use winutils::library::symbol_name_valid;

#[test]
fn from_handle_refuses_null() {
    let lib = Library::from_handle(0, true);
    assert_eq!(lib.err(), Some(WinError::InvalidInput));
}

#[test]
fn from_handle_classifies_by_flag() {
    let dynamic = Library::from_handle(0x1000, true).unwrap();
    assert_eq!(dynamic.handle(), 0x1000);
    assert_eq!(dynamic.lib_type(), LibType::Dynamic);
    assert!(dynamic.unloads_on_drop());

    let resident = Library::from_handle(0x2000, false).unwrap();
    assert_eq!(resident.lib_type(), LibType::Static);
    assert!(!resident.unloads_on_drop());
}

#[test]
fn load_reply_surfaces_the_status() {
    let lib = Library::from_load(0, 126);
    assert_eq!(lib.err(), Some(WinError::OsStatus(126)));
}

#[test]
fn load_reply_owns_one_reference() {
    let lib = Library::from_load(0x3000, 0).unwrap();
    assert_eq!(lib.handle(), 0x3000);
    assert_eq!(lib.lib_type(), LibType::Dynamic);
    assert!(lib.unloads_on_drop());
}

#[test]
fn resident_reply_owns_nothing() {
    let first = Library::from_resident("Kernel32.dll", 0x4000).unwrap();
    assert_eq!(first.lib_type(), LibType::Static);
    assert!(!first.unloads_on_drop());

    let again = Library::from_resident("Kernel32.dll", 0x4000).unwrap();
    assert!(!again.unloads_on_drop());
}

#[test]
fn resident_refuses_empty_name() {
    let lib = Library::from_resident("", 0x4000);
    assert_eq!(lib.err(), Some(WinError::InvalidInput));
}

#[test]
fn resident_refuses_null_handle() {
    let lib = Library::from_resident("User32.dll", 0);
    assert_eq!(lib.err(), Some(WinError::InvalidInput));
}

#[test]
fn empty_is_a_static_placeholder() {
    let lib = Library::empty();
    assert_eq!(lib.handle(), 0);
    assert_eq!(lib.lib_type(), LibType::Static);
    assert!(!lib.unloads_on_drop());
}

#[test]
fn symbol_names_must_lack_interior_nul() {
    assert!(symbol_name_valid("MessageBoxW"));
    assert!(symbol_name_valid(""));
    assert!(!symbol_name_valid("No\0Such"));
}

#[test]
fn wrapper_with_address_unwraps() {
    fn probe(x: i32) -> i32 {
        x + 1
    }
    let slot: FnWrapper<fn(i32) -> i32> = FnWrapper(Some(probe));
    assert!(slot.is_valid());
    let f = slot.unwrap();
    assert_eq!(f(41), 42);
}

#[test]
fn empty_wrapper_is_never_invoked() {
    let slot: FnWrapper<fn(i32) -> i32> = FnWrapper(None);
    if slot.is_valid() {
        panic!("an empty wrapper must not report an address");
    }
}

#[test]
fn default_wrapper_is_empty() {
    let slot: FnWrapper<fn() -> ()> = Default::default();
    assert!(!slot.is_valid());
}
