use winutils::buffer::DynBuffer;
use winutils::error::WinError;
use winutils::init::COINIT_APARTMENTTHREADED;
use winutils::init::COINIT_MULTITHREADED;
use winutils::init::ComInit;
use winutils::init::RO_INIT_MULTITHREADED;
use winutils::init::RO_INIT_SINGLETHREADED;
use winutils::init::RoInit;
use winutils::unique::UniquePtr;
use winutils::utils::MBResult;
use winutils::utils::info_outcome;
use winutils::window::POINT;
use winutils::window::RECT;

#[test]
fn com_token_comes_only_from_a_zero_status() {
    assert!(ComInit::from_status(0).is_ok());
    assert_eq!(ComInit::from_status(-2147417850).err(), Some(WinError::OsStatus(-2147417850)));
}

#[test]
fn runtime_token_comes_only_from_a_zero_status() {
    assert!(RoInit::from_status(0).is_ok());
    assert_eq!(RoInit::from_status(1).err(), Some(WinError::OsStatus(1)));
    assert_eq!(RoInit::unavailable(), WinError::Unsupported);
}

#[test]
fn apartment_flags_match_the_api() {
    assert_eq!(COINIT_APARTMENTTHREADED, 2);
    assert_eq!(COINIT_MULTITHREADED, 0);
    assert_eq!(RO_INIT_SINGLETHREADED, 0);
    assert_eq!(RO_INIT_MULTITHREADED, 1);
}

#[test]
fn message_box_replies_round_trip() {
    let all = [
        MBResult::Error,
        MBResult::Okay,
        MBResult::Cancel,
        MBResult::Abort,
        MBResult::Retry,
        MBResult::Ignore,
        MBResult::Yes,
        MBResult::No,
        MBResult::TryAgain,
        MBResult::Continue,
    ];
    for r in all {
        assert_eq!(MBResult::from_code(r.code()), r);
    }
    assert_eq!(MBResult::Okay.code(), 1);
    assert_eq!(MBResult::Continue.code(), 11);
}

#[test]
fn undocumented_reply_counts_as_failure() {
    assert_eq!(MBResult::from_code(8), MBResult::Error);
    assert_eq!(MBResult::from_code(-1), MBResult::Error);
    assert_eq!(MBResult::from_code(0), MBResult::Error);
}

#[test]
fn name_query_success_decodes_the_prefix() {
    let buffer: Vec<u16> = vec![0x0055, 0x0053, 0x0045, 0x0052, 0, 0, 0, 0];
    let name = info_outcome(true, 0, &buffer, 4);
    assert_eq!(name.unwrap(), "USER");
}

#[test]
fn name_query_failure_surfaces_the_status() {
    let buffer: Vec<u16> = vec![0; 8];
    let name = info_outcome(false, 1332, &buffer, 0);
    assert_eq!(name.err(), Some(WinError::OsStatus(1332)));
}

#[test]
fn dyn_buffer_resizes_and_zero_fills() {
    let mut buffer = DynBuffer::with_capacity(16);
    assert_eq!(buffer.len::<u32>(), 0);
    {
        let storage = buffer.as_dyn_ptr::<u32>(3);
        assert_eq!(storage.len(), 12);
        assert!(storage.iter().all(|b| *b == 0));
        storage[0] = 0xAB;
    }
    assert_eq!(buffer.len::<u32>(), 3);
    assert_eq!(buffer.len::<u16>(), 6);
    {
        let storage = buffer.as_dyn_ptr::<u8>(2);
        assert_eq!(storage.len(), 2);
        assert_eq!(storage[0], 0xAB);
        assert_eq!(storage[1], 0);
    }
    let empty = DynBuffer::new();
    assert_eq!(empty.len::<u64>(), 0);
}

#[test]
fn unique_ptr_reports_null() {
    let null: UniquePtr<u32> = UniquePtr(0, std::marker::PhantomData);
    assert!(null.is_null());
    let held: UniquePtr<u32> = UniquePtr(0x1000, std::marker::PhantomData);
    assert!(!held.is_null());
}

#[test]
fn geometry_defaults_to_origin() {
    let rect: RECT = Default::default();
    assert_eq!(rect, RECT { left: 0, top: 0, right: 0, bottom: 0 });
    let pt = POINT { x: 3, y: 4 };
    assert_eq!(pt, POINT { x: 3, y: 4 });
}
