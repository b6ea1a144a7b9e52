use winutils::wstring::WideStr;
use winutils::wstring::WideString;

#[test]
fn wide_str() {
    let wide = WideString::from("Hello world!");
    let wstr = WideStr::from(wide.ptr());

    println!("'{}'", wstr.to_string());
    println!("{:?}", wstr);
}

#[test]
fn fixed_capacity_field() {
    let wide = WideString::from_str_with_size("Hello world!", 32);
    let expected_prefix: Vec<u16> = vec![
        0x0048, 0x0065, 0x006c, 0x006c, 0x006f, 0x0020, 0x0077, 0x006f, 0x0072, 0x006c, 0x0064,
        0x0021, 0x0000,
    ];
    assert_eq!(wide.bytes.len(), 32);
    assert_eq!(&wide.bytes[..13], &expected_prefix[..]);
    for i in 13..32 {
        assert_eq!(wide.bytes[i], 0x0000);
    }
}

#[test]
fn concatenate() {
    let mut wide = WideString::from("Hello ");
    wide.push_str("world");
    wide.push_wide(&WideString::from("!"));
    assert_eq!(wide.to_string(), "Hello world!");
    assert_eq!(wide.bytes.len(), 13);
    assert_eq!(wide.bytes[12], 0);
    for i in 0..12 {
        assert_ne!(wide.bytes[i], 0);
    }
}

#[test]
fn round_trip_view() {
    let units: Vec<u16> = vec![0x0055, 0x0053, 0x0045, 0x0052, 0x0000];
    let owned = WideStr::from(&units).to_wide_string();
    assert_eq!(owned.to_string(), "USER");
    assert_eq!(owned.bytes, units);
}

#[test]
fn round_trip_non_ascii() {
    let text = "héllo wörld 🌍🎉";
    assert_eq!(WideString::from(text).to_string(), text);
}

#[test]
fn terminator_at_end_of_ptr() {
    let wide = WideString::from("Hello world!");
    let units = wide.ptr();
    assert_eq!(units.len(), 13);
    assert_eq!(units[units.len() - 1], 0);
    for i in 0..units.len() - 1 {
        assert_ne!(units[i], 0);
    }
}

#[test]
fn with_size_zero_is_default() {
    assert_eq!(WideString::with_size(0).bytes, vec![0u16]);
    let def: WideString = Default::default();
    assert_eq!(def.bytes, vec![0u16]);
}

#[test]
fn with_size_allocates_zeroes() {
    assert_eq!(WideString::with_size(4).bytes, vec![0u16, 0, 0, 0]);
}

#[test]
fn empty_has_no_storage() {
    assert_eq!(WideString::empty().bytes.len(), 0);
}

#[test]
fn push_wide_of_empty_is_noop() {
    let mut wide = WideString::from("abc");
    let before = wide.bytes.clone();
    wide.push_wide(&WideString::empty());
    assert_eq!(wide.bytes, before);
}

#[test]
fn push_str_of_empty_is_noop() {
    let mut wide = WideString::from("abc");
    let before = wide.bytes.clone();
    wide.push_str("");
    assert_eq!(wide.bytes, before);
}

#[test]
fn truncating_size_drops_terminator() {
    let wide = WideString::from_str_with_size("Hello world!", 5);
    assert_eq!(wide.bytes, vec![0x0048, 0x0065, 0x006c, 0x006c, 0x006f]);
}

#[test]
fn lossy_decode_replaces_unpaired_surrogate() {
    let wide = WideString { bytes: vec![0xD800, 0x0041, 0x0000] };
    assert_eq!(wide.to_string(), "\u{FFFD}A");
}

#[test]
fn surrogate_pair_decodes() {
    let wide = WideString { bytes: vec![0xD83C, 0xDF0D, 0x0000] };
    assert_eq!(wide.to_string(), "🌍");
}

#[test]
fn view_scans_to_first_terminator() {
    let units: Vec<u16> = vec![0x0041, 0x0000, 0x0042, 0x0000];
    let view = WideStr::from(&units);
    assert_eq!(view.as_bytes(), &[0x0041, 0x0000]);
    assert_eq!(view.to_wide_string().bytes, vec![0x0041, 0x0000]);
    assert_eq!(view.to_string(), "A");
}

#[test]
fn view_of_buffer_borrows_it() {
    let wide = WideString::from("USER");
    let view = WideStr::from_buffer(&wide);
    assert_eq!(view.to_string(), "USER");
}

#[test]
fn mut_ptr_writes_through() {
    let mut wide = WideString::from("A");
    {
        let storage = wide.mut_ptr();
        storage[0] = 0x0042;
    }
    assert_eq!(wide.to_string(), "B");
}
