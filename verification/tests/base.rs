use rsoundio::base::{
    backend_index, backend_option, c_bool, count_option, error_option, index_option, status_result,
    ChannelLayout, Device, SoundIo, MAX_CHANNELS,
};
use rsoundio::enums::{SioBackend, SioError};
use rsoundio::text::decode_c_string;

#[test]
fn status_no_error_is_ok() {
    assert_eq!(status_result(SioError::NoError), Ok(()));
}

#[test]
fn status_error_is_passed_on() {
    assert_eq!(status_result(SioError::NoSuchClient), Err(SioError::NoSuchClient));
    assert_eq!(status_result(SioError::BackendUnavailable), Err(SioError::BackendUnavailable));
    assert_eq!(status_result(SioError::Invalid), Err(SioError::Invalid));
}

#[test]
fn backend_none_is_absent() {
    assert_eq!(backend_option(SioBackend::NoBackend), None);
    assert_eq!(backend_option(SioBackend::PulseAudio), Some(SioBackend::PulseAudio));
    assert_eq!(backend_option(SioBackend::Dummy), Some(SioBackend::Dummy));
}

#[test]
fn probe_error_none_is_absent() {
    assert_eq!(error_option(SioError::NoError), None);
    assert_eq!(error_option(SioError::OpeningDevice), Some(SioError::OpeningDevice));
    assert_eq!(error_option(SioError::NoMem), Some(SioError::NoMem));
}

#[test]
fn negative_count_is_unknown() {
    assert_eq!(count_option(-1), None);
    assert_eq!(count_option(i32::MIN), None);
    assert_eq!(count_option(0), Some(0));
    assert_eq!(count_option(3), Some(3));
    assert_eq!(count_option(i32::MAX), Some(2147483647));
}

#[test]
fn minus_one_index_is_none() {
    assert_eq!(index_option(-1), None);
    assert_eq!(index_option(0), Some(0));
    assert_eq!(index_option(7), Some(7));
    // Other negative values are taken as unsigned indices.
    assert_eq!(index_option(-2), Some(4294967294));
}

#[test]
fn only_one_is_true() {
    assert!(c_bool(1));
    assert!(!c_bool(0));
    assert!(!c_bool(2));
    assert!(!c_bool(-1));
}

#[test]
fn new_soundio_holds_default_name() {
    let s = SoundIo::new(0x1000);
    assert_eq!(s.context(), 0x1000);
    assert_eq!(s.app_name(), "rsoundio");
}

#[test]
fn set_name_replaces_colons() {
    let mut s = SoundIo::new(0x1000);
    assert_eq!(s.set_name("my:app:"), Ok(()));
    assert_eq!(s.app_name(), "my_app_");
    assert_eq!(s.context(), 0x1000);
}

#[test]
fn set_name_keeps_other_characters() {
    let mut s = SoundIo::new(8);
    assert_eq!(s.set_name("Grüße: ♫"), Ok(()));
    assert_eq!(s.app_name(), "Grüße_ ♫");
    assert_eq!(s.set_name(""), Ok(()));
    assert_eq!(s.app_name(), "");
}

#[test]
fn set_name_refuses_nul() {
    let mut s = SoundIo::new(8);
    assert_eq!(s.set_name("player"), Ok(()));
    assert_eq!(s.set_name("bad\0name"), Err(SioError::EncodingString));
    assert_eq!(s.app_name(), "player");
    assert_eq!(s.set_name("\0"), Err(SioError::EncodingString));
    assert_eq!(s.app_name(), "player");
}

#[test]
fn set_name_twice_is_stable() {
    let mut s = SoundIo::new(8);
    assert_eq!(s.set_name("a:b"), Ok(()));
    let held = s.app_name().to_string();
    assert_eq!(s.set_name(&held), Ok(()));
    assert_eq!(s.app_name(), "a_b");
}

#[test]
fn name_read_after_write() {
    let mut s = SoundIo::new(8);
    assert_eq!(s.set_name("Öl:Rüben"), Ok(()));
    let bytes = s.app_name_bytes();
    assert_eq!(bytes, "Öl_Rüben".as_bytes().to_vec());
    assert!(!bytes.contains(&0u8));
    assert_eq!(decode_c_string(bytes), Ok("Öl_Rüben".to_string()));
}

#[test]
fn decode_valid_utf8() {
    assert_eq!(decode_c_string(b"SoundIo".to_vec()), Ok("SoundIo".to_string()));
    assert_eq!(decode_c_string(vec![0xE2, 0x99, 0xAB]), Ok("♫".to_string()));
    assert_eq!(decode_c_string(Vec::new()), Ok(String::new()));
}

#[test]
fn decode_invalid_utf8_is_encoding_error() {
    assert_eq!(decode_c_string(vec![0x61, 0xFF]), Err(SioError::EncodingString));
    assert_eq!(decode_c_string(vec![0xC0, 0x80]), Err(SioError::EncodingString));
    assert_eq!(decode_c_string(vec![0xED, 0xA0, 0x80]), Err(SioError::EncodingString));
}

#[test]
fn builtin_index_in_range() {
    assert_eq!(ChannelLayout::builtin_index(0, 25), Some(0));
    assert_eq!(ChannelLayout::builtin_index(24, 25), Some(24));
    assert_eq!(ChannelLayout::builtin_index(25, 25), None);
    assert_eq!(ChannelLayout::builtin_index(0, 0), None);
}

#[test]
fn default_index_below_max_channels() {
    assert_eq!(MAX_CHANNELS, 24);
    assert_eq!(ChannelLayout::default_index(0), Some(0));
    assert_eq!(ChannelLayout::default_index(2), Some(2));
    assert_eq!(ChannelLayout::default_index(23), Some(23));
    assert_eq!(ChannelLayout::default_index(24), None);
    assert_eq!(ChannelLayout::default_index(u32::MAX), None);
}

#[test]
fn layout_from_null_is_none() {
    assert!(ChannelLayout::from_handle(0).is_none());
    assert_eq!(ChannelLayout::from_handle(0x40).unwrap().handle(), 0x40);
    assert_eq!(ChannelLayout::new(0x48).handle(), 0x48);
}

#[test]
fn device_from_null_is_none() {
    assert!(Device::from_handle(0).is_none());
    assert_eq!(Device::from_handle(0x80).unwrap().handle(), 0x80);
    assert_eq!(Device::new(0x88).handle(), 0x88);
}

#[test]
fn null_outstream_is_no_mem() {
    assert_eq!(Device::outstream_from_handle(0).unwrap_err(), SioError::NoMem);
    assert_eq!(Device::outstream_from_handle(0x90).unwrap().handle(), 0x90);
}

#[test]
fn builtin_index_with_negative_count_wraps() {
    // A negative count is read as an unsigned one, and the index handed back
    // is the index cast to a C int.
    assert_eq!(ChannelLayout::builtin_index(5, -1), Some(5));
    assert_eq!(ChannelLayout::builtin_index(0x8000_0000, -1), Some(i32::MIN));
    assert_eq!(ChannelLayout::builtin_index(u32::MAX, -1), None);
}

#[test]
fn backend_index_in_range() {
    assert_eq!(backend_index(0, 3), Some(0));
    assert_eq!(backend_index(2, 3), Some(2));
    assert_eq!(backend_index(3, 3), None);
    assert_eq!(backend_index(0, 0), None);
    assert_eq!(backend_index(u32::MAX, 7), None);
}

#[test]
fn matching_position_finds_first_offered() {
    let offered = [0x100usize, 0x140, 0x180, 0x140];
    assert_eq!(ChannelLayout::matching_position(&offered, 0x100), Some(0));
    assert_eq!(ChannelLayout::matching_position(&offered, 0x140), Some(1));
    assert_eq!(ChannelLayout::matching_position(&offered, 0x180), Some(2));
}

#[test]
fn matching_position_null_or_unknown_is_none() {
    let offered = [0x100usize, 0x140];
    assert_eq!(ChannelLayout::matching_position(&offered, 0), None);
    assert_eq!(ChannelLayout::matching_position(&offered, 0x120), None);
    assert_eq!(ChannelLayout::matching_position(&[], 0x100), None);
}
