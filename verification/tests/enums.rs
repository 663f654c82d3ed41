use rsoundio::enums::{SioBackend, SioChannelId, SioError, SioFormat};

#[test]
fn error_codes_round_trip() {
    for code in 0..16 {
        let e = SioError::from_code(code).unwrap();
        assert_eq!(e.code(), code);
    }
    assert_eq!(SioError::from_code(16), None);
    assert_eq!(SioError::from_code(-1), None);
}

#[test]
fn error_codes_exact_values() {
    assert_eq!(SioError::NoError.code(), 0);
    assert_eq!(SioError::NoMem.code(), 1);
    assert_eq!(SioError::Invalid.code(), 6);
    assert_eq!(SioError::EncodingString.code(), 15);
    assert_eq!(SioError::from_code(10), Some(SioError::NoSuchClient));
}

#[test]
fn backend_codes_round_trip() {
    for code in 0..7 {
        let b = SioBackend::from_code(code).unwrap();
        assert_eq!(b.code(), code);
    }
    assert_eq!(SioBackend::from_code(7), None);
    assert_eq!(SioBackend::from_code(0), Some(SioBackend::NoBackend));
    assert_eq!(SioBackend::from_code(3), Some(SioBackend::Alsa));
    assert_eq!(SioBackend::Dummy.code(), 6);
}

#[test]
fn format_codes_round_trip() {
    for code in 0..19 {
        let f = SioFormat::from_code(code).unwrap();
        assert_eq!(f.code(), code);
    }
    assert_eq!(SioFormat::from_code(19), None);
    assert_eq!(SioFormat::from_code(-5), None);
    assert_eq!(SioFormat::S16LE.code(), 3);
    assert_eq!(SioFormat::Float64BE.code(), 18);
}

#[test]
fn channel_id_codes_round_trip() {
    for code in 0..69 {
        let c = SioChannelId::from_code(code).unwrap();
        assert_eq!(c.code(), code);
    }
    assert_eq!(SioChannelId::from_code(69), None);
    assert_eq!(SioChannelId::FrontLeft.code(), 1);
    assert_eq!(SioChannelId::TopBackRight.code(), 18);
    assert_eq!(SioChannelId::Aux15.code(), 68);
}
