use nfc1::error::{wrap_err, wrap_err_usize, last_error_from_status};
use nfc1::{BaudRate, DepMode, Error, Mode, Modulation, ModulationType, Property, Timeout};

#[test]
fn error_from_known_codes() {
    assert_eq!(Error::from_code(-1), Error::Io);
    assert_eq!(Error::from_code(-2), Error::InvalidArgument);
    assert_eq!(Error::from_code(-3), Error::DeviceNotSupported);
    assert_eq!(Error::from_code(-4), Error::NoSuchDeviceFound);
    assert_eq!(Error::from_code(-5), Error::BufferOverflow);
    assert_eq!(Error::from_code(-6), Error::Timeout);
    assert_eq!(Error::from_code(-7), Error::OperationAborted);
    assert_eq!(Error::from_code(-8), Error::NotImplemented);
    assert_eq!(Error::from_code(-10), Error::TargetReleased);
    assert_eq!(Error::from_code(-20), Error::RfTransmissionError);
    assert_eq!(Error::from_code(-30), Error::MifareAuthFailed);
    assert_eq!(Error::from_code(-80), Error::Soft);
    assert_eq!(Error::from_code(-90), Error::Chip);
}

#[test]
fn error_from_unknown_code_is_preserved() {
    assert_eq!(Error::from_code(-99), Error::Undefined(-99));
    assert_eq!(Error::from_code(-9), Error::Undefined(-9));
}

#[test]
fn wrap_err_checks_sign() {
    assert_eq!(wrap_err(0), Ok(()));
    assert_eq!(wrap_err(17), Ok(()));
    assert_eq!(wrap_err(-6), Err(Error::Timeout));
}

#[test]
fn wrap_err_usize_returns_length() {
    assert_eq!(wrap_err_usize(0), Ok(0));
    assert_eq!(wrap_err_usize(264), Ok(264));
    assert_eq!(wrap_err_usize(-5), Err(Error::BufferOverflow));
}

#[test]
fn last_error_only_for_negative_status() {
    assert_eq!(last_error_from_status(0), None);
    assert_eq!(last_error_from_status(42), None);
    assert_eq!(last_error_from_status(-6), Some(Error::Timeout));
    assert_eq!(last_error_from_status(-123), Some(Error::Undefined(-123)));
}

#[test]
fn error_messages() {
    assert_eq!(Error::BufferOverflow.message(), "Buffer overflow");
    assert_eq!(Error::Timeout.message(), "Operation timed out");
    assert_eq!(
        Error::MifareAuthFailed.message(),
        "MIFARE Classic: authentication failed"
    );
}

#[test]
fn timeout_codes() {
    assert_eq!(Timeout::NoTimeout.to_code(), 0);
    assert_eq!(Timeout::Default.to_code(), -1);
    assert_eq!(Timeout::Duration(500).to_code(), 500);
    assert_eq!(Timeout::Duration(0).to_code(), 0);
    assert_eq!(Timeout::Duration(u64::MAX).to_code(), i32::MAX);
}

#[test]
fn timeout_from_codes() {
    assert_eq!(Timeout::from_code(-1), Timeout::Default);
    assert_eq!(Timeout::from_code(-7), Timeout::Default);
    assert_eq!(Timeout::from_code(0), Timeout::NoTimeout);
    assert_eq!(Timeout::from_code(250), Timeout::Duration(250));
}

#[test]
fn timeout_round_trip_in_range() {
    for ms in [1u64, 150, 1000, i32::MAX as u64] {
        assert_eq!(Timeout::from_code(Timeout::Duration(ms).to_code()), Timeout::Duration(ms));
    }
    assert_eq!(Timeout::from_code(Timeout::Default.to_code()), Timeout::Default);
    assert_eq!(Timeout::from_code(Timeout::NoTimeout.to_code()), Timeout::NoTimeout);
    // a zero duration encodes as the no-timeout code, so it does not return
    assert_eq!(Timeout::from_code(Timeout::Duration(0).to_code()), Timeout::NoTimeout);
}

#[test]
fn mode_codes() {
    assert_eq!(Mode::Target.to_code(), 0);
    assert_eq!(Mode::Initiator.to_code(), 1);
}

#[test]
fn baud_rate_codes_round_trip() {
    let all = [
        BaudRate::Baud106,
        BaudRate::Baud212,
        BaudRate::Baud424,
        BaudRate::Baud847,
        BaudRate::Undefined,
    ];
    for b in all {
        assert_eq!(BaudRate::from_code(b.to_code()), b);
    }
    assert_eq!(BaudRate::Baud106.to_code(), 1);
    assert_eq!(BaudRate::Baud847.to_code(), 4);
    assert_eq!(BaudRate::from_code(77), BaudRate::Undefined);
}

#[test]
fn modulation_type_codes_round_trip() {
    let all = [
        ModulationType::Iso14443a,
        ModulationType::Jewel,
        ModulationType::Iso14443b,
        ModulationType::Iso14443bi,
        ModulationType::Iso14443b2sr,
        ModulationType::Iso14443b2ct,
        ModulationType::Felica,
        ModulationType::Dep,
        ModulationType::Barcode,
        ModulationType::Iso14443biClass,
        ModulationType::Undefined,
    ];
    for m in all {
        assert_eq!(ModulationType::from_code(m.to_code()), m);
    }
    assert_eq!(ModulationType::Iso14443a.to_code(), 1);
    assert_eq!(ModulationType::Felica.to_code(), 7);
    assert_eq!(ModulationType::Iso14443biClass.to_code(), 10);
    assert_eq!(ModulationType::from_code(0), ModulationType::Undefined);
    assert_eq!(ModulationType::from_code(11), ModulationType::Undefined);
}

#[test]
fn dep_mode_codes_round_trip() {
    for d in [DepMode::Undefined, DepMode::Passive, DepMode::Active] {
        assert_eq!(DepMode::from_code(d.to_code()), d);
    }
    assert_eq!(DepMode::from_code(9), DepMode::Undefined);
}

#[test]
fn property_codes() {
    assert_eq!(Property::TimeoutCommand.to_code(), 0);
    assert_eq!(Property::TimeoutAtr.to_code(), 1);
    assert_eq!(Property::TimeoutCom.to_code(), 2);
    assert_eq!(Property::HandleCrc.to_code(), 3);
    assert_eq!(Property::HandleParity.to_code(), 4);
    assert_eq!(Property::ActivateField.to_code(), 5);
    assert_eq!(Property::ActivateCrypto1.to_code(), 6);
    assert_eq!(Property::InfiniteSelect.to_code(), 7);
    assert_eq!(Property::AcceptInvalidFrames.to_code(), 8);
    assert_eq!(Property::AcceptMultipleFrames.to_code(), 9);
    assert_eq!(Property::AutoIso144434.to_code(), 10);
    assert_eq!(Property::EasyFraming.to_code(), 11);
    assert_eq!(Property::ForceIso14443A.to_code(), 12);
    assert_eq!(Property::ForceIso14443B.to_code(), 13);
    assert_eq!(Property::ForceSpeed106.to_code(), 14);
}

#[test]
fn modulation_code_pairs() {
    let m = Modulation {
        modulation_type: ModulationType::Felica,
        baud_rate: BaudRate::Baud212,
    };
    assert_eq!(m.to_codes(), (7, 2));
    assert_eq!(
        Modulation::from_codes(7, 2),
        Modulation { modulation_type: ModulationType::Felica, baud_rate: BaudRate::Baud212 }
    );
    assert_eq!(
        Modulation::from_codes(0, 9),
        Modulation { modulation_type: ModulationType::Undefined, baud_rate: BaudRate::Undefined }
    );
}
