use nfc1::target_info::{Dep, Iso14443a, TargetInfo};
use nfc1::wire::{WireTarget, WireTargetInfo};
use nfc1::{BaudRate, DepMode, Error, Modulation, ModulationType, Target};

fn sample_iso14443a_target() -> Target {
    let mut uid = [0u8; 10];
    uid[0] = 0x04;
    uid[1] = 0xA1;
    uid[2] = 0xB2;
    uid[3] = 0xC3;
    let mut ats = [0u8; 254];
    ats[0] = 0x75;
    ats[1] = 0x77;
    ats[2] = 0x81;
    ats[3] = 0x02;
    Target {
        target_info: TargetInfo::Iso14443a(Iso14443a {
            atqa: [0x00, 0x04],
            sak: 0x08,
            uid,
            uid_len: 4,
            ats,
            ats_len: 4,
        }),
        modulation: Modulation {
            modulation_type: ModulationType::Iso14443a,
            baud_rate: BaudRate::Baud106,
        },
    }
}

#[test]
fn encode_sets_modulation_codes() {
    let t = sample_iso14443a_target();
    let w = t.encode();
    assert_eq!(w.modulation_type, 1);
    assert_eq!(w.baud_rate, 1);
    assert_eq!(w.info.iso14443a.uid_len, 4);
    assert_eq!(w.info.iso14443a.uid[0], 0x04);
    assert_eq!(w.info.iso14443a.sak, 0x08);
    // the inactive arms stay zero
    assert_eq!(w.info.felica.len, 0);
    assert_eq!(w.info.dep.gb_len, 0);
}

#[test]
fn decode_inverts_encode_iso14443a() {
    let t = sample_iso14443a_target();
    let w = t.encode();
    assert_eq!(Target::decode(&w), Ok(t));
}

#[test]
fn decode_inverts_encode_every_technology() {
    let targets = [
        Target::new_iso14443a(),
        Target::new_felica(),
        Target::new_iso14443b(),
        Target::new_iso14443bi(),
        Target::new_iso14443b2sr(),
        Target::new_iso14443b2ct(),
        Target::new_jewel(),
        Target::new_dep(),
        Target::new_barcode(),
        Target::new_iso14443biclass(),
    ];
    for t in targets {
        let w = t.encode();
        let back = Target::decode(&w).expect("a freshly encoded target must decode");
        assert_eq!(back, t);
        assert_eq!(
            back.modulation.modulation_type,
            t.modulation.modulation_type
        );
    }
}

#[test]
fn decode_inverts_encode_dep() {
    let mut nfcid3 = [0u8; 10];
    nfcid3[9] = 0x99;
    let mut gb = [0u8; 48];
    gb[0] = 0x46;
    gb[1] = 0x66;
    let t = Target {
        target_info: TargetInfo::Dep(Dep {
            nfcid3,
            did: 1,
            bs: 2,
            br: 3,
            to: 4,
            pp: 5,
            gb,
            gb_len: 2,
            dep_mode: DepMode::Active,
        }),
        modulation: Modulation {
            modulation_type: ModulationType::Dep,
            baud_rate: BaudRate::Baud424,
        },
    };
    let w = t.encode();
    assert_eq!(w.info.dep.dep_mode, 2);
    assert_eq!(Target::decode(&w), Ok(t));
}

#[test]
fn decode_unknown_modulation_fails() {
    let w = WireTarget { info: WireTargetInfo::zero(), modulation_type: 0, baud_rate: 1 };
    assert_eq!(Target::decode(&w), Err(Error::UndefinedModulationType));
    let w = WireTarget { info: WireTargetInfo::zero(), modulation_type: 11, baud_rate: 1 };
    assert_eq!(Target::decode(&w), Err(Error::UndefinedModulationType));
    let w = WireTarget { info: WireTargetInfo::zero(), modulation_type: 0xFFFF_FFFF, baud_rate: 1 };
    assert_eq!(Target::decode(&w), Err(Error::UndefinedModulationType));
}

#[test]
fn decode_rejects_overlong_length_fields() {
    let mut info = WireTargetInfo::zero();
    info.iso14443a.uid_len = 11;
    let w = WireTarget { info, modulation_type: 1, baud_rate: 1 };
    assert_eq!(Target::decode(&w), Err(Error::InvalidArgument));

    let mut info = WireTargetInfo::zero();
    info.iso14443a.ats_len = 255;
    let w = WireTarget { info, modulation_type: 1, baud_rate: 1 };
    assert_eq!(Target::decode(&w), Err(Error::InvalidArgument));

    let mut info = WireTargetInfo::zero();
    info.dep.gb_len = 49;
    let w = WireTarget { info, modulation_type: 8, baud_rate: 1 };
    assert_eq!(Target::decode(&w), Err(Error::InvalidArgument));

    let mut info = WireTargetInfo::zero();
    info.barcode.data_len = 33;
    let w = WireTarget { info, modulation_type: 9, baud_rate: 1 };
    assert_eq!(Target::decode(&w), Err(Error::InvalidArgument));

    // at the capacity itself decoding succeeds
    let mut info = WireTargetInfo::zero();
    info.iso14443a.uid_len = 10;
    info.iso14443a.ats_len = 254;
    let w = WireTarget { info, modulation_type: 1, baud_rate: 1 };
    assert!(Target::decode(&w).is_ok());
}

#[test]
fn decode_reads_only_the_matching_arm() {
    // garbage in the other arms does not disturb an ISO/IEC 14443-A decode
    let mut info = WireTargetInfo::zero();
    info.felica.len = u64::MAX;
    info.dep.gb_len = u64::MAX;
    info.barcode.data_len = u64::MAX;
    info.iso14443bi.atr_len = u64::MAX;
    let w = WireTarget { info, modulation_type: 1, baud_rate: 1 };
    let t = Target::decode(&w).expect("the matching arm is well formed");
    assert_eq!(t.modulation.modulation_type, ModulationType::Iso14443a);
}

#[test]
fn decoded_modulation_matches_variant() {
    for code in 1u32..=10 {
        let w = WireTarget { info: WireTargetInfo::zero(), modulation_type: code, baud_rate: 1 };
        let t = Target::decode(&w).expect("every known code decodes a zero union");
        let variant_technology = match t.target_info {
            TargetInfo::Iso14443a(_) => ModulationType::Iso14443a,
            TargetInfo::Felica(_) => ModulationType::Felica,
            TargetInfo::Iso14443b(_) => ModulationType::Iso14443b,
            TargetInfo::Iso14443bi(_) => ModulationType::Iso14443bi,
            TargetInfo::Iso14443b2sr(_) => ModulationType::Iso14443b2sr,
            TargetInfo::Iso14443b2ct(_) => ModulationType::Iso14443b2ct,
            TargetInfo::Jewel(_) => ModulationType::Jewel,
            TargetInfo::Dep(_) => ModulationType::Dep,
            TargetInfo::Barcode(_) => ModulationType::Barcode,
            TargetInfo::Iso14443biClass(_) => ModulationType::Iso14443biClass,
        };
        assert_eq!(t.modulation.modulation_type, variant_technology);
    }
}

#[test]
fn try_from_modulation_rejects_undefined() {
    let m = Modulation {
        modulation_type: ModulationType::Undefined,
        baud_rate: BaudRate::Baud106,
    };
    assert_eq!(Target::try_from_modulation(&m), Err(Error::UndefinedModulationType));
}

#[test]
fn try_from_modulation_keeps_the_modulation() {
    let m = Modulation {
        modulation_type: ModulationType::Felica,
        baud_rate: BaudRate::Baud424,
    };
    let t = Target::try_from_modulation(&m).unwrap();
    assert_eq!(t.modulation, m);
    assert!(matches!(t.target_info, TargetInfo::Felica(_)));
}

#[test]
fn scratch_constructors_use_default_baud_rates() {
    assert_eq!(Target::new_iso14443a().modulation.baud_rate, BaudRate::Baud106);
    assert_eq!(Target::new_felica().modulation.baud_rate, BaudRate::Baud212);
    assert_eq!(Target::new_dep().modulation.modulation_type, ModulationType::Dep);
    assert_eq!(
        Target::new_barcode().modulation.modulation_type,
        ModulationType::Barcode
    );
}
