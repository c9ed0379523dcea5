use nfc1::registry::DriverRegistry;
use nfc1::session::{
    check_transmit_bits, connstring_buffer, decode_targets, finish_receive_bits,
    finish_receive_bits_with_parity, finish_receive_bytes, fits_bit_capacity, list_reader_tokens,
    make_receive_buffer, poll_period_units, reader_token, supported_baud_rates,
    supported_modulation_types,
};
use nfc1::wire::{WireTarget, WireTargetInfo};
use nfc1::{
    iso14443a_locate_historical_bytes, BaudRate, Error, Modulation, ModulationType, Property,
    Target,
};

#[test]
fn transmit_bit_guard() {
    assert_eq!(check_transmit_bits(1, 0), Ok(()));
    assert_eq!(check_transmit_bits(1, 7), Ok(()));
    assert_eq!(check_transmit_bits(1, 8), Ok(()));
    assert_eq!(check_transmit_bits(1, 9), Err(Error::BufferOverflow));
    assert_eq!(check_transmit_bits(0, 1), Err(Error::BufferOverflow));
    assert_eq!(check_transmit_bits(32, 256), Ok(()));
    assert_eq!(check_transmit_bits(32, 257), Err(Error::BufferOverflow));
    assert!(fits_bit_capacity(2, 16));
    assert!(!fits_bit_capacity(2, 17));
}

#[test]
fn receive_buffer_has_requested_capacity() {
    for cap in [0usize, 1, 8, 264] {
        let buf = make_receive_buffer(cap);
        assert_eq!(buf.len(), cap);
        assert!(buf.iter().all(|b| *b == 0));
    }
}

#[test]
fn finish_bytes_truncates_to_reported_count() {
    let buf = vec![0xAA, 0xBB, 0xCC, 0xDD, 0xEE];
    assert_eq!(finish_receive_bytes(buf.clone(), 3), Ok(vec![0xAA, 0xBB, 0xCC]));
    assert_eq!(finish_receive_bytes(buf.clone(), 0), Ok(vec![]));
    // a count beyond the capacity is clamped at the capacity
    assert_eq!(finish_receive_bytes(buf.clone(), 99), Ok(buf.clone()));
    assert_eq!(finish_receive_bytes(buf, -6), Err(Error::Timeout));
    assert_eq!(finish_receive_bytes(Vec::new(), 4), Ok(vec![]));
}

#[test]
fn finish_bits_rounds_up_to_bytes() {
    let buf = vec![0x12, 0x34, 0x56];
    assert_eq!(finish_receive_bits(buf.clone(), 0), Ok(vec![]));
    assert_eq!(finish_receive_bits(buf.clone(), 1), Ok(vec![0x12]));
    assert_eq!(finish_receive_bits(buf.clone(), 8), Ok(vec![0x12]));
    assert_eq!(finish_receive_bits(buf.clone(), 9), Ok(vec![0x12, 0x34]));
    assert_eq!(finish_receive_bits(buf.clone(), 999), Ok(buf.clone()));
    assert_eq!(finish_receive_bits(buf, -20), Err(Error::RfTransmissionError));
}

#[test]
fn finish_bits_with_parity_truncates_both() {
    let data = vec![1, 2, 3, 4];
    let parity = vec![9, 9, 9, 9];
    assert_eq!(
        finish_receive_bits_with_parity(data.clone(), parity.clone(), 12),
        Ok((vec![1, 2], vec![9, 9]))
    );
    assert_eq!(
        finish_receive_bits_with_parity(data, parity, -10),
        Err(Error::TargetReleased)
    );
}

#[test]
fn capability_lists_stop_at_the_sentinel() {
    let codes = vec![1, 3, 7, 0, 8, 9];
    let types = supported_modulation_types(&codes);
    assert_eq!(
        types,
        vec![ModulationType::Iso14443a, ModulationType::Iso14443b, ModulationType::Felica]
    );

    let codes = vec![1, 2, 3, 4];
    let rates = supported_baud_rates(&codes);
    assert_eq!(
        rates,
        vec![BaudRate::Baud106, BaudRate::Baud212, BaudRate::Baud424, BaudRate::Baud847]
    );

    let rates = supported_baud_rates(&vec![0, 1, 2]);
    assert_eq!(rates, vec![]);
}

#[test]
fn poll_period_quantization() {
    assert_eq!(poll_period_units(0), 0);
    assert_eq!(poll_period_units(149), 0);
    assert_eq!(poll_period_units(150), 1);
    assert_eq!(poll_period_units(300), 2);
    assert_eq!(poll_period_units(38_250), 255);
    assert_eq!(poll_period_units(u64::MAX), 255);
}

#[test]
fn reader_tokens_cut_at_nul_and_cap() {
    let mut buf = b"pn532_uart:/dev/ttyUSB0".to_vec();
    buf.push(0);
    buf.extend_from_slice(b"junk after the terminator");
    assert_eq!(reader_token(&buf), b"pn532_uart:/dev/ttyUSB0".to_vec());

    let no_nul = vec![b'x'; 2000];
    assert_eq!(reader_token(&no_nul).len(), 1023);

    assert_eq!(reader_token(&vec![0u8; 16]), Vec::<u8>::new());
}

#[test]
fn reader_listing_clamps_and_drops_empty_names() {
    let mut named = b"acr122_usb:001:004".to_vec();
    named.resize(1024, 0);
    let empty = vec![0u8; 1024];
    let bufs = vec![named.clone(), empty, named.clone()];

    // the driver reported two readers: the second slot is empty, so one token
    let tokens = list_reader_tokens(&bufs, 2);
    assert_eq!(tokens, vec![b"acr122_usb:001:004".to_vec()]);

    // a reported count beyond the scratch array is clamped
    let tokens = list_reader_tokens(&bufs, 99);
    assert_eq!(tokens.len(), 2);
    assert!(tokens.iter().all(|t| !t.is_empty() && t.len() <= 1023));

    // a zero bound yields nothing
    assert_eq!(list_reader_tokens(&bufs, 0), Vec::<Vec<u8>>::new());
}

#[test]
fn connstring_buffer_pads_and_truncates() {
    let buf = connstring_buffer(&b"unit-test-mock".to_vec());
    assert_eq!(buf.len(), 1023);
    assert_eq!(&buf[..14], b"unit-test-mock");
    assert!(buf[14..].iter().all(|b| *b == 0));

    let long = vec![b'y'; 5000];
    let buf = connstring_buffer(&long);
    assert_eq!(buf.len(), 1023);
    assert!(buf.iter().all(|b| *b == b'y'));
}

#[test]
fn listing_pass_decodes_reported_targets() {
    let scratch = Target::new_iso14443a().encode();
    let wires = vec![scratch; 4];
    let targets = decode_targets(&wires, 2).unwrap();
    assert_eq!(targets.len(), 2);
    assert_eq!(targets[0], Target::new_iso14443a());

    // the first undecodable entry decides the listing
    let mut bad = WireTarget { info: WireTargetInfo::zero(), modulation_type: 0, baud_rate: 1 };
    let wires = vec![scratch, bad];
    assert_eq!(decode_targets(&wires, 2), Err(Error::UndefinedModulationType));
    bad.modulation_type = 1;
    bad.info.iso14443a.uid_len = 999;
    let wires = vec![bad, scratch];
    assert_eq!(decode_targets(&wires, 2), Err(Error::InvalidArgument));

    // entries beyond the reported count are not decoded
    let wires = vec![scratch, bad];
    assert_eq!(decode_targets(&wires, 1), Ok(vec![Target::new_iso14443a()]));
}

#[test]
fn registry_initialization_is_idempotent() {
    let mut registry = DriverRegistry::new();
    assert!(!registry.initialized);
    registry.ensure_initialized();
    assert!(registry.initialized);
    let snapshot = registry.open_sessions;
    registry.ensure_initialized();
    registry.ensure_initialized();
    assert!(registry.initialized);
    assert_eq!(registry.open_sessions, snapshot);
}

#[test]
fn registry_session_accounting_reconciles() {
    let mut registry = DriverRegistry::new();
    registry.ensure_initialized();
    for _ in 0..1000 {
        registry.note_session_opened();
        registry.note_session_closed();
    }
    assert_eq!(registry.open_sessions, 0);
    registry.note_session_opened();
    registry.note_session_opened();
    registry.note_session_closed();
    assert_eq!(registry.open_sessions, 1);
    assert!(registry.initialized);
}

#[test]
fn historical_bytes_location() {
    // no interface bytes: the historical bytes start right after the format byte
    let ats = [0x00u8, 0xAA, 0xBB];
    assert_eq!(iso14443a_locate_historical_bytes(&ats), Some(&ats[1..]));

    // TA, TB and TC all present
    let ats = [0x70u8, 0x11, 0x22, 0x33, 0xAA, 0xBB];
    assert_eq!(iso14443a_locate_historical_bytes(&ats), Some(&ats[4..]));

    // TA only
    let ats = [0x10u8, 0x11, 0xAA];
    assert_eq!(iso14443a_locate_historical_bytes(&ats), Some(&ats[2..]));

    // nothing after the announced interface bytes
    let ats = [0x70u8, 0x11, 0x22, 0x33];
    assert_eq!(iso14443a_locate_historical_bytes(&ats), None);

    assert_eq!(iso14443a_locate_historical_bytes(&[]), None);
}

#[test]
fn mock_session_scenario() {
    // construct the registry and open a reader named "unit-test-mock"
    let mut registry = DriverRegistry::new();
    registry.ensure_initialized();
    registry.ensure_initialized();
    let connstring = connstring_buffer(&b"unit-test-mock".to_vec());
    assert_eq!(connstring.len(), 1023);
    registry.note_session_opened();

    // configure the session
    assert_eq!(Property::EasyFraming.to_code(), 11);

    // select a passive ISO/IEC 14443-A target at 106 kbps: the mock driver
    // answers the scratch target it was handed
    let requested = Modulation {
        modulation_type: ModulationType::Iso14443a,
        baud_rate: BaudRate::Baud106,
    };
    let scratch = Target::try_from_modulation(&requested).unwrap();
    let wire = scratch.encode();
    let selected = Target::decode(&wire).unwrap();
    assert_eq!(selected.modulation.modulation_type, ModulationType::Iso14443a);

    // transceive 7 bits of a 1-byte frame with a 264-byte receive window;
    // the mock driver reports 4 received bits
    let tx = [0x40u8];
    assert_eq!(check_transmit_bits(tx.len(), 7), Ok(()));
    let rx_buf = make_receive_buffer(264);
    let received = finish_receive_bits(rx_buf, 4).unwrap();
    assert!(received.len() <= 1);

    registry.note_session_closed();
    assert_eq!(registry.open_sessions, 0);
}
