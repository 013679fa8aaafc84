//! Display identification data.

use hana_clerestory::device::ReportedId;
use hana_clerestory::monitors::edid::normalized_placeholder_key;
use hana_clerestory::monitors::edid::trim_serial_padding;
use hana_clerestory::monitors::edid::EdidEvidence;
use hana_clerestory::monitors::edid::EdidIdentityEvidence;
use hana_clerestory::monitors::edid::BLOCK_SIZE;
use hana_clerestory::monitors::edid::DESCRIPTOR_SIZE;
use hana_clerestory::monitors::edid::DESCRIPTOR_START;
use hana_clerestory::monitors::edid::EXTENSION_COUNT_INDEX;
use hana_clerestory::monitors::edid::SERIAL_DESCRIPTOR_TAG;
use hana_clerestory::monitors::edid::SERIAL_END;
use hana_clerestory::monitors::edid::SERIAL_START;
use hana_clerestory::monitors::edid::TEXT_SERIAL_START;
use hana_clerestory::monitors::identity::MonitorIdentificationError;

const HEADER: [u8; 8] = [0x00, 0xff, 0xff, 0xff, 0xff, 0xff, 0xff, 0x00];
const CHECKSUM_INDEX: usize = BLOCK_SIZE - 1;
const NUMERIC_SERIAL: u32 = 42;

fn update_checksums(edid: &mut [u8]) {
    for block in edid.chunks_mut(BLOCK_SIZE) {
        block[CHECKSUM_INDEX] = 0;
        let sum = block[..CHECKSUM_INDEX]
            .iter()
            .fold(0_u8, |checksum, byte| checksum.wrapping_add(*byte));
        block[CHECKSUM_INDEX] = 0_u8.wrapping_sub(sum);
    }
}

fn synthetic_edid(extension_count: u8) -> Vec<u8> {
    let block_count = usize::from(extension_count) + 1;
    let mut edid = vec![0; block_count * BLOCK_SIZE];
    edid[..HEADER.len()].copy_from_slice(&HEADER);
    edid[EXTENSION_COUNT_INDEX] = extension_count;
    for extension in 1..block_count {
        edid[extension * BLOCK_SIZE] = 2;
    }
    update_checksums(&mut edid);
    edid
}

fn numeric_serial_edid(extension_count: u8) -> Vec<u8> {
    let mut edid = synthetic_edid(extension_count);
    edid[SERIAL_START..SERIAL_END].copy_from_slice(&NUMERIC_SERIAL.to_le_bytes());
    update_checksums(&mut edid);
    edid
}

fn text_serial_edid_at(serial: &[u8], slot: usize) -> Vec<u8> {
    let mut edid = synthetic_edid(0);
    let start = DESCRIPTOR_START + slot * DESCRIPTOR_SIZE;
    let descriptor = &mut edid[start..start + DESCRIPTOR_SIZE];
    descriptor[3] = SERIAL_DESCRIPTOR_TAG;
    descriptor[TEXT_SERIAL_START..].fill(b' ');
    descriptor[TEXT_SERIAL_START..TEXT_SERIAL_START + serial.len()].copy_from_slice(serial);
    update_checksums(&mut edid);
    edid
}

fn text_serial_edid(serial: &[u8]) -> Vec<u8> {
    text_serial_edid_at(serial, 0)
}

#[test]
fn edid_with_numeric_serial_extracts_canonical_reported_id() {
    let edid = numeric_serial_edid(1);
    let expected = ReportedId::new(&NUMERIC_SERIAL.to_string());
    assert!(expected.is_ok());
    let Some(expected) = expected.ok() else {
        return;
    };

    assert_eq!(
        EdidEvidence::qualify(edid),
        Ok(EdidIdentityEvidence::ReportedSerial(expected))
    );
}

#[test]
fn edid_with_text_serial_extracts_trimmed_reported_id() {
    let edid = text_serial_edid(b"SN-42-A");
    let expected = ReportedId::new("SN-42-A");
    assert!(expected.is_ok());
    let Some(expected) = expected.ok() else {
        return;
    };

    assert_eq!(
        EdidEvidence::qualify(edid),
        Ok(EdidIdentityEvidence::ReportedSerial(expected))
    );
}

#[test]
fn malformed_truncated_and_checksum_invalid_edids_are_rejected() {
    let mut malformed = numeric_serial_edid(0);
    malformed[0] = 1;
    update_checksums(&mut malformed);

    let mut truncated = numeric_serial_edid(1);
    truncated.pop();

    let mut invalid_checksum = numeric_serial_edid(1);
    invalid_checksum[BLOCK_SIZE] = 3;

    let mut incorrect_declared_length = numeric_serial_edid(0);
    incorrect_declared_length[EXTENSION_COUNT_INDEX] = 1;
    update_checksums(&mut incorrect_declared_length);

    assert!(EdidEvidence::qualify(malformed).is_err());
    assert!(EdidEvidence::qualify(truncated).is_err());
    assert!(EdidEvidence::qualify(invalid_checksum).is_err());
    assert!(EdidEvidence::qualify(incorrect_declared_length).is_err());
}

#[test]
fn missing_and_placeholder_serials_retain_descriptor_evidence() {
    let mut all_ones = synthetic_edid(0);
    all_ones[SERIAL_START..SERIAL_END].copy_from_slice(&u32::MAX.to_le_bytes());
    update_checksums(&mut all_ones);

    for placeholder in [
        b"".as_slice(),
        b"\0\0\0\0",
        b"000000",
        b"FFFFFFFF",
        b"UNKNOWN",
        b"default",
    ] {
        assert!(matches!(
            EdidEvidence::qualify(text_serial_edid(placeholder)),
            Ok(EdidIdentityEvidence::Descriptor(_))
        ));
    }
    assert!(matches!(
        EdidEvidence::qualify(synthetic_edid(0)),
        Ok(EdidIdentityEvidence::Descriptor(_))
    ));
    assert!(matches!(
        EdidEvidence::qualify(all_ones),
        Ok(EdidIdentityEvidence::Descriptor(_))
    ));
}

#[test]
fn named_and_formatted_placeholder_serials_use_descriptor_tier() {
    for placeholder in [
        b"NO SERIAL".as_slice(),
        b"NOT AVAILABLE",
        b"not-available",
        b"000 000",
        b"00-00-00",
        b"FF FF FF",
        b"FF:FF:FF",
    ] {
        assert!(matches!(
            EdidEvidence::qualify(text_serial_edid(placeholder)),
            Ok(EdidIdentityEvidence::Descriptor(_))
        ));
    }
}

#[test]
fn printable_punctuation_and_alphanumeric_serials_are_qualified() {
    for serial in [
        b"SN-42/A".as_slice(),
        b"A.B_C+42",
        b"SERIAL-42",
        b"000-001",
        b"FF-F1",
    ] {
        let edid = text_serial_edid(serial);

        assert!(matches!(
            EdidEvidence::qualify(edid),
            Ok(EdidIdentityEvidence::ReportedSerial(_))
        ));
    }
}

#[test]
fn every_placeholder_word_is_refused() {
    for word in [
        "DEFAULT", "GENERIC", "N/A", "NONE", "NO SERIAL", "NOTAVAILABLE", "NOTSPECIFIED", "SERIAL",
        "SERIALNUMBER", "UNKNOWN", "UNSPECIFIED",
    ] {
        let edid = text_serial_edid(word.as_bytes());
        assert_eq!(
            EdidEvidence::qualify(edid.clone()),
            Ok(EdidIdentityEvidence::Descriptor(edid)),
            "{word}"
        );
    }
}

#[test]
fn a_serial_with_an_unprintable_byte_is_not_used() {
    assert!(matches!(
        EdidEvidence::qualify(text_serial_edid(b"SN\x0142")),
        Ok(EdidIdentityEvidence::Descriptor(_))
    ));
    assert!(matches!(
        EdidEvidence::qualify(text_serial_edid(b"SN\xe942")),
        Ok(EdidIdentityEvidence::Descriptor(_))
    ));
}

#[test]
fn the_first_usable_descriptor_supplies_the_serial() {
    let mut edid = text_serial_edid_at(b"SECOND", 3);
    let start = DESCRIPTOR_START + DESCRIPTOR_SIZE;
    let descriptor = &mut edid[start..start + DESCRIPTOR_SIZE];
    descriptor[3] = SERIAL_DESCRIPTOR_TAG;
    descriptor[TEXT_SERIAL_START..].fill(b'\n');
    descriptor[TEXT_SERIAL_START..TEXT_SERIAL_START + 5].copy_from_slice(b"FIRST");
    update_checksums(&mut edid);
    let first = ReportedId::new("FIRST").ok();
    assert_eq!(
        EdidEvidence::qualify(edid).ok(),
        first.map(EdidIdentityEvidence::ReportedSerial)
    );
}

#[test]
fn any_single_changed_byte_is_rejected() {
    let edid = numeric_serial_edid(1);
    for position in [0, 12, 54, 126, 127, 128, 200, 255] {
        let mut changed = edid.clone();
        changed[position] = changed[position].wrapping_add(1);
        assert_eq!(
            EdidEvidence::qualify(changed),
            Err(MonitorIdentificationError::InvalidStableIdentity),
            "byte {position}"
        );
    }
}

#[test]
fn serial_padding_is_trimmed_on_both_sides() {
    assert_eq!(trim_serial_padding(b"\0 \tSN 42\r\n "), b"SN 42");
    assert_eq!(trim_serial_padding(b" \0\t"), b"");
    assert_eq!(trim_serial_padding(b"SN"), b"SN");
}

#[test]
fn placeholder_keys_hold_upper_case_letters_and_digits() {
    assert_eq!(normalized_placeholder_key("not-Available 7"), "NOTAVAILABLE7");
    assert_eq!(normalized_placeholder_key("n\u{e4}h"), "NH");
    assert_eq!(normalized_placeholder_key("--"), "");
}
