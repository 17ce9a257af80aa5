use minicon::idmap::{dec_bytes, dec_string, format_id_mappings, i64_dec_bytes, write_id_mappings};
use minicon::oci::Mapping;
use minicon::ErrorKind;

fn m(c: u32, h: u32, s: u32) -> Mapping {
    Mapping { container_id: c, host_id: h, size: s }
}

#[test]
fn format_empty_list_is_no_bytes() {
    let out = format_id_mappings(&Vec::new());
    assert_eq!(out, Vec::<u8>::new());
}

#[test]
fn format_single_mapping() {
    let out = format_id_mappings(&vec![m(0, 1000, 1)]);
    assert_eq!(out, b"0 1000 1\n".to_vec());
}

#[test]
fn format_keeps_input_order() {
    let out = format_id_mappings(&vec![m(0, 1000, 1), m(1, 100000, 65536)]);
    assert_eq!(out, b"0 1000 1\n1 100000 65536\n".to_vec());
}

#[test]
fn format_round_trips_by_line() {
    let input = vec![m(0, 1000, 1), m(1, 100000, 65536), m(4294967295, 0, 7)];
    let out = format_id_mappings(&input);
    let text = String::from_utf8(out).unwrap();
    let mut parsed = Vec::new();
    for line in text.lines() {
        let fields: Vec<&str> = line.split(' ').collect();
        assert_eq!(fields.len(), 3);
        parsed.push(m(
            fields[0].parse().unwrap(),
            fields[1].parse().unwrap(),
            fields[2].parse().unwrap(),
        ));
    }
    assert_eq!(parsed, input);
}

#[test]
fn decimal_digits_of_zero_and_max() {
    assert_eq!(dec_bytes(0), b"0".to_vec());
    assert_eq!(dec_bytes(4294967295), b"4294967295".to_vec());
    assert_eq!(dec_bytes(18446744073709551615), b"18446744073709551615".to_vec());
}

#[test]
fn decimal_string_spelling() {
    assert_eq!(dec_string(12345), "12345".to_string());
    assert_eq!(dec_string(0), "0".to_string());
}

#[test]
fn signed_decimal_spelling() {
    assert_eq!(i64_dec_bytes(-42), b"-42".to_vec());
    assert_eq!(i64_dec_bytes(0), b"0".to_vec());
    assert_eq!(i64_dec_bytes(1000), b"1000".to_vec());
    assert_eq!(i64_dec_bytes(i64::MIN), b"-9223372036854775808".to_vec());
}

#[test]
fn write_empty_mapping_list_touches_nothing() {
    // The path does not exist; an empty list must still succeed because no
    // write at all is issued.
    let r = write_id_mappings("/nonexistent-minicon-dir/uid_map", &Vec::new());
    assert!(r.is_ok());
}

#[test]
fn write_nonempty_mapping_list_reports_os_error() {
    let r = write_id_mappings("/nonexistent-minicon-dir/uid_map", &vec![m(0, 1000, 1)]);
    let e = r.unwrap_err();
    assert_eq!(e.kind(), ErrorKind::Nix);
}
