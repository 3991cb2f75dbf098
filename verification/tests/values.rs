use loudeq::guid::{instance_guid, instance_guids, is_instance_name};
use loudeq::property::{
    propvariant_bool, propvariant_clsid, propvariant_i32, propvariant_u32, Payload, Property,
};
use loudeq::regvalue::{
    dword_value, parse_i32_value, vt_bool_value, VT_BOOL, VT_CLSID, VT_I4, VT_UI4,
};
use loudeq::strip::{comes_before, stripped, Edge};
use loudeq::text::{
    copy_utf16, decimal_int_text, decimal_text, find_text, has_text, parse_i32, remove_text,
    starts_with, text_eq, to_ascii_lowercase, utf16_units, wide,
};
use loudeq::{parse_bool_value, RegType, RegValue, DISABLE_SYSFX_VALUE, LOUDNESS_VALUE};

fn blob(vt: u32, payload: &[u8]) -> RegValue {
    let mut bytes = vt.to_le_bytes().to_vec();
    bytes.extend_from_slice(&1u32.to_le_bytes());
    bytes.extend_from_slice(payload);
    RegValue { bytes, vtype: RegType::REG_BINARY }
}

#[test]
fn parse_bool_value_reg_dword() {
    let on = RegValue { bytes: 1u32.to_le_bytes().to_vec(), vtype: RegType::REG_DWORD };
    let off = RegValue { bytes: 0u32.to_le_bytes().to_vec(), vtype: RegType::REG_DWORD };
    assert_eq!(parse_bool_value(&on), Some(true));
    assert_eq!(parse_bool_value(&off), Some(false));
}

#[test]
fn parse_bool_value_vt_bool_propvariant() {
    // vt=0x0b (VT_BOOL), reserved u32, then a 2-byte VARIANT_BOOL payload.
    let mut on_bytes = 0x0b_u32.to_le_bytes().to_vec();
    on_bytes.extend_from_slice(&1u32.to_le_bytes());
    on_bytes.extend_from_slice(&0xffffu16.to_le_bytes());
    on_bytes.extend_from_slice(&[0, 0]);
    let on = RegValue { bytes: on_bytes, vtype: RegType::REG_BINARY };
    assert_eq!(parse_bool_value(&on), Some(true));

    let mut off_bytes = 0x0b_u32.to_le_bytes().to_vec();
    off_bytes.extend_from_slice(&1u32.to_le_bytes());
    off_bytes.extend_from_slice(&0u16.to_le_bytes());
    off_bytes.extend_from_slice(&[0, 0]);
    let off = RegValue { bytes: off_bytes, vtype: RegType::REG_BINARY };
    assert_eq!(parse_bool_value(&off), Some(false));
}

#[test]
fn parse_bool_value_vt_ui4_propvariant() {
    // vt=0x13 (VT_UI4), reserved u32, then a 4-byte value.
    let mut bytes = 0x13_u32.to_le_bytes().to_vec();
    bytes.extend_from_slice(&1u32.to_le_bytes());
    bytes.extend_from_slice(&7u32.to_le_bytes());
    let rv = RegValue { bytes, vtype: RegType::REG_BINARY };
    assert_eq!(parse_bool_value(&rv), Some(true));
}

#[test]
fn parse_bool_value_rejects_unrecognized_or_too_short() {
    let unrecognized_vt = RegValue {
        bytes: 0xffff_u32.to_le_bytes().to_vec(),
        vtype: RegType::REG_BINARY,
    };
    assert_eq!(parse_bool_value(&unrecognized_vt), None);

    let truncated = RegValue { bytes: vec![1, 2, 3], vtype: RegType::REG_BINARY };
    assert_eq!(parse_bool_value(&truncated), None);

    let wrong_type = RegValue { bytes: b"hello".to_vec(), vtype: RegType::REG_SZ };
    assert_eq!(parse_bool_value(&wrong_type), None);
}

#[test]
fn parse_i32_value_reads_release_time_range() {
    // vt=0x03 (VT_I4), reserved u32, then a 4-byte signed payload.
    for release_time in 2..=7i32 {
        let mut bytes = 0x03_u32.to_le_bytes().to_vec();
        bytes.extend_from_slice(&1u32.to_le_bytes());
        bytes.extend_from_slice(&release_time.to_le_bytes());
        let rv = RegValue { bytes, vtype: RegType::REG_BINARY };
        assert_eq!(parse_i32_value(&rv), Some(release_time));
    }
}

#[test]
fn vt_bool_value_round_trips_through_parse_bool_value() {
    assert_eq!(parse_bool_value(&vt_bool_value(true)), Some(true));
    assert_eq!(parse_bool_value(&vt_bool_value(false)), Some(false));
}

#[test]
fn serialized_boolean_has_its_exact_bytes() {
    let on = vt_bool_value(true);
    assert_eq!(on.vtype, RegType::REG_BINARY);
    assert_eq!(on.bytes, vec![0x0b, 0, 0, 0, 1, 0, 0, 0, 0xff, 0xff, 0, 0]);
    assert_eq!(vt_bool_value(false).bytes, vec![0x0b, 0, 0, 0, 1, 0, 0, 0, 0, 0, 0, 0]);
    let n = dword_value(0x0102_0304);
    assert_eq!(n.vtype, RegType::REG_DWORD);
    assert_eq!(n.bytes, vec![4, 3, 2, 1]);
}

#[test]
fn a_boolean_needs_two_bytes_and_a_number_four() {
    assert_eq!(parse_bool_value(&blob(0x0b, &[1])), None);
    assert_eq!(parse_bool_value(&blob(0x0b, &[0, 1])), Some(true));
    assert_eq!(parse_bool_value(&blob(0x03, &[1, 0, 0])), None);
    assert_eq!(parse_bool_value(&blob(0x03, &[0, 0, 0, 1])), Some(true));
    assert_eq!(parse_bool_value(&blob(0x13, &[0, 0, 0, 0, 9])), Some(false));
    let short = RegValue { bytes: vec![1, 0, 0], vtype: RegType::REG_DWORD };
    assert_eq!(parse_bool_value(&short), None);
    let long = RegValue { bytes: vec![0, 0, 0, 0, 1], vtype: RegType::REG_DWORD };
    assert_eq!(parse_bool_value(&long), Some(false));
}

#[test]
fn numbers_are_read_signed_and_booleans_are_none() {
    assert_eq!(parse_i32_value(&blob(0x03, &(-5i32).to_le_bytes())), Some(-5));
    assert_eq!(parse_i32_value(&blob(0x13, &0xffff_fffeu32.to_le_bytes())), Some(-2));
    assert_eq!(parse_i32_value(&blob(0x0b, &[0xff, 0xff, 0, 0])), None);
    assert_eq!(parse_i32_value(&blob(0x03, &[1, 2, 3])), None);
    assert_eq!(parse_i32_value(&dword_value(7)), Some(7));
    let text = RegValue { bytes: vec![1, 0, 0, 0], vtype: RegType::REG_SZ };
    assert_eq!(parse_i32_value(&text), None);
}

#[test]
fn property_values_carry_their_tags() {
    assert_eq!(propvariant_bool(true).vt, VT_BOOL);
    assert_eq!(propvariant_bool(true).payload, Payload::Bool(-1));
    assert_eq!(propvariant_bool(false).payload, Payload::Bool(0));
    assert_eq!(propvariant_u32(9).vt, VT_UI4);
    assert_eq!(propvariant_u32(9).payload, Payload::U32(9));
    assert_eq!(propvariant_i32(-9).vt, VT_I4);
    assert_eq!(propvariant_i32(-9).payload, Payload::I32(-9));
    assert_eq!(propvariant_clsid(5).vt, VT_CLSID);
    assert_eq!(propvariant_clsid(5).payload, Payload::Clsid(5));
    assert_eq!(VT_I4, windows::Win32::System::Variant::VT_I4.0);
    assert_eq!(VT_UI4, windows::Win32::System::Variant::VT_UI4.0);
    assert_eq!(VT_BOOL, windows::Win32::System::Variant::VT_BOOL.0);
    assert_eq!(VT_CLSID, windows::Win32::System::Variant::VT_CLSID.0);
}

#[test]
fn value_names_and_property_keys_agree() {
    let loudness = Property::LoudnessEq.key();
    assert_eq!(instance_guid(&LOUDNESS_VALUE[..38]), loudness.fmtid);
    assert_eq!(&LOUDNESS_VALUE[38..], ",3");
    assert_eq!(loudness.pid, 3);
    let sysfx = Property::DisableSysfx.key();
    assert_eq!(instance_guid(&DISABLE_SYSFX_VALUE[..38]), sysfx.fmtid);
    assert_eq!(&DISABLE_SYSFX_VALUE[38..], ",5");
    assert_eq!(sysfx.pid, 5);
    let time = Property::ReleaseTime.key();
    assert_eq!(instance_guid(&loudeq::fx::RELEASE_TIME_VALUE[..38]), time.fmtid);
    assert_eq!(time.pid, 3);
    let alt = Property::ReleaseTimeAlt.key();
    assert_eq!(alt.fmtid, time.fmtid);
    assert_eq!(alt.pid, 1599);
}

#[test]
fn instance_names_are_read_with_and_without_braces() {
    let bare = "00112233-4455-6677-8899-aAbBcCdDeEfF";
    let braced = "{00112233-4455-6677-8899-aabbccddeeff}";
    let value = 0x0011_2233_4455_6677_8899_aabb_ccdd_eeff_u128;
    assert!(is_instance_name(bare));
    assert!(is_instance_name(braced));
    assert_eq!(instance_guid(bare), value);
    assert_eq!(instance_guid(braced), value);
    assert_eq!(instance_guids(&[braced.to_string(), bare.to_string()]), vec![value, value]);
    assert!(!is_instance_name("00112233-4455-6677-8899-aabbccddeefg"));
    assert!(!is_instance_name("00112233-4455-6677-8899-aabbccddeef"));
    assert!(!is_instance_name("0011223304455-6677-8899-aabbccddeeff"));
    assert!(!is_instance_name(""));
}

#[test]
fn texts_are_searched_and_cut() {
    assert_eq!(to_ascii_lowercase("EDIFIER Größe Ä"), "edifier größe Ä");
    assert_eq!(find_text("abcabc", "ca"), Some(2));
    assert_eq!(find_text("abc", "d"), None);
    assert_eq!(find_text("abc", ""), Some(0));
    assert!(has_text("Speakers", "eak"));
    assert!(starts_with("D:(A)", "D:"));
    assert!(!starts_with("D", "D:"));
    assert!(text_eq("a—b", "a—b"));
    assert!(!text_eq("a", "ab"));
    assert_eq!(remove_text("xaxbxa", "xa"), "xb");
    assert_eq!(remove_text("aaa", "aa"), "a");
    assert_eq!(stripped("  \tD:x \r", Edge::Space), "D:x");
    assert_eq!(stripped("\u{a0}\u{2003}x\u{3000}", Edge::Space), "x");
    assert_eq!(stripped("{{a}-{b}}", Edge::Brace), "a}-{b");
    assert_eq!(stripped("}{", Edge::Brace), "");
}

#[test]
fn texts_are_ordered_by_their_characters() {
    assert!(comes_before("", "a"));
    assert!(comes_before("Z", "a"));
    assert!(comes_before("ab", "abc"));
    assert!(!comes_before("abc", "abc"));
    assert!(!comes_before("é", "z"));
    for (a, b) in [("a", "b"), ("a", "A"), ("x—", "x-"), ("𐐀", "\u{ffff}")] {
        assert_eq!(comes_before(a, b), a < b);
        assert_eq!(comes_before(b, a), b < a);
    }
}

#[test]
fn numbers_are_written_and_parsed() {
    assert_eq!(decimal_text(0), "0");
    assert_eq!(decimal_text(18446744073709551615), "18446744073709551615");
    assert_eq!(decimal_int_text(-2147483648), "-2147483648");
    assert_eq!(decimal_int_text(105), "105");
    for s in [
        "0", "-0", "+7", "007", "2147483647", "2147483648", "-2147483648", "-2147483649", "", "-",
        "+", " 1", "1 ", "1a", "--1", "99999999999999999999", "٣",
    ] {
        assert_eq!(parse_i32(s), s.parse::<i32>().ok(), "{s}");
    }
}

#[test]
fn texts_become_wide() {
    for s in ["", "abc", "a—b", "x𐐀y", "\u{ffff}"] {
        let units: Vec<u16> = s.encode_utf16().collect();
        assert_eq!(utf16_units(s), units);
        let mut ended = units.clone();
        ended.push(0);
        assert_eq!(wide(s), ended);
    }
}

#[test]
fn copied_text_is_cut_and_ended() {
    let mut buf = [9u16; 4];
    copy_utf16("ab", &mut buf);
    assert_eq!(buf, [97, 98, 0, 9]);
    let mut small = [9u16; 3];
    copy_utf16("abcdef", &mut small);
    assert_eq!(small, [97, 98, 0]);
    let mut exact = [9u16; 3];
    copy_utf16("ab", &mut exact);
    assert_eq!(exact, [97, 98, 0]);
    let mut one = [9u16; 1];
    copy_utf16("ab", &mut one);
    assert_eq!(one, [0]);
}
