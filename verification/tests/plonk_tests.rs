use payfi::errors::ErrorCode;
use payfi::field::{parse_field_element, validate_curve_point};
use payfi::json::JsonMember;
use payfi::plonk::{
    check_document, check_fields, check_merkle_consistency, fiat_shamir_challenge, parse_proof,
    parse_field_elements, parse_public_inputs, read_document, validate_commitments, verify_plonk,
};
use payfi::record::{find_text, PlonkProof};
use payfi::text::{body_start, chars_of, classify, hex_digit, same_text};

const NAMES: [&str; 15] = [
    "a", "b", "c", "z", "t1", "t2", "t3", "wxi", "wxiw", "a_eval", "b_eval", "c_eval", "s1_eval",
    "s2_eval", "z_omega_eval",
];

fn point(digit: &str) -> String {
    format!("0x{}", digit.repeat(64))
}

fn good_values() -> Vec<String> {
    let mut values: Vec<String> = Vec::new();
    for digit in ["1", "2", "3", "4", "5", "6", "7", "8", "9"] {
        values.push(point(digit));
    }
    for eval in ["0x0a", "11", "0xc", "13", "0xE", "ff"] {
        values.push(eval.to_string());
    }
    values
}

fn object(names: &[&str], values: &[String]) -> Vec<u8> {
    let mut text = String::from("{");
    for i in 0..names.len() {
        if i > 0 {
            text.push(',');
        }
        text.push_str(&format!("\"{}\": \"{}\"", names[i], values[i]));
    }
    text.push('}');
    text.into_bytes()
}

fn with(field: &str, value: &str) -> Vec<u8> {
    let mut values = good_values();
    let at = NAMES.iter().position(|n| *n == field).unwrap();
    values[at] = value.to_string();
    object(&NAMES, &values)
}

fn inputs() -> Vec<String> {
    vec!["0x10".to_string(), "42".to_string()]
}

fn strings(items: &[&str]) -> Vec<String> {
    items.iter().map(|s| s.to_string()).collect()
}

#[test]
fn characters_and_digits() {
    assert_eq!(chars_of("a1\u{e9}z"), vec!['a', '1', '\u{e9}', 'z']);
    assert_eq!(chars_of(""), Vec::<char>::new());
    assert_eq!(hex_digit('0'), Some(0));
    assert_eq!(hex_digit('9'), Some(9));
    assert_eq!(hex_digit('a'), Some(10));
    assert_eq!(hex_digit('f'), Some(15));
    assert_eq!(hex_digit('A'), Some(10));
    assert_eq!(hex_digit('F'), Some(15));
    assert_eq!(hex_digit('g'), None);
    assert_eq!(hex_digit('G'), None);
    assert_eq!(hex_digit('/'), None);
    assert_eq!(hex_digit(':'), None);
    assert_eq!(hex_digit('@'), None);
    assert_eq!(hex_digit('`'), None);
    assert_eq!(hex_digit('x'), None);
    assert!(same_text("abc", "abc"));
    assert!(!same_text("abc", "abd"));
    assert!(!same_text("abc", "ab"));
    assert!(same_text("", ""));
}

#[test]
fn the_prefix_is_stripped_once() {
    assert_eq!(body_start(&chars_of("0x12")), 2);
    assert_eq!(body_start(&chars_of("12")), 0);
    assert_eq!(body_start(&chars_of("0X12")), 0);
    assert_eq!(body_start(&chars_of("0x")), 2);
    assert_eq!(body_start(&chars_of("0")), 0);
    assert_eq!(body_start(&chars_of("")), 0);
    assert_eq!(body_start(&chars_of("x0")), 0);
    assert_eq!(classify(&chars_of("0x12"), 2), (true, true));
    assert_eq!(classify(&chars_of("0x1f"), 2), (false, true));
    assert_eq!(classify(&chars_of("0x1g"), 2), (false, false));
    assert_eq!(classify(&chars_of("0x12"), 0), (false, false));
    assert_eq!(classify(&chars_of(""), 0), (true, true));
}

#[test]
fn field_elements_in_decimal_and_hexadecimal() {
    assert_eq!(parse_field_element("0"), Ok(0));
    assert_eq!(parse_field_element("10"), Ok(10));
    assert_eq!(parse_field_element("0x10"), Ok(16));
    assert_eq!(parse_field_element("ff"), Ok(255));
    assert_eq!(parse_field_element("FF"), Ok(255));
    assert_eq!(parse_field_element("12a"), Ok(298));
    assert_eq!(parse_field_element("0xDeadBeef"), Ok(3735928559));
    assert_eq!(parse_field_element("007"), Ok(7));
    assert_eq!(parse_field_element("0x0000000000000000000000000000000000000001"), Ok(1));
    assert_eq!(parse_field_element("18446744073709551614"), Ok(u64::MAX - 1));
    assert_eq!(parse_field_element("0xfffffffffffffffe"), Ok(u64::MAX - 1));
}

#[test]
fn text_that_is_no_integer_fails_to_parse() {
    for text in ["", "0x", "xyz", "0X10", "-1", "+1", " 1", "1 ", "0x0x1", "1_000", "1.5", "0xg"] {
        assert_eq!(
            parse_field_element(text),
            Err(ErrorCode::FieldElementParsingFailed),
            "{:?}",
            text
        );
    }
}

#[test]
fn integers_from_the_modulus_on_are_out_of_range() {
    for text in [
        "18446744073709551615",
        "0xffffffffffffffff",
        "18446744073709551616",
        "0x10000000000000000",
        "99999999999999999999",
        "0x0a123456789012345678901234567890",
        "340282366920938463463374607431768211456",
    ] {
        assert_eq!(
            parse_field_element(text),
            Err(ErrorCode::FieldElementOutOfRange),
            "{:?}",
            text
        );
    }
    assert_eq!(
        parse_field_element("0xffffffffffffffffffffg"),
        Err(ErrorCode::FieldElementParsingFailed)
    );
}

#[test]
fn curve_points_by_length_and_digits() {
    for n in [64usize, 66, 128] {
        assert_eq!(validate_curve_point(&"a".repeat(n)), Ok(()), "{}", n);
        assert_eq!(validate_curve_point(&format!("0x{}", "F".repeat(n))), Ok(()), "{}", n);
    }
    for n in [0usize, 1, 32, 63, 65, 67, 100, 127, 129, 130, 256] {
        assert_eq!(
            validate_curve_point(&"a".repeat(n)),
            Err(ErrorCode::InvalidCurvePoint),
            "{}",
            n
        );
        assert_eq!(
            validate_curve_point(&format!("0x{}", "a".repeat(n))),
            Err(ErrorCode::InvalidCurvePoint),
            "{}",
            n
        );
    }
}

#[test]
fn curve_points_with_other_characters_fail() {
    let bad = format!("0x{}g", "0".repeat(63));
    assert_eq!(validate_curve_point(&bad), Err(ErrorCode::InvalidHexFormat));
    let bad = format!("{}z{}", "0".repeat(100), "0".repeat(27));
    assert_eq!(validate_curve_point(&bad), Err(ErrorCode::InvalidHexFormat));
    let unprefixed = format!("0x{}", "0".repeat(62));
    assert_eq!(validate_curve_point(&format!("0x{}", unprefixed)), Err(ErrorCode::InvalidHexFormat));
    let both = format!("0x{}g", "0".repeat(31));
    assert_eq!(validate_curve_point(&both), Err(ErrorCode::InvalidCurvePoint));
    let wide = "\u{e9}".repeat(64);
    assert_eq!(validate_curve_point(&wide), Err(ErrorCode::InvalidHexFormat));
}

#[test]
fn the_challenge_is_the_padded_head_of_the_transcript() {
    let none: Vec<String> = Vec::new();
    assert_eq!(fiat_shamir_challenge(&none, &none), format!("0x{}", "0".repeat(64)));
    assert_eq!(
        fiat_shamir_challenge(&strings(&["ab", "cd"]), &strings(&["1", "2"])),
        format!("0x{}abcd12", "0".repeat(58))
    );
    assert_eq!(
        fiat_shamir_challenge(&none, &strings(&["7"])),
        format!("0x{}7", "0".repeat(63))
    );
    let long = strings(&[&"1".repeat(40), &"2".repeat(40)]);
    assert_eq!(
        fiat_shamir_challenge(&long, &strings(&["9"])),
        format!("0x{}{}", "1".repeat(40), "2".repeat(24))
    );
    let exact = strings(&[&"3".repeat(60)]);
    assert_eq!(
        fiat_shamir_challenge(&exact, &strings(&["45", "67"])),
        format!("0x{}4567", "3".repeat(60))
    );
}

#[test]
fn a_record_is_read_from_its_members() {
    let record = parse_proof(&object(&NAMES, &good_values())).unwrap();
    assert_eq!(record.a, point("1"));
    assert_eq!(record.b, point("2"));
    assert_eq!(record.c, point("3"));
    assert_eq!(record.z, point("4"));
    assert_eq!(record.t1, point("5"));
    assert_eq!(record.t2, point("6"));
    assert_eq!(record.t3, point("7"));
    assert_eq!(record.wxi, point("8"));
    assert_eq!(record.wxiw, point("9"));
    assert_eq!(record.a_eval, "0x0a");
    assert_eq!(record.b_eval, "11");
    assert_eq!(record.c_eval, "0xc");
    assert_eq!(record.s1_eval, "13");
    assert_eq!(record.s2_eval, "0xE");
    assert_eq!(record.z_omega_eval, "ff");
    assert_eq!(record.evaluations(), strings(&["0x0a", "11", "0xc", "13", "0xE", "ff"]));
    assert_eq!(record.commitments(), vec![point("1"), point("2"), point("3"), point("4")]);
}

#[test]
fn the_order_of_the_members_does_not_count() {
    let mut names: Vec<&str> = NAMES.to_vec();
    let mut values = good_values();
    names.reverse();
    values.reverse();
    let reversed = parse_proof(&object(&names, &values)).unwrap();
    let straight = parse_proof(&object(&NAMES, &good_values())).unwrap();
    assert_eq!(reversed, straight);
}

#[test]
fn bytes_that_are_no_record_fail_to_parse() {
    let missing = object(&NAMES[..14], &good_values()[..14]);
    let mut names: Vec<&str> = NAMES.to_vec();
    let mut values = good_values();
    names.push("extra");
    values.push("0x00".to_string());
    let extra = object(&names, &values);
    let mut renamed: Vec<&str> = NAMES.to_vec();
    renamed[3] = "Z";
    let renamed = object(&renamed, &good_values());
    let number = String::from_utf8(with("a_eval", "1")).unwrap().replace("\"1\"", "1").into_bytes();
    let null = String::from_utf8(with("t2", "#")).unwrap().replace("\"#\"", "null").into_bytes();
    let mut trailing = object(&NAMES, &good_values());
    trailing.extend_from_slice(b" x");
    let mut truncated = object(&NAMES, &good_values());
    truncated.pop();
    let list = format!(
        "[{}]",
        good_values().iter().map(|v| format!("\"{}\"", v)).collect::<Vec<String>>().join(",")
    )
    .into_bytes();
    let mut not_text = object(&NAMES, &good_values());
    not_text[10] = 0xff;

    for bytes in [
        Vec::new(),
        b"invalid json".to_vec(),
        b"{}".to_vec(),
        b"null".to_vec(),
        b"\"a\"".to_vec(),
        b"15".to_vec(),
        missing,
        extra,
        renamed,
        number,
        null,
        trailing,
        truncated,
        list,
        not_text,
    ] {
        assert_eq!(parse_proof(&bytes), Err(ErrorCode::ProofParsingFailed));
        assert_eq!(verify_plonk(&bytes, &inputs()), Err(ErrorCode::ProofParsingFailed));
        assert_eq!(verify_plonk(&bytes, &Vec::new()), Err(ErrorCode::ProofParsingFailed));
        assert_eq!(verify_plonk(&bytes, &strings(&["zz", ""])), Err(ErrorCode::ProofParsingFailed));
    }
}

#[test]
fn space_and_escapes_are_the_parsers_business() {
    let text = String::from_utf8(object(&NAMES, &good_values())).unwrap();
    let spaced = format!(" \n\t{}\r\n ", text.replace(",", " ,\n"));
    assert_eq!(
        parse_proof(&spaced.into_bytes()),
        parse_proof(&object(&NAMES, &good_values()))
    );
    let escaped = text.replace("\"ff\"", "\"\\u0066f\"").replace("\"wxi\"", "\"w\\u0078i\"");
    assert_eq!(
        parse_proof(&escaped.into_bytes()),
        parse_proof(&object(&NAMES, &good_values()))
    );
}

#[test]
fn a_member_given_twice_counts_as_the_parser_keeps_it() {
    let text = String::from_utf8(object(&NAMES, &good_values())).unwrap();
    let twice = text.replacen("{", "{\"a\": \"first\",", 1);
    let record = parse_proof(&twice.into_bytes()).unwrap();
    assert_eq!(record.a, point("1"));
}

#[test]
fn members_are_found_by_their_key() {
    let members = vec![
        JsonMember { key: "b".to_string(), text: Some("2".to_string()) },
        JsonMember { key: "a".to_string(), text: None },
        JsonMember { key: "b".to_string(), text: Some("3".to_string()) },
        JsonMember { key: "a".to_string(), text: Some("1".to_string()) },
    ];
    assert_eq!(find_text(&members, "b"), Some("2".to_string()));
    assert_eq!(find_text(&members, "a"), None);
    assert_eq!(find_text(&members, "c"), None);
    assert_eq!(find_text(&Vec::new(), "a"), None);
    assert_eq!(PlonkProof::from_members(&members), None);
    assert_eq!(read_document(Some(members)), Err(ErrorCode::ProofParsingFailed));
    assert_eq!(read_document(None), Err(ErrorCode::ProofParsingFailed));
}

#[test]
fn fifteen_members_with_one_key_twice_are_no_record() {
    let mut members: Vec<JsonMember> = Vec::new();
    for (i, name) in NAMES.iter().enumerate() {
        let key = if i == 14 { "a" } else { name };
        members.push(JsonMember { key: key.to_string(), text: Some(good_values()[i].clone()) });
    }
    assert_eq!(PlonkProof::from_members(&members), None);
    assert_eq!(check_document(Some(members), &inputs()), Err(ErrorCode::ProofParsingFailed));
    assert_eq!(check_document(None, &inputs()), Err(ErrorCode::ProofParsingFailed));
}

#[test]
fn a_parsed_document_is_checked_like_its_bytes() {
    let mut members: Vec<JsonMember> = Vec::new();
    for (i, name) in NAMES.iter().enumerate() {
        members.push(JsonMember { key: name.to_string(), text: Some(good_values()[i].clone()) });
    }
    assert_eq!(
        check_document(Some(members), &inputs()),
        verify_plonk(&object(&NAMES, &good_values()), &inputs())
    );
}

#[test]
fn a_proof_of_good_form_passes_with_its_challenge() {
    let expected = format!("0x0x{}", "1".repeat(62));
    assert_eq!(verify_plonk(&object(&NAMES, &good_values()), &inputs()), Ok(expected.clone()));
    let more = strings(&["1", "2", "0x3", "4"]);
    assert_eq!(verify_plonk(&object(&NAMES, &good_values()), &more), Ok(expected));
}

#[test]
fn short_commitments_reach_the_inputs_in_the_challenge() {
    let commitments = strings(&[&"a".repeat(64)]);
    assert_eq!(validate_commitments(&commitments), Ok(()));
    let evaluations = strings(&["1"]);
    assert_eq!(
        check_fields(&evaluations, &Vec::new(), &inputs()),
        Ok(format!("0x{}0x1042", "0".repeat(58)))
    );
    assert_eq!(
        check_fields(&evaluations, &commitments, &inputs()),
        Ok(format!("0x{}", "a".repeat(64)))
    );
}

#[test]
fn too_few_public_inputs() {
    let good = object(&NAMES, &good_values());
    assert_eq!(verify_plonk(&good, &Vec::new()), Err(ErrorCode::InvalidPublicInputsCount));
    assert_eq!(verify_plonk(&good, &strings(&["1"])), Err(ErrorCode::InvalidPublicInputsCount));
    assert_eq!(
        verify_plonk(&with("a_eval", "zz"), &strings(&["1"])),
        Err(ErrorCode::InvalidPublicInputsCount)
    );
    assert_eq!(
        verify_plonk(&with("a", "zz"), &strings(&["zz"])),
        Err(ErrorCode::InvalidPublicInputsCount)
    );
}

#[test]
fn evaluations_are_checked_front_to_back() {
    assert_eq!(
        verify_plonk(&with("a_eval", "zz"), &inputs()),
        Err(ErrorCode::FieldElementParsingFailed)
    );
    assert_eq!(
        verify_plonk(&with("z_omega_eval", ""), &inputs()),
        Err(ErrorCode::FieldElementParsingFailed)
    );
    assert_eq!(
        verify_plonk(&with("c_eval", "0xffffffffffffffff"), &inputs()),
        Err(ErrorCode::FieldElementOutOfRange)
    );
    let mut values = good_values();
    values[10] = "0xffffffffffffffff".to_string();
    values[12] = "zz".to_string();
    assert_eq!(
        verify_plonk(&object(&NAMES, &values), &inputs()),
        Err(ErrorCode::FieldElementOutOfRange)
    );
    values[9] = "zz".to_string();
    assert_eq!(
        verify_plonk(&object(&NAMES, &values), &inputs()),
        Err(ErrorCode::FieldElementParsingFailed)
    );
    assert_eq!(
        parse_field_elements(&strings(&["1", "0x2", "zz", "0xffffffffffffffff"])),
        Err(ErrorCode::FieldElementParsingFailed)
    );
    assert_eq!(parse_field_elements(&strings(&["1", "0x2", "a"])), Ok(vec![1, 2, 10]));
    assert_eq!(parse_field_elements(&Vec::new()), Ok(Vec::new()));
}

#[test]
fn evaluations_come_before_public_inputs_and_commitments() {
    assert_eq!(
        verify_plonk(&with("s1_eval", "zz"), &strings(&["zz", "1"])),
        Err(ErrorCode::FieldElementParsingFailed)
    );
    let mut values = good_values();
    values[0] = "zz".to_string();
    values[13] = "0xffffffffffffffff".to_string();
    assert_eq!(
        verify_plonk(&object(&NAMES, &values), &inputs()),
        Err(ErrorCode::FieldElementOutOfRange)
    );
}

#[test]
fn a_proof_without_evaluations() {
    let commitments = strings(&[&"a".repeat(64)]);
    assert_eq!(
        check_fields(&Vec::new(), &commitments, &inputs()),
        Err(ErrorCode::MissingEvaluations)
    );
    assert_eq!(
        check_fields(&Vec::new(), &commitments, &strings(&["zz", "1"])),
        Err(ErrorCode::MissingEvaluations)
    );
    assert_eq!(
        check_fields(&Vec::new(), &commitments, &strings(&["1"])),
        Err(ErrorCode::InvalidPublicInputsCount)
    );
}

#[test]
fn public_inputs_that_are_no_field_elements() {
    let good = object(&NAMES, &good_values());
    assert_eq!(verify_plonk(&good, &strings(&["1", "zz"])), Err(ErrorCode::InvalidPublicInput));
    assert_eq!(verify_plonk(&good, &strings(&["", "1"])), Err(ErrorCode::InvalidPublicInput));
    assert_eq!(
        verify_plonk(&good, &strings(&["1", "2", "0xffffffffffffffff"])),
        Err(ErrorCode::InvalidPublicInput)
    );
    assert_eq!(
        verify_plonk(&good, &strings(&[&point("1"), &point("2")])),
        Err(ErrorCode::InvalidPublicInput)
    );
    assert_eq!(
        verify_plonk(&with("b", "zz"), &strings(&["1", "zz"])),
        Err(ErrorCode::InvalidPublicInput)
    );
    assert_eq!(parse_public_inputs(&strings(&["1", "0x10"])), Ok(vec![1, 16]));
    assert_eq!(
        parse_public_inputs(&strings(&["0xffffffffffffffff"])),
        Err(ErrorCode::InvalidPublicInput)
    );
}

#[test]
fn commitments_are_checked_front_to_back() {
    let short = format!("0x{}", "0".repeat(32));
    let bad = format!("0x{}g", "0".repeat(63));
    assert_eq!(verify_plonk(&with("a", &short), &inputs()), Err(ErrorCode::InvalidCurvePoint));
    assert_eq!(verify_plonk(&with("z", &short), &inputs()), Err(ErrorCode::InvalidCurvePoint));
    assert_eq!(verify_plonk(&with("c", &bad), &inputs()), Err(ErrorCode::InvalidHexFormat));
    let mut values = good_values();
    values[1] = bad.clone();
    values[2] = short.clone();
    assert_eq!(
        verify_plonk(&object(&NAMES, &values), &inputs()),
        Err(ErrorCode::InvalidHexFormat)
    );
    values[0] = short.clone();
    assert_eq!(
        verify_plonk(&object(&NAMES, &values), &inputs()),
        Err(ErrorCode::InvalidCurvePoint)
    );
    assert_eq!(
        validate_commitments(&vec![point("a"), bad, short]),
        Err(ErrorCode::InvalidHexFormat)
    );
    assert_eq!(validate_commitments(&Vec::new()), Ok(()));
}

#[test]
fn only_four_commitments_are_checked_as_points() {
    for field in ["t1", "t2", "t3", "wxi", "wxiw"] {
        assert!(verify_plonk(&with(field, "anything"), &inputs()).is_ok(), "{}", field);
    }
}

#[test]
fn the_membership_checkpoint() {
    assert_eq!(check_merkle_consistency(&inputs(), 6), Ok(()));
    assert_eq!(check_merkle_consistency(&inputs(), 1), Ok(()));
    assert_eq!(check_merkle_consistency(&inputs(), 0), Err(ErrorCode::MissingMerkleProof));
    assert_eq!(check_merkle_consistency(&Vec::new(), 6), Err(ErrorCode::MissingMerkleProof));
    assert_eq!(check_merkle_consistency(&strings(&["1"]), 6), Err(ErrorCode::MissingMerkleProof));
    assert_eq!(
        check_merkle_consistency(&strings(&["zz", "1"]), 6),
        Err(ErrorCode::MissingMerkleProof)
    );
    assert_eq!(
        check_merkle_consistency(&strings(&["1", "0xffffffffffffffff"]), 6),
        Err(ErrorCode::MissingMerkleProof)
    );
    assert_eq!(check_merkle_consistency(&strings(&["1", "2", "zz"]), 6), Ok(()));
}
