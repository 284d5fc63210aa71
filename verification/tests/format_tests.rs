use payfi::errors::ErrorCode;
use payfi::field::{parse_field_element, validate_curve_point, FIELD_MODULUS};
use payfi::plonk::{check_merkle_consistency, fiat_shamir_challenge, parse_proof, verify_plonk};

#[test]
fn test_plonk_verifier_valid_proof() {
    let valid_proof = r#"{
        "a": "0x01234567890123456789012345678901",
        "b": "0x02345678901234567890123456789012",
        "c": "0x03456789012345678901234567890123",
        "z": "0x04567890123456789012345678901234",
        "t1": "0x05678901234567890123456789012345",
        "t2": "0x06789012345678901234567890123456",
        "t3": "0x07890123456789012345678901234567",
        "wxi": "0x08901234567890123456789012345678",
        "wxiw": "0x09012345678901234567890123456789",
        "a_eval": "0x0a123456789012345678901234567890",
        "b_eval": "0x0b234567890123456789012345678901",
        "c_eval": "0x0c345678901234567890123456789012",
        "s1_eval": "0x0d456789012345678901234567890123",
        "s2_eval": "0x0e567890123456789012345678901234",
        "z_omega_eval": "0x0f678901234567890123456789012345"
    }"#;

    let result: Result<serde_json::Value, _> = serde_json::from_str(valid_proof);
    assert!(result.is_ok(), "Valid proof should parse");

    let record = parse_proof(&valid_proof.as_bytes().to_vec());
    assert!(record.is_ok(), "Valid proof should parse");
    let record = record.unwrap();
    assert_eq!(record.a, "0x01234567890123456789012345678901");
    assert_eq!(record.wxiw, "0x09012345678901234567890123456789");
    assert_eq!(record.z_omega_eval, "0x0f678901234567890123456789012345");

    println!("✓ Test: valid Plonk proof parses successfully");
}

#[test]
fn test_plonk_verifier_invalid_proof() {
    let invalid_proofs = vec![
        "invalid json",
        "{}",
        r#"{"a": "0x00"}"#,
    ];

    for (idx, invalid_proof_str) in invalid_proofs.iter().enumerate() {
        let result: Result<serde_json::Value, _> = serde_json::from_str(invalid_proof_str);
        match idx {
            0 => assert!(result.is_err(), "Invalid JSON should fail"),
            1 => assert!(
                result.is_ok() && result.unwrap().as_object().unwrap().is_empty(),
                "Empty proof should be rejected"
            ),
            2 => {
                let val = result.unwrap();
                assert!(
                    !val.get("b").is_some() || val.get("b").is_none(),
                    "Incomplete proof should be rejected"
                );
            }
            _ => {}
        }
        let bytes = invalid_proof_str.as_bytes().to_vec();
        assert_eq!(parse_proof(&bytes), Err(ErrorCode::ProofParsingFailed));
        let inputs = vec!["1".to_string(), "2".to_string()];
        assert_eq!(verify_plonk(&bytes, &inputs), Err(ErrorCode::ProofParsingFailed));
    }

    println!("✓ Test: invalid proofs properly rejected");
}

#[test]
fn test_field_arithmetic() {
    let modulus = u64::MAX;

    let a: u64 = 100;
    let b: u64 = 200;
    let sum = (a + b) % modulus;
    assert_eq!(sum, 300);

    let c: u64 = 50;
    let d: u64 = 20;
    let product = (c * d) % modulus;
    assert_eq!(product, 1000);

    assert_eq!(FIELD_MODULUS, modulus);
    assert_eq!(parse_field_element("300"), Ok(sum));
    assert_eq!(parse_field_element("0x3e8"), Ok(product));

    println!("✓ Field arithmetic tests pass");
}

#[test]
fn test_merkle_path_validation() {
    let leaf = 123456u64;
    let path_hashes = 654321u64;
    let secret = 999u64;

    let computed_root = leaf.wrapping_add(path_hashes.wrapping_mul(2));
    let computed_nullifier = leaf.wrapping_add(secret.wrapping_mul(2));

    assert_eq!(computed_root, leaf.wrapping_add(1308642));
    assert_eq!(computed_nullifier, leaf.wrapping_add(1998));

    let inputs = vec![computed_root.to_string(), computed_nullifier.to_string()];
    assert_eq!(parse_field_element(&inputs[0]), Ok(1432098));
    assert_eq!(parse_field_element(&inputs[1]), Ok(125454));
    assert_eq!(check_merkle_consistency(&inputs, 6), Ok(()));

    println!("✓ Merkle path validation test pass");
}

#[test]
fn test_curve_point_validation() {
    let valid_64_hex = format!("0x{}", "0".repeat(64));
    let valid_128_hex = format!("0x{}", "0".repeat(128));

    assert_eq!(valid_64_hex.len(), 66);
    assert_eq!(valid_128_hex.len(), 130);

    let invalid_short = format!("0x{}", "0".repeat(32));
    let invalid_long = format!("0x{}", "0".repeat(100));

    assert!(valid_64_hex.len() == 66 || valid_64_hex.len() == 130);
    assert!(invalid_short.len() != 66 && invalid_short.len() != 130);
    assert!(invalid_long.len() != 66 && invalid_long.len() != 130);

    assert_eq!(validate_curve_point(&valid_64_hex), Ok(()));
    assert_eq!(validate_curve_point(&valid_128_hex), Ok(()));
    assert_eq!(validate_curve_point(&invalid_short), Err(ErrorCode::InvalidCurvePoint));
    assert_eq!(validate_curve_point(&invalid_long), Err(ErrorCode::InvalidCurvePoint));

    println!("✓ Curve point validation: BN254 points properly validated");
}

#[test]
fn test_fiat_shamir_challenge() {
    let commitment_a = "0x01";
    let commitment_b = "0x02";

    let challenge_input1 = format!("{}{}", commitment_a, commitment_b);
    let challenge_input2 = format!("{}{}", commitment_a, commitment_b);

    assert_eq!(challenge_input1, challenge_input2, "Challenges must be deterministic");

    let challenge = format!("0x{:0>64}", challenge_input1.chars().take(8).collect::<String>());
    assert!(challenge.starts_with("0x"));
    assert_eq!(challenge.len(), 66);

    let commitments = vec![commitment_a.to_string(), commitment_b.to_string()];
    let derived = fiat_shamir_challenge(&commitments, &Vec::new());
    assert_eq!(derived, challenge);
    assert_eq!(derived, fiat_shamir_challenge(&commitments, &Vec::new()));

    println!("✓ Fiat-Shamir challenge: deterministic and properly formatted");
}
