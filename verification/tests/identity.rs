use cliplink::identity::{
    device_name_from, generate_device_secret, hex_decode, hex_encode, new_identity,
    normalize_device_name, read_device_name, validate_identity, LocalIdentity, DEVICE_NAME_FALLBACK,
    DEVICE_NAME_MAX_LEN, SECRET_LEN,
};

#[test]
fn generated_uuid_is_v4() {
    let id = new_identity().unwrap();
    let u = uuid::Uuid::parse_str(&id.device_id).unwrap();
    assert_eq!(u.as_bytes()[6] >> 4, 4);
    assert_eq!(u.to_string(), id.device_id);
    assert_ne!(new_identity().unwrap().device_id, id.device_id);
}

#[test]
fn secret_is_32_byte_hex() {
    let s = generate_device_secret().unwrap();
    assert_eq!(s.len(), 64);
    assert!(s.chars().all(|c| c.is_ascii_hexdigit()));
    assert_eq!(hex_decode(&s).unwrap().len(), SECRET_LEN);
    assert_ne!(generate_device_secret().unwrap(), s);
}

#[test]
fn hex_roundtrip() {
    let b = [0u8, 1, 0xab, 0xff, 128];
    assert_eq!(hex_decode(&hex_encode(&b)).unwrap(), b.to_vec());
    assert!(hex_decode("abc").is_err());
    assert!(hex_decode("zz").is_err());
}

#[test]
fn device_name_fallback_and_truncation() {
    assert_eq!(normalize_device_name(""), DEVICE_NAME_FALLBACK);
    assert_eq!(normalize_device_name("   "), DEVICE_NAME_FALLBACK);
    assert_eq!(normalize_device_name("  DESKTOP-A  "), "DESKTOP-A");
    let long: String = std::iter::repeat('N').take(100).collect();
    let n = normalize_device_name(&long);
    assert_eq!(n.chars().count(), DEVICE_NAME_MAX_LEN);
    assert!(!n.is_empty());
}

#[test]
fn device_name_read_non_empty() {
    assert!(!read_device_name().trim().is_empty());
}

#[test]
fn validate_rejects_bad_identity() {
    let id = new_identity().unwrap();
    assert!(validate_identity(&id).is_ok());

    let mut bad_id = id.clone();
    bad_id.device_id = "not-a-uuid".into();
    assert!(validate_identity(&bad_id).is_err());

    let mut bad_secret = id.clone();
    bad_secret.device_secret = "ff".into();
    assert!(validate_identity(&bad_secret).is_err());

    let mut bad_secret2 = id.clone();
    bad_secret2.device_secret = "zz".into();
    assert!(validate_identity(&bad_secret2).is_err());

    let mut bad_name = id.clone();
    bad_name.device_name = "   ".into();
    assert!(validate_identity(&bad_name).is_err());
}

#[test]
fn hexadecimal_exactly() {
    assert_eq!(hex_encode(&[0, 1, 0xab, 0xff]), "0001abff");
    assert_eq!(hex_decode("0001ABff").unwrap(), vec![0, 1, 0xab, 0xff]);
    assert_eq!(hex_decode("").unwrap(), Vec::<u8>::new());
    assert_eq!(hex_decode("abc").unwrap_err().user_text(), "十六进制编码长度为奇数");
    assert_eq!(hex_decode("é").unwrap_err().user_text(), "十六进制编码含非十六进制字符");
    assert_eq!(hex_decode("0g").unwrap_err().user_text(), "十六进制编码含非十六进制字符");
}

#[test]
fn each_identity_complaint() {
    let good = LocalIdentity {
        device_id: "550e8400-e29b-41d4-a716-446655440000".into(),
        device_name: "A".into(),
        device_secret: "ab".repeat(32),
    };
    assert!(validate_identity(&good).is_ok());
    let with = |id: &str, name: &str, secret: &str| {
        validate_identity(&LocalIdentity {
            device_id: id.into(),
            device_name: name.into(),
            device_secret: secret.into(),
        })
        .unwrap_err()
        .user_text()
    };
    let id = "550e8400-e29b-41d4-a716-446655440000";
    assert_eq!(with("x", "A", "zz"), "identity.device_id 不是有效 UUID");
    assert_eq!(with(id, "A", "abc"), "十六进制编码长度为奇数");
    assert_eq!(
        with(id, "A", &"ab".repeat(31)),
        "identity.device_secret 解码后应为 32 字节，实际 31"
    );
    assert_eq!(with(id, " \u{3000}", &"ab".repeat(32)), "identity.device_name 不能为空");
}

#[test]
fn uuids_in_their_four_forms() {
    let secret = "ab".repeat(32);
    let ok = |id: &str| {
        let parsed = uuid::Uuid::parse_str(id).is_ok();
        let valid = validate_identity(&LocalIdentity {
            device_id: id.into(),
            device_name: "A".into(),
            device_secret: secret.clone(),
        })
        .is_ok();
        assert_eq!(parsed, valid, "{id}");
        valid
    };
    assert!(ok("550e8400e29b41d4a716446655440000"));
    assert!(ok("550E8400-e29b-41d4-a716-446655440000"));
    assert!(ok("{550e8400-e29b-41d4-a716-446655440000}"));
    assert!(ok("urn:uuid:550e8400-e29b-41d4-a716-446655440000"));
    assert!(!ok(""));
    assert!(!ok("550e8400-e29b-41d4-a716-44665544000g"));
    assert!(!ok("550e8400-e29b-41d4-a716-4466554400000"));
    assert!(!ok("550e8400e-29b-41d4-a716-446655440000"));
    assert!(!ok("{550e8400-e29b-41d4-a716-446655440000)"));
    assert!(!ok("urn-uuid:550e8400-e29b-41d4-a716-446655440000"));
}

#[test]
fn name_from_what_was_read() {
    assert_eq!(device_name_from(None), "Windows-PC");
    assert_eq!(device_name_from(Some(" MSI ".into())), "MSI");
    let long = format!("{}x", "名".repeat(64));
    assert_eq!(device_name_from(Some(long)), "名".repeat(64));
}
