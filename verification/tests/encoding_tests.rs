use ai_vitals::encoding::{decode_component, encode_component, u64_to_string};

#[test]
fn test_encode_component_special_characters() {
    assert_eq!(
        encode_component("Error: 500 & timeout!"),
        "Error%3A%20500%20%26%20timeout%21"
    );
}

#[test]
fn test_encode_component_unreserved_passthrough() {
    assert_eq!(encode_component("Abc-123_~."), "Abc-123_~.");
}

#[test]
fn test_encode_component_changes_input() {
    // A space never survives encoding; the result differs from the input.
    assert_eq!(encode_component("a b"), "a%20b");
}

#[test]
fn test_encode_component_matches_reference_encoder() {
    let samples = [
        "Error: 500 & timeout!",
        "plain",
        "",
        "a=b&c=d?e#f",
        "100% sure",
        "h\u{e9}llo \u{2603} caf\u{e9}",
    ];
    for s in samples {
        assert_eq!(encode_component(s), urlencoding::encode(s).into_owned());
    }
}

#[test]
fn test_decode_component_round_trip() {
    let samples = [
        "Error: 500 & timeout!",
        "",
        "nothing-special",
        "h\u{e9}llo \u{2603} caf\u{e9}",
        "%%%",
    ];
    for s in samples {
        let encoded = encode_component(s);
        assert_eq!(decode_component(&encoded), Some(s.to_string()));
    }
}

#[test]
fn test_decode_component_accepts_lowercase_hex() {
    assert_eq!(decode_component("a%2fb"), Some("a/b".to_string()));
    assert_eq!(decode_component("a%2Fb"), Some("a/b".to_string()));
}

#[test]
fn test_decode_component_malformed() {
    assert_eq!(decode_component("%"), None);
    assert_eq!(decode_component("%2"), None);
    assert_eq!(decode_component("%GG"), None);
    assert_eq!(decode_component("ok%"), None);
    // A lone continuation byte is not UTF-8 once decoded.
    assert_eq!(decode_component("%80"), None);
}

#[test]
fn test_u64_to_string_exact() {
    assert_eq!(u64_to_string(0), "0");
    assert_eq!(u64_to_string(7), "7");
    assert_eq!(u64_to_string(10000), "10000");
    assert_eq!(u64_to_string(u64::MAX), "18446744073709551615");
}
