use omnibook_quoter::auth::{canonical_text, is_hex_secret, sign_request, sign_request_at};

#[test]
fn canonical_text_joins_lines() {
    assert_eq!(canonical_text("1", "GET", "/v1/ws", ""), "1\nGET\n/v1/ws\n");
    assert_eq!(canonical_text("12", "POST", "/x", "{}"), "12\nPOST\n/x\n{}");
}

#[test]
fn signature_matches_reference_vectors() {
    let (ts, sig) = sign_request_at(
        1_700_000_000_123,
        "GET",
        "/v1/rounds",
        "",
        "00112233445566778899aabbccddeeff",
    );
    assert_eq!(ts, "1700000000123");
    assert_eq!(sig, "efSppMSMEPaEUCO2X/VTthndCHt4HiVL2eTtPO8Btfc=");

    let (ts, sig) = sign_request_at(1_700_000_000_123, "POST", "/v1/portfolio/orders", "{\"a\":1}", "DEADbeef");
    assert_eq!(ts, "1700000000123");
    assert_eq!(sig, "9+CQYM02+XrYLJFCYw367bYsDH/u//nL3ZOxsb1LpE8=");

    let (ts, sig) = sign_request_at(0, "GET", "/v1/ws", "", "");
    assert_eq!(ts, "0");
    assert_eq!(sig, "XQ8iG/nhrTJB32hbESGfsgLxWwlilRVnHUGRnegK48w=");
}

#[test]
fn signature_depends_on_every_part() {
    let base = sign_request_at(5, "GET", "/a", "b", "00ff").1;
    assert_ne!(base, sign_request_at(6, "GET", "/a", "b", "00ff").1);
    assert_ne!(base, sign_request_at(5, "PUT", "/a", "b", "00ff").1);
    assert_ne!(base, sign_request_at(5, "GET", "/c", "b", "00ff").1);
    assert_ne!(base, sign_request_at(5, "GET", "/a", "d", "00ff").1);
    assert_ne!(base, sign_request_at(5, "GET", "/a", "b", "00fe").1);
    // Hex digits are case-insensitive: the same key bytes.
    assert_eq!(base, sign_request_at(5, "GET", "/a", "b", "00FF").1);
    assert_eq!(base.len(), 44);
}

#[test]
fn hex_secret_validity() {
    assert!(is_hex_secret(""));
    assert!(is_hex_secret("00ff"));
    assert!(is_hex_secret("DEADbeef"));
    assert!(!is_hex_secret("abc"));
    assert!(!is_hex_secret("zz"));
    assert!(!is_hex_secret("0g"));
    assert!(!is_hex_secret(" 00"));
    assert!(!is_hex_secret("éé"));
}

#[test]
fn signing_now_signs_the_returned_timestamp() {
    let (ts, sig) = sign_request("GET", "/v1/account/limits", "", "0a0b").expect("clock after the epoch");
    let ms: u128 = ts.parse().expect("decimal milliseconds");
    assert!(ms > 1_600_000_000_000);
    let again = sign_request_at(ms, "GET", "/v1/account/limits", "", "0a0b");
    assert_eq!(again, (ts, sig));
}

#[test]
fn signatures_are_44_characters_with_one_pad() {
    for (ts, body) in [(0u128, ""), (1_700_000_000_123, "{}"), (u128::MAX, "x")] {
        let (_, sig) = sign_request_at(ts, "DELETE", "/v1/portfolio/orders/batch", body, "ab");
        assert_eq!(sig.len(), 44);
        assert!(sig.ends_with('=') && !sig.ends_with("=="));
    }
}
