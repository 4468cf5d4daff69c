use shadowprobe::{get_all_payloads, PayloadEvasion, PayloadSet, VulnerabilityType};

#[test]
fn test_sqli_payloads() {
    let payloads = PayloadSet::for_sqli();
    assert_eq!(payloads.vuln_type, VulnerabilityType::SQLInjection);
    assert!(!payloads.payloads.is_empty());

    assert!(payloads.payloads.iter().any(|p| p.value.contains("OR")));
    assert!(payloads.payloads.iter().any(|p| p.value.contains("UNION")));
}

#[test]
fn test_xss_payloads() {
    let payloads = PayloadSet::for_xss();
    assert_eq!(payloads.vuln_type, VulnerabilityType::XSS);
    assert!(!payloads.payloads.is_empty());

    assert!(payloads.payloads.iter().any(|p| p.value.contains("<script>")));
}

#[test]
fn test_ssrf_payloads() {
    let payloads = PayloadSet::for_ssrf();
    assert_eq!(payloads.vuln_type, VulnerabilityType::SSRF);

    assert!(payloads.payloads.iter().any(|p| p.value.contains("127.0.0.1")));

    assert!(payloads.payloads.iter().any(|p| p.value.contains("169.254.169.254")));
}

#[test]
fn test_lfi_payloads() {
    let payloads = PayloadSet::for_lfi();
    assert_eq!(payloads.vuln_type, VulnerabilityType::LFI);

    assert!(payloads.payloads.iter().any(|p| p.value.contains("etc/passwd")));
}

#[test]
fn test_ssti_payloads() {
    let payloads = PayloadSet::for_ssti();
    assert_eq!(payloads.vuln_type, VulnerabilityType::SSTI);

    assert!(payloads.payloads.iter().any(|p| p.value.contains("{{") || p.value.contains("${")));
}

#[test]
fn test_get_all_payloads() {
    let all = get_all_payloads();
    assert!(all.len() >= 5);
}

#[test]
fn test_payload_has_detection_patterns() {
    let payloads = PayloadSet::for_sqli();

    for payload in &payloads.payloads {
        assert!(!payload.description.is_empty());
    }
}

#[test]
fn test_url_encode() {
    let payload = "' OR '1'='1";
    let encoded = PayloadEvasion::url_encode(payload);
    assert!(encoded.contains("%27"));
}

#[test]
fn test_mixed_case() {
    let payload = "SELECT";
    let mixed = PayloadEvasion::mixed_case(payload);
    assert_eq!(mixed, "SeLeCt");
}

#[test]
fn test_generate_variants() {
    let payload = "SELECT * FROM users";
    let variants = PayloadEvasion::generate_variants(payload);
    assert!(variants.len() > 1);
}

#[test]
fn url_encoding_exact_values() {
    assert_eq!(PayloadEvasion::url_encode("a b&c"), "a%20b%26c");
    assert_eq!(PayloadEvasion::url_encode("-._~Az09"), "-._~Az09");
    assert_eq!(PayloadEvasion::double_encode("a b"), "a%2520b");
    assert_eq!(PayloadEvasion::url_encode("é"), "%C3%A9");
}

#[test]
fn variants_of_sql_and_plain_payloads() {
    let v = PayloadEvasion::generate_variants("SELECT a=1");
    assert_eq!(v.len(), 6);
    assert_eq!(v[3], "SeLeCt a=1");
    assert_eq!(v[4], "SELECT/**/a=1");
    assert_eq!(v[5], "SELECT/**/a/**/=/**/1");
    assert_eq!(PayloadEvasion::generate_variants("<b>").len(), 4);
}

#[test]
fn character_encodings() {
    assert_eq!(PayloadEvasion::unicode_encode("A<"), "\\u0041\\u003c");
    assert_eq!(PayloadEvasion::html_encode("<a'&\""), "&lt;&#x61;&#x27;&amp;&quot;");
    assert_eq!(PayloadEvasion::hex_encode("AZ"), "415a");
    assert_eq!(PayloadEvasion::unicode_encode(""), "");
}

#[test]
fn sql_string_building_evasions() {
    let v = PayloadEvasion::sql_concat_evasion("ab");
    assert_eq!(v, vec!["CONCAT('CHAR(97),CHAR(98)')".to_string(), "'a'+'b'".to_string()]);
    assert_eq!(PayloadEvasion::sql_comment_evasion("a b c"), "a/**/b/**/c");
    assert_eq!(PayloadEvasion::null_byte_inject("x"), "x%00.jpg");
    assert_eq!(PayloadEvasion::crlf_inject("x"), "%0d%0ax");
}

#[test]
fn bypass_tables() {
    let b = PayloadEvasion::waf_bypasses();
    assert_eq!(b.len(), 3);
    assert_eq!(b[0].0, "sqli");
    assert_eq!(b[2].1[3], "/var/www/../../etc/passwd");
    assert_eq!(PayloadEvasion::xss_polyglots().len(), 3);
}
