use shadowprobe::config::{ScanConfig, ScanProfile};
use shadowprobe::{HttpMethod, ScanStatus, Severity, VulnerabilityType};

#[test]
fn test_http_method_as_str() {
    assert_eq!(HttpMethod::GET.as_str(), "GET");
    assert_eq!(HttpMethod::POST.as_str(), "POST");
}

#[test]
fn test_severity_ordering() {
    assert!(Severity::Critical > Severity::High);
    assert!(Severity::High > Severity::Medium);
    assert!(Severity::Medium > Severity::Low);
    assert!(Severity::Low > Severity::Info);
}

#[test]
fn test_severity_color_code() {
    let critical = Severity::Critical;
    assert!(!critical.color_code().is_empty());
}

#[test]
fn test_vulnerability_type_as_str() {
    let sqli = VulnerabilityType::SQLInjection;
    assert_eq!(sqli.as_str(), "SQL Injection");

    let xss = VulnerabilityType::XSS;
    assert_eq!(xss.as_str(), "Cross-Site Scripting (XSS)");
}

#[test]
fn test_scan_config_default() {
    let config = ScanConfig::default();
    assert_eq!(config.max_depth, 3);
    assert_eq!(config.max_concurrent_requests, 50);
    assert!(config.enable_ai_analysis);
}

#[test]
fn test_scan_status() {
    let status = ScanStatus::Running;
    assert_eq!(status, ScanStatus::Running);
    assert_ne!(status, ScanStatus::Completed);
}

#[test]
fn test_profiles() {
    let fast = ScanProfile::fast();
    assert_eq!(fast.max_depth, 2);

    let deep = ScanProfile::deep();
    assert!(deep.aggressive_mode);
}

#[test]
fn test_profile_by_name() {
    let profile = ScanProfile::by_name("stealth");
    assert!(profile.is_some());
    assert_eq!(profile.unwrap().name, "stealth");
}

#[test]
fn profile_by_name_ignores_case_and_rejects_unknown() {
    assert_eq!(ScanProfile::by_name("DeEp").unwrap().name, "deep");
    assert!(ScanProfile::by_name("quick").is_none());
    assert_eq!(ScanProfile::stealth().custom_headers.len(), 2);
}

#[test]
fn severity_rank_and_names() {
    assert!(Severity::Critical.is_above(&Severity::High));
    assert!(!Severity::Info.is_above(&Severity::Low));
    assert_eq!(Severity::Medium.as_str(), "MEDIUM");
    assert_eq!(Severity::High.color_code(), "\x1b[1;31m");
}

#[test]
fn custom_vulnerability_type_uses_its_name() {
    let t = VulnerabilityType::Custom("Weak Cipher".to_string());
    assert_eq!(t.as_str(), "Weak Cipher");
    assert_eq!(t, VulnerabilityType::Custom("Weak Cipher".to_string()));
    assert_ne!(t, VulnerabilityType::XSS);
}
