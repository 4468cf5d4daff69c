use shadowprobe::report::{ConsoleReporter, CsvExporter, HtmlReporter, SarifExporter};
use shadowprobe::{Severity, VulnAnalysisModel, VulnerabilityAnalyzer};

#[test]
fn test_model_creation() {
    let _model = VulnAnalysisModel::new(true);
    assert!(true);
}

#[test]
fn test_generate_poc() {
    let model = VulnAnalysisModel::new(true);
    let poc = model.generate_poc("SQL Injection", "http://test.com", "' OR 1=1--");

    assert!(poc.is_some());
    let poc_str = poc.unwrap();
    assert!(poc_str.contains("curl"));
    assert!(poc_str.contains("test.com"));
}

#[test]
fn test_generate_poc_disabled() {
    let model = VulnAnalysisModel::new(false);
    let poc = model.generate_poc("SQL Injection", "http://test.com", "' OR 1=1--");

    assert!(poc.is_none());
}

#[test]
fn confidence_percentages() {
    let m = VulnAnalysisModel::new(true);
    assert_eq!(m.calculate_confidence("SQL Injection", "mysql syntax error", "mysql error"), 90);
    assert_eq!(m.calculate_confidence("LFI", "root:x:0:0", "root:x:0:0"), 100);
    assert_eq!(m.calculate_confidence("SQL Injection", "", "normal response"), 50);
    let (c, a) = VulnAnalysisModel::new(false).analyze("XSS", "x", "x");
    assert_eq!((c, a.as_str()), (50, "AI analysis disabled"));
    let (_, text) = m.analyze("XSS", "<script>", "");
    assert!(text.contains("Confidence: HIGH") && text.contains("100.0%"));
}

#[test]
fn severity_downgrade_and_filter() {
    let a = VulnerabilityAnalyzer::new(true);
    assert_eq!(a.downgrade_severity(&Severity::Critical), Severity::High);
    assert_eq!(a.downgrade_severity(&Severity::Info), Severity::Info);
    assert!(a.filter_false_positives(Vec::new()).is_empty());
}

#[test]
fn report_helpers() {
    assert_eq!(ConsoleReporter::new(true).colorize("x", "\x1b[1;31m"), "\x1b[1;31mx\x1b[0m");
    assert_eq!(ConsoleReporter::new(false).colorize("x", "\x1b[1;31m"), "x");
    assert_eq!(CsvExporter::new().escape_csv("a\"b"), "a\"\"b");
    assert_eq!(SarifExporter::new().severity_to_sarif_level(&Severity::High), "error");
    assert_eq!(HtmlReporter::severity_color(&Severity::Low), "#2196f3");
}

fn finding(severity: Severity, confidence: Option<u8>) -> shadowprobe::Vulnerability {
    shadowprobe::Vulnerability {
        id: "v".to_string(),
        vuln_type: shadowprobe::VulnerabilityType::LFI,
        severity,
        url: "http://t/?file=x".to_string(),
        method: shadowprobe::HttpMethod::GET,
        parameter: Some("file".to_string()),
        payload: "/etc/passwd".to_string(),
        evidence: String::new(),
        description: String::new(),
        remediation: String::new(),
        poc: None,
        ai_confidence: confidence,
        ai_analysis: None,
        timestamp: 0,
    }
}

#[test]
fn prioritize_orders_by_severity_and_confidence() {
    let a = VulnerabilityAnalyzer::new(true);
    let mut v = vec![
        finding(Severity::Low, None),
        finding(Severity::Critical, Some(20)),
        finding(Severity::High, Some(90)),
    ];
    a.prioritize_vulnerabilities(&mut v);
    let scores: Vec<u32> = v.iter().map(|f| a.calculate_priority_score(f)).collect();
    assert_eq!(scores, vec![360, 100, 100]);
    assert_eq!(v[0].severity, Severity::High);
}

#[test]
fn enhance_records_confidence_and_analysis() {
    let a = VulnerabilityAnalyzer::new(true);
    let mut v = vec![finding(Severity::High, None)];
    v[0].evidence = "root:x:0:0:root:/root:/bin/bash".to_string();
    a.enhance_vulnerabilities(&mut v);
    assert_eq!(v[0].ai_confidence, Some(70));
    assert!(v[0].ai_analysis.as_ref().unwrap().contains("Local File Inclusion (LFI)"));
    assert_eq!(v[0].severity, Severity::High);
    assert_eq!(v[0].poc.as_deref(), Some("curl -v 'http://t/?file=x'"));
    let kept = a.filter_false_positives(vec![finding(Severity::Low, Some(10)), finding(Severity::Low, Some(30))]);
    assert_eq!(kept.len(), 1);
    assert_eq!(kept[0].ai_confidence, Some(30));
}
