//! Small pieces of the report renderers that depend only on plain values.
use vstd::prelude::*;
use crate::text::{replace_all, replace_char};
use crate::types::Severity;

verus! {

/// Terminal renderer; `colored` switches ANSI colours on.
pub struct ConsoleReporter {
    pub colored: bool,
}

impl ConsoleReporter {
    pub fn new(colored: bool) -> (r: ConsoleReporter)
        ensures
            r.colored == colored,
    {
        ConsoleReporter { colored }
    }

    /// `text` wrapped in `color_code` and a reset, when colours are on.
    pub fn colorize(&self, text: &str, color_code: &str) -> (r: String)
        ensures
            self.colored ==> r@ == color_code@ + text@ + "\x1b[0m"@,
            !self.colored ==> r@ == text@,
    {
        if self.colored {
            let mut s = String::from_str(color_code);
            s.append(text);
            s.append("\x1b[0m");
            s
        } else {
            String::from_str(text)
        }
    }
}

/// CSV exporter.
pub struct CsvExporter;

impl CsvExporter {
    pub fn new() -> CsvExporter {
        CsvExporter
    }

    /// Doubles every quote, for a quoted CSV field.
    pub fn escape_csv(&self, s: &str) -> (r: String)
        ensures
            r@ == replace_char(s@, '"', "\"\""@),
    {
        replace_all(s, '"', "\"\"")
    }
}

/// Markdown exporter.
pub struct MarkdownExporter;

impl MarkdownExporter {
    pub fn new() -> MarkdownExporter {
        MarkdownExporter
    }
}

pub open spec fn sarif_level(s: Severity) -> Seq<char> {
    match s {
        Severity::Critical | Severity::High => "error"@,
        Severity::Medium => "warning"@,
        Severity::Low => "note"@,
        Severity::Info => "none"@,
    }
}

/// SARIF exporter.
pub struct SarifExporter;

impl SarifExporter {
    pub fn new() -> SarifExporter {
        SarifExporter
    }

    /// The SARIF result level of a severity.
    pub fn severity_to_sarif_level(&self, severity: &Severity) -> (r: &'static str)
        ensures
            r@ == sarif_level(*severity),
    {
        match severity {
            Severity::Critical | Severity::High => "error",
            Severity::Medium => "warning",
            Severity::Low => "note",
            Severity::Info => "none",
        }
    }
}

pub open spec fn html_color(s: Severity) -> Seq<char> {
    match s {
        Severity::Critical => "#9c27b0"@,
        Severity::High => "#f44336"@,
        Severity::Medium => "#ff9800"@,
        Severity::Low => "#2196f3"@,
        Severity::Info => "#9e9e9e"@,
    }
}

/// HTML renderer.
pub struct HtmlReporter;

impl HtmlReporter {
    pub fn new() -> HtmlReporter {
        HtmlReporter
    }

    /// CSS colour of a severity badge.
    pub fn severity_color(severity: &Severity) -> (r: &'static str)
        ensures
            r@ == html_color(*severity),
    {
        match severity {
            Severity::Critical => "#9c27b0",
            Severity::High => "#f44336",
            Severity::Medium => "#ff9800",
            Severity::Low => "#2196f3",
            Severity::Info => "#9e9e9e",
        }
    }
}

/// JSON renderer.
pub struct JsonReporter;

impl JsonReporter {
    pub fn new() -> JsonReporter {
        JsonReporter
    }
}

/// CVSS-like scorer of findings.
pub struct VulnerabilityScorer;

impl VulnerabilityScorer {
    pub fn new() -> VulnerabilityScorer {
        VulnerabilityScorer
    }
}

} // verus!
