//! Concurrent web reconnaissance and vulnerability-probing core: a bounded
//! same-domain crawl frontier, typed vulnerability detectors dispatched by an
//! engine, an adaptive rate limiter and a time-to-live request cache.
//!
//! Waiting and network traffic belong to the caller: the crawl frontier hands
//! out URLs and takes back pages, detectors plan probes and judge the
//! responses, the rate limiter says how long to wait.
pub mod types;
pub mod text;
pub mod urls;
pub mod clock;
pub mod client;
pub mod crawler;
pub mod cache;
pub mod rate_limiter;
pub mod payloads;
pub mod scanners;
pub mod evasion;
pub mod config;
pub mod ai;
pub mod report;

pub use types::{HttpMethod, ScanResult, ScanStatus, Severity, ShadowProbeError, Vulnerability, VulnerabilityType};
pub use client::HttpResponse;
pub use crawler::CrawlFrontier;
pub use cache::{CacheStats, CachedResult, RequestFingerprint, ScanCache};
pub use rate_limiter::{RateLimiter, RateLimiterPresets};
pub use payloads::{get_all_payloads, Payload, PayloadSet};
pub use evasion::PayloadEvasion;
pub use config::{Config, ScanConfig, ScanProfile, Target};
pub use ai::{VulnAnalysisModel, VulnerabilityAnalyzer};
pub use report::{
    ConsoleReporter, CsvExporter, HtmlReporter, JsonReporter, MarkdownExporter, SarifExporter, VulnerabilityScorer,
};
pub use scanners::{
    CommandInjectionScanner, Detector, LfiScanner, OpenRedirectScanner, ScannerEngine, SqlInjectionScanner, SsrfScanner,
    SstiScanner, XssScanner,
};
pub use scanners::cors::CorsScanner;
pub use scanners::xxe::XxeScanner;
pub use scanners::probe::Probe;
