//! Vulnerability detectors and the engine that runs them. Each detector
//! plans its probes for an endpoint; the caller sends them and hands back the
//! outcomes, which the detector judges.
pub mod probe;
pub mod injection;
pub mod cors;
pub mod xxe;

use vstd::prelude::*;
use crate::client::HttpResponse;
use crate::clock::{fresh_id, now_millis};
use crate::payloads::{payload_values, payloads_view, PayloadSet};
use crate::scanners::cors::{cors_finding, cors_probes, CorsScanner};
use crate::scanners::injection::{assess_injection, injection_finding, injection_probes, candidate_params, plan_injection, InjectionClass};
use crate::scanners::probe::{concat_all, outcome_at, outcome_ref, probes_view, Probe, ProbeView};
use crate::scanners::xxe::{xxe_finding, xxe_probes, XxeScanner};
use crate::types::{findings_view, FindingView, VulnKind, Vulnerability, VulnerabilityType};

verus! {

/// Parameter-injection detector of the SQLInjection class.
pub struct SqlInjectionScanner {
    pub payloads: PayloadSet,
}

impl SqlInjectionScanner {
    pub fn new() -> (r: SqlInjectionScanner)
        ensures
            r.payloads.vuln_type@ == VulnKind::SQLInjection,
            payload_values(r.payloads.payloads@) == crate::payloads::sqli_values(),
    {
        SqlInjectionScanner { payloads: PayloadSet::for_sqli() }
    }

    pub fn name(&self) -> (r: &'static str)
        ensures
            r@ == "SQL Injection Scanner"@,
    {
        "SQL Injection Scanner"
    }

    pub fn vuln_type(&self) -> (r: VulnerabilityType)
        ensures
            r@ == VulnKind::SQLInjection,
    {
        VulnerabilityType::SQLInjection
    }
}

/// Parameter-injection detector of the XSS class.
pub struct XssScanner {
    pub payloads: PayloadSet,
}

impl XssScanner {
    pub fn new() -> (r: XssScanner)
        ensures
            r.payloads.vuln_type@ == VulnKind::XSS,
            payload_values(r.payloads.payloads@) == crate::payloads::xss_values(),
    {
        XssScanner { payloads: PayloadSet::for_xss() }
    }

    pub fn name(&self) -> (r: &'static str)
        ensures
            r@ == "XSS Scanner"@,
    {
        "XSS Scanner"
    }

    pub fn vuln_type(&self) -> (r: VulnerabilityType)
        ensures
            r@ == VulnKind::XSS,
    {
        VulnerabilityType::XSS
    }
}

/// Parameter-injection detector of the SSRF class.
pub struct SsrfScanner {
    pub payloads: PayloadSet,
}

impl SsrfScanner {
    pub fn new() -> (r: SsrfScanner)
        ensures
            r.payloads.vuln_type@ == VulnKind::SSRF,
            payload_values(r.payloads.payloads@) == crate::payloads::ssrf_values(),
    {
        SsrfScanner { payloads: PayloadSet::for_ssrf() }
    }

    pub fn name(&self) -> (r: &'static str)
        ensures
            r@ == "SSRF Scanner"@,
    {
        "SSRF Scanner"
    }

    pub fn vuln_type(&self) -> (r: VulnerabilityType)
        ensures
            r@ == VulnKind::SSRF,
    {
        VulnerabilityType::SSRF
    }
}

/// Parameter-injection detector of the LFI class.
pub struct LfiScanner {
    pub payloads: PayloadSet,
}

impl LfiScanner {
    pub fn new() -> (r: LfiScanner)
        ensures
            r.payloads.vuln_type@ == VulnKind::LFI,
            payload_values(r.payloads.payloads@) == crate::payloads::lfi_values(),
    {
        LfiScanner { payloads: PayloadSet::for_lfi() }
    }

    pub fn name(&self) -> (r: &'static str)
        ensures
            r@ == "LFI Scanner"@,
    {
        "LFI Scanner"
    }

    pub fn vuln_type(&self) -> (r: VulnerabilityType)
        ensures
            r@ == VulnKind::LFI,
    {
        VulnerabilityType::LFI
    }
}

/// Parameter-injection detector of the SSTI class.
pub struct SstiScanner {
    pub payloads: PayloadSet,
}

impl SstiScanner {
    pub fn new() -> (r: SstiScanner)
        ensures
            r.payloads.vuln_type@ == VulnKind::SSTI,
            payload_values(r.payloads.payloads@) == crate::payloads::ssti_values(),
    {
        SstiScanner { payloads: PayloadSet::for_ssti() }
    }

    pub fn name(&self) -> (r: &'static str)
        ensures
            r@ == "SSTI Scanner"@,
    {
        "SSTI Scanner"
    }

    pub fn vuln_type(&self) -> (r: VulnerabilityType)
        ensures
            r@ == VulnKind::SSTI,
    {
        VulnerabilityType::SSTI
    }
}

/// Parameter-injection detector of the CommandInjection class.
pub struct CommandInjectionScanner {
    pub payloads: PayloadSet,
}

impl CommandInjectionScanner {
    pub fn new() -> (r: CommandInjectionScanner)
        ensures
            r.payloads.vuln_type@ == VulnKind::CommandInjection,
            payload_values(r.payloads.payloads@) == crate::payloads::command_injection_values(),
    {
        CommandInjectionScanner { payloads: PayloadSet::for_command_injection() }
    }

    pub fn name(&self) -> (r: &'static str)
        ensures
            r@ == "Command Injection Scanner"@,
    {
        "Command Injection Scanner"
    }

    pub fn vuln_type(&self) -> (r: VulnerabilityType)
        ensures
            r@ == VulnKind::CommandInjection,
    {
        VulnerabilityType::CommandInjection
    }
}

/// Parameter-injection detector of the OpenRedirect class.
pub struct OpenRedirectScanner {
    pub payloads: PayloadSet,
}

impl OpenRedirectScanner {
    pub fn new() -> (r: OpenRedirectScanner)
        ensures
            r.payloads.vuln_type@ == VulnKind::OpenRedirect,
            payload_values(r.payloads.payloads@) == crate::payloads::open_redirect_values(),
    {
        OpenRedirectScanner { payloads: PayloadSet::for_open_redirect() }
    }

    pub fn name(&self) -> (r: &'static str)
        ensures
            r@ == "Open Redirect Scanner"@,
    {
        "Open Redirect Scanner"
    }

    pub fn vuln_type(&self) -> (r: VulnerabilityType)
        ensures
            r@ == VulnKind::OpenRedirect,
    {
        VulnerabilityType::OpenRedirect
    }
}

/// The registered detector variants.
pub enum Detector {
    SqlInjection(SqlInjectionScanner),
    Xss(XssScanner),
    Ssrf(SsrfScanner),
    Lfi(LfiScanner),
    Ssti(SstiScanner),
    CommandInjection(CommandInjectionScanner),
    Xxe(XxeScanner),
    Cors(CorsScanner),
    OpenRedirect(OpenRedirectScanner),
}

/// The injection class of a parameter-based detector.
pub open spec fn detector_class(d: Detector) -> Option<InjectionClass> {
    match d {
        Detector::SqlInjection(_) => Some(InjectionClass::SqlInjection),
        Detector::Xss(_) => Some(InjectionClass::Xss),
        Detector::Ssrf(_) => Some(InjectionClass::Ssrf),
        Detector::Lfi(_) => Some(InjectionClass::Lfi),
        Detector::Ssti(_) => Some(InjectionClass::Ssti),
        Detector::CommandInjection(_) => Some(InjectionClass::CommandInjection),
        Detector::OpenRedirect(_) => Some(InjectionClass::OpenRedirect),
        _ => None,
    }
}

pub open spec fn detector_payloads(d: Detector) -> Seq<crate::payloads::PayloadView> {
    match d {
        Detector::SqlInjection(s) => payloads_view(s.payloads.payloads@),
        Detector::Xss(s) => payloads_view(s.payloads.payloads@),
        Detector::Ssrf(s) => payloads_view(s.payloads.payloads@),
        Detector::Lfi(s) => payloads_view(s.payloads.payloads@),
        Detector::Ssti(s) => payloads_view(s.payloads.payloads@),
        Detector::CommandInjection(s) => payloads_view(s.payloads.payloads@),
        Detector::OpenRedirect(s) => payloads_view(s.payloads.payloads@),
        _ => Seq::empty(),
    }
}

/// The probes a detector sends to `target`.
pub open spec fn detector_probes(d: Detector, target: Seq<char>) -> Seq<ProbeView> {
    match d {
        Detector::Xxe(_) => xxe_probes(target),
        Detector::Cors(_) => cors_probes(target),
        _ => injection_probes(target, candidate_params(detector_class(d)->Some_0, target), detector_payloads(d)),
    }
}

/// The finding, if any, that a response to one of its probes gives a detector.
pub open spec fn detector_assess(d: Detector, target: Seq<char>, probe: ProbeView, resp: HttpResponse) -> Option<FindingView> {
    match d {
        Detector::Xxe(_) => xxe_finding(probe, resp, target),
        Detector::Cors(_) => cors_finding(probe, resp, target),
        _ => injection_finding(detector_class(d)->Some_0, probe, resp, target),
    }
}

/// Findings of a detector from the outcomes of its probes, in probe order; a
/// failed probe gives none.
pub open spec fn detector_findings(
    d: Detector,
    target: Seq<char>,
    probes: Seq<ProbeView>,
    outcomes: Seq<Option<HttpResponse>>,
) -> Seq<FindingView>
    decreases probes.len(),
{
    if probes.len() == 0 {
        Seq::empty()
    } else {
        let rest = detector_findings(d, target, probes.drop_last(), outcomes);
        match outcome_at(outcomes, probes.len() - 1) {
            Some(resp) => match detector_assess(d, target, probes.last(), resp) {
                Some(f) => rest.push(f),
                None => rest,
            },
            None => rest,
        }
    }
}

pub open spec fn detector_kind(d: Detector) -> VulnKind {
    match d {
        Detector::SqlInjection(_) => VulnKind::SQLInjection,
        Detector::Xss(_) => VulnKind::XSS,
        Detector::Ssrf(_) => VulnKind::SSRF,
        Detector::Lfi(_) => VulnKind::LFI,
        Detector::Ssti(_) => VulnKind::SSTI,
        Detector::CommandInjection(_) => VulnKind::CommandInjection,
        Detector::Xxe(_) => VulnKind::XXE,
        Detector::Cors(_) => VulnKind::CORS,
        Detector::OpenRedirect(_) => VulnKind::OpenRedirect,
    }
}

pub open spec fn detector_name(d: Detector) -> Seq<char> {
    match d {
        Detector::SqlInjection(_) => "SQL Injection Scanner"@,
        Detector::Xss(_) => "XSS Scanner"@,
        Detector::Ssrf(_) => "SSRF Scanner"@,
        Detector::Lfi(_) => "LFI Scanner"@,
        Detector::Ssti(_) => "SSTI Scanner"@,
        Detector::CommandInjection(_) => "Command Injection Scanner"@,
        Detector::Xxe(_) => "XXE Scanner"@,
        Detector::Cors(_) => "CORS Misconfiguration Scanner"@,
        Detector::OpenRedirect(_) => "Open Redirect Scanner"@,
    }
}

impl Detector {
    pub fn name(&self) -> (r: &'static str)
        ensures
            r@ == detector_name(*self),
    {
        match self {
            Detector::SqlInjection(s) => s.name(),
            Detector::Xss(s) => s.name(),
            Detector::Ssrf(s) => s.name(),
            Detector::Lfi(s) => s.name(),
            Detector::Ssti(s) => s.name(),
            Detector::CommandInjection(s) => s.name(),
            Detector::OpenRedirect(s) => s.name(),
            Detector::Xxe(s) => s.name(),
            Detector::Cors(s) => s.name(),
        }
    }

    pub fn vuln_type(&self) -> (r: VulnerabilityType)
        ensures
            r@ == detector_kind(*self),
    {
        match self {
            Detector::SqlInjection(s) => s.vuln_type(),
            Detector::Xss(s) => s.vuln_type(),
            Detector::Ssrf(s) => s.vuln_type(),
            Detector::Lfi(s) => s.vuln_type(),
            Detector::Ssti(s) => s.vuln_type(),
            Detector::CommandInjection(s) => s.vuln_type(),
            Detector::OpenRedirect(s) => s.vuln_type(),
            Detector::Xxe(s) => s.vuln_type(),
            Detector::Cors(s) => s.vuln_type(),
        }
    }

    /// The probes to send to `target`.
    pub fn plan(&self, target: &str) -> (r: Vec<Probe>)
        ensures
            probes_view(r@) == detector_probes(*self, target@),
    {
        match self {
            Detector::SqlInjection(s) => plan_injection(InjectionClass::SqlInjection, target, &s.payloads),
            Detector::Xss(s) => plan_injection(InjectionClass::Xss, target, &s.payloads),
            Detector::Ssrf(s) => plan_injection(InjectionClass::Ssrf, target, &s.payloads),
            Detector::Lfi(s) => plan_injection(InjectionClass::Lfi, target, &s.payloads),
            Detector::Ssti(s) => plan_injection(InjectionClass::Ssti, target, &s.payloads),
            Detector::CommandInjection(s) => plan_injection(InjectionClass::CommandInjection, target, &s.payloads),
            Detector::OpenRedirect(s) => plan_injection(InjectionClass::OpenRedirect, target, &s.payloads),
            Detector::Xxe(s) => s.plan(target),
            Detector::Cors(s) => s.plan(target),
        }
    }

    /// Judges one response; the finding gets `id` and `timestamp`.
    pub fn assess(&self, target: &str, probe: &Probe, resp: &HttpResponse, id: String, timestamp: i64) -> (r: Option<
        Vulnerability,
    >)
        ensures
            match r {
                Some(v) => detector_assess(*self, target@, probe@, *resp) == Some(v.finding()) && v.id == id
                    && v.timestamp == timestamp,
                None => detector_assess(*self, target@, probe@, *resp) is None,
            },
    {
        match self {
            Detector::SqlInjection(s) => assess_injection(InjectionClass::SqlInjection, target, probe, resp, id, timestamp),
            Detector::Xss(s) => assess_injection(InjectionClass::Xss, target, probe, resp, id, timestamp),
            Detector::Ssrf(s) => assess_injection(InjectionClass::Ssrf, target, probe, resp, id, timestamp),
            Detector::Lfi(s) => assess_injection(InjectionClass::Lfi, target, probe, resp, id, timestamp),
            Detector::Ssti(s) => assess_injection(InjectionClass::Ssti, target, probe, resp, id, timestamp),
            Detector::CommandInjection(s) => assess_injection(InjectionClass::CommandInjection, target, probe, resp, id, timestamp),
            Detector::OpenRedirect(s) => assess_injection(InjectionClass::OpenRedirect, target, probe, resp, id, timestamp),
            Detector::Xxe(s) => s.assess(target, probe, resp, id, timestamp),
            Detector::Cors(s) => s.assess(target, probe, resp, id, timestamp),
        }
    }

    /// Findings from the outcomes of `probes` (outcome `i` belongs to probe
    /// `i`; `None`, or a missing outcome, is a failed request). Each finding
    /// gets a fresh identifier and the current time.
    pub fn scan_outcomes(&self, target: &str, probes: &Vec<Probe>, outcomes: &Vec<Option<HttpResponse>>) -> (r: Vec<
        Vulnerability,
    >)
        ensures
            findings_view(r@) == detector_findings(*self, target@, probes_view(probes@), outcomes@),
    {
        let ghost pv = probes_view(probes@);
        let mut out: Vec<Vulnerability> = Vec::new();
        let mut i: usize = 0;
        while i < probes.len()
            invariant
                0 <= i <= probes.len(),
                pv == probes_view(probes@),
                findings_view(out@) == detector_findings(*self, target@, pv.subrange(0, i as int), outcomes@),
            decreases probes.len() - i,
        {
            let ghost sub = pv.subrange(0, i + 1);
            assert(sub.drop_last() =~= pv.subrange(0, i as int));
            assert(sub.last() == probes@[i as int]@);
            match outcome_ref(outcomes, i) {
                Some(resp) => {
                    let id = fresh_id();
                    let t = now_millis();
                    let ts: i64 = if t > i64::MAX as u64 {
                        i64::MAX
                    } else {
                        t as i64
                    };
                    match self.assess(target, &probes[i], resp, id, ts) {
                        Some(v) => {
                            let ghost prev = out@;
                            out.push(v);
                            assert(findings_view(out@) =~= findings_view(prev).push(v.finding()));
                        },
                        None => {},
                    }
                },
                None => {},
            }
            i += 1;
        }
        assert(pv.subrange(0, probes.len() as int) =~= pv);
        out
    }
}

/// A detector whose every probe failed finds nothing.
pub proof fn lemma_all_failed_finds_nothing(d: Detector, target: Seq<char>, probes: Seq<ProbeView>)
    ensures
        detector_findings(d, target, probes, Seq::empty()).len() == 0,
    decreases probes.len(),
{
    if probes.len() > 0 {
        lemma_all_failed_finds_nothing(d, target, probes.drop_last());
    }
}

/// Plan `i` of a list of plans, empty when there is none.
pub open spec fn plan_at(plans: Seq<Seq<ProbeView>>, i: int) -> Seq<ProbeView> {
    if 0 <= i < plans.len() {
        plans[i]
    } else {
        Seq::empty()
    }
}

pub open spec fn outcomes_at(outcomes: Seq<Seq<Option<HttpResponse>>>, i: int) -> Seq<Option<HttpResponse>> {
    if 0 <= i < outcomes.len() {
        outcomes[i]
    } else {
        Seq::empty()
    }
}

/// Findings of each detector in turn.
pub open spec fn per_detector(
    ds: Seq<Detector>,
    target: Seq<char>,
    plans: Seq<Seq<ProbeView>>,
    outcomes: Seq<Seq<Option<HttpResponse>>>,
) -> Seq<Seq<FindingView>> {
    Seq::new(
        ds.len(),
        |i: int| detector_findings(ds[i], target, plan_at(plans, i), outcomes_at(outcomes, i)),
    )
}

/// Runs every registered detector against endpoints.
pub struct ScannerEngine {
    scanners: Vec<Detector>,
}

/// Registration order of the engine's detectors.
pub open spec fn registered_kinds() -> Seq<VulnKind> {
    seq![
        VulnKind::SQLInjection,
        VulnKind::XSS,
        VulnKind::SSRF,
        VulnKind::LFI,
        VulnKind::SSTI,
        VulnKind::CommandInjection,
        VulnKind::XXE,
        VulnKind::CORS,
        VulnKind::OpenRedirect,
    ]
}

impl ScannerEngine {
    pub closed spec fn detectors(&self) -> Seq<Detector> {
        self.scanners@
    }

    pub fn new() -> (r: ScannerEngine)
        ensures
            r.detectors().map_values(|d: Detector| detector_kind(d)) == registered_kinds(),
    {
        let mut scanners: Vec<Detector> = Vec::new();
        scanners.push(Detector::SqlInjection(SqlInjectionScanner::new()));
        scanners.push(Detector::Xss(XssScanner::new()));
        scanners.push(Detector::Ssrf(SsrfScanner::new()));
        scanners.push(Detector::Lfi(LfiScanner::new()));
        scanners.push(Detector::Ssti(SstiScanner::new()));
        scanners.push(Detector::CommandInjection(CommandInjectionScanner::new()));
        scanners.push(Detector::Xxe(XxeScanner::new()));
        scanners.push(Detector::Cors(CorsScanner::new()));
        scanners.push(Detector::OpenRedirect(OpenRedirectScanner::new()));
        let r = ScannerEngine { scanners };
        assert(r.detectors().map_values(|d: Detector| detector_kind(d)) =~= registered_kinds());
        r
    }

    /// An engine running exactly `scanners`, in that order.
    pub fn with_detectors(scanners: Vec<Detector>) -> (r: ScannerEngine)
        ensures
            r.detectors() == scanners@,
    {
        ScannerEngine { scanners }
    }

    pub fn scanner_count(&self) -> (r: usize)
        ensures
            r == self.detectors().len(),
    {
        self.scanners.len()
    }

    /// The probes of every detector for `target`, in registration order.
    pub fn plan(&self, target: &str) -> (r: Vec<Vec<Probe>>)
        ensures
            r@.len() == self.detectors().len(),
            forall|i: int|
                0 <= i < r@.len() ==> probes_view(#[trigger] r@[i]@) == detector_probes(self.detectors()[i], target@),
    {
        let mut out: Vec<Vec<Probe>> = Vec::new();
        let mut i: usize = 0;
        while i < self.scanners.len()
            invariant
                0 <= i <= self.scanners@.len(),
                out@.len() == i,
                forall|k: int|
                    0 <= k < i ==> probes_view(#[trigger] out@[k]@) == detector_probes(self.scanners@[k], target@),
            decreases self.scanners@.len() - i,
        {
            let p = self.scanners[i].plan(target);
            out.push(p);
            i += 1;
        }
        out
    }

    /// Findings of every detector, concatenated in registration order.
    /// `plans[i]` and `outcomes[i]` belong to detector `i`.
    pub fn scan_outcomes(
        &self,
        target: &str,
        plans: &Vec<Vec<Probe>>,
        outcomes: &Vec<Vec<Option<HttpResponse>>>,
    ) -> (r: Vec<Vulnerability>)
        ensures
            findings_view(r@) == concat_all(
                per_detector(
                    self.detectors(),
                    target@,
                    plans@.map_values(|p: Vec<Probe>| probes_view(p@)),
                    outcomes@.map_values(|o: Vec<Option<HttpResponse>>| o@),
                ),
            ),
    {
        let ghost pl = plans@.map_values(|p: Vec<Probe>| probes_view(p@));
        let ghost oc = outcomes@.map_values(|o: Vec<Option<HttpResponse>>| o@);
        let ghost all = per_detector(self.detectors(), target@, pl, oc);
        let empty_plan: Vec<Probe> = Vec::new();
        let empty_outcomes: Vec<Option<HttpResponse>> = Vec::new();
        let mut out: Vec<Vulnerability> = Vec::new();
        let mut i: usize = 0;
        while i < self.scanners.len()
            invariant
                0 <= i <= self.scanners@.len(),
                all.len() == self.scanners@.len(),
                all == per_detector(self.detectors(), target@, pl, oc),
                pl == plans@.map_values(|p: Vec<Probe>| probes_view(p@)),
                oc == outcomes@.map_values(|o: Vec<Option<HttpResponse>>| o@),
                empty_plan@.len() == 0,
                empty_outcomes@.len() == 0,
                findings_view(out@) == concat_all(all.subrange(0, i as int)),
            decreases self.scanners@.len() - i,
        {
            let p = if i < plans.len() {
                &plans[i]
            } else {
                &empty_plan
            };
            let o = if i < outcomes.len() {
                &outcomes[i]
            } else {
                &empty_outcomes
            };
            assert(probes_view(p@) =~= plan_at(pl, i as int));
            assert(o@ =~= outcomes_at(oc, i as int));
            let found = self.scanners[i].scan_outcomes(target, p, o);
            let ghost prev = out@;
            let mut found_mut = found;
            out.append(&mut found_mut);
            assert(findings_view(out@) =~= findings_view(prev) + findings_view(found@));
            assert(all.subrange(0, i + 1).drop_last() =~= all.subrange(0, i as int));
            i += 1;
        }
        assert(all.subrange(0, self.scanners@.len() as int) =~= all);
        out
    }
}

/// When exactly two detectors report, one finding each, the engine reports
/// those two, in registration order, whatever the number of probes.
pub proof fn lemma_engine_aggregation(fs: Seq<Seq<FindingView>>, i: int, j: int)
    requires
        0 <= i < j < fs.len(),
        fs[i].len() == 1,
        fs[j].len() == 1,
        forall|k: int| 0 <= k < fs.len() && k != i && k != j ==> #[trigger] fs[k].len() == 0,
    ensures
        concat_all(fs) == seq![fs[i][0], fs[j][0]],
{
    lemma_concat_prefix(fs, i, j, fs.len() as int);
    assert(fs.subrange(0, fs.len() as int) =~= fs);
}

proof fn lemma_concat_prefix(fs: Seq<Seq<FindingView>>, i: int, j: int, n: int)
    requires
        0 <= i < j < fs.len(),
        0 <= n <= fs.len(),
        fs[i].len() == 1,
        fs[j].len() == 1,
        forall|k: int| 0 <= k < fs.len() && k != i && k != j ==> #[trigger] fs[k].len() == 0,
    ensures
        concat_all(fs.subrange(0, n)) == if n <= i {
            Seq::<FindingView>::empty()
        } else if n <= j {
            seq![fs[i][0]]
        } else {
            seq![fs[i][0], fs[j][0]]
        },
    decreases n,
{
    if n == fs.len() {
        assert(fs.subrange(0, n) =~= fs);
    }
    if n > 0 {
        lemma_concat_prefix(fs, i, j, n - 1);
        assert(fs.subrange(0, n).drop_last() =~= fs.subrange(0, n - 1));
        let last = fs[n - 1];
        if n - 1 != i && n - 1 != j {
            assert(last.len() == 0);
            assert(concat_all(fs.subrange(0, n - 1)) + last =~= concat_all(fs.subrange(0, n - 1)));
        } else {
            assert(last =~= seq![last[0]]);
        }
    }
}

/// A finding from a SQL-injection probe: whenever the response body holds one
/// of the payload's patterns, the finding is Critical and its proof of
/// concept requests the probed URL.
pub proof fn lemma_sqli_match(probe: ProbeView, resp: HttpResponse, target: Seq<char>)
    requires
        crate::text::contains_any(resp.body@, probe.payload.patterns),
    ensures
        injection_finding(InjectionClass::SqlInjection, probe, resp, target) is Some,
        injection_finding(InjectionClass::SqlInjection, probe, resp, target)->Some_0.severity
            == crate::types::Severity::Critical,
        injection_finding(InjectionClass::SqlInjection, probe, resp, target)->Some_0.vuln_type
            == VulnKind::SQLInjection,
        injection_finding(InjectionClass::SqlInjection, probe, resp, target)->Some_0.poc == Some(
            "curl -v '"@ + probe.url + "'"@,
        ),
{
}

} // verus!
