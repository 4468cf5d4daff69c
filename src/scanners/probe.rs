//! Probes: the single requests that detectors plan and later judge.
use vstd::prelude::*;
use crate::client::HttpResponse;
use crate::payloads::{Payload, PayloadView};
use crate::text::opt_chars;
use crate::types::{FindingView, HttpMethod};

verus! {

/// One request of a detector, with the parameter and payload it carries.
pub struct Probe {
    pub method: HttpMethod,
    pub url: String,
    pub headers: Vec<(String, String)>,
    pub body: Option<String>,
    pub parameter: Option<String>,
    pub payload: Payload,
}

pub ghost struct ProbeView {
    pub method: HttpMethod,
    pub url: Seq<char>,
    pub headers: Seq<(Seq<char>, Seq<char>)>,
    pub body: Option<Seq<char>>,
    pub parameter: Option<Seq<char>>,
    pub payload: PayloadView,
}

impl View for Probe {
    type V = ProbeView;

    open spec fn view(&self) -> ProbeView {
        ProbeView {
            method: self.method,
            url: self.url@,
            headers: crate::client::headers_view(self.headers@),
            body: opt_chars(self.body),
            parameter: opt_chars(self.parameter),
            payload: self.payload@,
        }
    }
}

pub open spec fn probes_view(v: Seq<Probe>) -> Seq<ProbeView> {
    v.map_values(|p: Probe| p@)
}

/// The outcome of probe `i`: its response, or `None` when the request failed
/// or no outcome was handed back for it.
pub open spec fn outcome_at(outcomes: Seq<Option<HttpResponse>>, i: int) -> Option<HttpResponse> {
    if 0 <= i < outcomes.len() {
        outcomes[i]
    } else {
        None
    }
}

/// Concatenation of a sequence of finding lists.
pub open spec fn concat_all(fs: Seq<Seq<FindingView>>) -> Seq<FindingView>
    decreases fs.len(),
{
    if fs.len() == 0 {
        Seq::empty()
    } else {
        concat_all(fs.drop_last()) + fs.last()
    }
}

pub fn outcome_ref(outcomes: &Vec<Option<HttpResponse>>, i: usize) -> (r: Option<&HttpResponse>)
    ensures
        match r {
            Some(x) => outcome_at(outcomes@, i as int) == Some(*x),
            None => outcome_at(outcomes@, i as int) is None,
        },
{
    if i < outcomes.len() {
        match &outcomes[i] {
            Some(x) => Some(x),
            None => None,
        }
    } else {
        None
    }
}

} // verus!
