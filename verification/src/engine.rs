//! The filter-engine wrapper: the adblock matcher itself is an external
//! collaborator, consulted through trusted wrappers; the fail-safe posture —
//! route through the proxy whenever in doubt — is verified here.

use vstd::prelude::*;

verus! {

/// Whether the filter engine's URL parser accepts a URL; the verdict of
/// `adblock::request::Request::new` on this point is a function of the URL
/// string alone.
pub uninterp spec fn url_parseable(url: Seq<char>) -> bool;

/// Relies on adblock::request::Request::new: it returns `Ok` exactly when the
/// URL parses (its only error source is URL parsing). The URL is used as both
/// source and destination of the classified request.
#[verifier::external_body]
fn make_filter_request(url: &str, req_type: &str, method: &str) -> (r: Option<
    adblock::request::Request,
>)
    ensures
        r is Some <==> url_parseable(url@),
{
    adblock::request::Request::new(url, url, req_type, method).ok()
}

/// Relies on adblock::Engine::check_network_request, whose result's
/// `should_block` accessor is the blocker's verdict for the request.
#[verifier::external_body]
fn check_matched(engine: &adblock::Engine, req: &adblock::request::Request) -> bool {
    engine.check_network_request(req).should_block()
}

/// Relies on adblock::FilterSet::new.
#[verifier::external_body]
pub fn filter_set_new(debug: bool) -> adblock::FilterSet {
    adblock::FilterSet::new(debug)
}

/// Relies on adblock::FilterSet::add_filter_list, run with the default parse
/// options.
#[verifier::external_body]
pub fn add_filter_list(set: &mut adblock::FilterSet, text: String) {
    set.add_filter_list(text, adblock::lists::ParseOptions::default());
}

/// Relies on adblock::Engine::new_with_filter_set.
#[verifier::external_body]
pub fn engine_with_filter_set(set: adblock::FilterSet) -> adblock::Engine {
    adblock::Engine::new_with_filter_set(set)
}

/// The filter engine: an optional matcher snapshot, consulted once per
/// connection.
pub struct Engine {
    inner: Option<adblock::Engine>,
}

impl Engine {
    /// Whether a ruleset snapshot is loaded.
    pub closed spec fn has_rules(&self) -> bool {
        self.inner is Some
    }

    /// Wraps an optional matcher snapshot.
    pub fn new(inner: Option<adblock::Engine>) -> (r: Self)
        ensures
            r.has_rules() <==> inner is Some,
    {
        Self { inner }
    }

    /// Asks the snapshot whether `url` should be routed through the upstream
    /// proxy. Fail-safe: with no snapshot loaded, and for a URL the snapshot
    /// cannot parse, the answer is `true`.
    pub fn check_request_blocked(&self, url: &str) -> (r: bool)
        ensures
            !self.has_rules() ==> r,
            !url_parseable(url@) ==> r,
    {
        let engine = match &self.inner {
            Some(e) => e,
            None => return true,
        };
        match make_filter_request(url, "fetch", "") {
            Some(req) => check_matched(engine, &req),
            None => true,
        }
    }
}

} // verus!
