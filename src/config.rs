use vstd::prelude::*;
use crate::generator::{CorrelationIdGenerator, UuidCorrelationIdGenerator};

verus! {

/// The header name used for both directions unless configured otherwise.
pub open spec fn default_header_name() -> Seq<char> {
    "x-correlation-id"@
}

/// The default header name, as an owned string.
pub fn default_header_name_string() -> (r: String)
    ensures
        r@ == default_header_name(),
{
    proof {
        reveal_strlit("x-correlation-id");
    }
    String::from_str("x-correlation-id")
}

/// What a policy says, apart from its generator.
pub struct PolicyView {
    /// Header read from the incoming request.
    pub request_header_name: Seq<char>,
    /// Whether a request without that header is rejected.
    pub enforce_request_header: bool,
    /// Header written to the outgoing response.
    pub response_header_name: Seq<char>,
    /// Whether the response carries the ID at all.
    pub include_in_response: bool,
}

/// The correlation policy: header names, behaviour flags and the generator of
/// fresh IDs. Each setter consumes the policy and hands back an updated one,
/// so a policy that is already shared is never changed in place.
pub struct Correlation<G> {
    header_name: String,
    enforce_header: bool,
    resp_header_name: String,
    include_in_resp: bool,
    generator: G,
}

impl<G> View for Correlation<G> {
    type V = PolicyView;

    closed spec fn view(&self) -> PolicyView {
        PolicyView {
            request_header_name: self.header_name@,
            enforce_request_header: self.enforce_header,
            response_header_name: self.resp_header_name@,
            include_in_response: self.include_in_resp,
        }
    }
}

impl Correlation<UuidCorrelationIdGenerator> {
    /// The default policy: both headers named `x-correlation-id`, the request
    /// header optional, the ID included in the response, random UUIDs.
    pub fn new() -> (r: Self)
        ensures
            r@.request_header_name == default_header_name(),
            !r@.enforce_request_header,
            r@.response_header_name == default_header_name(),
            r@.include_in_response,
    {
        Correlation {
            header_name: default_header_name_string(),
            enforce_header: false,
            resp_header_name: default_header_name_string(),
            include_in_resp: true,
            generator: UuidCorrelationIdGenerator,
        }
    }
}

impl Default for Correlation<UuidCorrelationIdGenerator> {
    fn default() -> (r: Self)
        ensures
            r@.request_header_name == default_header_name(),
            !r@.enforce_request_header,
            r@.response_header_name == default_header_name(),
            r@.include_in_response,
    {
        Correlation::new()
    }
}

impl<G: CorrelationIdGenerator> Correlation<G> {
    /// The generator of fresh IDs.
    pub closed spec fn spec_generator(&self) -> G {
        self.generator
    }

    /// Sets the name of the header from which the ID is read.
    pub fn request_header_name(self, header_name: String) -> (r: Self)
        ensures
            r@ == (PolicyView { request_header_name: header_name@, ..self@ }),
            r.spec_generator() == self.spec_generator(),
    {
        Correlation { header_name, ..self }
    }

    /// Sets whether a request without the ID header is rejected.
    pub fn enforce_request_header(self, enforce: bool) -> (r: Self)
        ensures
            r@ == (PolicyView { enforce_request_header: enforce, ..self@ }),
            r.spec_generator() == self.spec_generator(),
    {
        Correlation { enforce_header: enforce, ..self }
    }

    /// Sets the name of the header to which the ID is written in the response.
    pub fn response_header_name(self, header_name: String) -> (r: Self)
        ensures
            r@ == (PolicyView { response_header_name: header_name@, ..self@ }),
            r.spec_generator() == self.spec_generator(),
    {
        Correlation { resp_header_name: header_name, ..self }
    }

    /// Sets whether the response carries the ID.
    pub fn include_in_response(self, include_in_response: bool) -> (r: Self)
        ensures
            r@ == (PolicyView { include_in_response: include_in_response, ..self@ }),
            r.spec_generator() == self.spec_generator(),
    {
        Correlation { include_in_resp: include_in_response, ..self }
    }

    /// Replaces the generator of fresh IDs, keeping the rest of the policy.
    pub fn with_id_generator<H: CorrelationIdGenerator>(self, id_generator: H) -> (r: Correlation<H>)
        ensures
            r@ == self@,
            r.spec_generator() == id_generator,
    {
        Correlation {
            header_name: self.header_name,
            enforce_header: self.enforce_header,
            resp_header_name: self.resp_header_name,
            include_in_resp: self.include_in_resp,
            generator: id_generator,
        }
    }

    /// The name of the header from which the ID is read.
    pub fn get_request_header_name(&self) -> (r: &str)
        ensures
            r@ == self@.request_header_name,
    {
        self.header_name.as_str()
    }

    /// Whether a request without the ID header is rejected.
    pub fn is_request_header_enforced(&self) -> (r: bool)
        ensures
            r == self@.enforce_request_header,
    {
        self.enforce_header
    }

    /// The name of the header to which the ID is written in the response.
    pub fn get_response_header_name(&self) -> (r: &str)
        ensures
            r@ == self@.response_header_name,
    {
        self.resp_header_name.as_str()
    }

    /// Whether the response carries the ID.
    pub fn is_included_in_response(&self) -> (r: bool)
        ensures
            r == self@.include_in_response,
    {
        self.include_in_resp
    }

    /// The generator of fresh IDs.
    pub fn generator(&self) -> (r: &G)
        ensures
            *r == self.spec_generator(),
    {
        &self.generator
    }
}

} // verus!
