use vstd::prelude::*;
use crate::correlation_id::CorrelationId;

verus! {

/// A correlation ID together with the name of the header that carries it on
/// an outbound request.
#[derive(Debug, Clone)]
pub struct CorrelationIdHeader {
    name: String,
    id: CorrelationId,
}

impl View for CorrelationIdHeader {
    type V = (Seq<char>, Seq<char>);

    closed spec fn view(&self) -> (Seq<char>, Seq<char>) {
        (self.name@, self.id@)
    }
}

impl CorrelationIdHeader {
    /// Pairs the header name `name` with the ID `id`.
    pub fn new(name: String, id: CorrelationId) -> (r: CorrelationIdHeader)
        ensures
            r@ == (name@, id@),
    {
        CorrelationIdHeader { name, id }
    }

    /// The name of the header.
    pub fn get_key(&self) -> (r: &str)
        ensures
            r@ == self@.0,
    {
        self.name.as_str()
    }

    /// The ID that the header carries.
    pub fn correlation_id(&self) -> (r: &CorrelationId)
        ensures
            r@ == self@.1,
    {
        &self.id
    }

    /// The header as a name and a value to set on an outbound request: the
    /// value is the ID's text, unchanged.
    pub fn try_into_pair(self) -> (r: (String, String))
        ensures
            r.0@ == self@.0,
            r.1@ == self@.1,
    {
        let value = self.id.to_string();
        (self.name, value)
    }
}

impl PartialEq for CorrelationIdHeader {
    fn eq(&self, other: &CorrelationIdHeader) -> (r: bool) {
        self.name == other.name && self.id == other.id
    }
}

impl vstd::std_specs::cmp::PartialEqSpecImpl for CorrelationIdHeader {
    open spec fn obeys_eq_spec() -> bool {
        true
    }

    open spec fn eq_spec(&self, other: &CorrelationIdHeader) -> bool {
        self@ == other@
    }
}

impl Eq for CorrelationIdHeader {

}

impl From<(String, CorrelationId)> for CorrelationIdHeader {
    fn from(pair: (String, CorrelationId)) -> (r: CorrelationIdHeader) {
        CorrelationIdHeader { name: pair.0, id: pair.1 }
    }
}

impl vstd::std_specs::convert::FromSpecImpl<(String, CorrelationId)> for CorrelationIdHeader {
    open spec fn obeys_from_spec() -> bool {
        true
    }

    closed spec fn from_spec(pair: (String, CorrelationId)) -> CorrelationIdHeader {
        CorrelationIdHeader { name: pair.0, id: pair.1 }
    }
}

} // verus!
