use vstd::prelude::*;
use crate::correlation_id::CorrelationId;

verus! {

/// Reads the correlation ID that the middleware stored for a request.
pub trait CorrelationIdExtract {
    /// The text of the stored ID, if one was stored.
    spec fn stored_id(&self) -> Option<Seq<char>>;

    /// The stored ID. Reading it before the middleware stored one is a
    /// misconfigured pipeline, which callers rule out.
    fn correlation_id(&self) -> (r: CorrelationId)
        requires
            self.stored_id() is Some,
        ensures
            r@ == self.stored_id()->Some_0,
    ;
}

/// The request-scoped slot that holds a request's correlation ID: empty until
/// the middleware resolves the ID, then holding exactly one.
#[derive(Debug, Clone)]
pub struct RequestScope {
    id: Option<CorrelationId>,
}

impl View for RequestScope {
    type V = Option<Seq<char>>;

    closed spec fn view(&self) -> Option<Seq<char>> {
        match self.id {
            Some(id) => Some(id@),
            None => None,
        }
    }
}

impl RequestScope {
    /// An empty slot.
    pub fn new() -> (r: RequestScope)
        ensures
            r@ is None,
    {
        RequestScope { id: None }
    }

    /// Stores `id`, replacing what was there.
    pub fn insert(&mut self, id: CorrelationId)
        ensures
            final(self)@ == Some(id@),
    {
        self.id = Some(id);
    }

    /// The stored ID, if any.
    pub fn get(&self) -> (r: Option<&CorrelationId>)
        ensures
            self@ is None ==> r is None,
            self@ is Some ==> r is Some && r->Some_0@ == self@->Some_0,
    {
        match &self.id {
            Some(id) => Some(id),
            None => None,
        }
    }
}

impl CorrelationIdExtract for RequestScope {
    open spec fn stored_id(&self) -> Option<Seq<char>> {
        self@
    }

    fn correlation_id(&self) -> (r: CorrelationId) {
        match &self.id {
            Some(id) => id.clone(),
            None => {
                assert(false);
                vstd::pervasive::unreached()
            },
        }
    }
}

} // verus!
