use vstd::prelude::*;
use crate::config::Correlation;
use crate::correlation_id::{
    CorrelationId, CorrelationIdError, all_visible, ascii_text, error_message, is_first_invisible, is_visible,
    lemma_first_invisible_exists,
};
use crate::generator::{
    CorrelationIdGenerator, UuidCorrelationIdGenerator, is_v4_simple_uuid_text,
};

verus! {

/// The class of a rejected request.
#[derive(Debug, PartialEq, Eq, Structural, Clone, Copy)]
pub enum Status {
    /// The client sent no usable ID (400).
    BadRequest,
    /// No ID could be generated (500).
    InternalServerError,
}

impl Status {
    /// The HTTP status code of this class.
    pub fn code(&self) -> (r: u16)
        ensures
            r == (match *self {
                Status::BadRequest => 400u16,
                Status::InternalServerError => 500u16,
            }),
    {
        match self {
            Status::BadRequest => 400,
            Status::InternalServerError => 500,
        }
    }
}

/// Why a request was refused before any handler ran, with a plain-text message.
#[derive(Debug)]
pub struct Rejection {
    pub status: Status,
    pub message: String,
}

/// A header value can be read as text when each byte is visible ASCII or a
/// horizontal tab, as the HTTP header types decide it.
pub open spec fn is_header_text(v: Seq<u8>) -> bool {
    forall|i: int| 0 <= i < v.len() ==> (0x20 <= #[trigger] v[i] && v[i] < 0x7F) || v[i] == 0x09
}

/// The message for a header value that cannot be read as text.
pub open spec fn non_visible_message(name: Seq<char>) -> Seq<char> {
    "value of header '"@ + name + "' contains non-visible ASCII chars"@
}

/// The message for a required header that is missing.
pub open spec fn required_message(name: Seq<char>) -> Seq<char> {
    "header '"@ + name + "' is required"@
}

/// `r` is a rejection of class `status` with the message `message`.
pub open spec fn is_rejection(
    r: Result<CorrelationId, Rejection>,
    status: Status,
    message: Seq<char>,
) -> bool {
    r is Err && r->Err_0.status == status && r->Err_0.message@ == message
}

/// The outcome owed for a request whose ID header, named `name`, holds `v`:
/// unreadable text and invalid IDs are the client's fault, a valid ID is kept.
pub open spec fn header_outcome(
    name: Seq<char>,
    v: Seq<u8>,
    r: Result<CorrelationId, Rejection>,
) -> bool {
    if !is_header_text(v) {
        is_rejection(r, Status::BadRequest, non_visible_message(name))
    } else if v.len() == 0 {
        is_rejection(r, Status::BadRequest, error_message(CorrelationIdError::Empty))
    } else if all_visible(v) {
        r is Ok && r->Ok_0@ == ascii_text(v)
    } else {
        forall|i: int|
            #![trigger is_first_invisible(v, i)]
            is_first_invisible(v, i) ==> is_rejection(
                r,
                Status::BadRequest,
                error_message(CorrelationIdError::InvisibleAscii(i as usize)),
            )
    }
}

/// The outcome owed once the generator has answered `generated`: its ID is
/// kept, its failure is the server's fault.
pub open spec fn generated_outcome(
    generated: Result<CorrelationId, CorrelationIdError>,
    r: Result<CorrelationId, Rejection>,
) -> bool {
    match generated {
        Ok(id) => r is Ok && r->Ok_0@ == id@,
        Err(e) => is_rejection(r, Status::InternalServerError, error_message(e)),
    }
}

/// Whether a header value reads as text (visible ASCII or tab throughout).
fn header_value_is_text(v: &[u8]) -> (r: bool)
    ensures
        r == is_header_text(v@),
{
    let mut i: usize = 0;
    while i < v.len()
        invariant
            0 <= i <= v@.len(),
            forall|j: int| 0 <= j < i ==> (0x20 <= #[trigger] v@[j] && v@[j] < 0x7F) || v@[j] == 0x09,
        decreases v@.len() - i,
    {
        let b = v[i];
        if !((32 <= b && b < 127) || b == 9) {
            return false;
        }
        i = i + 1;
    }
    true
}

fn header_message(prefix: &str, name: &str, suffix: &str) -> (r: String)
    ensures
        r@ == prefix@ + name@ + suffix@,
{
    let mut text = String::from_str(prefix);
    text.append(name);
    text.append(suffix);
    text
}

/// Turns the value of the ID header named `header_name` into an ID, or into
/// the client error that refuses the request.
pub fn try_header_value_to_correlation_id(header_name: &str, header_value: &[u8]) -> (r: Result<
    CorrelationId,
    Rejection,
>)
    ensures
        header_outcome(header_name@, header_value@, r),
{
    if !header_value_is_text(header_value) {
        proof {
            reveal_strlit("value of header '");
            reveal_strlit("' contains non-visible ASCII chars");
        }
        let message = header_message(
            "value of header '",
            header_name,
            "' contains non-visible ASCII chars",
        );
        return Err(Rejection { status: Status::BadRequest, message });
    }
    match CorrelationId::try_from_bytes(header_value) {
        Ok(id) => Ok(id),
        Err(e) => {
            let message = e.message();
            proof {
                if let CorrelationIdError::InvisibleAscii(k) = e {
                    assert forall|i: int| is_first_invisible(header_value@, i) implies i == k as int by {
                        if i < k as int {
                            assert(crate::correlation_id::is_visible(header_value@[i]));
                        } else if i > k as int {
                            assert(crate::correlation_id::is_visible(header_value@[k as int]));
                        }
                    }
                }
            }
            Err(Rejection { status: Status::BadRequest, message })
        },
    }
}

/// Turns what the generator answered into the request's ID, or into the
/// server error that refuses the request.
pub fn try_generate_correlation_id(generated: Result<CorrelationId, CorrelationIdError>) -> (r:
    Result<CorrelationId, Rejection>)
    ensures
        generated_outcome(generated, r),
{
    match generated {
        Ok(id) => Ok(id),
        Err(e) => Err(Rejection { status: Status::InternalServerError, message: e.message() }),
    }
}

/// The outcome owed for a request whose ID header holds `header` (`None` when
/// absent) under the policy `config`: the header decides when present; when
/// absent, a policy that requires it rejects the request, and otherwise the
/// outcome follows one of the answers that the generator promises.
pub open spec fn obtain_outcome<G: CorrelationIdGenerator>(
    config: Correlation<G>,
    header: Option<Seq<u8>>,
    r: Result<CorrelationId, Rejection>,
) -> bool {
    match header {
        Some(v) => header_outcome(config@.request_header_name, v, r),
        None => if config@.enforce_request_header {
            is_rejection(r, Status::BadRequest, required_message(config@.request_header_name))
        } else {
            exists|generated: Result<CorrelationId, CorrelationIdError>|
                config.spec_generator().promises(generated) && generated_outcome(generated, r)
        },
    }
}

/// Resolves the ID of a request whose ID header holds `header` (`None` when
/// absent): from the header, by rejecting a request that must carry it, or
/// from the policy's generator.
pub fn try_obtain_correlation_id<G: CorrelationIdGenerator>(
    config: &Correlation<G>,
    header: Option<&[u8]>,
) -> (r: Result<CorrelationId, Rejection>)
    ensures
        obtain_outcome(
            *config,
            match header {
                Some(v) => Some(v@),
                None => None,
            },
            r,
        ),
{
    let header_name = config.get_request_header_name();
    match header {
        Some(value) => try_header_value_to_correlation_id(header_name, value),
        None => {
            if config.is_request_header_enforced() {
                proof {
                    reveal_strlit("header '");
                    reveal_strlit("' is required");
                }
                let message = header_message("header '", header_name, "' is required");
                Err(Rejection { status: Status::BadRequest, message })
            } else {
                let generated = config.generator().generate_correlation_id();
                try_generate_correlation_id(generated)
            }
        },
    }
}

/// The header that the response carries once the request completes: the
/// configured response header set to the ID's text, or none at all when the
/// policy leaves the ID out of responses.
pub fn response_header<G: CorrelationIdGenerator>(
    config: &Correlation<G>,
    id: &CorrelationId,
) -> (r: Option<(String, String)>)
    ensures
        config@.include_in_response ==> r is Some && r->Some_0.0@ == config@.response_header_name
            && r->Some_0.1@ == id@,
        !config@.include_in_response ==> r is None,
{
    if config.is_included_in_response() {
        Some((String::from_str(config.get_response_header_name()), id.to_string()))
    } else {
        None
    }
}

/// A request whose ID header holds a byte outside visible ASCII is refused as
/// a client error, so no handler runs for it.
pub proof fn lemma_invisible_header_rejected(
    name: Seq<char>,
    v: Seq<u8>,
    k: int,
    r: Result<CorrelationId, Rejection>,
)
    requires
        0 <= k < v.len(),
        !is_visible(v[k]),
        header_outcome(name, v, r),
    ensures
        r is Err,
        r->Err_0.status == Status::BadRequest,
{
    lemma_first_invisible_exists(v, k);
    let i = choose|i: int| is_first_invisible(v, i);
    assert(is_first_invisible(v, i));
}

/// With the default generator, a request that lacks the ID header under a
/// policy that does not require it is never refused: its ID is a fresh
/// version 4 UUID in simple form.
pub proof fn lemma_missing_header_generates_uuid(
    config: Correlation<UuidCorrelationIdGenerator>,
    r: Result<CorrelationId, Rejection>,
)
    requires
        !config@.enforce_request_header,
        obtain_outcome(config, None, r),
    ensures
        r is Ok,
        is_v4_simple_uuid_text(r->Ok_0@),
{
    let generated = choose|generated: Result<CorrelationId, CorrelationIdError>|
        config.spec_generator().promises(generated) && generated_outcome(generated, r);
    assert(generated is Ok);
}

} // verus!
