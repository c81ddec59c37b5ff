use vstd::prelude::*;
use vstd::string::StringSliceAdditionalSpecFns;
use crate::correlation_id::{
    CorrelationId, CorrelationIdError, all_visible, ascii_text, is_visible,
};

verus! {

/// A source of fresh correlation IDs, chosen when the policy is configured.
pub trait CorrelationIdGenerator {
    /// What this generator promises of each of its answers. A generator that
    /// promises nothing keeps the default.
    open spec fn promises(&self, r: Result<CorrelationId, CorrelationIdError>) -> bool {
        true
    }

    /// Produces a new correlation ID, or the reason none could be made.
    fn generate_correlation_id(&self) -> (r: Result<CorrelationId, CorrelationIdError>)
        ensures
            self.promises(r),
    ;
}

/// A lowercase hexadecimal digit.
pub open spec fn is_lower_hex(c: char) -> bool {
    ('0' <= c && c <= '9') || ('a' <= c && c <= 'f')
}

/// The text of a UUID in its simple form: 32 lowercase hexadecimal digits.
pub open spec fn is_simple_uuid_text(s: Seq<char>) -> bool {
    &&& s.len() == 32
    &&& forall|i: int| 0 <= i < s.len() ==> is_lower_hex(#[trigger] s[i])
}

/// The text of a version 4 UUID in simple form: 32 lowercase hexadecimal
/// digits, the version digit `4` at index 12 and a variant digit of `8`, `9`,
/// `a` or `b` at index 16.
pub open spec fn is_v4_simple_uuid_text(s: Seq<char>) -> bool {
    &&& is_simple_uuid_text(s)
    &&& s[12] == '4'
    &&& (s[16] == '8' || s[16] == '9' || s[16] == 'a' || s[16] == 'b')
}

/// Relies on uuid's `Uuid::new_v4` and the `Display` of `Simple`: a random
/// version 4 UUID (version and variant bits set by `new_v4`, digits written
/// most significant first), as 32 lowercase hexadecimal digits without
/// hyphens. It panics only where the system's source of randomness fails.
#[verifier::external_body]
fn random_simple_uuid() -> (r: String)
    ensures
        is_v4_simple_uuid_text(r@),
{
    uuid::Uuid::new_v4().simple().to_string()
}

/// The default generator: a random version 4 UUID in simple form.
#[derive(Debug, PartialEq, Eq, Structural, Clone, Copy)]
pub struct UuidCorrelationIdGenerator;

impl UuidCorrelationIdGenerator {
    /// A fresh ID: a random version 4 UUID as 32 lowercase hexadecimal digits.
    pub fn generate(&self) -> (r: CorrelationId)
        ensures
            is_v4_simple_uuid_text(r@),
    {
        broadcast use vstd::string::is_ascii_spec_bytes;

        let text = random_simple_uuid();
        let s = text.as_str();
        assert(vstd::string::is_ascii(s));
        let ghost bytes = s.spec_bytes();
        assert(bytes =~= Seq::new(s@.len(), |i: int| s@[i] as u8));
        assert(all_visible(bytes)) by {
            assert forall|i: int| 0 <= i < bytes.len() implies is_visible(#[trigger] bytes[i]) by {
                assert(is_lower_hex(s@[i]));
            }
        }
        let parsed = CorrelationId::parse(s);
        assert(parsed is Ok);
        let id = parsed.unwrap();
        assert(id@ =~= s@) by {
            assert forall|i: int| 0 <= i < s@.len() implies #[trigger] id@[i] == s@[i] by {
                assert(is_lower_hex(s@[i]));
                assert(ascii_text(bytes)[i] == (s@[i] as u8) as char);
            }
        }
        id
    }
}

impl CorrelationIdGenerator for UuidCorrelationIdGenerator {
    /// This generator always succeeds, with a version 4 UUID in simple form.
    open spec fn promises(&self, r: Result<CorrelationId, CorrelationIdError>) -> bool {
        r is Ok && is_v4_simple_uuid_text(r->Ok_0@)
    }

    fn generate_correlation_id(&self) -> (r: Result<CorrelationId, CorrelationIdError>) {
        Ok(self.generate())
    }
}

} // verus!
