use vstd::prelude::*;
use vstd::string::StringSliceAdditionalSpecFns;

verus! {

/// A byte is visible ASCII when it lies in `0x20..=0x7E`: printable
/// characters and space, no control characters, no byte from `0x7F` on.
pub open spec fn is_visible(b: u8) -> bool {
    0x20 <= b && b <= 0x7E
}

/// Every byte of `b` is visible ASCII.
pub open spec fn all_visible(b: Seq<u8>) -> bool {
    forall|i: int| 0 <= i < b.len() ==> is_visible(#[trigger] b[i])
}

/// `i` is the index of the first byte of `b` that is not visible ASCII.
pub open spec fn is_first_invisible(b: Seq<u8>, i: int) -> bool {
    &&& 0 <= i < b.len()
    &&& !is_visible(b[i])
    &&& forall|j: int| 0 <= j < i ==> is_visible(#[trigger] b[j])
}

/// The text that ASCII bytes spell, one character per byte.
pub open spec fn ascii_text(b: Seq<u8>) -> Seq<char> {
    Seq::new(b.len(), |i: int| b[i] as char)
}

/// A text is a valid correlation ID when it is non-empty and every
/// character is visible ASCII.
pub open spec fn is_valid_text(s: Seq<char>) -> bool {
    &&& s.len() > 0
    &&& forall|i: int| 0 <= i < s.len() ==> ' ' <= #[trigger] s[i] && s[i] <= '~'
}

/// Whether `b` is visible ASCII (`0x20..=0x7E`).
pub fn is_visible_ascii(b: u8) -> (r: bool)
    ensures
        r == is_visible(b),
{
    32 <= b && 127 > b
}

/// Relies on `String::from_utf8_lossy`: bytes that are valid UTF-8 are kept
/// as they are, so ASCII bytes become one character each.
#[verifier::external_body]
fn text_from_bytes(b: &[u8]) -> (r: String)
    ensures
        (forall|i: int| 0 <= i < b@.len() ==> b@[i] < 0x80) ==> r@ == ascii_text(b@),
{
    String::from_utf8_lossy(b).to_string()
}

/// A validated correlation ID: a non-empty text of visible ASCII only.
/// Two IDs are equal when their texts are equal.
#[derive(Debug)]
pub struct CorrelationId {
    value: String,
}

impl Clone for CorrelationId {
    fn clone(&self) -> (r: Self)
        ensures
            r@ == self@,
    {
        proof {
            use_type_invariant(self);
        }
        CorrelationId { value: self.value.clone() }
    }
}

impl View for CorrelationId {
    type V = Seq<char>;

    closed spec fn view(&self) -> Seq<char> {
        self.value@
    }
}

impl PartialEq for CorrelationId {
    fn eq(&self, other: &CorrelationId) -> (r: bool) {
        self.value == other.value
    }
}

impl vstd::std_specs::cmp::PartialEqSpecImpl for CorrelationId {
    open spec fn obeys_eq_spec() -> bool {
        true
    }

    open spec fn eq_spec(&self, other: &CorrelationId) -> bool {
        self@ == other@
    }
}

impl Eq for CorrelationId {

}

/// Why a text is not a correlation ID.
#[derive(Debug, PartialEq, Eq, Structural, Clone, Copy)]
pub enum CorrelationIdError {
    /// The input holds no byte.
    Empty,
    /// The byte at this zero-based index is the first that is not visible ASCII.
    InvisibleAscii(usize),
}

/// The outcome that parsing the bytes `b` must have: `Empty` for no byte,
/// `InvisibleAscii` at the first byte outside `0x20..=0x7E`, and otherwise an
/// ID that spells the bytes.
pub open spec fn parse_outcome(b: Seq<u8>, r: Result<CorrelationId, CorrelationIdError>) -> bool {
    match r {
        Ok(id) => b.len() > 0 && all_visible(b) && id@ == ascii_text(b),
        Err(CorrelationIdError::Empty) => b.len() == 0,
        Err(CorrelationIdError::InvisibleAscii(i)) => is_first_invisible(b, i as int),
    }
}

impl CorrelationId {
    #[verifier::type_invariant]
    spec fn well_formed(self) -> bool {
        is_valid_text(self.value@)
    }

    /// Validates the bytes `value` and keeps them as the ID's text.
    pub fn try_from_bytes(value: &[u8]) -> (r: Result<CorrelationId, CorrelationIdError>)
        ensures
            parse_outcome(value@, r),
    {
        if value.len() == 0 {
            return Err(CorrelationIdError::Empty);
        }
        let mut idx: usize = 0;
        while idx < value.len()
            invariant
                0 <= idx <= value@.len(),
                forall|j: int| 0 <= j < idx ==> is_visible(#[trigger] value@[j]),
            decreases value@.len() - idx,
        {
            if !is_visible_ascii(value[idx]) {
                return Err(CorrelationIdError::InvisibleAscii(idx));
            }
            idx = idx + 1;
        }
        let text = text_from_bytes(value);
        let ghost t = ascii_text(value@);
        assert forall|i: int| 0 <= i < t.len() implies ' ' <= #[trigger] t[i] && t[i] <= '~' by {
            assert(is_visible(value@[i]));
        }
        Ok(CorrelationId { value: text })
    }

    /// Parses a text: its UTF-8 bytes are validated as by `try_from_bytes`.
    pub fn parse(s: &str) -> (r: Result<CorrelationId, CorrelationIdError>)
        ensures
            parse_outcome(s.spec_bytes(), r),
    {
        CorrelationId::try_from_bytes(s.as_bytes())
    }

    /// The ID's text, unchanged.
    pub fn get_value(&self) -> (r: &str)
        ensures
            r@ == self@,
            is_valid_text(r@),
    {
        proof {
            use_type_invariant(self);
        }
        self.value.as_str()
    }

    /// The ID's text as an owned string, unchanged.
    pub fn to_string(&self) -> (r: String)
        ensures
            r@ == self@,
            is_valid_text(r@),
    {
        proof {
            use_type_invariant(self);
        }
        self.value.clone()
    }
}

impl core::str::FromStr for CorrelationId {
    type Err = CorrelationIdError;

    fn from_str(s: &str) -> Result<CorrelationId, CorrelationIdError> {
        CorrelationId::parse(s)
    }
}

// The conversions below are stated by `try_from_bytes` and `parse`; through the
// trait itself no outcome is promised.
impl<'a> vstd::std_specs::convert::TryFromSpecImpl<&'a [u8]> for CorrelationId {
    open spec fn obeys_try_from_spec() -> bool {
        false
    }

    open spec fn try_from_spec(value: &'a [u8]) -> Result<CorrelationId, CorrelationIdError> {
        Err(CorrelationIdError::Empty)
    }
}

impl<'a> TryFrom<&'a [u8]> for CorrelationId {
    type Error = CorrelationIdError;

    fn try_from(value: &'a [u8]) -> Result<CorrelationId, CorrelationIdError> {
        CorrelationId::try_from_bytes(value)
    }
}

impl vstd::std_specs::convert::TryFromSpecImpl<String> for CorrelationId {
    open spec fn obeys_try_from_spec() -> bool {
        false
    }

    open spec fn try_from_spec(s: String) -> Result<CorrelationId, CorrelationIdError> {
        Err(CorrelationIdError::Empty)
    }
}

impl TryFrom<String> for CorrelationId {
    type Error = CorrelationIdError;

    fn try_from(s: String) -> Result<CorrelationId, CorrelationIdError> {
        CorrelationId::parse(s.as_str())
    }
}

/// The decimal digits of `n`, most significant first, as ASCII bytes.
pub open spec fn decimal_digits(n: nat) -> Seq<u8>
    decreases n,
{
    if n < 10 {
        seq![(48 + n) as u8]
    } else {
        decimal_digits(n / 10).push((48 + n % 10) as u8)
    }
}

/// Appends the decimal digits of `n` to `out`.
fn push_decimal(n: usize, out: &mut Vec<u8>)
    ensures
        final(out)@ == old(out)@ + decimal_digits(n as nat),
    decreases n,
{
    if n >= 10 {
        push_decimal(n / 10, out);
    }
    let d: u8 = (n % 10) as u8;
    out.push(48 + d);
    proof {
        assert(final(out)@ =~= old(out)@ + decimal_digits(n as nat));
    }
}

proof fn lemma_decimal_digits_ascii(n: nat)
    ensures
        forall|i: int| 0 <= i < decimal_digits(n).len() ==> #[trigger] decimal_digits(n)[i] < 0x80,
    decreases n,
{
    if n >= 10 {
        lemma_decimal_digits_ascii(n / 10);
        let d = decimal_digits(n);
        assert forall|i: int| 0 <= i < d.len() implies #[trigger] d[i] < 0x80 by {
            if i < d.len() - 1 {
                assert(d[i] == decimal_digits(n / 10)[i]);
            }
        }
    }
}

/// The human-readable message of a validation error.
pub open spec fn error_message(e: CorrelationIdError) -> Seq<char> {
    match e {
        CorrelationIdError::Empty => "correlation ID is empty"@,
        CorrelationIdError::InvisibleAscii(i) => "char at index "@ + ascii_text(
            decimal_digits(i as nat),
        ) + " is non-visible ASCII"@,
    }
}

impl CorrelationIdError {
    /// The human-readable message of this error.
    pub fn message(&self) -> (r: String)
        ensures
            r@ == error_message(*self),
    {
        match self {
            CorrelationIdError::Empty => {
                proof {
                    reveal_strlit("correlation ID is empty");
                }
                String::from_str("correlation ID is empty")
            },
            CorrelationIdError::InvisibleAscii(i) => {
                let mut digits: Vec<u8> = Vec::new();
                push_decimal(*i, &mut digits);
                proof {
                    assert(digits@ =~= decimal_digits(*i as nat));
                    lemma_decimal_digits_ascii(*i as nat);
                }
                let number = text_from_bytes(digits.as_slice());
                let mut text = String::from_str("char at index ");
                text.append(number.as_str());
                text.append(" is non-visible ASCII");
                text
            },
        }
    }
}

/// Parsing a non-empty sequence of visible ASCII bytes succeeds, and the text
/// of the resulting ID is exactly those bytes.
pub proof fn lemma_visible_bytes_parse(b: Seq<u8>, r: Result<CorrelationId, CorrelationIdError>)
    requires
        b.len() > 0,
        all_visible(b),
        parse_outcome(b, r),
    ensures
        r is Ok,
        r->Ok_0@ == ascii_text(b),
{
}

/// Parsing bytes whose first byte outside visible ASCII stands at index `i`
/// fails with `InvisibleAscii(i)`.
pub proof fn lemma_first_invisible_reported(
    b: Seq<u8>,
    i: int,
    r: Result<CorrelationId, CorrelationIdError>,
)
    requires
        is_first_invisible(b, i),
        parse_outcome(b, r),
    ensures
        r == Err::<CorrelationId, CorrelationIdError>(CorrelationIdError::InvisibleAscii(i as usize)),
{
    match r {
        Ok(_) => {
            assert(is_visible(b[i]));
        },
        Err(CorrelationIdError::Empty) => {},
        Err(CorrelationIdError::InvisibleAscii(k)) => {
            if (k as int) < i {
                assert(is_visible(b[k as int]));
            } else if (k as int) > i {
                assert(is_visible(b[i]));
            }
        },
    }
}

/// A byte outside visible ASCII at `k` means that some byte is the first one.
pub proof fn lemma_first_invisible_exists(b: Seq<u8>, k: int)
    requires
        0 <= k < b.len(),
        !is_visible(b[k]),
    ensures
        exists|i: int| is_first_invisible(b, i),
    decreases k,
{
    if forall|j: int| 0 <= j < k ==> is_visible(#[trigger] b[j]) {
        assert(is_first_invisible(b, k));
    } else {
        let j = choose|j: int| 0 <= j < k && !is_visible(#[trigger] b[j]);
        lemma_first_invisible_exists(b, j);
    }
}

/// Parsing no bytes at all fails with `Empty`.
pub proof fn lemma_empty_rejected(b: Seq<u8>, r: Result<CorrelationId, CorrelationIdError>)
    requires
        b.len() == 0,
        parse_outcome(b, r),
    ensures
        r == Err::<CorrelationId, CorrelationIdError>(CorrelationIdError::Empty),
{
}

} // verus!
