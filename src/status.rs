//! HTTP status codes as plain values, and their decimal rendering.
use vstd::prelude::*;

verus! {

/// The character of a decimal digit `d < 10`.
pub open spec fn digit_char(d: nat) -> char {
    seq!['0', '1', '2', '3', '4', '5', '6', '7', '8', '9'][d as int]
}

/// The decimal rendering of `n`: no sign, no leading zeros, "0" for zero.
pub open spec fn decimal_digits(n: nat) -> Seq<char>
    decreases n,
{
    if n < 10 {
        seq![digit_char(n)]
    } else {
        decimal_digits(n / 10) + seq![digit_char(n % 10)]
    }
}

/// Renders `n` in decimal.
/// Relies on std's `Display` for `usize` (via `ToString`), which writes the
/// plain decimal digits of the number.
#[verifier::external_body]
pub(crate) fn decimal_string(n: usize) -> (r: String)
    ensures
        r@ == decimal_digits(n as nat),
{
    n.to_string()
}

/// The canonical reason phrase that http's `StatusCode` gives a code
/// ("Internal Server Error" for 500, "<unknown status code>" where it knows none).
pub uninterp spec fn canonical_reason_of(code: u16) -> Seq<char>;

/// The status line of a valid code: its three digits, a space, its reason phrase.
pub open spec fn status_line_of(code: u16) -> Seq<char> {
    decimal_digits(code as nat) + seq![' '] + canonical_reason_of(code)
}

/// Relies on `http::StatusCode::from_u16`, which accepts exactly the codes
/// 100 through 999, and on its `Display`, which writes
/// `"{code} {canonical reason}"`.
#[verifier::external_body]
fn status_line(code: u16) -> (r: String)
    requires
        100 <= code <= 999,
    ensures
        r@ == decimal_digits(code as nat) + seq![' '] + canonical_reason_of(code),
{
    match reqwest::StatusCode::from_u16(code) {
        Ok(status) => status.to_string(),
        Err(_) => String::new(),
    }
}

/// An HTTP status code: always within 100 through 999.
pub struct Status {
    code: u16,
}

impl Status {
    #[verifier::type_invariant]
    spec fn valid(self) -> bool {
        100 <= self.code <= 999
    }

    /// The numeric code.
    pub closed spec fn view_code(self) -> u16 {
        self.code
    }

    /// The status of `code`, where `code` is a valid status code.
    pub fn from_u16(code: u16) -> (r: Option<Status>)
        ensures
            r.is_some() <==> 100 <= code <= 999,
            r matches Some(s) ==> s.view_code() == code,
    {
        if 100 <= code && code <= 999 {
            Some(Status { code })
        } else {
            None
        }
    }

    /// 500 Internal Server Error.
    pub fn internal_server_error() -> (r: Status)
        ensures
            r.view_code() == 500,
    {
        Status { code: 500 }
    }

    /// The numeric code.
    pub fn as_u16(&self) -> (r: u16)
        ensures
            r == self.view_code(),
            100 <= r <= 999,
    {
        proof {
            use_type_invariant(self);
        }
        self.code
    }

    /// The status line: the code, a space and the canonical reason phrase.
    pub fn to_line(&self) -> (r: String)
        ensures
            r@ == status_line_of(self.view_code()),
    {
        proof {
            use_type_invariant(self);
        }
        status_line(self.code)
    }
}

/// A status line is never empty: it starts with the code's digits.
pub proof fn lemma_status_line_nonempty(code: u16)
    ensures
        status_line_of(code).len() > 0,
{
    lemma_decimal_nonempty(code as nat);
}

/// A decimal rendering has at least one digit.
pub proof fn lemma_decimal_nonempty(n: nat)
    ensures
        decimal_digits(n).len() >= 1,
    decreases n,
{
    if n >= 10 {
        lemma_decimal_nonempty(n / 10);
    }
}

} // verus!
