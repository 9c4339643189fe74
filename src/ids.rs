use vstd::prelude::*;

verus! {

#[verifier::external_type_specification]
#[verifier::external_body]
pub struct ExUuidError(uuid::Error);

pub open spec fn hex_digit(d: nat) -> char {
    if d == 0 { '0' }
    else if d == 1 { '1' }
    else if d == 2 { '2' }
    else if d == 3 { '3' }
    else if d == 4 { '4' }
    else if d == 5 { '5' }
    else if d == 6 { '6' }
    else if d == 7 { '7' }
    else if d == 8 { '8' }
    else if d == 9 { '9' }
    else if d == 10 { 'a' }
    else if d == 11 { 'b' }
    else if d == 12 { 'c' }
    else if d == 13 { 'd' }
    else if d == 14 { 'e' }
    else { 'f' }
}

/// The last `n` lower-case hex digits of `v`, most significant first.
pub open spec fn hex_digits(v: nat, n: nat) -> Seq<char>
    decreases n,
{
    if n == 0 {
        Seq::empty()
    } else {
        hex_digits(v / 16, (n - 1) as nat).push(hex_digit(v % 16))
    }
}

/// The hyphenated text of a UUID given by its 128-bit value: 32 lower-case
/// hex digits in groups of 8, 4, 4, 4 and 12.
pub open spec fn uuid_text(id: u128) -> Seq<char> {
    let h = hex_digits(id as nat, 32);
    h.subrange(0, 8) + seq!['-'] + h.subrange(8, 12) + seq!['-'] + h.subrange(12, 16) + seq!['-']
        + h.subrange(16, 20) + seq!['-'] + h.subrange(20, 32)
}

/// The value that UUID parsing finds in a text, if any.
pub uninterp spec fn uuid_parsed(s: Seq<char>) -> Option<u128>;

pub open spec fn hex_or_hyphen(c: char) -> bool {
    (48 <= (c as u32) <= 57) || (97 <= (c as u32) <= 102) || c == '-'
}

proof fn lemma_hex_digits(v: nat, n: nat)
    ensures
        hex_digits(v, n).len() == n,
        forall|i: int| 0 <= i < n ==> hex_or_hyphen(#[trigger] hex_digits(v, n)[i]),
    decreases n,
{
    if n > 0 {
        lemma_hex_digits(v / 16, (n - 1) as nat);
        assert(hex_or_hyphen(hex_digit(v % 16)));
    }
}

/// A UUID's text is 36 characters of lower-case hex digits and hyphens.
pub proof fn lemma_uuid_text(id: u128)
    ensures
        uuid_text(id).len() == 36,
        forall|i: int| 0 <= i < 36 ==> hex_or_hyphen(#[trigger] uuid_text(id)[i]),
{
    let h = hex_digits(id as nat, 32);
    lemma_hex_digits(id as nat, 32);
    let t = uuid_text(id);
    assert forall|i: int| 0 <= i < 36 implies hex_or_hyphen(#[trigger] t[i]) by {
        if i < 8 {
            assert(t[i] == h[i]);
        } else if i == 8 || i == 13 || i == 18 || i == 23 {
        } else if i < 13 {
            assert(t[i] == h[i - 1]);
        } else if i < 18 {
            assert(t[i] == h[i - 2]);
        } else if i < 23 {
            assert(t[i] == h[i - 3]);
        } else {
            assert(t[i] == h[i - 4]);
        }
    }
}

/// Relies on uuid::Uuid's Display, which writes the hyphenated lower-case
/// form of the value.
#[verifier::external_body]
pub(crate) fn uuid_string(id: u128) -> (r: String)
    ensures
        r@ == uuid_text(id),
{
    uuid::Uuid::from_u128(id).to_string()
}

/// Relies on uuid::Uuid::parse_str: the result depends on the text alone.
#[verifier::external_body]
pub(crate) fn uuid_parse(s: &str) -> (r: Result<u128, uuid::Error>)
    ensures
        r is Ok <==> uuid_parsed(s@) is Some,
        r is Ok ==> uuid_parsed(s@) == Some(r->Ok_0),
{
    uuid::Uuid::parse_str(s).map(|u| u.as_u128())
}

/// Relies on uuid::Uuid::new_v4 for a fresh random identifier.
#[verifier::external_body]
pub(crate) fn fresh_uuid() -> (r: u128) {
    uuid::Uuid::new_v4().as_u128()
}

/// Relies on chrono::Utc::now: the current time in seconds since the Unix
/// epoch. Nothing is known of the value.
#[verifier::external_body]
pub(crate) fn unix_now() -> (r: i64) {
    chrono::Utc::now().timestamp()
}

} // verus!
