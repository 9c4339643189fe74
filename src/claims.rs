use crate::models::UserRole;
use vstd::prelude::*;

verus! {

/// The signed payload of a token: subject id, role and expiry instant
/// (seconds since the Unix epoch).
#[derive(Clone, Debug)]
pub struct Claims {
    pub sub: String,
    pub role: UserRole,
    pub exp: u64,
}

/// A character that can stand in a payload string without escaping.
pub open spec fn plain_char(c: char) -> bool {
    c != '"' && c != '\\' && (c as u32) >= 32
}

pub open spec fn plain(s: Seq<char>) -> bool {
    forall|i: int| 0 <= i < s.len() ==> plain_char(#[trigger] s[i])
}

pub open spec fn is_digit(c: char) -> bool {
    48 <= (c as u32) <= 57
}

pub open spec fn digit_value(c: char) -> nat {
    ((c as u32) - 48) as nat
}

pub open spec fn digit_char(d: nat) -> char {
    if d == 0 { '0' }
    else if d == 1 { '1' }
    else if d == 2 { '2' }
    else if d == 3 { '3' }
    else if d == 4 { '4' }
    else if d == 5 { '5' }
    else if d == 6 { '6' }
    else if d == 7 { '7' }
    else if d == 8 { '8' }
    else { '9' }
}

/// The decimal numeral of `n`, without leading zeros.
pub open spec fn decimal(n: nat) -> Seq<char>
    decreases n,
{
    if n < 10 {
        seq![digit_char(n)]
    } else {
        decimal(n / 10).push(digit_char(n % 10))
    }
}

/// The number that a string of decimal digits denotes.
pub open spec fn digits_value(s: Seq<char>) -> nat
    decreases s.len(),
{
    if s.len() == 0 {
        0
    } else {
        digits_value(s.drop_last()) * 10 + digit_value(s.last())
    }
}

pub open spec fn all_digits(s: Seq<char>) -> bool {
    forall|i: int| 0 <= i < s.len() ==> is_digit(#[trigger] s[i])
}

pub open spec fn role_name(r: UserRole) -> Seq<char> {
    match r {
        UserRole::Student => "Student"@,
        UserRole::Teacher => "Teacher"@,
    }
}

/// The JSON text of a payload: `{"sub":"<sub>","role":"<role>","exp":<exp>}`.
pub open spec fn claims_json(sub: Seq<char>, role: UserRole, exp: u64) -> Seq<char> {
    "{\"sub\":\""@ + sub + "\",\"role\":\""@ + role_name(role) + "\",\"exp\":"@ + decimal(
        exp as nat,
    ) + "}"@
}

proof fn lemma_digit_char(d: nat)
    requires
        d < 10,
    ensures
        is_digit(digit_char(d)),
        digit_value(digit_char(d)) == d,
{
}

/// The numeral of `n` is a nonempty run of digits that denotes `n`.
pub proof fn lemma_decimal(n: nat)
    ensures
        decimal(n).len() >= 1,
        all_digits(decimal(n)),
        digits_value(decimal(n)) == n,
    decreases n,
{
    if n < 10 {
        lemma_digit_char(n);
        let d = decimal(n);
        assert(d.drop_last() =~= Seq::<char>::empty());
        assert(digits_value(d.drop_last()) == 0);
        assert(digits_value(d) == digits_value(d.drop_last()) * 10 + digit_value(d.last()));
    } else {
        lemma_decimal(n / 10);
        lemma_digit_char(n % 10);
        let d = decimal(n);
        assert(d.drop_last() =~= decimal(n / 10));
        assert(d.last() == digit_char(n % 10));
        assert(digits_value(d) == digits_value(d.drop_last()) * 10 + digit_value(d.last()));
        assert(n == (n / 10) * 10 + n % 10);
    }
}

/// A prefix of a run of digits denotes no more than the whole run.
proof fn lemma_digits_prefix(s: Seq<char>, k: int)
    requires
        0 <= k <= s.len(),
    ensures
        digits_value(s.subrange(0, k)) <= digits_value(s),
    decreases s.len(),
{
    if k < s.len() {
        lemma_digits_prefix(s.drop_last(), k);
        assert(s.drop_last().subrange(0, k) =~= s.subrange(0, k));
    } else {
        assert(s.subrange(0, k) =~= s);
    }
}

/// The one-character text of a digit.
fn digit_text(d: u64) -> (r: &'static str)
    requires
        d < 10,
    ensures
        r@ == seq![digit_char(d as nat)],
{
    if d == 0 {
        proof { reveal_strlit("0"); }
        "0"
    } else if d == 1 {
        proof { reveal_strlit("1"); }
        "1"
    } else if d == 2 {
        proof { reveal_strlit("2"); }
        "2"
    } else if d == 3 {
        proof { reveal_strlit("3"); }
        "3"
    } else if d == 4 {
        proof { reveal_strlit("4"); }
        "4"
    } else if d == 5 {
        proof { reveal_strlit("5"); }
        "5"
    } else if d == 6 {
        proof { reveal_strlit("6"); }
        "6"
    } else if d == 7 {
        proof { reveal_strlit("7"); }
        "7"
    } else if d == 8 {
        proof { reveal_strlit("8"); }
        "8"
    } else {
        proof { reveal_strlit("9"); }
        "9"
    }
}

/// Appends the decimal numeral of `n` to `out`.
fn push_decimal(out: &mut String, n: u64)
    ensures
        final(out)@ == old(out)@ + decimal(n as nat),
    decreases n,
{
    if n >= 10 {
        push_decimal(out, n / 10);
    }
    out.append(digit_text(n % 10));
    proof {
        if n >= 10 {
            assert(decimal(n as nat) == decimal((n / 10) as nat).push(digit_char((n % 10) as nat)));
        }
    }
    assert(final(out)@ =~= old(out)@ + decimal(n as nat));
}

/// The JSON text of a payload.
pub fn write_claims(sub: &str, role: UserRole, exp: u64) -> (r: String)
    ensures
        r@ == claims_json(sub@, role, exp),
{
    let mut out = String::from_str("{\"sub\":\"");
    out.append(sub);
    out.append("\",\"role\":\"");
    match role {
        UserRole::Student => out.append("Student"),
        UserRole::Teacher => out.append("Teacher"),
    }
    out.append("\",\"exp\":");
    push_decimal(&mut out, exp);
    out.append("}");
    out
}

/// Whether `a` and `b` hold the same characters.
pub fn same_text(a: &str, b: &str) -> (r: bool)
    ensures
        r == (a@ == b@),
{
    let n = a.unicode_len();
    if n != b.unicode_len() {
        return false;
    }
    let mut i: usize = 0;
    while i < n
        invariant
            n == a@.len(),
            n == b@.len(),
            i <= n,
            a@.subrange(0, i as int) == b@.subrange(0, i as int),
        decreases n - i,
    {
        if a.get_char(i) != b.get_char(i) {
            return false;
        }
        assert(a@.subrange(0, i + 1) =~= a@.subrange(0, i as int).push(a@[i as int]));
        assert(b@.subrange(0, i + 1) =~= b@.subrange(0, i as int).push(b@[i as int]));
        i = i + 1;
    }
    assert(a@ =~= a@.subrange(0, n as int));
    assert(b@ =~= b@.subrange(0, n as int));
    true
}

/// Whether every character of `s` can stand in a payload string.
pub fn is_plain(s: &str) -> (r: bool)
    ensures
        r == plain(s@),
{
    let n = s.unicode_len();
    let mut i: usize = 0;
    while i < n
        invariant
            n == s@.len(),
            i <= n,
            forall|j: int| 0 <= j < i ==> plain_char(#[trigger] s@[j]),
        decreases n - i,
    {
        let c = s.get_char(i);
        if c == '"' || c == '\\' || (c as u32) < 32 {
            return false;
        }
        i = i + 1;
    }
    true
}

/// The first position at or after `from` that holds `c`.
pub fn find_char(s: &str, from: usize, c: char) -> (r: Option<usize>)
    requires
        from <= s@.len(),
    ensures
        match r {
            Some(i) => from <= i < s@.len() && s@[i as int] == c && forall|j: int|
                from <= j < i ==> s@[j] != c,
            None => forall|j: int| from <= j < s@.len() ==> s@[j] != c,
        },
{
    let n = s.unicode_len();
    let mut i: usize = from;
    while i < n
        invariant
            n == s@.len(),
            from <= i <= n,
            forall|j: int| from <= j < i ==> s@[j] != c,
        decreases n - i,
    {
        if s.get_char(i) == c {
            return Some(i);
        }
        i = i + 1;
    }
    None
}

/// The number a run of decimal digits denotes, where it fits in 64 bits.
pub fn parse_decimal(s: &str) -> (r: Option<u64>)
    ensures
        r is Some <==> all_digits(s@) && digits_value(s@) <= u64::MAX,
        r is Some ==> r->0 == digits_value(s@),
{
    let n = s.unicode_len();
    let mut acc: u64 = 0;
    let mut i: usize = 0;
    assert(s@.subrange(0, 0) =~= Seq::<char>::empty());
    while i < n
        invariant
            n == s@.len(),
            i <= n,
            all_digits(s@.subrange(0, i as int)),
            acc == digits_value(s@.subrange(0, i as int)),
        decreases n - i,
    {
        let c = s.get_char(i);
        let v = c as u32;
        let ghost pre = s@.subrange(0, i as int);
        let ghost next = s@.subrange(0, i + 1);
        assert(next.drop_last() =~= pre);
        if v < 48 || v > 57 {
            assert(!is_digit(s@[i as int]));
            return None;
        }
        assert(next =~= pre.push(c));
        assert(digits_value(next) == digits_value(pre) * 10 + digit_value(c));
        let d = (v - 48) as u64;
        match acc.checked_mul(10) {
            Some(m) => match m.checked_add(d) {
                Some(a) => {
                    acc = a;
                },
                None => {
                    proof {
                        if all_digits(s@) {
                            lemma_digits_prefix(s@, i + 1);
                        }
                    }
                    return None;
                },
            },
            None => {
                proof {
                    if all_digits(s@) {
                        lemma_digits_prefix(s@, i + 1);
                    }
                }
                return None;
            },
        }
        i = i + 1;
    }
    assert(s@ =~= s@.subrange(0, n as int));
    Some(acc)
}

/// Where each part of a payload's JSON text stands: the subject begins at
/// 8 and ends at the first quote after it, the role follows 10 characters
/// later, and the numeral runs from 25 past that quote to the last character.
proof fn lemma_claims_layout(sub: Seq<char>, role: UserRole, exp: u64)
    requires
        plain(sub),
    ensures
        ({
            let t = claims_json(sub, role, exp);
            let q = 8 + sub.len() as int;
            &&& t.len() == q + 26 + decimal(exp as nat).len()
            &&& t.subrange(8, q) == sub
            &&& t[q] == '"'
            &&& forall|j: int| 8 <= j < q ==> t[j] != '"'
            &&& t.subrange(q + 10, q + 17) == role_name(role)
            &&& t.subrange(q + 25, t.len() - 1) == decimal(exp as nat)
        }),
{
    reveal_strlit("{\"sub\":\"");
    reveal_strlit("\",\"role\":\"");
    reveal_strlit("\",\"exp\":");
    reveal_strlit("}");
    reveal_strlit("Student");
    reveal_strlit("Teacher");
    let a = "{\"sub\":\""@;
    let b = "\",\"role\":\""@;
    let c = "\",\"exp\":"@;
    let e = "}"@;
    let rn = role_name(role);
    let d = decimal(exp as nat);
    let t = claims_json(sub, role, exp);
    let q = 8 + sub.len() as int;
    assert(rn.len() == 7);
    assert(t =~= a + sub + b + rn + c + d + e);
    assert(t.subrange(8, q) =~= sub);
    assert(t[q] == b[0]);
    assert forall|j: int| 8 <= j < q implies t[j] != '"' by {
        assert(t[j] == sub[j - 8]);
        assert(plain_char(sub[j - 8]));
    }
    assert(t.subrange(q + 10, q + 17) =~= rn);
    assert(t.subrange(q + 25, t.len() - 1) =~= d);
}

/// A payload's JSON text determines its subject, role and expiry.
pub proof fn lemma_claims_json_injective(
    sub1: Seq<char>,
    role1: UserRole,
    exp1: u64,
    sub2: Seq<char>,
    role2: UserRole,
    exp2: u64,
)
    requires
        plain(sub1),
        plain(sub2),
        claims_json(sub1, role1, exp1) == claims_json(sub2, role2, exp2),
    ensures
        sub1 == sub2,
        role1 == role2,
        exp1 == exp2,
{
    lemma_claims_layout(sub1, role1, exp1);
    lemma_claims_layout(sub2, role2, exp2);
    let t = claims_json(sub1, role1, exp1);
    if sub1.len() < sub2.len() {
        assert(t[8 + sub1.len() as int] == '"');
    }
    if sub2.len() < sub1.len() {
        assert(t[8 + sub2.len() as int] == '"');
    }
    assert(sub1.len() == sub2.len());
    reveal_strlit("Student");
    reveal_strlit("Teacher");
    assert(role_name(role1) == role_name(role2));
    if role1 != role2 {
        assert(role_name(role1)[0] != role_name(role2)[0]);
    }
    lemma_decimal(exp1 as nat);
    lemma_decimal(exp2 as nat);
}

/// Reads a payload's JSON text back into claims: exactly the texts that
/// `write_claims` produces for a plain subject are accepted.
pub fn parse_claims(text: &String) -> (r: Option<Claims>)
    ensures
        r is Some ==> plain(r->0.sub@) && text@ == claims_json(r->0.sub@, r->0.role, r->0.exp),
        forall|sub: Seq<char>, role: UserRole, exp: u64|
            plain(sub) && #[trigger] claims_json(sub, role, exp) == text@ ==> r is Some
                && r->0.sub@ == sub && r->0.role == role && r->0.exp == exp,
{
    let ghost well_formed = exists|sub: Seq<char>, role: UserRole, exp: u64|
        plain(sub) && #[trigger] claims_json(sub, role, exp) == text@;
    proof {
        if well_formed {
            let (s0, r0, e0) = choose|sub: Seq<char>, role: UserRole, exp: u64|
                plain(sub) && #[trigger] claims_json(sub, role, exp) == text@;
            lemma_claims_layout(s0, r0, e0);
            lemma_decimal(e0 as nat);
            reveal_strlit("Student");
            reveal_strlit("Teacher");
        }
    }
    let t = text.as_str();
    let n = t.unicode_len();
    if n < 8 {
        return None;
    }
    let q = match find_char(t, 8, '"') {
        Some(q) => q,
        None => return None,
    };
    if n - q < 26 {
        return None;
    }
    let sub = t.substring_char(8, q);
    if !is_plain(sub) {
        return None;
    }
    let role_text = t.substring_char(q + 10, q + 17);
    let role = if same_text(role_text, "Student") {
        UserRole::Student
    } else if same_text(role_text, "Teacher") {
        UserRole::Teacher
    } else {
        return None;
    };
    let exp = match parse_decimal(t.substring_char(q + 25, n - 1)) {
        Some(e) => e,
        None => return None,
    };
    let again = write_claims(sub, role, exp);
    if !same_text(again.as_str(), t) {
        return None;
    }
    let c = Claims { sub: String::from_str(sub), role, exp };
    proof {
        assert forall|sub2: Seq<char>, role2: UserRole, exp2: u64|
            plain(sub2) && #[trigger] claims_json(sub2, role2, exp2) == text@ implies c.sub@ == sub2
            && c.role == role2 && c.exp == exp2 by {
            lemma_claims_json_injective(c.sub@, c.role, c.exp, sub2, role2, exp2);
        }
    }
    Some(c)
}

} // verus!
