//! The claims segment of a token: a flat JSON object, in the compact form
//! token issuers emit (no whitespace, no escape sequences, scalar values
//! only). The verifier needs two members: `"uid"`, a string, and `"exp"`,
//! a non-negative integer of seconds. Other members are allowed and
//! ignored; of a repeated key the first occurrence decides.

use vstd::prelude::*;

verus! {

/// ASCII decimal digit.
pub open spec fn is_digit(c: u8) -> bool {
    0x30 <= c <= 0x39
}

/// Byte allowed inside a string: printable ASCII except the quote and the
/// backslash (escape sequences are not part of the accepted form).
pub open spec fn is_string_byte(c: u8) -> bool {
    0x20 <= c <= 0x7e && c != 0x22 && c != 0x5c
}

/// Index of the quote closing a string whose content starts at `i`, or
/// `None` when no closing quote follows over string bytes.
pub open spec fn string_end(s: Seq<u8>, i: int) -> Option<int>
    decreases s.len() - i,
{
    if i < 0 || i >= s.len() {
        None
    } else if s[i] == 0x22 {
        Some(i)
    } else if is_string_byte(s[i]) {
        string_end(s, i + 1)
    } else {
        None
    }
}

/// First index at or after `i` that does not hold a digit.
pub open spec fn number_end(s: Seq<u8>, i: int) -> int
    decreases s.len() - i,
{
    if i < 0 || i >= s.len() {
        i
    } else if is_digit(s[i]) {
        number_end(s, i + 1)
    } else {
        i
    }
}

/// Value of the digit run `s[i .. j)`.
pub open spec fn number_val(s: Seq<u8>, i: int, j: int) -> int
    decreases j - i,
{
    if j <= i {
        0
    } else {
        number_val(s, i, j - 1) * 10 + (s[j - 1] - 0x30)
    }
}

/// A scalar member value: a string or an integer.
pub enum JsonScalar {
    Str(Seq<u8>),
    Num(u64),
}

/// The scalar starting at `i` and the index just past it, or `None` when
/// none starts there (including an integer too large for 64 bits).
pub open spec fn scalar_end(s: Seq<u8>, i: int) -> Option<(JsonScalar, int)> {
    if i < 0 || i >= s.len() {
        None
    } else if s[i] == 0x22 {
        match string_end(s, i + 1) {
            Some(j) => Some((JsonScalar::Str(s.subrange(i + 1, j)), j + 1)),
            None => None,
        }
    } else if is_digit(s[i]) {
        let j: int = number_end(s, i);
        if number_val(s, i, j) <= u64::MAX {
            Some((JsonScalar::Num(number_val(s, i, j) as u64), j))
        } else {
            None
        }
    } else {
        None
    }
}

/// The key of the subject-identifier member.
pub open spec fn uid_key() -> Seq<u8> {
    seq![0x75u8, 0x69u8, 0x64u8]
}

/// The key of the expiry member.
pub open spec fn exp_key() -> Seq<u8> {
    seq![0x65u8, 0x78u8, 0x70u8]
}

/// Walk the members of the object from position `i` (which must start a
/// key), remembering the first `uid` string and the first `exp` integer.
/// `None` is any malformed input, including a first `uid` that is not a
/// string or a first `exp` that is not an integer.
pub open spec fn members_end(
    s: Seq<u8>,
    i: int,
    uid: Option<Seq<u8>>,
    exp: Option<u64>,
) -> Option<(Option<Seq<u8>>, Option<u64>)>
    decreases s.len() - i,
{
    if i < 0 || i >= s.len() {
        None
    } else if s[i] != 0x22 {
        None
    } else {
        match string_end(s, i + 1) {
            None => None,
            Some(j) => {
                let key = s.subrange(i + 1, j);
                let k2: int = j + 1;
                if k2 >= s.len() || s[k2] != 0x3a {
                    None
                } else {
                    match scalar_end(s, k2 + 1) {
                        None => None,
                        Some((v, m)) => {
                            if key == uid_key() && uid is None && !(v is Str) {
                                None
                            } else if key == exp_key() && exp is None && !(v is Num) {
                                None
                            } else {
                                let uid2 = if key == uid_key() && uid is None {
                                    Some(v->Str_0)
                                } else {
                                    uid
                                };
                                let exp2 = if key == exp_key() && exp is None {
                                    Some(v->Num_0)
                                } else {
                                    exp
                                };
                                if m >= s.len() {
                                    None
                                } else if s[m] == 0x2c {
                                    if i < m {
                                        members_end(s, m + 1, uid2, exp2)
                                    } else {
                                        None
                                    }
                                } else if s[m] == 0x7d {
                                    if m + 1 == s.len() {
                                        Some((uid2, exp2))
                                    } else {
                                        None
                                    }
                                } else {
                                    None
                                }
                            }
                        },
                    }
                }
            },
        }
    }
}

/// The subject identifier and expiry carried by a claims segment, or
/// `None` when the segment is not an accepted object or lacks either
/// member.
pub open spec fn claims_of(s: Seq<u8>) -> Option<(Seq<u8>, u64)> {
    if s.len() < 2 || s[0] != 0x7b {
        None
    } else {
        match members_end(s, 1, None, None) {
            Some((Some(u), Some(e))) => Some((u, e)),
            _ => None,
        }
    }
}

/// Decoded claims of a verified token.
#[derive(Clone, Debug, PartialEq, Eq)]
pub struct Claims {
    /// Subject identifier, a byte string.
    pub uid: Vec<u8>,
    /// Expiry, absolute seconds.
    pub exp: u64,
}

/// A digit run's value never shrinks as the run grows, and is never
/// negative.
proof fn lemma_number_val_mono(s: Seq<u8>, i: int, k: int, j: int)
    requires
        i <= k <= j,
        forall|x: int| i <= x < j ==> #[trigger] is_digit(s[x]),
    ensures
        number_val(s, i, j) >= number_val(s, i, k) >= 0,
    decreases j - k,
{
    if k == j {
        lemma_number_val_nonneg(s, i, k);
    } else {
        lemma_number_val_mono(s, i, k, j - 1);
        assert(is_digit(s[j - 1]));
    }
}

/// A digit run's value is non-negative.
proof fn lemma_number_val_nonneg(s: Seq<u8>, i: int, j: int)
    requires
        forall|x: int| i <= x < j ==> #[trigger] is_digit(s[x]),
    ensures
        number_val(s, i, j) >= 0,
    decreases j - i,
{
    if j > i {
        lemma_number_val_nonneg(s, i, j - 1);
        assert(is_digit(s[j - 1]));
    }
}

/// Executable check of [`is_string_byte`].
fn byte_is_string_byte(c: u8) -> (r: bool)
    ensures
        r == is_string_byte(c),
{
    0x20 <= c && c <= 0x7e && c != 0x22 && c != 0x5c
}

/// Scan the string whose opening quote stands at `q`; return its content
/// and the index just past the closing quote.
fn scan_string(s: &[u8], q: usize) -> (r: Option<(Vec<u8>, usize)>)
    requires
        q < s@.len(),
        s@[q as int] == 0x22,
    ensures
        match r {
            Some(p) => {
                &&& string_end(s@, q + 1) == Some(p.1 - 1)
                &&& p.0@ == s@.subrange(q + 1, p.1 - 1)
                &&& q + 1 < p.1 <= s@.len()
            },
            None => string_end(s@, q + 1) is None,
        },
{
    let n = s.len();
    let mut j: usize = q + 1;
    while j < n && byte_is_string_byte(s[j])
        invariant
            q + 1 <= j <= n,
            n == s@.len(),
            string_end(s@, q + 1) == string_end(s@, j as int),
            forall|k: int| q + 1 <= k < j ==> is_string_byte(s@[k]),
        decreases n - j,
    {
        j = j + 1;
    }
    if j < n && s[j] == 0x22 {
        let content = vstd::slice::slice_to_vec(vstd::slice::slice_subrange(s, q + 1, j));
        Some((content, j + 1))
    } else {
        None
    }
}

/// Scan the digit run starting at `i`; return its value and the index just
/// past it, or `None` when the value does not fit in 64 bits.
fn scan_number(s: &[u8], i: usize) -> (r: Option<(u64, usize)>)
    requires
        i < s@.len(),
        is_digit(s@[i as int]),
    ensures
        match r {
            Some(p) => {
                &&& number_end(s@, i as int) == p.1
                &&& number_val(s@, i as int, p.1 as int) == p.0
                &&& i < p.1 <= s@.len()
            },
            None => number_val(s@, i as int, number_end(s@, i as int)) > u64::MAX,
        },
{
    let n = s.len();
    let mut j: usize = i;
    let mut acc: u64 = 0;
    while j < n && 0x30 <= s[j] && s[j] <= 0x39
        invariant
            i <= j <= n,
            n == s@.len(),
            j == i ==> j < n && is_digit(s@[j as int]),
            number_end(s@, i as int) == number_end(s@, j as int),
            number_val(s@, i as int, j as int) == acc,
            forall|x: int| i <= x < j ==> 0 <= x < s@.len() && is_digit(s@[x]),
        decreases n - j,
    {
        let d = s[j] - 0x30;
        if acc > (u64::MAX - d as u64) / 10 {
            proof {
                lemma_number_end_digits(s@, j + 1);
                assert(number_end(s@, j as int) == number_end(s@, j + 1));
                assert(number_val(s@, i as int, j + 1) == acc * 10 + d);
                assert(acc * 10 + d > u64::MAX) by {
                    let x: int = u64::MAX - d;
                    let q: int = x / 10;
                    vstd::arithmetic::div_mod::lemma_fundamental_div_mod(x, 10);
                    assert(acc >= q + 1);
                    assert(acc * 10 >= (q + 1) * 10) by (nonlinear_arith)
                        requires
                            acc >= q + 1,
                    ;
                };
                lemma_number_val_mono(s@, i as int, j + 1, number_end(s@, i as int));
            }
            return None;
        }
        acc = acc * 10 + d as u64;
        j = j + 1;
    }
    Some((acc, j))
}

/// A digit run stays inside the sequence and holds only digits.
proof fn lemma_number_end_digits(s: Seq<u8>, i: int)
    requires
        0 <= i <= s.len(),
    ensures
        i <= number_end(s, i) <= s.len(),
        forall|x: int| i <= x < number_end(s, i) ==> 0 <= x < s.len() && is_digit(s[x]),
    decreases s.len() - i,
{
    if i < s.len() && is_digit(s[i]) {
        lemma_number_end_digits(s, i + 1);
    }
}

/// A scalar member value, executable form.
pub enum JsonValue {
    Str(Vec<u8>),
    Num(u64),
}

impl View for JsonValue {
    type V = JsonScalar;

    open spec fn view(&self) -> JsonScalar {
        match self {
            JsonValue::Str(v) => JsonScalar::Str(v@),
            JsonValue::Num(n) => JsonScalar::Num(*n),
        }
    }
}

/// Scan the scalar starting at `i`.
fn scan_scalar(s: &[u8], i: usize) -> (r: Option<(JsonValue, usize)>)
    requires
        i <= s@.len(),
    ensures
        match r {
            Some(p) => scalar_end(s@, i as int) == Some((p.0@, p.1 as int)) && i < p.1 <= s@.len(),
            None => scalar_end(s@, i as int) is None,
        },
{
    if i >= s.len() {
        return None;
    }
    let c = s[i];
    if c == 0x22 {
        match scan_string(s, i) {
            Some((content, next)) => Some((JsonValue::Str(content), next)),
            None => None,
        }
    } else if 0x30 <= c && c <= 0x39 {
        match scan_number(s, i) {
            Some((val, next)) => Some((JsonValue::Num(val), next)),
            None => None,
        }
    } else {
        None
    }
}

/// Does `key` hold exactly the three bytes `a`, `b`, `c`?
fn key_is(key: &Vec<u8>, a: u8, b: u8, c: u8) -> (r: bool)
    ensures
        r == (key@ == seq![a, b, c]),
{
    if key.len() == 3 && key[0] == a && key[1] == b && key[2] == c {
        proof {
            assert(key@ =~= seq![a, b, c]);
        }
        true
    } else {
        false
    }
}

/// View of an optional byte vector.
pub open spec fn opt_bytes_view(o: &Option<Vec<u8>>) -> Option<Seq<u8>> {
    match o {
        Some(v) => Some(v@),
        None => None,
    }
}

/// Walk the members from position `i`, mirroring [`members_end`].
fn parse_members(s: &[u8], i: usize, uid: Option<Vec<u8>>, exp: Option<u64>) -> (r: Option<
    (Option<Vec<u8>>, Option<u64>),
>)
    ensures
        match r {
            Some(p) => members_end(s@, i as int, opt_bytes_view(&uid), exp) == Some(
                (opt_bytes_view(&p.0), p.1),
            ),
            None => members_end(s@, i as int, opt_bytes_view(&uid), exp) is None,
        },
    decreases s@.len() - i,
{
    let n = s.len();
    if i >= n {
        return None;
    }
    if s[i] != 0x22 {
        return None;
    }
    let (key, k2) = match scan_string(s, i) {
        Some(p) => p,
        None => {
            return None;
        },
    };
    if k2 >= n {
        return None;
    }
    if s[k2] != 0x3a {
        return None;
    }
    let (val, m) = match scan_scalar(s, k2 + 1) {
        Some(p) => p,
        None => {
            return None;
        },
    };
    let ghost val_view = val@;
    let is_uid = key_is(&key, 0x75, 0x69, 0x64);
    let is_exp = key_is(&key, 0x65, 0x78, 0x70);
    let mut uid2 = uid;
    let mut exp2 = exp;
    if is_uid && uid2.is_none() {
        match val {
            JsonValue::Str(u) => {
                uid2 = Some(u);
            },
            JsonValue::Num(_) => {
                return None;
            },
        }
    } else if is_exp && exp2.is_none() {
        match val {
            JsonValue::Num(e) => {
                exp2 = Some(e);
            },
            JsonValue::Str(_) => {
                return None;
            },
        }
    }
    if m >= n {
        return None;
    }
    if s[m] == 0x2c {
        parse_members(s, m + 1, uid2, exp2)
    } else if s[m] == 0x7d {
        if m + 1 == n {
            Some((uid2, exp2))
        } else {
            None
        }
    } else {
        None
    }
}

/// Parse a claims segment. Returns the claims exactly when [`claims_of`]
/// accepts the segment, and `None` exactly when it does not.
pub fn parse_claims(s: &[u8]) -> (r: Option<Claims>)
    ensures
        match r {
            Some(c) => claims_of(s@) == Some((c.uid@, c.exp)),
            None => claims_of(s@) is None,
        },
{
    if s.len() < 2 {
        return None;
    }
    if s[0] != 0x7b {
        return None;
    }
    match parse_members(s, 1, None, None) {
        Some((Some(u), Some(e))) => Some(Claims { uid: u, exp: e }),
        _ => None,
    }
}

} // verus!
