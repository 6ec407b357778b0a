//! The correlation-id provider.
//!
//! Every request carries one opaque string identifier. It is read from the
//! `X-Span-ID` header when that header is present with a non-empty readable
//! value; otherwise a fresh identifier is generated from 128 random bits and
//! rendered in the canonical hyphenated form.

use vstd::arithmetic::div_mod::lemma_div_denominator;
use vstd::prelude::*;

verus! {

/// Declares hyper's `HeaderMap` so that it can stand in signatures; its
/// contents are reached only through [`readable_header`].
#[verifier::external_type_specification]
#[verifier::external_body]
#[verifier::reject_recursive_types(T)]
pub struct ExHeaderMap<T>(hyper::HeaderMap<T>);

/// Declares hyper's `HeaderValue`, the value type of its header map; opaque
/// here.
#[verifier::external_type_specification]
#[verifier::external_body]
pub struct ExHeaderValue(hyper::header::HeaderValue);

/// Declares hyper's `Request` so that it can stand in signatures; opaque
/// here, read only through its header map.
#[verifier::external_type_specification]
#[verifier::external_body]
#[verifier::reject_recursive_types(T)]
pub struct ExRequest<T>(hyper::Request<T>);

/// The first value stored in the map under the given header name, read as a
/// string: absent both when the map holds no value for that name and when the
/// stored bytes do not read as a string (bytes outside visible ASCII).
pub uninterp spec fn readable_header(m: hyper::HeaderMap, name: Seq<char>) -> Option<Seq<char>>;

/// Relies on http's `HeaderMap::get`, which returns the first value stored
/// under a name (the lookup itself is case-insensitive), and on
/// `HeaderValue::to_str`, which fails exactly when some byte of the value is
/// neither visible ASCII nor horizontal tab. The result is the first value
/// under `name`, as a string, or `None` when there is none or it is
/// unreadable.
#[verifier::external_body]
pub(crate) fn lookup_header(headers: &hyper::HeaderMap, name: &str) -> (r: Option<String>)
    ensures
        match (r, readable_header(*headers, name@)) {
            (Option::Some(s), Option::Some(v)) => s@ == v,
            (Option::None, Option::None) => true,
            _ => false,
        },
{
    headers.get(name).and_then(|v| v.to_str().ok()).map(|s| s.to_string())
}

/// Relies on http's `Request::headers`, which borrows the request's header
/// map; which map a given request holds is not modelled here.
#[verifier::external_body]
fn request_headers<B>(req: &hyper::Request<B>) -> &hyper::HeaderMap {
    req.headers()
}

/// Relies on rand's `random`: draws a value from the thread-local generator.
/// The value is random, so nothing is assumed about which one comes back.
/// If the operating system's entropy source fails at the generator's first
/// use, rand itself aborts — an environmental failure, triggered by no
/// input, that no `requires` could exclude.
#[verifier::external_body]
fn random_u128() -> u128 {
    rand::random()
}

/// The sixteen lowercase hexadecimal digit characters, by digit value.
pub open spec fn hex_char(d: int) -> char {
    if d == 0 {
        '0'
    } else if d == 1 {
        '1'
    } else if d == 2 {
        '2'
    } else if d == 3 {
        '3'
    } else if d == 4 {
        '4'
    } else if d == 5 {
        '5'
    } else if d == 6 {
        '6'
    } else if d == 7 {
        '7'
    } else if d == 8 {
        '8'
    } else if d == 9 {
        '9'
    } else if d == 10 {
        'a'
    } else if d == 11 {
        'b'
    } else if d == 12 {
        'c'
    } else if d == 13 {
        'd'
    } else if d == 14 {
        'e'
    } else {
        'f'
    }
}

/// A lowercase hexadecimal digit character.
pub open spec fn is_hex_char(c: char) -> bool {
    ('0' <= c && c <= '9') || ('a' <= c && c <= 'f')
}

/// 16 raised to the power `k`.
pub open spec fn pow16(k: nat) -> int
    decreases k,
{
    if k == 0 {
        1
    } else {
        16 * pow16((k - 1) as nat)
    }
}

/// The `i`-th hexadecimal digit, most significant first, of the 32-digit
/// rendering of `n`.
pub open spec fn nibble_of(n: u128, i: int) -> int {
    (n as int / pow16((31 - i) as nat)) % 16
}

/// The `i`-th digit of the rendered identifier: the version digit (index 12)
/// is forced to 4 and the variant digit (index 16) into 8..=11; every other
/// digit is taken from `n` unchanged.
pub open spec fn uuid_digit(n: u128, i: int) -> int {
    if i == 12 {
        4
    } else if i == 16 {
        8 + nibble_of(n, i) % 4
    } else {
        nibble_of(n, i)
    }
}

/// The index of the hexadecimal digit rendered at text position `j`, once the
/// four hyphens are skipped.
pub open spec fn digit_index(j: int) -> int {
    if j < 8 {
        j
    } else if j < 13 {
        j - 1
    } else if j < 18 {
        j - 2
    } else if j < 23 {
        j - 3
    } else {
        j - 4
    }
}

/// The character at text position `j` of the rendering of `n`.
pub open spec fn uuid_char_at(n: u128, j: int) -> char {
    if j == 8 || j == 13 || j == 18 || j == 23 {
        '-'
    } else {
        hex_char(uuid_digit(n, digit_index(j)))
    }
}

/// The canonical hyphenated rendering of the 128-bit value `n`: 32 lowercase
/// hexadecimal digits in five groups of 8-4-4-4-12.
pub open spec fn uuid_chars(n: u128) -> Seq<char> {
    Seq::new(36, |j: int| uuid_char_at(n, j))
}

/// The syntactic shape of a generated identifier: 36 characters, hyphens at
/// positions 8, 13, 18 and 23, lowercase hexadecimal digits elsewhere, the
/// version digit 4 and a variant digit in 8..=b.
pub open spec fn uuid_text(s: Seq<char>) -> bool {
    &&& s.len() == 36
    &&& forall|j: int|
        0 <= j < 36 && (j == 8 || j == 13 || j == 18 || j == 23) ==> s[j] == '-'
    &&& forall|j: int|
        0 <= j < 36 && !(j == 8 || j == 13 || j == 18 || j == 23) ==> is_hex_char(s[j])
    &&& s[14] == '4'
    &&& (s[19] == '8' || s[19] == '9' || s[19] == 'a' || s[19] == 'b')
}

proof fn lemma_pow16_pos(k: nat)
    ensures
        pow16(k) >= 1,
    decreases k,
{
    if k > 0 {
        lemma_pow16_pos((k - 1) as nat);
    }
}

/// Every rendered identifier has the shape that `uuid_text` describes.
pub proof fn lemma_uuid_chars_text(n: u128)
    ensures
        uuid_text(uuid_chars(n)),
{
    let s = uuid_chars(n);
    assert forall|j: int| 0 <= j < 36 && !(j == 8 || j == 13 || j == 18 || j == 23) implies is_hex_char(
        s[j],
    ) by {
        let d = uuid_digit(n, digit_index(j));
        assert(0 <= nibble_of(n, digit_index(j)) < 16);
        assert(0 <= d < 16);
        assert(is_hex_char(hex_char(d)));
    }
    assert(s[14] == hex_char(4));
    let v = uuid_digit(n, 16);
    assert(0 <= nibble_of(n, 16) % 4 < 4);
    assert(s[19] == hex_char(v));
    assert(8 <= v < 12);
}

/// Append the lowercase hexadecimal digit character for `d`.
fn push_hex(s: String, d: u8) -> (r: String)
    requires
        d < 16,
    ensures
        r@ == s@ + seq![hex_char(d as int)],
{
    proof {
        reveal_strlit("0");
        reveal_strlit("1");
        reveal_strlit("2");
        reveal_strlit("3");
        reveal_strlit("4");
        reveal_strlit("5");
        reveal_strlit("6");
        reveal_strlit("7");
        reveal_strlit("8");
        reveal_strlit("9");
        reveal_strlit("a");
        reveal_strlit("b");
        reveal_strlit("c");
        reveal_strlit("d");
        reveal_strlit("e");
        reveal_strlit("f");
        assert("0"@ =~= seq!['0']);
        assert("1"@ =~= seq!['1']);
        assert("2"@ =~= seq!['2']);
        assert("3"@ =~= seq!['3']);
        assert("4"@ =~= seq!['4']);
        assert("5"@ =~= seq!['5']);
        assert("6"@ =~= seq!['6']);
        assert("7"@ =~= seq!['7']);
        assert("8"@ =~= seq!['8']);
        assert("9"@ =~= seq!['9']);
        assert("a"@ =~= seq!['a']);
        assert("b"@ =~= seq!['b']);
        assert("c"@ =~= seq!['c']);
        assert("d"@ =~= seq!['d']);
        assert("e"@ =~= seq!['e']);
        assert("f"@ =~= seq!['f']);
    }
    match d {
        0 => s.concat("0"),
        1 => s.concat("1"),
        2 => s.concat("2"),
        3 => s.concat("3"),
        4 => s.concat("4"),
        5 => s.concat("5"),
        6 => s.concat("6"),
        7 => s.concat("7"),
        8 => s.concat("8"),
        9 => s.concat("9"),
        10 => s.concat("a"),
        11 => s.concat("b"),
        12 => s.concat("c"),
        13 => s.concat("d"),
        14 => s.concat("e"),
        _ => s.concat("f"),
    }
}

/// Render `n` in the canonical hyphenated form; the result is exactly
/// `uuid_chars(n)`.
pub fn format_uuid(n: u128) -> (r: String)
    ensures
        r@ == uuid_chars(n),
{
    let mut digits: Vec<u8> = Vec::new();
    let mut m: u128 = n;
    let mut k: usize = 0;
    proof {
        assert(n as int / pow16(0) == n as int);
    }
    while k < 32
        invariant
            k <= 32,
            m as int == n as int / pow16(k as nat),
            digits@.len() == k,
            forall|i: int|
                0 <= i < k ==> digits@[i] < 16 && #[trigger] (digits@[i] as int) == nibble_of(
                    n,
                    31 - i,
                ),
        decreases 32 - k,
    {
        let d: u8 = (m % 16) as u8;
        proof {
            assert(d as int == (n as int / pow16(k as nat)) % 16);
            assert(d as int == nibble_of(n, 31 - k as int));
            lemma_pow16_pos(k as nat);
            lemma_div_denominator(n as int, pow16(k as nat), 16);
            assert(pow16((k + 1) as nat) == 16 * pow16(k as nat));
        }
        digits.push(d);
        m = m / 16;
        k = k + 1;
    }
    let mut out = String::new();
    let mut j: usize = 0;
    proof {
        reveal_strlit("-");
        assert("-"@ =~= seq!['-']);
        assert(out@ =~= uuid_chars(n).take(0));
    }
    while j < 36
        invariant
            j <= 36,
            out@ == uuid_chars(n).take(j as int),
            digits@.len() == 32,
            forall|i: int|
                0 <= i < 32 ==> digits@[i] < 16 && #[trigger] (digits@[i] as int) == nibble_of(
                    n,
                    31 - i,
                ),
        decreases 36 - j,
    {
        proof {
            reveal_strlit("-");
            assert("-"@ =~= seq!['-']);
        }
        if j == 8 || j == 13 || j == 18 || j == 23 {
            out = out.concat("-");
        } else {
            let idx: usize = if j < 8 {
                j
            } else if j < 13 {
                j - 1
            } else if j < 18 {
                j - 2
            } else if j < 23 {
                j - 3
            } else {
                j - 4
            };
            let raw: u8 = digits[31 - idx];
            proof {
                assert(raw as int == nibble_of(n, idx as int));
            }
            let d: u8 = if idx == 12 {
                4
            } else if idx == 16 {
                8 + raw % 4
            } else {
                raw
            };
            proof {
                assert(d as int == uuid_digit(n, idx as int));
                assert(idx as int == digit_index(j as int));
            }
            out = push_hex(out, d);
        }
        proof {
            assert(uuid_chars(n).take(j + 1 as int) =~= uuid_chars(n).take(j as int) + seq![
                uuid_char_at(n, j as int),
            ]);
        }
        j = j + 1;
    }
    proof {
        assert(uuid_chars(n).take(36) =~= uuid_chars(n));
    }
    out
}

/// Correlation identifier attached to one request for tracing across layers.
#[derive(Debug, Clone)]
pub struct XSpanIdString(pub String);

impl View for XSpanIdString {
    type V = Seq<char>;

    open spec fn view(&self) -> Seq<char> {
        self.0@
    }
}

/// How an identifier is derived from a header map: a present, non-empty,
/// readable `X-Span-ID` value is taken over byte for byte; in every other
/// case a fresh identifier with the generated shape stands in its place.
pub open spec fn span_derived(m: hyper::HeaderMap, id: Seq<char>) -> bool {
    match readable_header(m, "X-Span-ID"@) {
        Option::Some(v) => if v.len() > 0 {
            id == v
        } else {
            uuid_text(id)
        },
        Option::None => uuid_text(id),
    }
}

impl XSpanIdString {
    /// Generate a fresh identifier from 128 random bits.
    pub fn generate() -> (r: Self)
        ensures
            uuid_text(r@),
    {
        let n = random_u128();
        proof {
            lemma_uuid_chars_text(n);
        }
        XSpanIdString(format_uuid(n))
    }

    /// Derive the identifier for a request from its header map: reuse a
    /// non-empty readable `X-Span-ID` value, generate otherwise.
    pub fn from_header_map(headers: &hyper::HeaderMap) -> (r: Self)
        ensures
            span_derived(*headers, r@),
    {
        match lookup_header(headers, "X-Span-ID") {
            Option::Some(s) => {
                if s.as_str().is_empty() {
                    Self::generate()
                } else {
                    XSpanIdString(s)
                }
            },
            Option::None => Self::generate(),
        }
    }

    /// Derive the identifier for a request: reuse the request's own non-empty
    /// readable `X-Span-ID` header value, generate otherwise. Never fails,
    /// and the identifier is never empty.
    pub fn get_or_generate<B>(req: &hyper::Request<B>) -> (r: Self)
        ensures
            r@.len() > 0,
    {
        Self::from_header_map(request_headers(req))
    }
}

impl Default for XSpanIdString {
    /// A freshly generated identifier.
    fn default() -> (r: Self)
        ensures
            uuid_text(r@),
    {
        Self::generate()
    }
}

} // verus!
