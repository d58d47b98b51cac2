//! Text helpers: the character operations of std that names are built from, the
//! decimal rendering of indices, and the text of a connection's UUID.
use vstd::prelude::*;
use vstd::string::StringExecFns;

verus! {

/// The views of a list of strings.
pub open spec fn texts(v: Seq<String>) -> Seq<Seq<char>> {
    v.map_values(|s: String| s@)
}

/// The items joined by `sep`: `a`, `a sep b`, `a sep b sep c`, ..
pub open spec fn join(items: Seq<Seq<char>>, sep: Seq<char>) -> Seq<char>
    decreases items.len(),
{
    if items.len() == 0 {
        Seq::empty()
    } else if items.len() == 1 {
        items[0]
    } else {
        join(items.drop_last(), sep) + sep + items.last()
    }
}

/// Each name with its type, written `name: type`.
pub open spec fn typed_list(items: Seq<(Seq<char>, Seq<char>)>) -> Seq<Seq<char>> {
    items.map_values(|f: (Seq<char>, Seq<char>)| f.0 + ": "@ + f.1)
}

/// Whether `c` has the Unicode `Uppercase` property, as `char::is_uppercase` reports it.
pub uninterp spec fn char_is_uppercase(c: char) -> bool;

/// Whether `c` is upper case, as `char::is_uppercase` tells: among ASCII characters
/// exactly `A` to `Z`; beyond ASCII, the `Uppercase` property.
pub open spec fn is_upper(c: char) -> bool {
    if (c as u32) < 128 {
        'A' <= c <= 'Z'
    } else {
        char_is_uppercase(c)
    }
}

/// `char::to_ascii_lowercase`: the letters `A` to `Z` become `a` to `z`; every other
/// character is unchanged.
pub open spec fn ascii_lowercase(c: char) -> char {
    if 'A' <= c && c <= 'Z' {
        ((c as u32) + 32) as char
    } else {
        c
    }
}

/// The decimal digit for `d`, which is below ten.
pub open spec fn digit_char(d: nat) -> char {
    ((d + 48) as u32) as char
}

/// The decimal text of `n`, most significant digit first, with no leading zero.
pub open spec fn decimal(n: nat) -> Seq<char>
    decreases n,
{
    if n < 10 {
        seq![digit_char(n)]
    } else {
        decimal(n / 10).push(digit_char(n % 10))
    }
}

/// The lower-case hexadecimal digit for `d`, which is below sixteen.
pub open spec fn hex_digit(d: nat) -> char {
    if d < 10 {
        ((d + 48) as u32) as char
    } else {
        ((d + 87) as u32) as char
    }
}

/// The `k`-th hexadecimal digit of `v`, counting from the most significant one (`k < 32`).
pub open spec fn nibble(v: u128, k: nat) -> nat {
    ((v as nat) / vstd::arithmetic::power::pow(16, (31 - k) as nat) as nat) % 16
}

/// How many hyphens precede position `p` of the hyphenated form.
pub open spec fn hyphens_before(p: int) -> int {
    if p < 8 {
        0
    } else if p < 13 {
        1
    } else if p < 18 {
        2
    } else if p < 23 {
        3
    } else {
        4
    }
}

/// The hyphenated lower-case text of the UUID whose 128-bit value is `v`: its 32
/// hexadecimal digits, most significant first, grouped 8-4-4-4-12 and joined by `-`.
pub open spec fn uuid_hyphenated(v: u128) -> Seq<char> {
    Seq::new(
        36,
        |p: int|
            if p == 8 || p == 13 || p == 18 || p == 23 {
                '-'
            } else {
                hex_digit(nibble(v, (p - hyphens_before(p)) as nat))
            },
    )
}

/// Calls `char::is_uppercase`. Among ASCII characters exactly `A` to `Z` have the
/// `Uppercase` property.
#[verifier::external_body]
pub(crate) fn is_uppercase(c: char) -> (b: bool)
    ensures
        b == char_is_uppercase(c),
        b == is_upper(c),
{
    c.is_uppercase()
}

/// The character with its ASCII letter lowered, as `char::to_ascii_lowercase` gives it:
/// `A` to `Z` become `a` to `z`, every other character stays.
pub fn to_ascii_lowercase(c: char) -> (l: char)
    ensures
        l == ascii_lowercase(c),
{
    if 'A' <= c && c <= 'Z' {
        let b: u8 = c as u8;
        (b + 32) as char
    } else {
        c
    }
}

/// Calls `String::push`, which appends one character.
#[verifier::external_body]
pub(crate) fn push_char(s: &mut String, c: char)
    ensures
        final(s)@ == old(s)@.push(c),
{
    s.push(c)
}

/// Calls `uuid::Uuid::from_u128` and the `Display` of `Uuid`: the UUID with value `v`
/// written hyphenated in lower case.
#[verifier::external_body]
pub(crate) fn uuid_text(v: u128) -> (s: String)
    ensures
        s@ == uuid_hyphenated(v),
{
    uuid::Uuid::from_u128(v).to_string()
}

/// The decimal text of `n`.
pub fn decimal_text(n: usize) -> (s: String)
    ensures
        s@ == decimal(n as nat),
    decreases n,
{
    let d: u8 = (n % 10) as u8;
    let c: char = (d + 48) as char;
    if n < 10 {
        let mut s = String::new();
        push_char(&mut s, c);
        s
    } else {
        let mut s = decimal_text(n / 10);
        push_char(&mut s, c);
        s
    }
}

/// The items joined by `sep`.
pub fn join_texts(items: &Vec<String>, sep: &str) -> (s: String)
    ensures
        s@ == join(texts(items@), sep@),
{
    let mut s = String::new();
    let mut i: usize = 0;
    while i < items.len()
        invariant
            i <= items.len(),
            s@ == join(texts(items@.take(i as int)), sep@),
        decreases items.len() - i,
    {
        proof {
            let t = texts(items@.take(i + 1));
            assert(t.drop_last() =~= texts(items@.take(i as int)));
            assert(t.last() == items@[i as int]@);
        }
        if i > 0 {
            s.append(sep);
        }
        s.append(items[i].as_str());
        proof {
            let t = texts(items@.take(i + 1));
            if i == 0 {
                assert(s@ =~= t[0]);
            }
        }
        i = i + 1;
    }
    assert(items@.take(items.len() as int) =~= items@);
    s
}

/// `a` followed by `b`.
pub fn joined(a: &str, b: &str) -> (s: String)
    ensures
        s@ == a@ + b@,
{
    let mut s = String::from_str(a);
    s.append(b);
    s
}

/// `a`, then `b`, then `c`.
pub fn joined3(a: &str, b: &str, c: &str) -> (s: String)
    ensures
        s@ == a@ + b@ + c@,
{
    let mut s = String::from_str(a);
    s.append(b);
    s.append(c);
    s
}

/// Whether `s` reads `lit`.
pub fn is_text(s: &String, lit: &str) -> (b: bool)
    ensures
        b == (s@ == lit@),
{
    *s == String::from_str(lit)
}

/// Whether `s` names the single identifier `lit` (a path that is one identifier).
pub fn is_ident(s: &Option<String>, lit: &str) -> (b: bool)
    ensures
        b == (s matches Some(p) && p@ == lit@),
{
    match s {
        Some(p) => is_text(p, lit),
        None => false,
    }
}

} // verus!
