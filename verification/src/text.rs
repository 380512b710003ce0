//! Text building blocks: hexadecimal and decimal rendering and joining.

use vstd::prelude::*;

verus! {

/// The lower-case hexadecimal digit for a value below sixteen.
pub open spec fn hex_digit(d: nat) -> char {
    if d < 10 {
        (48 + d) as char
    } else {
        (87 + d) as char
    }
}

/// Two lower-case hexadecimal digits per byte, most significant nibble first
/// (what `format!("{:02x}", b)` writes for each byte `b`).
pub open spec fn hex_lower(bytes: Seq<u8>) -> Seq<char>
    decreases bytes.len(),
{
    if bytes.len() == 0 {
        Seq::empty()
    } else {
        let b = bytes.last();
        hex_lower(bytes.drop_last()) + seq![hex_digit(b as nat / 16), hex_digit(b as nat % 16)]
    }
}

/// Whether a character is a lower-case hexadecimal digit.
pub open spec fn is_hex_lower_char(c: char) -> bool {
    ('0' <= c && c <= '9') || ('a' <= c && c <= 'f')
}

proof fn lemma_hex_digit(d: nat)
    requires
        d < 16,
    ensures
        is_hex_lower_char(hex_digit(d)),
        forall|e: nat| e < 16 && hex_digit(e) == hex_digit(d) ==> e == d,
{
}

/// The hexadecimal text of bytes has two lower-case digits per byte, and
/// different bytes give different texts: the text identifies the bytes.
pub proof fn lemma_hex_lower_identifies(a: Seq<u8>, b: Seq<u8>)
    ensures
        hex_lower(a).len() == 2 * a.len(),
        forall|i: int| 0 <= i < hex_lower(a).len() ==> is_hex_lower_char(#[trigger] hex_lower(a)[i]),
        hex_lower(a) == hex_lower(b) ==> a == b,
    decreases a.len() + b.len(),
{
    if a.len() > 0 {
        lemma_hex_lower_identifies(a.drop_last(), b);
        let x = a.last();
        lemma_hex_digit(x as nat / 16);
        lemma_hex_digit(x as nat % 16);
        let h = hex_lower(a.drop_last());
        assert forall|i: int| 0 <= i < hex_lower(a).len() implies is_hex_lower_char(#[trigger] hex_lower(a)[i]) by {
            if i < h.len() {
                assert(hex_lower(a)[i] == h[i]);
            }
        }
    }
    if b.len() > 0 {
        lemma_hex_lower_identifies(a, b.drop_last());
    }
    if a.len() > 0 && b.len() > 0 && hex_lower(a) == hex_lower(b) {
        let ha = hex_lower(a);
        let n = ha.len();
        lemma_hex_lower_identifies(a.drop_last(), b.drop_last());
        assert(hex_lower(a.drop_last()) == ha.subrange(0, n - 2));
        assert(hex_lower(b.drop_last()) == ha.subrange(0, n - 2));
        let x = a.last();
        let y = b.last();
        lemma_hex_digit(x as nat / 16);
        lemma_hex_digit(x as nat % 16);
        assert(ha[n - 2] == hex_digit(x as nat / 16));
        assert(ha[n - 2] == hex_digit(y as nat / 16));
        assert(ha[n - 1] == hex_digit(x as nat % 16));
        assert(ha[n - 1] == hex_digit(y as nat % 16));
        assert(x == y);
        assert(a == a.drop_last().push(x));
        assert(b == b.drop_last().push(y));
    }
}

/// Appends one character to a string.
///
/// Calls `String::push`. Claimed, as std documents it: the string afterwards
/// is the string before with `c` added at its end.
#[verifier::external_body]
pub(crate) fn push_char(s: &mut String, c: char)
    ensures
        final(s)@ == old(s)@.push(c),
{
    s.push(c);
}

fn hex_digit_exec(d: u8) -> (c: char)
    requires
        d < 16,
    ensures
        c == hex_digit(d as nat),
{
    if d < 10 {
        (48 + d) as char
    } else {
        (87 + d) as char
    }
}

/// Renders bytes as lower-case hexadecimal, two digits per byte.
pub fn to_hex_lower(bytes: &[u8]) -> (s: String)
    ensures
        s@ == hex_lower(bytes@),
{
    let mut s = String::new();
    let mut i: usize = 0;
    while i < bytes.len()
        invariant
            i <= bytes.len(),
            s@ == hex_lower(bytes@.subrange(0, i as int)),
        decreases bytes.len() - i,
    {
        let b = bytes[i];
        push_char(&mut s, hex_digit_exec(b / 16));
        push_char(&mut s, hex_digit_exec(b % 16));
        proof {
            assert(bytes@.subrange(0, i + 1).drop_last() == bytes@.subrange(0, i as int));
        }
        i = i + 1;
    }
    proof {
        assert(bytes@.subrange(0, bytes@.len() as int) == bytes@);
    }
    s
}


/// The decimal digit for a value below ten.
pub open spec fn decimal_digit(d: nat) -> char {
    (48 + d) as char
}

/// The decimal numeral of a natural number, without leading zeros.
pub open spec fn decimal(n: nat) -> Seq<char>
    decreases n,
{
    if n < 10 {
        seq![decimal_digit(n)]
    } else {
        decimal(n / 10).push(decimal_digit(n % 10))
    }
}

/// The decimal numeral of an integer, with a minus sign where it is negative
/// (what `to_string` writes for Rust's integer types).
pub open spec fn signed_decimal(v: int) -> Seq<char> {
    if v < 0 {
        seq!['-'] + decimal((-v) as nat)
    } else {
        decimal(v as nat)
    }
}

/// Writes the decimal numeral of `n` at the end of `s`.
pub fn push_decimal(s: &mut String, n: u64)
    ensures
        final(s)@ == old(s)@ + decimal(n as nat),
    decreases n,
{
    if n >= 10 {
        push_decimal(s, n / 10);
    }
    push_char(s, (48 + (n % 10) as u8) as char);
    proof {
        if n >= 10 {
            assert(decimal(n as nat) == decimal((n / 10) as nat).push(decimal_digit((n % 10) as nat)));
        }
    }
}

/// The decimal numeral of an unsigned number.
pub fn u64_to_string(n: u64) -> (s: String)
    ensures
        s@ == decimal(n as nat),
{
    let mut s = String::new();
    push_decimal(&mut s, n);
    s
}

/// The decimal numeral of a signed number, with a minus sign where negative.
pub fn i32_to_string(v: i32) -> (s: String)
    ensures
        s@ == signed_decimal(v as int),
{
    let mut s = String::new();
    if v < 0 {
        push_char(&mut s, '-');
        let m: u64 = (0 - (v as i64)) as u64;
        push_decimal(&mut s, m);
    } else {
        push_decimal(&mut s, v as u64);
    }
    s
}

/// The parts joined, with `sep` between each two neighbours.
pub open spec fn joined(parts: Seq<Seq<char>>, sep: Seq<char>) -> Seq<char>
    decreases parts.len(),
{
    if parts.len() == 0 {
        Seq::empty()
    } else if parts.len() == 1 {
        parts[0]
    } else {
        joined(parts.drop_last(), sep) + sep + parts.last()
    }
}

/// The texts of a sequence of strings.
pub open spec fn texts(v: Seq<String>) -> Seq<Seq<char>> {
    v.map_values(|s: String| s@)
}

/// Joins strings with a separator (what `join` of a slice of strings does).
pub fn join_strings(parts: &Vec<String>, sep: &str) -> (s: String)
    ensures
        s@ == joined(texts(parts@), sep@),
{
    let mut s = String::new();
    let mut i: usize = 0;
    while i < parts.len()
        invariant
            i <= parts.len(),
            s@ == joined(texts(parts@.subrange(0, i as int)), sep@),
        decreases parts.len() - i,
    {
        proof {
            assert(texts(parts@.subrange(0, i + 1)).drop_last() == texts(parts@.subrange(0, i as int)));
        }
        if i > 0 {
            s.append(sep);
        } else {
            proof {
                assert(texts(parts@.subrange(0, 1)) == seq![parts@[0]@]);
            }
        }
        s.append(parts[i].as_str());
        i = i + 1;
    }
    proof {
        assert(parts@.subrange(0, parts@.len() as int) == parts@);
    }
    s
}

} // verus!
