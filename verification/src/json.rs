//! Construction of JSON text, specified character by character.
//!
//! Every writer appends to a `Vec<char>` and promises exactly which
//! characters it appends, so the serialized form of each payload is
//! pinned down by the specification functions in this module.

use vstd::prelude::*;
use vstd::string::StrSliceExecFns;

verus! {

// ---------------------------------------------------------------------------
// Decimal digit sequences of unsigned integers
// ---------------------------------------------------------------------------

/// The character for a single decimal digit.
pub open spec fn digit_char(d: nat) -> char {
    if d == 0 {
        '0'
    } else if d == 1 {
        '1'
    } else if d == 2 {
        '2'
    } else if d == 3 {
        '3'
    } else if d == 4 {
        '4'
    } else if d == 5 {
        '5'
    } else if d == 6 {
        '6'
    } else if d == 7 {
        '7'
    } else if d == 8 {
        '8'
    } else {
        '9'
    }
}

/// The decimal digit string of `n`, without a sign and without leading zeroes
/// (a single `'0'` for zero).
pub open spec fn dec_digits(n: nat) -> Seq<char>
    decreases n,
{
    if n < 10 {
        seq![digit_char(n)]
    } else {
        dec_digits(n / 10) + seq![digit_char(n % 10)]
    }
}

fn push_digit(out: &mut Vec<char>, d: u64)
    requires
        d < 10,
    ensures
        final(out)@ == old(out)@ + seq![digit_char(d as nat)],
{
    let c: char = if d == 0 {
        '0'
    } else if d == 1 {
        '1'
    } else if d == 2 {
        '2'
    } else if d == 3 {
        '3'
    } else if d == 4 {
        '4'
    } else if d == 5 {
        '5'
    } else if d == 6 {
        '6'
    } else if d == 7 {
        '7'
    } else if d == 8 {
        '8'
    } else {
        '9'
    };
    out.push(c);
    proof {
        assert(out@ =~= old(out)@ + seq![digit_char(d as nat)]);
    }
}

/// Appends the decimal digits of `n`.
pub fn write_u64(out: &mut Vec<char>, n: u64)
    ensures
        final(out)@ == old(out)@ + dec_digits(n as nat),
    decreases n,
{
    if n < 10 {
        push_digit(out, n);
    } else {
        proof {
            assert(n / 10 < n) by (nonlinear_arith)
                requires
                    n >= 10,
            ;
        }
        write_u64(out, n / 10);
        push_digit(out, n % 10);
        proof {
            assert(out@ =~= old(out)@ + dec_digits(n as nat));
        }
    }
}

/// The JSON text of a (possibly negative) integer.
pub open spec fn int_json(i: int) -> Seq<char> {
    if i < 0 {
        seq!['-'] + dec_digits((-i) as nat)
    } else {
        dec_digits(i as nat)
    }
}

/// Appends the JSON text of a signed 32-bit integer.
pub fn write_i32(out: &mut Vec<char>, n: i32)
    ensures
        final(out)@ == old(out)@ + int_json(n as int),
{
    if n < 0 {
        out.push('-');
        let m: i64 = n as i64;
        write_u64(out, (-m) as u64);
        proof {
            assert(out@ =~= old(out)@ + int_json(n as int));
        }
    } else {
        write_u64(out, n as u64);
    }
}

// ---------------------------------------------------------------------------
// Literals and JSON strings
// ---------------------------------------------------------------------------

/// Appends the characters of `s` unchanged.
pub fn write_lit(out: &mut Vec<char>, s: &str)
    ensures
        final(out)@ == old(out)@ + s@,
{
    let n: usize = s.unicode_len();
    let mut i: usize = 0;
    while i < n
        invariant
            n == s@.len(),
            i <= n,
            out@ == old(out)@ + s@.take(i as int),
        decreases n - i,
    {
        let c: char = s.get_char(i);
        out.push(c);
        proof {
            assert(out@ =~= old(out)@ + s@.take((i + 1) as int));
        }
        i = i + 1;
    }
    proof {
        assert(s@.take(n as int) =~= s@);
    }
}

/// The character for a single hexadecimal digit.
pub open spec fn hex_digit(d: nat) -> char {
    if d < 10 {
        digit_char(d)
    } else if d == 10 {
        'a'
    } else if d == 11 {
        'b'
    } else if d == 12 {
        'c'
    } else if d == 13 {
        'd'
    } else if d == 14 {
        'e'
    } else {
        'f'
    }
}

/// How one character appears inside a JSON string literal: the two-character
/// escapes of the JSON grammar, `\u00XX` for the remaining control
/// characters, and the character itself otherwise.
pub open spec fn json_escape_char(c: char) -> Seq<char> {
    if c == '"' {
        seq!['\\', '"']
    } else if c == '\\' {
        seq!['\\', '\\']
    } else if c == '\n' {
        seq!['\\', 'n']
    } else if c == '\r' {
        seq!['\\', 'r']
    } else if c == '\t' {
        seq!['\\', 't']
    } else if c == '\u{8}' {
        seq!['\\', 'b']
    } else if c == '\u{c}' {
        seq!['\\', 'f']
    } else if (c as int) < 32 {
        seq!['\\', 'u', '0', '0', hex_digit((c as int / 16) as nat), hex_digit((c as int % 16) as nat)]
    } else {
        seq![c]
    }
}

fn push_hex_digit(out: &mut Vec<char>, d: u32)
    requires
        d < 16,
    ensures
        final(out)@ == old(out)@ + seq![hex_digit(d as nat)],
{
    let c: char = if d == 0 {
        '0'
    } else if d == 1 {
        '1'
    } else if d == 2 {
        '2'
    } else if d == 3 {
        '3'
    } else if d == 4 {
        '4'
    } else if d == 5 {
        '5'
    } else if d == 6 {
        '6'
    } else if d == 7 {
        '7'
    } else if d == 8 {
        '8'
    } else if d == 9 {
        '9'
    } else if d == 10 {
        'a'
    } else if d == 11 {
        'b'
    } else if d == 12 {
        'c'
    } else if d == 13 {
        'd'
    } else if d == 14 {
        'e'
    } else {
        'f'
    };
    out.push(c);
    proof {
        assert(out@ =~= old(out)@ + seq![hex_digit(d as nat)]);
    }
}

/// Appends the escaped form of one character.
pub fn write_escaped_char(out: &mut Vec<char>, c: char)
    ensures
        final(out)@ == old(out)@ + json_escape_char(c),
{
    if c == '"' {
        out.push('\\');
        out.push('"');
    } else if c == '\\' {
        out.push('\\');
        out.push('\\');
    } else if c == '\n' {
        out.push('\\');
        out.push('n');
    } else if c == '\r' {
        out.push('\\');
        out.push('r');
    } else if c == '\t' {
        out.push('\\');
        out.push('t');
    } else if c == '\u{8}' {
        out.push('\\');
        out.push('b');
    } else if c == '\u{c}' {
        out.push('\\');
        out.push('f');
    } else if (c as u32) < 32 {
        let code: u32 = c as u32;
        out.push('\\');
        out.push('u');
        out.push('0');
        out.push('0');
        push_hex_digit(out, code / 16);
        push_hex_digit(out, code % 16);
    } else {
        out.push(c);
    }
    proof {
        assert(out@ =~= old(out)@ + json_escape_char(c));
    }
}

/// The escaped body of a JSON string literal holding the characters `s`.
pub open spec fn json_escape(s: Seq<char>) -> Seq<char>
    decreases s.len(),
{
    if s.len() == 0 {
        Seq::empty()
    } else {
        json_escape(s.drop_last()) + json_escape_char(s.last())
    }
}

/// The JSON string literal holding the characters `s`, quotes included.
pub open spec fn json_string(s: Seq<char>) -> Seq<char> {
    seq!['"'] + json_escape(s) + seq!['"']
}

/// Appends the JSON string literal holding the characters of `s`.
pub fn write_json_string(out: &mut Vec<char>, s: &str)
    ensures
        final(out)@ == old(out)@ + json_string(s@),
{
    out.push('"');
    proof {
        assert(s@.take(0) =~= Seq::<char>::empty());
        assert(out@ =~= old(out)@ + seq!['"'] + json_escape(s@.take(0)));
    }
    let n: usize = s.unicode_len();
    let mut i: usize = 0;
    while i < n
        invariant
            n == s@.len(),
            i <= n,
            out@ == old(out)@ + seq!['"'] + json_escape(s@.take(i as int)),
        decreases n - i,
    {
        let c: char = s.get_char(i);
        write_escaped_char(out, c);
        proof {
            let t1 = s@.take((i + 1) as int);
            assert(t1.drop_last() =~= s@.take(i as int));
            assert(t1.last() == s@[i as int]);
            assert(out@ =~= old(out)@ + seq!['"'] + json_escape(t1));
        }
        i = i + 1;
    }
    out.push('"');
    proof {
        assert(s@.take(n as int) =~= s@);
        assert(out@ =~= old(out)@ + json_string(s@));
    }
}

/// Appends the JSON string literal holding the single character `c`.
pub fn write_json_char(out: &mut Vec<char>, c: char)
    ensures
        final(out)@ == old(out)@ + json_string(seq![c]),
{
    out.push('"');
    write_escaped_char(out, c);
    out.push('"');
    proof {
        let s = seq![c];
        assert(s.drop_last() =~= Seq::<char>::empty());
        assert(s.last() == c);
        assert(json_escape(s) == json_escape(s.drop_last()) + json_escape_char(c));
        assert(out@ =~= old(out)@ + json_string(s));
    }
}

// ---------------------------------------------------------------------------
// Booleans, nulls, optional strings
// ---------------------------------------------------------------------------

/// The JSON text of a boolean.
pub open spec fn bool_json(b: bool) -> Seq<char> {
    if b {
        "true"@
    } else {
        "false"@
    }
}

/// Appends the JSON text of a boolean.
pub fn write_bool(out: &mut Vec<char>, b: bool)
    ensures
        final(out)@ == old(out)@ + bool_json(b),
{
    if b {
        write_lit(out, "true");
    } else {
        write_lit(out, "false");
    }
}

/// The JSON text of an optional string: `null`, or a string literal.
pub open spec fn opt_string_json(o: Option<String>) -> Seq<char> {
    match o {
        Option::None => "null"@,
        Option::Some(s) => json_string(s@),
    }
}

/// Appends the JSON text of an optional string.
pub fn write_opt_string(out: &mut Vec<char>, o: &Option<String>)
    ensures
        final(out)@ == old(out)@ + opt_string_json(*o),
{
    match o {
        Option::None => write_lit(out, "null"),
        Option::Some(s) => write_json_string(out, s.as_str()),
    }
}

// ---------------------------------------------------------------------------
// Decimal numbers
// ---------------------------------------------------------------------------

/// A decimal number `mantissa / 10^scale`, negated when `negative` is set.
/// It stands in for the floating-point fields of the wire schema: its JSON
/// text is fixed exactly by `decimal_json`, which a float could not be.
#[derive(Debug, Clone, Copy, PartialEq, Eq, Structural)]
pub struct Decimal {
    pub negative: bool,
    pub mantissa: u64,
    pub scale: u32,
}

/// `k` zero characters.
pub open spec fn zeroes(k: nat) -> Seq<char>
    decreases k,
{
    if k == 0 {
        Seq::empty()
    } else {
        seq!['0'] + zeroes((k - 1) as nat)
    }
}

/// `s` left-padded with zeroes to at least `k` characters.
pub open spec fn zero_pad(s: Seq<char>, k: nat) -> Seq<char> {
    if s.len() >= k {
        s
    } else {
        zeroes((k - s.len()) as nat) + s
    }
}

pub proof fn lemma_zeroes_len(k: nat)
    ensures
        zeroes(k).len() == k,
    decreases k,
{
    if k > 0 {
        lemma_zeroes_len((k - 1) as nat);
    }
}

/// The JSON text of a `Decimal`: the mantissa's digits with a decimal point
/// placed `scale` digits from the right (an integer when `scale` is zero),
/// and a leading minus sign when negative.
pub open spec fn decimal_json(d: Decimal) -> Seq<char> {
    let sign = if d.negative {
        seq!['-']
    } else {
        Seq::<char>::empty()
    };
    if d.scale == 0 {
        sign + dec_digits(d.mantissa as nat)
    } else {
        let digs = zero_pad(dec_digits(d.mantissa as nat), (d.scale + 1) as nat);
        let point = digs.len() - d.scale;
        sign + digs.take(point as int) + seq!['.'] + digs.skip(point as int)
    }
}

impl Decimal {
    /// The decimal zero, written `0.0`.
    pub fn zero() -> (r: Decimal)
        ensures
            r == (Decimal { negative: false, mantissa: 0, scale: 1 }),
    {
        Decimal { negative: false, mantissa: 0, scale: 1 }
    }

    /// The JSON text of this number as a `String`.
    pub fn render(&self) -> (s: String)
        ensures
            s@ == decimal_json(*self),
    {
        let mut out: Vec<char> = Vec::new();
        write_decimal(&mut out, self);
        string_from_chars(&out)
    }
}

/// The decimal zero of one fractional digit is written `0.0`.
pub proof fn lemma_decimal_tenth_zero()
    ensures
        decimal_json(Decimal { negative: false, mantissa: 0, scale: 1 }) == seq!['0', '.', '0'],
{
    let d = Decimal { negative: false, mantissa: 0, scale: 1 };
    reveal_with_fuel(zeroes, 2);
    assert(zeroes(1) =~= seq!['0']);
    let padded = zero_pad(dec_digits(0), 2);
    assert(padded =~= seq!['0', '0']);
    assert(padded.take(1) =~= seq!['0']);
    assert(padded.skip(1) =~= seq!['0']);
    assert(decimal_json(d) =~= seq!['0', '.', '0']);
}

/// Appends the JSON text of a `Decimal`.
pub fn write_decimal(out: &mut Vec<char>, d: &Decimal)
    ensures
        final(out)@ == old(out)@ + decimal_json(*d),
{
    if d.negative {
        out.push('-');
    }
    let ghost mid = out@;
    proof {
        if d.negative {
            assert(mid =~= old(out)@ + seq!['-']);
        } else {
            assert(mid =~= old(out)@ + Seq::<char>::empty());
        }
    }
    if d.scale == 0 {
        write_u64(out, d.mantissa);
        proof {
            assert(out@ =~= old(out)@ + decimal_json(*d));
        }
    } else {
        let mut digs: Vec<char> = Vec::new();
        write_u64(&mut digs, d.mantissa);
        let ghost dd = dec_digits(d.mantissa as nat);
        proof {
            assert(digs@ =~= zeroes(0) + dd);
        }
        let sc: usize = d.scale as usize;
        while digs.len() <= sc
            invariant
                sc == d.scale,
                dd == dec_digits(d.mantissa as nat),
                dd.len() <= digs@.len(),
                digs@.len() <= sc + 1 || digs@.len() == dd.len(),
                digs@ == zeroes((digs@.len() - dd.len()) as nat) + dd,
            decreases sc + 1 - digs@.len(),
        {
            digs.insert(0, '0');
            proof {
                let pad = (digs@.len() - dd.len()) as nat;
                lemma_zeroes_len(pad);
                lemma_zeroes_len((pad - 1) as nat);
                assert(digs@ =~= zeroes(pad) + dd);
            }
        }
        proof {
            let padded = zero_pad(dd, (d.scale + 1) as nat);
            lemma_zeroes_len((digs@.len() - dd.len()) as nat);
            assert(digs@ =~= padded);
        }
        let point: usize = digs.len() - sc;
        let mut j: usize = 0;
        while j < point
            invariant
                sc == d.scale,
                0 < point <= digs@.len(),
                point == digs@.len() - sc,
                j <= point,
                digs@ == zero_pad(dec_digits(d.mantissa as nat), (d.scale + 1) as nat),
                out@ == mid + digs@.take(j as int),
            decreases point - j,
        {
            let c: char = digs[j];
            out.push(c);
            proof {
                assert(out@ =~= mid + digs@.take((j + 1) as int));
            }
            j = j + 1;
        }
        out.push('.');
        proof {
            assert(out@ =~= mid + digs@.take(point as int) + seq!['.']);
        }
        let mut k: usize = point;
        while k < digs.len()
            invariant
                sc == d.scale,
                0 < point <= digs@.len(),
                point == digs@.len() - sc,
                point <= k <= digs@.len(),
                digs@ == zero_pad(dec_digits(d.mantissa as nat), (d.scale + 1) as nat),
                out@ == mid + digs@.take(point as int) + seq!['.'] + digs@.subrange(
                    point as int,
                    k as int,
                ),
            decreases digs@.len() - k,
        {
            let c: char = digs[k];
            out.push(c);
            proof {
                assert(out@ =~= mid + digs@.take(point as int) + seq!['.'] + digs@.subrange(
                    point as int,
                    (k + 1) as int,
                ));
            }
            k = k + 1;
        }
        proof {
            assert(digs@.subrange(point as int, digs@.len() as int) =~= digs@.skip(point as int));
            assert(out@ =~= old(out)@ + decimal_json(*d));
        }
    }
}

// ---------------------------------------------------------------------------
// Lists and objects
// ---------------------------------------------------------------------------

/// The comma-separated body of a JSON array of string literals.
pub open spec fn string_list_body(ss: Seq<String>) -> Seq<char>
    decreases ss.len(),
{
    if ss.len() == 0 {
        Seq::empty()
    } else if ss.len() == 1 {
        json_string(ss[0]@)
    } else {
        string_list_body(ss.drop_last()) + seq![','] + json_string(ss.last()@)
    }
}

/// The JSON array holding the strings `ss`, brackets included.
pub open spec fn string_list_json(ss: Seq<String>) -> Seq<char> {
    seq!['['] + string_list_body(ss) + seq![']']
}

/// Appends the JSON array holding the strings of `ss`.
pub fn write_string_list(out: &mut Vec<char>, ss: &Vec<String>)
    ensures
        final(out)@ == old(out)@ + string_list_json(ss@),
{
    out.push('[');
    proof {
        assert(ss@.take(0) =~= Seq::<String>::empty());
        assert(out@ =~= old(out)@ + seq!['['] + string_list_body(ss@.take(0)));
    }
    let mut i: usize = 0;
    while i < ss.len()
        invariant
            i <= ss@.len(),
            out@ == old(out)@ + seq!['['] + string_list_body(ss@.take(i as int)),
        decreases ss@.len() - i,
    {
        if i > 0 {
            out.push(',');
        }
        write_json_string(out, ss[i].as_str());
        proof {
            let t1 = ss@.take((i + 1) as int);
            assert(t1.drop_last() =~= ss@.take(i as int));
            assert(t1.last() == ss@[i as int]);
            assert(out@ =~= old(out)@ + seq!['['] + string_list_body(t1));
        }
        i = i + 1;
    }
    out.push(']');
    proof {
        assert(ss@.take(ss@.len() as int) =~= ss@);
        assert(out@ =~= old(out)@ + string_list_json(ss@));
    }
}

/// One member of the token-bias object: a string key and an integer value.
pub open spec fn bias_entry_json(e: (String, i32)) -> Seq<char> {
    json_string(e.0@) + seq![':'] + int_json(e.1 as int)
}

/// The comma-separated body of the token-bias object.
pub open spec fn bias_body(es: Seq<(String, i32)>) -> Seq<char>
    decreases es.len(),
{
    if es.len() == 0 {
        Seq::empty()
    } else if es.len() == 1 {
        bias_entry_json(es[0])
    } else {
        bias_body(es.drop_last()) + seq![','] + bias_entry_json(es.last())
    }
}

/// The JSON object holding the token-bias entries `es`, braces included.
pub open spec fn bias_object_json(es: Seq<(String, i32)>) -> Seq<char> {
    seq!['{'] + bias_body(es) + seq!['}']
}

/// Appends the JSON object holding the token-bias entries of `es`,
/// in the order they stand in the vector.
pub fn write_bias_object(out: &mut Vec<char>, es: &Vec<(String, i32)>)
    ensures
        final(out)@ == old(out)@ + bias_object_json(es@),
{
    out.push('{');
    proof {
        assert(es@.take(0) =~= Seq::<(String, i32)>::empty());
        assert(out@ =~= old(out)@ + seq!['{'] + bias_body(es@.take(0)));
    }
    let mut i: usize = 0;
    while i < es.len()
        invariant
            i <= es@.len(),
            out@ == old(out)@ + seq!['{'] + bias_body(es@.take(i as int)),
        decreases es@.len() - i,
    {
        if i > 0 {
            out.push(',');
        }
        write_json_string(out, es[i].0.as_str());
        out.push(':');
        write_i32(out, es[i].1);
        proof {
            let t1 = es@.take((i + 1) as int);
            assert(t1.drop_last() =~= es@.take(i as int));
            assert(t1.last() == es@[i as int]);
            assert(out@ =~= old(out)@ + seq!['{'] + bias_body(t1));
        }
        i = i + 1;
    }
    out.push('}');
    proof {
        assert(es@.take(es@.len() as int) =~= es@);
        assert(out@ =~= old(out)@ + bias_object_json(es@));
    }
}

/// A two-element JSON array holding a pair of string literals.
pub open spec fn pair_json(p: [String; 2]) -> Seq<char> {
    seq!['['] + json_string(p@[0]@) + seq![','] + json_string(p@[1]@) + seq![']']
}

/// Appends the two-element JSON array holding the strings of `p`.
pub fn write_pair(out: &mut Vec<char>, p: &[String; 2])
    ensures
        final(out)@ == old(out)@ + pair_json(*p),
{
    out.push('[');
    write_json_string(out, p[0].as_str());
    out.push(',');
    write_json_string(out, p[1].as_str());
    out.push(']');
    proof {
        assert(out@ =~= old(out)@ + pair_json(*p));
    }
}

/// The comma-separated body of a JSON array of string pairs.
pub open spec fn pair_list_body(ps: Seq<[String; 2]>) -> Seq<char>
    decreases ps.len(),
{
    if ps.len() == 0 {
        Seq::empty()
    } else if ps.len() == 1 {
        pair_json(ps[0])
    } else {
        pair_list_body(ps.drop_last()) + seq![','] + pair_json(ps.last())
    }
}

/// The JSON array holding the string pairs `ps`, brackets included.
pub open spec fn pair_list_json(ps: Seq<[String; 2]>) -> Seq<char> {
    seq!['['] + pair_list_body(ps) + seq![']']
}

/// Appends the JSON array holding the string pairs of `ps`.
pub fn write_pair_list(out: &mut Vec<char>, ps: &Vec<[String; 2]>)
    ensures
        final(out)@ == old(out)@ + pair_list_json(ps@),
{
    out.push('[');
    proof {
        assert(ps@.take(0) =~= Seq::<[String; 2]>::empty());
        assert(out@ =~= old(out)@ + seq!['['] + pair_list_body(ps@.take(0)));
    }
    let mut i: usize = 0;
    while i < ps.len()
        invariant
            i <= ps@.len(),
            out@ == old(out)@ + seq!['['] + pair_list_body(ps@.take(i as int)),
        decreases ps@.len() - i,
    {
        if i > 0 {
            out.push(',');
        }
        write_pair(out, &ps[i]);
        proof {
            let t1 = ps@.take((i + 1) as int);
            assert(t1.drop_last() =~= ps@.take(i as int));
            assert(t1.last() == ps@[i as int]);
            assert(out@ =~= old(out)@ + seq!['['] + pair_list_body(t1));
        }
        i = i + 1;
    }
    out.push(']');
    proof {
        assert(ps@.take(ps@.len() as int) =~= ps@);
        assert(out@ =~= old(out)@ + pair_list_json(ps@));
    }
}

// ---------------------------------------------------------------------------
// From characters to a String
// ---------------------------------------------------------------------------

/// Relies on `String`'s `FromIterator` impl: collecting characters yields
/// the string of exactly those characters in order.
#[verifier::external_body]
pub(crate) fn string_from_chars(v: &Vec<char>) -> (s: String)
    ensures
        s@ == v@,
{
    v.iter().collect()
}

} // verus!
