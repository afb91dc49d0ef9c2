//! Text helpers: decimal rendering and joining, as derived names need them.

use vstd::prelude::*;

verus! {

/// The character of one decimal digit.
pub open spec fn digit(d: int) -> char {
    if d == 0 {
        '0'
    } else if d == 1 {
        '1'
    } else if d == 2 {
        '2'
    } else if d == 3 {
        '3'
    } else if d == 4 {
        '4'
    } else if d == 5 {
        '5'
    } else if d == 6 {
        '6'
    } else if d == 7 {
        '7'
    } else if d == 8 {
        '8'
    } else {
        '9'
    }
}

/// Decimal digits of a natural number, most significant first, without
/// leading zeros.
pub open spec fn decimal_nat(n: nat) -> Seq<char>
    decreases n,
{
    if n < 10 {
        seq![digit(n as int)]
    } else {
        decimal_nat(n / 10).push(digit((n % 10) as int))
    }
}

/// Decimal rendering of an integer: a minus sign for negative numbers, then
/// the digits of the magnitude.
pub open spec fn decimal(n: int) -> Seq<char> {
    if n < 0 {
        seq!['-'] + decimal_nat((-n) as nat)
    } else {
        decimal_nat(n as nat)
    }
}

/// The texts of a sequence of strings.
pub open spec fn texts(v: Seq<String>) -> Seq<Seq<char>> {
    Seq::new(v.len(), |i: int| v[i]@)
}

/// The parts written one after another with `sep` between neighbours.
pub open spec fn joined(parts: Seq<Seq<char>>, sep: Seq<char>) -> Seq<char>
    decreases parts.len(),
{
    if parts.len() == 0 {
        Seq::empty()
    } else if parts.len() == 1 {
        parts[0]
    } else {
        joined(parts.drop_last(), sep) + sep + parts.last()
    }
}

/// The decimal renderings of a sequence of integers.
pub open spec fn decimals(v: Seq<i64>) -> Seq<Seq<char>> {
    Seq::new(v.len(), |i: int| decimal(v[i] as int))
}

/// The decimal renderings of a sequence of bytes.
pub open spec fn byte_decimals(v: Seq<u8>) -> Seq<Seq<char>> {
    Seq::new(v.len(), |i: int| decimal(v[i] as int))
}

/// A list as it is shown for inspection: the items separated by a comma and
/// a space, inside square brackets.
pub open spec fn bracketed(items: Seq<Seq<char>>) -> Seq<char> {
    seq!['['] + joined(items, seq![',', ' ']) + seq![']']
}

fn digit_text(d: u64) -> (s: &'static str)
    requires
        d < 10,
    ensures
        s@ == seq![digit(d as int)],
{
    proof {
        reveal_strlit("0");
        reveal_strlit("1");
        reveal_strlit("2");
        reveal_strlit("3");
        reveal_strlit("4");
        reveal_strlit("5");
        reveal_strlit("6");
        reveal_strlit("7");
        reveal_strlit("8");
        reveal_strlit("9");
    }
    let s = if d == 0 {
        "0"
    } else if d == 1 {
        "1"
    } else if d == 2 {
        "2"
    } else if d == 3 {
        "3"
    } else if d == 4 {
        "4"
    } else if d == 5 {
        "5"
    } else if d == 6 {
        "6"
    } else if d == 7 {
        "7"
    } else if d == 8 {
        "8"
    } else {
        "9"
    };
    assert(s@ =~= seq![digit(d as int)]);
    s
}

/// Appends the decimal digits of `n` to `out`.
pub fn push_decimal(out: &mut String, n: u64)
    ensures
        final(out)@ == old(out)@ + decimal_nat(n as nat),
    decreases n,
{
    if n >= 10 {
        push_decimal(out, n / 10);
    }
    out.append(digit_text(n % 10));
    assert(out@ =~= old(out)@ + decimal_nat(n as nat));
}

/// Renders a non-negative number in decimal.
pub fn decimal_of_u64(n: u64) -> (r: String)
    ensures
        r@ == decimal(n as int),
{
    let mut out = String::new();
    push_decimal(&mut out, n);
    assert(out@ =~= decimal(n as int));
    out
}

/// Renders an index in decimal.
pub fn decimal_of_usize(n: usize) -> (r: String)
    ensures
        r@ == decimal(n as int),
{
    decimal_of_u64(n as u64)
}

/// Renders a signed number in decimal.
pub fn decimal_of_i64(v: i64) -> (r: String)
    ensures
        r@ == decimal(v as int),
{
    if v < 0 {
        let magnitude: u64 = (-(v + 1)) as u64 + 1;
        let mut out = String::new();
        proof {
            reveal_strlit("-");
        }
        out.append("-");
        push_decimal(&mut out, magnitude);
        assert(out@ =~= decimal(v as int));
        out
    } else {
        decimal_of_u64(v as u64)
    }
}

/// Writes the parts one after another with `sep` between neighbours.
pub fn join(parts: &Vec<String>, sep: &str) -> (r: String)
    ensures
        r@ == joined(texts(parts@), sep@),
{
    let mut out = String::new();
    let mut i: usize = 0;
    while i < parts.len()
        invariant
            i <= parts.len(),
            out@ == joined(texts(parts@).take(i as int), sep@),
        decreases parts.len() - i,
    {
        if i > 0 {
            out.append(sep);
        }
        out.append(parts[i].as_str());
        proof {
            let all = texts(parts@);
            let before = all.take(i as int);
            let now = all.take(i + 1);
            assert(now.drop_last() =~= before);
            assert(now.last() == parts@[i as int]@);
            if i == 0 {
                assert(out@ =~= now[0]);
            } else {
                assert(out@ =~= joined(before, sep@) + sep@ + now.last());
            }
        }
        i = i + 1;
    }
    assert(texts(parts@).take(parts.len() as int) =~= texts(parts@));
    out
}

/// Renders each number in decimal.
pub fn decimals_of(v: &Vec<i64>) -> (r: Vec<String>)
    ensures
        texts(r@) == decimals(v@),
{
    let mut out: Vec<String> = Vec::new();
    let mut i: usize = 0;
    while i < v.len()
        invariant
            i <= v.len(),
            out.len() == i,
            forall|k: int| 0 <= k < i ==> (#[trigger] out@[k])@ == decimal(v@[k] as int),
        decreases v.len() - i,
    {
        out.push(decimal_of_i64(v[i]));
        i = i + 1;
    }
    assert(texts(out@) =~= decimals(v@));
    out
}

/// Renders each byte in decimal.
pub fn byte_decimals_of(v: &Vec<u8>) -> (r: Vec<String>)
    ensures
        texts(r@) == byte_decimals(v@),
{
    let mut out: Vec<String> = Vec::new();
    let mut i: usize = 0;
    while i < v.len()
        invariant
            i <= v.len(),
            out.len() == i,
            forall|k: int| 0 <= k < i ==> (#[trigger] out@[k])@ == decimal(v@[k] as int),
        decreases v.len() - i,
    {
        out.push(decimal_of_u64(v[i] as u64));
        i = i + 1;
    }
    assert(texts(out@) =~= byte_decimals(v@));
    out
}

/// Shows a list of rendered items between square brackets.
pub fn bracket(items: &Vec<String>) -> (r: String)
    ensures
        r@ == bracketed(texts(items@)),
{
    proof {
        reveal_strlit("[");
        reveal_strlit(", ");
        reveal_strlit("]");
    }
    let mut out = String::from_str("[");
    let inner = join(items, ", ");
    out.append(inner.as_str());
    out.append("]");
    assert(", "@ =~= seq![',', ' ']);
    assert(out@ =~= bracketed(texts(items@)));
    out
}

} // verus!
