use vstd::prelude::*;
use vstd::string::*;

verus! {

/// Relies on `String::from(char)`: a string made of the one character.
#[verifier::external_body]
pub fn char_to_string(c: char) -> (r: String)
    ensures
        r@ == seq![c],
{
    String::from(c)
}

/// The characters of `s`, in order.
pub fn chars_of(s: &str) -> (r: Vec<char>)
    ensures
        r@ == s@,
{
    let n = s.unicode_len();
    let mut out: Vec<char> = Vec::new();
    let mut i: usize = 0;
    while i < n
        invariant
            n == s@.len(),
            i <= n,
            out@ == s@.subrange(0, i as int),
        decreases n - i,
    {
        let c = s.get_char(i);
        out.push(c);
        i = i + 1;
        assert(out@ =~= s@.subrange(0, i as int));
    }
    assert(out@ =~= s@);
    out
}

/// A string holding the characters `v[from..to]`.
pub fn string_of(v: &Vec<char>, from: usize, to: usize) -> (r: String)
    requires
        from <= to <= v@.len(),
    ensures
        r@ == v@.subrange(from as int, to as int),
{
    let mut out = String::new();
    let mut i: usize = from;
    while i < to
        invariant
            from <= i <= to <= v@.len(),
            out@ == v@.subrange(from as int, i as int),
        decreases to - i,
    {
        let piece = char_to_string(v[i]);
        out = out.concat(piece.as_str());
        i = i + 1;
        assert(out@ =~= v@.subrange(from as int, i as int));
    }
    out
}

/// Whether `v[from..]` starts with the characters of `lit`.
pub fn has_prefix_at(v: &Vec<char>, from: usize, lit: &str) -> (r: bool)
    requires
        from <= v@.len(),
    ensures
        r == (from + lit@.len() <= v@.len() && v@.subrange(
            from as int,
            from + lit@.len(),
        ) == lit@),
{
    let n = lit.unicode_len();
    let vl = v.len();
    if n > vl - from {
        return false;
    }
    let mut i: usize = 0;
    while i < n
        invariant
            n == lit@.len(),
            vl == v@.len(),
            from + n <= v@.len(),
            i <= n,
            forall|j: int| 0 <= j < i ==> v@[from + j] == lit@[j],
        decreases n - i,
    {
        assert(from + i < v@.len());
        if v[from + i] != lit.get_char(i) {
            assert(v@.subrange(from as int, from + lit@.len())[i as int] != lit@[i as int]);
            return false;
        }
        i = i + 1;
    }
    assert(v@.subrange(from as int, from + lit@.len()) =~= lit@);
    true
}

/// Whether `v[from..]` is exactly the characters of `lit`.
pub fn rest_equals(v: &Vec<char>, from: usize, lit: &str) -> (r: bool)
    requires
        from <= v@.len(),
    ensures
        r == (v@.subrange(from as int, v@.len() as int) == lit@),
{
    let n = lit.unicode_len();
    if v.len() - from != n {
        proof {
            if v@.subrange(from as int, v@.len() as int) == lit@ {
                assert(v@.subrange(from as int, v@.len() as int).len() == lit@.len());
            }
        }
        return false;
    }
    let r = has_prefix_at(v, from, lit);
    assert(from + lit@.len() == v@.len());
    r
}

} // verus!

verus! {

/// The decimal digit character for `d < 10`.
pub open spec fn digit_char(d: nat) -> char {
    ((d + 48) as u8) as char
}

/// The decimal notation of `n`, without leading zeros.
pub open spec fn decimal(n: nat) -> Seq<char>
    decreases n,
{
    if n < 10 {
        seq![digit_char(n)]
    } else {
        decimal(n / 10).push(digit_char(n % 10))
    }
}

/// The decimal notation of `n`.
pub fn decimal_string(n: usize) -> (r: String)
    ensures
        r@ == decimal(n as nat),
    decreases n,
{
    let d = ((n % 10) as u8 + 48u8) as char;
    let last = char_to_string(d);
    if n < 10 {
        last
    } else {
        let head = decimal_string(n / 10);
        let r = head.concat(last.as_str());
        assert(r@ =~= decimal(n as nat));
        r
    }
}

} // verus!
