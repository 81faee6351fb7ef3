//! Parameter reading and the byte encodings of replies to the shell.
use vstd::prelude::*;
use crate::model::{ESCAPE, decimal, cursor_report, param, no_params, tail};

verus! {

pub open spec fn params_view(p: Seq<Vec<u16>>) -> Seq<Seq<u16>> {
    p.map_values(|v: Vec<u16>| v@)
}

/// The first value of parameter `i`, or `default` where it is absent.
pub fn param_at(p: &Vec<Vec<u16>>, i: usize, default: usize) -> (r: usize)
    ensures
        r as nat == param(params_view(p@), i as nat, default as nat),
{
    if i < p.len() && p[i].len() > 0 {
        p[i][0] as usize
    } else {
        default
    }
}

/// Whether a status query carries no parameters of its own.
pub fn has_no_params(p: &Vec<Vec<u16>>) -> (r: bool)
    ensures
        r == no_params(params_view(p@)),
{
    let r = p.len() == 0 || p[0].len() == 0 || (p.len() == 1 && p[0].len() == 1 && p[0][0] == 0);
    proof {
        if p@.len() == 1 && p@[0]@.len() == 1 && p@[0]@[0] == 0 {
            assert(params_view(p@)[0] =~= seq![0u16]);
        }
    }
    r
}

/// Appends the decimal digits of `n` to `out`.
pub fn push_decimal(out: &mut Vec<u8>, n: u128)
    ensures
        final(out)@ == old(out)@ + decimal(n as nat),
    decreases n,
{
    if n < 10 {
        out.push(48 + n as u8);
        assert(final(out)@ =~= old(out)@ + decimal(n as nat));
    } else {
        push_decimal(out, n / 10);
        out.push(48 + (n % 10) as u8);
        assert(final(out)@ =~= old(out)@ + decimal(n as nat));
    }
}

/// The report `ESC [ row ; col R`.
pub fn cursor_report_bytes(row: u128, col: u128) -> (r: Vec<u8>)
    ensures
        r@ == cursor_report(row as nat, col as nat),
{
    let mut r: Vec<u8> = Vec::new();
    r.push(ESCAPE);
    r.push(0x5b);
    push_decimal(&mut r, row);
    r.push(0x3b);
    push_decimal(&mut r, col);
    r.push(0x52);
    assert(r@ =~= cursor_report(row as nat, col as nat));
    r
}

/// The characters of `l` from index `n` on; empty where `n` is past the end.
pub fn chars_from(l: &Vec<char>, n: usize) -> (r: Vec<char>)
    ensures
        r@ == tail(l@, n as nat),
{
    let mut r: Vec<char> = Vec::new();
    if n >= l.len() {
        return r;
    }
    let mut i: usize = n;
    assert(r@ =~= l@.subrange(n as int, i as int));
    while i < l.len()
        invariant
            n <= i <= l@.len(),
            r@ == l@.subrange(n as int, i as int),
        decreases l@.len() - i,
    {
        r.push(l[i]);
        i = i + 1;
        assert(r@ =~= l@.subrange(n as int, i as int));
    }
    assert(r@ =~= tail(l@, n as nat));
    r
}

/// Relies on `String`'s `FromIterator<char>`: the string holds exactly the
/// given characters, in order.
#[verifier::external_body]
pub(crate) fn string_from_chars(cs: &Vec<char>) -> (r: String)
    ensures
        r@ == cs@,
{
    cs.iter().collect()
}

} // verus!
