//! Incremental UTF-8 framing of the shell's output: bytes that do not yet
//! form complete characters are carried over to the next read.
use vstd::prelude::*;

verus! {

/// How many leading bytes of `b` are valid UTF-8 (`Utf8Error::valid_up_to`,
/// or the whole length when `b` is valid).
pub uninterp spec fn utf8_valid_len(b: Seq<u8>) -> nat;

/// The length of the invalid sequence that follows the valid prefix of `b`
/// (`Utf8Error::error_len`), or 0 where `b` is valid or merely ends early.
pub uninterp spec fn utf8_invalid_len(b: Seq<u8>) -> nat;

/// Relies on `std::str::from_utf8`: `Ok` when the whole input is valid, and
/// otherwise `Utf8Error::valid_up_to` and `Utf8Error::error_len` (`None`
/// when the input ends inside a character, else the length of the invalid
/// sequence that starts at `valid_up_to`).
#[verifier::external_body]
fn check_utf8(b: &[u8]) -> (r: (usize, usize))
    ensures
        r.0 as nat == utf8_valid_len(b@),
        r.1 as nat == utf8_invalid_len(b@),
        r.0 + r.1 <= b@.len(),
        r.0 == b@.len() ==> r.1 == 0,
{
    match std::str::from_utf8(b) {
        Ok(_) => (b.len(), 0),
        Err(e) => (e.valid_up_to(), e.error_len().unwrap_or(0)),
    }
}

/// The bytes released and the bytes kept back when `acc` is framed: each
/// valid prefix is released, each invalid sequence is skipped, and an
/// unfinished character at the end is kept for the next read.
pub open spec fn frame(acc: Seq<u8>) -> (Seq<u8>, Seq<u8>)
    decreases acc.len(),
{
    let k = utf8_valid_len(acc);
    let e = utf8_invalid_len(acc);
    if k + e > acc.len() {
        (Seq::empty(), acc)
    } else if e > 0 {
        let rest = frame(acc.skip((k + e) as int));
        (acc.take(k as int) + rest.0, rest.1)
    } else {
        (acc.take(k as int), acc.skip(k as int))
    }
}

/// One framing step on `acc`, given the length `valid` of its valid prefix
/// and the length `invalid` of the invalid sequence after it (0 when there is
/// none): returns the valid prefix and what follows the invalid sequence.
pub fn frame_step(acc: Vec<u8>, valid: usize, invalid: usize) -> (r: (Vec<u8>, Vec<u8>))
    requires
        valid + invalid <= acc@.len(),
    ensures
        r.0@ == acc@.take(valid as int),
        r.1@ == acc@.skip(valid + invalid),
{
    let ghost a = acc@;
    let mut acc = acc;
    let n = acc.len();
    assert(valid + invalid <= n);
    let rest = acc.split_off(valid + invalid);
    acc.truncate(valid);
    assert(rest@ =~= a.skip(valid + invalid));
    assert(acc@ =~= a.take(valid as int));
    (acc, rest)
}

pub struct Utf8Carry {
    pending: Vec<u8>,
}

impl Utf8Carry {
    /// The bytes carried over from earlier reads.
    pub closed spec fn pending(&self) -> Seq<u8> {
        self.pending@
    }

    pub fn new() -> (r: Self)
        ensures
            r.pending() == Seq::<u8>::empty(),
    {
        Utf8Carry { pending: Vec::new() }
    }

    /// Adds `bytes` to what was carried over and returns the bytes that now
    /// form complete valid UTF-8 text (possibly none).
    pub fn push(&mut self, bytes: &[u8]) -> (r: Vec<u8>)
        ensures
            r@ == frame(old(self).pending() + bytes@).0,
            final(self).pending() == frame(old(self).pending() + bytes@).1,
    {
        let mut acc: Vec<u8> = Vec::new();
        std::mem::swap(&mut acc, &mut self.pending);
        let mut i: usize = 0;
        let ghost start = acc@;
        while i < bytes.len()
            invariant
                i <= bytes@.len(),
                acc@ == start + bytes@.take(i as int),
                start == old(self).pending(),
            decreases bytes@.len() - i,
        {
            acc.push(bytes[i]);
            i = i + 1;
            assert(acc@ =~= start + bytes@.take(i as int));
        }
        assert(bytes@.take(i as int) =~= bytes@);
        let ghost whole = acc@;
        let mut out: Vec<u8> = Vec::new();
        loop
            invariant
                out@ + frame(acc@).0 == frame(whole).0,
                frame(acc@).1 == frame(whole).1,
                whole == old(self).pending() + bytes@,
            decreases acc@.len(),
        {
            let (k, e) = check_utf8(acc.as_slice());
            let ghost a = acc@;
            let ghost out0 = out@;
            let (valid, rest) = frame_step(acc, k, e);
            let mut j: usize = 0;
            while j < valid.len()
                invariant
                    j <= valid@.len(),
                    out@ == out0 + valid@.take(j as int),
                decreases valid@.len() - j,
            {
                out.push(valid[j]);
                j = j + 1;
                assert(out@ =~= out0 + valid@.take(j as int));
            }
            assert(valid@.take(j as int) =~= valid@);
            if e == 0 {
                self.pending = rest;
                assert(out@ =~= frame(whole).0);
                return out;
            }
            assert(out@ + frame(rest@).0 =~= out0 + frame(a).0);
            acc = rest;
        }
    }
}

} // verus!
