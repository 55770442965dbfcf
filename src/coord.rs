//! Fixed-width big-endian coordinates.

use vstd::arithmetic::power::pow;
use vstd::prelude::*;

verus! {

/// The unsigned integer that a big-endian byte string denotes.
pub open spec fn be_value(s: Seq<u8>) -> nat
    decreases s.len(),
{
    if s.len() == 0 {
        0
    } else {
        (s[0] as nat) * (pow(256, (s.len() - 1) as nat) as nat) + be_value(s.subrange(1, s.len() as int))
    }
}

/// Drops leading zero bytes while the string is longer than `n`.
pub open spec fn strip_to(s: Seq<u8>, n: nat) -> Seq<u8>
    decreases s.len(),
{
    if s.len() > n && s[0] == 0 {
        strip_to(s.subrange(1, s.len() as int), n)
    } else {
        s
    }
}

/// Prepends zero bytes until the string is `n` bytes long.
pub open spec fn pad_to(s: Seq<u8>, n: nat) -> Seq<u8> {
    if s.len() < n {
        Seq::new((n - s.len()) as nat, |i: int| 0u8) + s
    } else {
        s
    }
}

/// A coordinate brought to width `n`, where its value allows.
pub open spec fn adjusted(s: Seq<u8>, n: nat) -> Seq<u8> {
    pad_to(strip_to(s, n), n)
}

proof fn lemma_strip_to(s: Seq<u8>, n: nat)
    ensures
        be_value(strip_to(s, n)) == be_value(s),
        strip_to(s, n).len() > n ==> strip_to(s, n)[0] != 0,
        s.len() <= n ==> strip_to(s, n) == s,
    decreases s.len(),
{
    if s.len() > n && s[0] == 0 {
        let t = s.subrange(1, s.len() as int);
        assert(be_value(s) == be_value(t));
        lemma_strip_to(t, n);
    }
}

proof fn lemma_leading_zeros(k: nat, s: Seq<u8>)
    ensures
        be_value(Seq::new(k, |i: int| 0u8) + s) == be_value(s),
    decreases k,
{
    let z = Seq::new(k, |i: int| 0u8) + s;
    if k > 0 {
        let rest = Seq::new((k - 1) as nat, |i: int| 0u8) + s;
        assert(z.subrange(1, z.len() as int) =~= rest);
        assert(z[0] == 0);
        lemma_leading_zeros((k - 1) as nat, s);
    } else {
        assert(z =~= s);
    }
}

/// Adjusting a coordinate keeps its value, and leaves it at least `n` bytes long, with a
/// non-zero first byte where it is longer; one of `n` bytes or fewer comes out exactly `n`
/// bytes long, and one of exactly `n` bytes comes out unchanged.
pub proof fn lemma_adjusted(s: Seq<u8>, n: nat)
    ensures
        be_value(adjusted(s, n)) == be_value(s),
        adjusted(s, n).len() >= n,
        adjusted(s, n).len() > n ==> adjusted(s, n)[0] != 0,
        s.len() <= n ==> adjusted(s, n).len() == n,
        s.len() == n ==> adjusted(s, n) == s,
{
    lemma_strip_to(s, n);
    let t = strip_to(s, n);
    if t.len() < n {
        lemma_leading_zeros((n - t.len()) as nat, t);
    }
}

/// Brings a big-endian coordinate to `length` bytes: leading zero bytes are dropped while
/// it is too long, and zero bytes are prepended while it is too short. The value it
/// denotes is kept; only a value that does not fit leaves it longer than `length`.
pub fn adjust_coord(coordinate: Vec<u8>, length: usize) -> (r: Vec<u8>)
    ensures
        r@ == adjusted(coordinate@, length as nat),
        be_value(r@) == be_value(coordinate@),
        r@.len() >= length,
        r@.len() > length ==> r@[0] != 0,
        coordinate@.len() <= length ==> r@.len() == length,
{
    let mut coordinate = coordinate;
    let ghost orig = coordinate@;
    proof {
        lemma_strip_to(orig, length as nat);
    }
    while coordinate.len() > length && coordinate[0] == 0
        invariant
            strip_to(coordinate@, length as nat) == strip_to(orig, length as nat),
            be_value(coordinate@) == be_value(orig),
        decreases coordinate.len(),
    {
        proof {
            assert(be_value(coordinate@) == be_value(coordinate@.subrange(1, coordinate@.len() as int)));
        }
        coordinate.remove(0);
    }
    let ghost stripped = coordinate@;
    assert(stripped == strip_to(orig, length as nat));
    while coordinate.len() < length
        invariant
            stripped.len() <= coordinate@.len() <= length || stripped.len() >= length && coordinate@ == stripped,
            coordinate@.len() <= length ==> coordinate@ =~= Seq::new((coordinate@.len() - stripped.len()) as nat, |i: int| 0u8) + stripped,
        decreases length - coordinate.len(),
    {
        coordinate.insert(0, 0);
        assert(coordinate@ =~= Seq::new((coordinate@.len() - stripped.len()) as nat, |i: int| 0u8) + stripped);
    }
    proof {
        if stripped.len() < length {
            assert(coordinate@ =~= pad_to(stripped, length as nat));
        }
        lemma_adjusted(orig, length as nat);
    }
    coordinate
}

} // verus!
