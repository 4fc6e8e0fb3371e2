//! Big-endian (network byte order) encoding of unsigned integers.

use vstd::prelude::*;
use vstd::arithmetic::power::pow;

verus! {

/// The `n` low-order base-256 digits of `v`, most significant first.
pub open spec fn be_bytes(v: nat, n: nat) -> Seq<u8>
    decreases n,
{
    if n == 0 {
        Seq::empty()
    } else {
        be_bytes(v / 256, (n - 1) as nat).push((v % 256) as u8)
    }
}

/// The number that a sequence of bytes denotes when read most significant
/// byte first.
pub open spec fn be_value(bytes: Seq<u8>) -> nat
    decreases bytes.len(),
{
    if bytes.len() == 0 {
        0
    } else {
        be_value(bytes.drop_last()) * 256 + bytes.last() as nat
    }
}

/// Network byte order loses nothing: `n` big-endian bytes of a number below
/// `256^n` are `n` bytes long and read back as that number.
pub proof fn lemma_be_bytes_roundtrip(v: nat, n: nat)
    requires
        v < pow(256, n),
    ensures
        be_bytes(v, n).len() == n,
        be_value(be_bytes(v, n)) == v,
    decreases n,
{
    reveal(pow);
    if n > 0 {
        let p = pow(256, (n - 1) as nat);
        assert(pow(256, n) == 256 * p);
        assert(v / 256 < p) by (nonlinear_arith)
            requires
                v < 256 * p,
        ;
        lemma_be_bytes_roundtrip(v / 256, (n - 1) as nat);
        let prefix = be_bytes(v / 256, (n - 1) as nat);
        assert(be_bytes(v, n).drop_last() =~= prefix);
        assert(v == (v / 256) * 256 + v % 256) by (nonlinear_arith);
    }
}

} // verus!
