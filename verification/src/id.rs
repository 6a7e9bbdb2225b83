//! The identifier generator: short, unique, flag-safe opaque ids.

use vstd::prelude::*;

verus! {

/// The alphabet identifiers are drawn from: 62 alphanumeric symbols, no
/// dashes or underscores, so an id can never be mistaken for a command-line
/// option token and never needs quoting.
pub open spec fn id_alphabet() -> Seq<char> {
    "0123456789ABCDEFGHIJKLMNOPQRSTUVWXYZabcdefghijklmnopqrstuvwxyz"@
}

/// The length of a generated identifier.
pub open spec fn id_len() -> nat {
    8
}

/// Relies on nanoid::format with nanoid's default (cryptographically
/// strong) random source: with this 62-symbol single-byte alphabet it
/// returns a string of exactly `size` characters, each drawn from the
/// alphabet.
#[verifier::external_body]
fn random_id_from(alphabet: &Vec<char>, size: usize) -> (r: String)
    requires
        alphabet@ == id_alphabet(),
        0 < size,
    ensures
        r@.len() == size,
        forall|i: int| 0 <= i < r@.len() ==> id_alphabet().contains(#[trigger] r@[i]),
{
    nanoid::format(nanoid::rngs::default, alphabet.as_slice(), size)
}

/// The identifier alphabet as a vector of characters.
fn build_id_alphabet() -> (r: Vec<char>)
    ensures
        r@ == id_alphabet(),
{
    let s = "0123456789ABCDEFGHIJKLMNOPQRSTUVWXYZabcdefghijklmnopqrstuvwxyz";
    proof {
        reveal_strlit("0123456789ABCDEFGHIJKLMNOPQRSTUVWXYZabcdefghijklmnopqrstuvwxyz");
    }
    let n = s.unicode_len();
    let mut v: Vec<char> = Vec::new();
    let mut i: usize = 0;
    while i < n
        invariant
            i <= n,
            n == id_alphabet().len(),
            s@ == id_alphabet(),
            v@ =~= id_alphabet().subrange(0, i as int),
        decreases n - i,
    {
        v.push(s.get_char(i));
        assert(v@ =~= id_alphabet().subrange(0, i as int + 1));
        i += 1;
    }
    assert(v@ =~= id_alphabet());
    v
}

/// Generate a fresh identifier: 8 characters, alphanumeric only. The store
/// still checks uniqueness on insert; a collision is practically
/// unreachable at realistic entity counts.
pub fn generate_id() -> (r: String)
    ensures
        r@.len() == id_len(),
        forall|i: int| 0 <= i < r@.len() ==> id_alphabet().contains(#[trigger] r@[i]),
{
    let alphabet = build_id_alphabet();
    random_id_from(&alphabet, 8)
}

} // verus!
