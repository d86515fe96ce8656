use vstd::prelude::*;
use rand::Rng;

use crate::text::push_char;

verus! {

/// The generator of random numbers that `rand` keeps per thread.
#[verifier::external_type_specification]
#[verifier::external_body]
pub struct ExThreadRng(rand::rngs::ThreadRng);

/// Whether `c` is one of the characters `A`-`Z`, `a`-`z`, `0`-`9`.
pub open spec fn is_alphanumeric(c: char) -> bool {
    ('A' <= c && c <= 'Z') || ('a' <= c && c <= 'z') || ('0' <= c && c <= '9')
}

/// Whether `b` is the ASCII code of one of `A`-`Z`, `a`-`z`, `0`-`9`.
pub open spec fn is_alphanumeric_byte(b: u8) -> bool {
    (65 <= b && b <= 90) || (97 <= b && b <= 122) || (48 <= b && b <= 57)
}

/// `rand::thread_rng`: the generator of the calling thread.
#[verifier::external_body]
fn thread_rng() -> rand::rngs::ThreadRng {
    rand::thread_rng()
}

/// `Rng::sample` with the `Alphanumeric` distribution of `rand`, which
/// returns the ASCII code of a character drawn from `A`-`Z`, `a`-`z`, `0`-`9`.
/// Which character comes out is left to chance and is not stated.
#[verifier::external_body]
fn sample_alphanumeric(rng: &mut rand::rngs::ThreadRng) -> (b: u8)
    ensures
        is_alphanumeric_byte(b),
{
    rng.sample(rand::distributions::Alphanumeric)
}

/// A random string of `lenght` characters, each drawn from `A`-`Z`,
/// `a`-`z`, `0`-`9`.
pub fn new(lenght: usize) -> (res: String)
    ensures
        res@.len() == lenght,
        forall|i: int| 0 <= i < res@.len() ==> is_alphanumeric(#[trigger] res@[i]),
{
    let mut rng = thread_rng();
    let mut res = String::new();
    let mut i: usize = 0;
    while i < lenght
        invariant
            i <= lenght,
            res@.len() == i,
            forall|j: int| 0 <= j < res@.len() ==> is_alphanumeric(#[trigger] res@[j]),
        decreases lenght - i,
    {
        let b = sample_alphanumeric(&mut rng);
        let c = b as char;
        push_char(&mut res, c);
        i = i + 1;
    }
    res
}

} // verus!
