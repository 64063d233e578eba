//! Drawing a password: as many characters as the policy's length allows, each
//! taken at random from the policy's alphabet.

use crate::alphabet::alphanumeric;
use crate::charset::{build_charset, charset_of};
use crate::policy::{clamped_length, PasswordOptions};
use crate::random::{draw_index, index_bound, index_distribution, sample_alphanumeric};
use vstd::prelude::*;

verus! {

/// `String::push` appends one character.
pub assume_specification[ String::push ](text: &mut String, c: char)
    ensures
        final(text)@ == old(text)@.push(c),
;

/// The alphabet that a policy's password is drawn from. The common policy of
/// letters and digits is served from the plain alphanumeric alphabet, whether
/// or not it avoids ambiguous characters; every other policy from its
/// character set.
pub open spec fn sampling_alphabet(options: PasswordOptions) -> Seq<char> {
    if options.is_alphanumeric() {
        alphanumeric()
    } else {
        charset_of(options)
    }
}

/// The characters of `charset` at `indices`, in the order of the indices.
pub open spec fn picked(charset: Seq<char>, indices: Seq<usize>) -> Seq<char> {
    Seq::new(indices.len(), |i: int| charset[indices[i] as int])
}

/// Spells the password that a run of draws stands for: one character of
/// `charset` for each index.
///
/// This is the whole of the generator but for the draws themselves. A caller
/// with a random source of its own resolves the character set, draws the
/// indices from that source, and hands them in here.
pub fn pick_characters(charset: &Vec<char>, indices: &Vec<usize>) -> (password: String)
    requires
        forall|i: int| 0 <= i < indices@.len() ==> #[trigger] indices@[i] < charset@.len(),
    ensures
        password@ == picked(charset@, indices@),
{
    let mut password: String = String::new();
    let mut i: usize = 0;
    while i < indices.len()
        invariant
            i <= indices.len(),
            forall|j: int| 0 <= j < indices@.len() ==> #[trigger] indices@[j] < charset@.len(),
            password@ == picked(charset@, indices@.take(i as int)),
        decreases indices.len() - i,
    {
        let index: usize = indices[i];
        password.push(charset[index]);
        i = i + 1;
        proof {
            assert(password@ == picked(charset@, indices@.take(i as int)));
        }
    }
    proof {
        assert(indices@.take(indices@.len() as int) == indices@);
    }
    password
}

/// Draws `count` indices into a character set of `size` characters.
fn draw_indices(size: usize, count: usize) -> (indices: Vec<usize>)
    requires
        size > 0,
    ensures
        indices@.len() == count,
        forall|i: int| 0 <= i < indices@.len() ==> #[trigger] indices@[i] < size,
{
    let mut rng = rand::thread_rng();
    let dist = index_distribution(size);
    let mut indices: Vec<usize> = Vec::new();
    while indices.len() < count
        invariant
            indices@.len() <= count,
            index_bound(dist) == size,
            forall|i: int| 0 <= i < indices@.len() ==> #[trigger] indices@[i] < size,
        decreases count - indices@.len(),
    {
        let index: usize = draw_index(&dist, &mut rng);
        indices.push(index);
    }
    indices
}

/// Generates a password for `options`.
///
/// The password has the policy's length, clamped to `[1, 1024]`, and every
/// character of it belongs to the policy's alphabet. Which characters come out
/// is up to the random source.
pub fn generate_password(options: PasswordOptions) -> (password: String)
    ensures
        password@.len() == clamped_length(options.length as int),
        options.length <= 0 ==> password@.len() == 1,
        options.length > 1024 ==> password@.len() == 1024,
        forall|i: int|
            0 <= i < password@.len() ==> sampling_alphabet(options).contains(#[trigger] password@[i]),
{
    let length: usize = options.effective_length();
    if options.is_alphanumeric() {
        let mut rng = rand::thread_rng();
        return sample_alphanumeric(&mut rng, length);
    }
    let charset: Vec<char> = build_charset(&options);
    let indices: Vec<usize> = draw_indices(charset.len(), length);
    pick_characters(&charset, &indices)
}

} // verus!
