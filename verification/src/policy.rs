//! What a caller asks of one generated password.

use vstd::prelude::*;

verus! {

/// The shortest password that is ever generated.
pub const MIN_LENGTH: usize = 1;

/// The longest password that is ever generated.
pub const MAX_LENGTH: usize = 1024;

/// The policy of one request: how long the password is to be, which character
/// classes it may draw from, and whether look-alike characters are left out.
///
/// Any value is a valid policy. A length outside `[MIN_LENGTH, MAX_LENGTH]` is
/// clamped, and a policy that names no class falls back to letters and digits.
#[derive(Clone, Copy, Debug, PartialEq, Eq, Structural)]
pub struct PasswordOptions {
    pub length: usize,
    pub use_lower: bool,
    pub use_upper: bool,
    pub use_numeric: bool,
    pub use_symbols: bool,
    /// When true, exclude look-alike characters such as 0/O and 1/l/I.
    pub avoid_ambiguous: bool,
}

/// `length` brought into `[MIN_LENGTH, MAX_LENGTH]`.
pub open spec fn clamped_length(length: int) -> int {
    if length < MIN_LENGTH {
        MIN_LENGTH as int
    } else if length > MAX_LENGTH {
        MAX_LENGTH as int
    } else {
        length
    }
}

impl PasswordOptions {
    /// Whether the policy names at least one character class.
    pub open spec fn names_a_class(&self) -> bool {
        self.use_lower || self.use_upper || self.use_numeric || self.use_symbols
    }

    /// Whether the policy asks for both cases of letters.
    pub open spec fn spec_use_alpha(&self) -> bool {
        self.use_lower && self.use_upper
    }

    /// Whether the policy is the common one that the alphanumeric sampler
    /// serves: letters of both cases and digits, no symbols.
    pub open spec fn spec_is_alphanumeric(&self) -> bool {
        self.spec_use_alpha() && self.use_numeric && !self.use_symbols
    }

    #[verifier::when_used_as_spec(spec_use_alpha)]
    pub fn use_alpha(&self) -> (both: bool)
        ensures
            both == self.spec_use_alpha(),
    {
        self.use_lower && self.use_upper
    }

    #[verifier::when_used_as_spec(spec_is_alphanumeric)]
    pub fn is_alphanumeric(&self) -> (plain: bool)
        ensures
            plain == self.spec_is_alphanumeric(),
    {
        self.use_alpha() && self.use_numeric && !self.use_symbols
    }

    /// The length of the password that this policy yields.
    pub fn effective_length(&self) -> (length: usize)
        ensures
            length == clamped_length(self.length as int),
            MIN_LENGTH <= length <= MAX_LENGTH,
    {
        if self.length < MIN_LENGTH {
            MIN_LENGTH
        } else if self.length > MAX_LENGTH {
            MAX_LENGTH
        } else {
            self.length
        }
    }
}

/// Clamping never leaves the bounds, holds what is short at the floor and what
/// is long at the ceiling, and leaves the rest alone.
pub proof fn lemma_clamped_length(length: int)
    ensures
        MIN_LENGTH <= clamped_length(length) <= MAX_LENGTH,
        length <= 0 ==> clamped_length(length) == 1,
        length > 1024 ==> clamped_length(length) == 1024,
        1 <= length <= 1024 ==> clamped_length(length) == length,
{
}

} // verus!
