//! A coarse strength score for a password: the size of the alphabet that its
//! characters suggest, raised to its length, held against three thresholds.
//!
//! The score is an entropy in bits, `log2(pool) * count`. The tiers only ever
//! ask whether that entropy reaches a whole number of bits, which is the same
//! as asking whether `pool^count` reaches `2^bits`; the model and the code
//! work with that integer form, so no logarithm is ever taken.

use vstd::arithmetic::power::{lemma_pow0, lemma_pow_increases, pow};
use vstd::arithmetic::power2::{lemma2_to64, lemma2_to64_rest, lemma_pow2_adds, pow2};
use vstd::prelude::*;

verus! {

/// What a lowercase letter adds to the alphabet estimate.
pub const LOWERCASE_POOL: u32 = 26;

/// What an uppercase letter adds to the alphabet estimate.
pub const UPPERCASE_POOL: u32 = 26;

/// What a digit adds to the alphabet estimate.
pub const DIGIT_POOL: u32 = 10;

/// What any other character adds to the alphabet estimate.
pub const SYMBOL_POOL: u32 = 32;

/// Entropy, in bits, from which a password is fair.
pub const FAIR_BITS: u32 = 35;

/// Entropy, in bits, from which a password is good.
pub const GOOD_BITS: u32 = 60;

/// Entropy, in bits, from which a password is strong.
pub const STRONG_BITS: u32 = 80;

pub const WEAK_LABEL: &'static str = "Weak";

pub const FAIR_LABEL: &'static str = "Fair";

pub const GOOD_LABEL: &'static str = "Good";

pub const STRONG_LABEL: &'static str = "Strong";

pub const WEAK_COLOR: &'static str = "bg-red-500";

pub const FAIR_COLOR: &'static str = "bg-orange-500";

pub const GOOD_COLOR: &'static str = "bg-yellow-500";

pub const STRONG_COLOR: &'static str = "bg-green-600";

/// The four strength tiers, weakest first.
#[derive(Clone, Copy, Debug, PartialEq, Eq, Structural)]
pub enum StrengthTier {
    Weak,
    Fair,
    Good,
    Strong,
}

impl StrengthTier {
    /// The tier's name.
    pub open spec fn label_text(self) -> Seq<char> {
        match self {
            StrengthTier::Weak => WEAK_LABEL@,
            StrengthTier::Fair => FAIR_LABEL@,
            StrengthTier::Good => GOOD_LABEL@,
            StrengthTier::Strong => STRONG_LABEL@,
        }
    }

    /// The tier's color token.
    pub open spec fn color_text(self) -> Seq<char> {
        match self {
            StrengthTier::Weak => WEAK_COLOR@,
            StrengthTier::Fair => FAIR_COLOR@,
            StrengthTier::Good => GOOD_COLOR@,
            StrengthTier::Strong => STRONG_COLOR@,
        }
    }

    /// How full the strength meter is for a non-empty password of this tier,
    /// in hundredths.
    pub open spec fn meter_hundredths(self) -> nat {
        match self {
            StrengthTier::Weak => 33,
            StrengthTier::Fair => 50,
            StrengthTier::Good => 75,
            StrengthTier::Strong => 100,
        }
    }

    pub fn label(self) -> (text: &'static str)
        ensures
            text@ == self.label_text(),
    {
        match self {
            StrengthTier::Weak => WEAK_LABEL,
            StrengthTier::Fair => FAIR_LABEL,
            StrengthTier::Good => GOOD_LABEL,
            StrengthTier::Strong => STRONG_LABEL,
        }
    }

    pub fn color(self) -> (text: &'static str)
        ensures
            text@ == self.color_text(),
    {
        match self {
            StrengthTier::Weak => WEAK_COLOR,
            StrengthTier::Fair => FAIR_COLOR,
            StrengthTier::Good => GOOD_COLOR,
            StrengthTier::Strong => STRONG_COLOR,
        }
    }

    pub fn pct_hundredths(self) -> (pct: u8)
        ensures
            pct == self.meter_hundredths(),
    {
        match self {
            StrengthTier::Weak => 33,
            StrengthTier::Fair => 50,
            StrengthTier::Good => 75,
            StrengthTier::Strong => 100,
        }
    }
}

/// The strength report of one password. `pct_hundredths` is the meter's fill
/// in hundredths: 33 stands for 0.33.
#[derive(Clone, Debug, PartialEq, Eq)]
pub struct PasswordStrength {
    pub label: String,
    pub color: String,
    pub pct_hundredths: u8,
}

pub open spec fn is_lowercase(c: char) -> bool {
    'a' <= c <= 'z'
}

pub open spec fn is_uppercase(c: char) -> bool {
    'A' <= c <= 'Z'
}

pub open spec fn is_digit(c: char) -> bool {
    '0' <= c <= '9'
}

/// Whatever is neither an ASCII letter nor an ASCII digit counts as a symbol,
/// printable or not.
pub open spec fn is_symbol(c: char) -> bool {
    !is_lowercase(c) && !is_uppercase(c) && !is_digit(c)
}

pub open spec fn has_lowercase(s: Seq<char>) -> bool {
    exists|i: int| 0 <= i < s.len() && is_lowercase(#[trigger] s[i])
}

pub open spec fn has_uppercase(s: Seq<char>) -> bool {
    exists|i: int| 0 <= i < s.len() && is_uppercase(#[trigger] s[i])
}

pub open spec fn has_digit(s: Seq<char>) -> bool {
    exists|i: int| 0 <= i < s.len() && is_digit(#[trigger] s[i])
}

pub open spec fn has_symbol(s: Seq<char>) -> bool {
    exists|i: int| 0 <= i < s.len() && is_symbol(#[trigger] s[i])
}

/// The sum of the pools of the classes that occur in `s`.
pub open spec fn class_pool(s: Seq<char>) -> nat {
    let lower: nat = if has_lowercase(s) { LOWERCASE_POOL as nat } else { 0 };
    let upper: nat = if has_uppercase(s) { UPPERCASE_POOL as nat } else { 0 };
    let digit: nat = if has_digit(s) { DIGIT_POOL as nat } else { 0 };
    let symbol: nat = if has_symbol(s) { SYMBOL_POOL as nat } else { 0 };
    lower + upper + digit + symbol
}

/// The alphabet size that the estimate assumes for `s`: the class pools, or 1
/// where no class occurs.
pub open spec fn pool_size(s: Seq<char>) -> nat {
    if class_pool(s) == 0 {
        1
    } else {
        class_pool(s)
    }
}

/// Every character falls into exactly one class, so a password that is not
/// empty has a class pool of at least the smallest class, and the guard for
/// an empty pool only ever serves the empty password.
pub proof fn lemma_pool_of_nonempty(s: Seq<char>)
    requires
        s.len() > 0,
    ensures
        class_pool(s) >= DIGIT_POOL,
        pool_size(s) == class_pool(s),
        pool_size(s) <= LOWERCASE_POOL + UPPERCASE_POOL + DIGIT_POOL + SYMBOL_POOL,
{
    let c = s[0];
    assert(is_lowercase(c) || is_uppercase(c) || is_digit(c) || is_symbol(c));
}

/// `log2(pool) * count >= bits`, stated without the logarithm.
pub open spec fn entropy_reaches(pool: nat, count: nat, bits: nat) -> bool {
    pow(pool as int, count) >= pow2(bits)
}

/// The tier of `count` characters over an alphabet of `pool`: the first
/// threshold that the entropy stays under decides.
pub open spec fn tier_for(pool: nat, count: nat) -> StrengthTier {
    if !entropy_reaches(pool, count, FAIR_BITS as nat) {
        StrengthTier::Weak
    } else if !entropy_reaches(pool, count, GOOD_BITS as nat) {
        StrengthTier::Fair
    } else if !entropy_reaches(pool, count, STRONG_BITS as nat) {
        StrengthTier::Good
    } else {
        StrengthTier::Strong
    }
}

/// The tier of a password. The empty password is weak by decree.
pub open spec fn tier_of(s: Seq<char>) -> StrengthTier {
    if s.len() == 0 {
        StrengthTier::Weak
    } else {
        tier_for(pool_size(s), s.len())
    }
}

/// The meter's fill for a password, in hundredths. Only the empty password
/// leaves the meter empty.
pub open spec fn pct_of(s: Seq<char>) -> nat {
    if s.len() == 0 {
        0
    } else {
        tier_of(s).meter_hundredths()
    }
}

pub fn is_lowercase_char(c: char) -> (b: bool)
    ensures
        b == is_lowercase(c),
{
    'a' <= c && c <= 'z'
}

pub fn is_uppercase_char(c: char) -> (b: bool)
    ensures
        b == is_uppercase(c),
{
    'A' <= c && c <= 'Z'
}

pub fn is_digit_char(c: char) -> (b: bool)
    ensures
        b == is_digit(c),
{
    '0' <= c && c <= '9'
}

/// Scans `password` once for the four classes and adds up their pools.
pub fn character_pool(password: &str) -> (pool: u32)
    ensures
        pool == pool_size(password@),
{
    let mut lower: bool = false;
    let mut upper: bool = false;
    let mut digit: bool = false;
    let mut symbol: bool = false;
    for c in it: password.chars()
        invariant
            it.seq() == password@,
            lower == (exists|i: int| 0 <= i < it.index() && is_lowercase(#[trigger] password@[i])),
            upper == (exists|i: int| 0 <= i < it.index() && is_uppercase(#[trigger] password@[i])),
            digit == (exists|i: int| 0 <= i < it.index() && is_digit(#[trigger] password@[i])),
            symbol == (exists|i: int| 0 <= i < it.index() && is_symbol(#[trigger] password@[i])),
    {
        if is_lowercase_char(c) {
            lower = true;
        } else if is_uppercase_char(c) {
            upper = true;
        } else if is_digit_char(c) {
            digit = true;
        } else {
            symbol = true;
        }
    }
    let mut pool: u32 = 0;
    if lower {
        pool = pool + LOWERCASE_POOL;
    }
    if upper {
        pool = pool + UPPERCASE_POOL;
    }
    if digit {
        pool = pool + DIGIT_POOL;
    }
    if symbol {
        pool = pool + SYMBOL_POOL;
    }
    if pool == 0 {
        pool = 1;
    }
    pool
}

/// The powers of two that the thresholds stand for.
proof fn lemma_threshold_values()
    ensures
        pow2(FAIR_BITS as nat) == 0x8_0000_0000,
        pow2(GOOD_BITS as nat) == 0x1000_0000_0000_0000,
        pow2(STRONG_BITS as nat) == 0x1_0000_0000_0000_0000_0000,
{
    lemma2_to64();
    lemma2_to64_rest();
    lemma_pow2_adds(64, 16);
}

/// Decides the tier of `count` characters over an alphabet of `pool`.
///
/// The power is built up one factor at a time and the loop stops as soon as
/// it has passed the highest threshold, so it runs at most 80 times however
/// long the password is. A pool of 0 or 1 never leaves the weak tier.
pub fn classify_entropy(pool: u32, count: usize) -> (tier: StrengthTier)
    ensures
        tier == tier_for(pool as nat, count as nat),
{
    proof {
        lemma_threshold_values();
        lemma_pow0(pool as int);
    }
    if pool < 2 {
        proof {
            lemma_pow_at_most_one(pool as nat, count as nat);
        }
        return StrengthTier::Weak;
    }
    let fair: u128 = 0x8_0000_0000;
    let good: u128 = 0x1000_0000_0000_0000;
    let strong: u128 = 0x1_0000_0000_0000_0000_0000;
    let mut power: u128 = 1;
    let mut taken: usize = 0;
    while taken < count && power < strong
        invariant
            pool >= 2,
            strong == 0x1_0000_0000_0000_0000_0000,
            taken <= count,
            power == pow(pool as int, taken as nat),
        decreases count - taken,
    {
        proof {
            lemma_pow_step(pool as int, taken as nat);
            assert(power * pool < 0x1_0000_0000_0000_0000_0000 * 0x1_0000_0000) by (nonlinear_arith)
                requires
                    0 <= power < 0x1_0000_0000_0000_0000_0000,
                    0 <= pool < 0x1_0000_0000,
            ;
        }
        power = power * (pool as u128);
        taken = taken + 1;
    }
    proof {
        lemma_pow_increases(pool as nat, taken as nat, count as nat);
    }
    if power < fair {
        StrengthTier::Weak
    } else if power < good {
        StrengthTier::Fair
    } else if power < strong {
        StrengthTier::Good
    } else {
        StrengthTier::Strong
    }
}

/// One more factor: `b^(e+1) == b^e * b`.
proof fn lemma_pow_step(b: int, e: nat)
    ensures
        pow(b, e + 1) == pow(b, e) * b,
{
    reveal(pow);
    assert(pow(b, e + 1) == b * pow(b, e)) by {
        assert(((e + 1) - 1) as nat == e);
    }
    assert(b * pow(b, e) == pow(b, e) * b) by (nonlinear_arith);
}

/// Powers of 0 and of 1 never pass 1.
proof fn lemma_pow_at_most_one(b: nat, e: nat)
    requires
        b < 2,
    ensures
        0 <= pow(b as int, e) <= 1,
    decreases e,
{
    reveal(pow);
    if e > 0 {
        lemma_pow_at_most_one(b, (e - 1) as nat);
        assert(0 <= b * pow(b as int, (e - 1) as nat) <= 1) by (nonlinear_arith)
            requires
                0 <= b < 2,
                0 <= pow(b as int, (e - 1) as nat) <= 1,
        ;
    }
}

/// Scores `password`: its tier's label and color, and the meter's fill.
pub fn calculate_password_strength_from_password(password: String) -> (report: PasswordStrength)
    ensures
        report.label@ == tier_of(password@).label_text(),
        report.color@ == tier_of(password@).color_text(),
        report.pct_hundredths == pct_of(password@),
        password@.len() == 0 ==> report.label@ == WEAK_LABEL@ && report.color@ == WEAK_COLOR@
            && report.pct_hundredths == 0,
{
    let length: usize = password.as_str().unicode_len();
    if length == 0 {
        return PasswordStrength {
            label: WEAK_LABEL.to_string(),
            color: WEAK_COLOR.to_string(),
            pct_hundredths: 0,
        };
    }
    let pool: u32 = character_pool(password.as_str());
    let tier: StrengthTier = classify_entropy(pool, length);
    PasswordStrength {
        label: tier.label().to_string(),
        color: tier.color().to_string(),
        pct_hundredths: tier.pct_hundredths(),
    }
}

} // verus!
