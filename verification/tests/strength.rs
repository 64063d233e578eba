use passy::strength::{
    is_digit_char, is_lowercase_char, is_uppercase_char, FAIR_BITS, GOOD_BITS, STRONG_BITS,
};
use passy::{
    calculate_password_strength_from_password, character_pool, classify_entropy, PasswordStrength,
    StrengthTier,
};

fn score(password: &str) -> PasswordStrength {
    calculate_password_strength_from_password(password.to_string())
}

fn report(label: &str, color: &str, pct_hundredths: u8) -> PasswordStrength {
    PasswordStrength { label: label.to_string(), color: color.to_string(), pct_hundredths }
}

fn meter(report: &PasswordStrength) -> f32 {
    report.pct_hundredths as f32 / 100.0
}

/// The entropy as the formula gives it, in floating point.
fn entropy(pool: u32, count: usize) -> f64 {
    (pool as f64).log2() * (count as f64)
}

fn tier_by_entropy(pool: u32, count: usize) -> StrengthTier {
    let bits = entropy(pool, count);
    if bits < 35.0 {
        StrengthTier::Weak
    } else if bits < 60.0 {
        StrengthTier::Fair
    } else if bits < 80.0 {
        StrengthTier::Good
    } else {
        StrengthTier::Strong
    }
}

#[test]
fn empty_password_is_weak_with_an_empty_meter() {
    let r = score("");
    assert_eq!(r, report("Weak", "bg-red-500", 0));
    assert_eq!(meter(&r), 0.0);
}

#[test]
fn ten_lowercase_letters_are_fair() {
    assert_eq!(character_pool("aaaaaaaaaa"), 26);
    assert!((entropy(26, 10) - 47.0).abs() < 0.01);
    let r = score("aaaaaaaaaa");
    assert_eq!(r, report("Fair", "bg-orange-500", 50));
    assert_eq!(meter(&r), 0.5);
}

#[test]
fn twelve_mixed_characters_are_good() {
    assert_eq!(character_pool("Aa1!Aa1!Aa1!"), 94);
    assert!((entropy(94, 12) - 78.65).abs() < 0.01);
    let r = score("Aa1!Aa1!Aa1!");
    assert_eq!(r, report("Good", "bg-yellow-500", 75));
    assert_eq!(meter(&r), 0.75);
}

#[test]
fn thirteen_mixed_characters_are_strong() {
    let r = score("Aa1!Aa1!Aa1!A");
    assert_eq!(r, report("Strong", "bg-green-600", 100));
    assert_eq!(meter(&r), 1.0);
}

#[test]
fn short_password_is_weak_with_a_third_of_the_meter() {
    let r = score("abc");
    assert_eq!(r, report("Weak", "bg-red-500", 33));
    assert_eq!(meter(&r), 0.33);
}

#[test]
fn thresholds() {
    assert_eq!(FAIR_BITS, 35);
    assert_eq!(GOOD_BITS, 60);
    assert_eq!(STRONG_BITS, 80);
}

#[test]
fn tier_tables() {
    assert_eq!(StrengthTier::Weak.label(), "Weak");
    assert_eq!(StrengthTier::Fair.label(), "Fair");
    assert_eq!(StrengthTier::Good.label(), "Good");
    assert_eq!(StrengthTier::Strong.label(), "Strong");
    assert_eq!(StrengthTier::Weak.color(), "bg-red-500");
    assert_eq!(StrengthTier::Fair.color(), "bg-orange-500");
    assert_eq!(StrengthTier::Good.color(), "bg-yellow-500");
    assert_eq!(StrengthTier::Strong.color(), "bg-green-600");
    assert_eq!(StrengthTier::Weak.pct_hundredths(), 33);
    assert_eq!(StrengthTier::Fair.pct_hundredths(), 50);
    assert_eq!(StrengthTier::Good.pct_hundredths(), 75);
    assert_eq!(StrengthTier::Strong.pct_hundredths(), 100);
}

#[test]
fn character_classes() {
    for code in 0u32..=0x2FF {
        let c = char::from_u32(code).unwrap();
        assert_eq!(is_lowercase_char(c), c.is_ascii_lowercase(), "{:?}", c);
        assert_eq!(is_uppercase_char(c), c.is_ascii_uppercase(), "{:?}", c);
        assert_eq!(is_digit_char(c), c.is_ascii_digit(), "{:?}", c);
    }
    assert!(!is_lowercase_char('é'));
    assert!(!is_uppercase_char('É'));
    assert!(!is_digit_char('٣'));
}

#[test]
fn pool_of_each_class() {
    assert_eq!(character_pool("q"), 26);
    assert_eq!(character_pool("Q"), 26);
    assert_eq!(character_pool("7"), 10);
    assert_eq!(character_pool("#"), 32);
    assert_eq!(character_pool(" "), 32);
    assert_eq!(character_pool("\u{7}"), 32);
    assert_eq!(character_pool("é"), 32);
    assert_eq!(character_pool("É"), 32);
    assert_eq!(character_pool("猫"), 32);
}

#[test]
fn pool_adds_the_classes_up() {
    assert_eq!(character_pool(""), 1);
    assert_eq!(character_pool("aZ"), 52);
    assert_eq!(character_pool("a1"), 36);
    assert_eq!(character_pool("Z1"), 36);
    assert_eq!(character_pool("a!"), 58);
    assert_eq!(character_pool("1!"), 42);
    assert_eq!(character_pool("aZ1"), 62);
    assert_eq!(character_pool("aZ!"), 84);
    assert_eq!(character_pool("a1!"), 68);
    assert_eq!(character_pool("aZ1!"), 94);
    assert_eq!(character_pool("zzzzAAAA0000...."), 94);
}

#[test]
fn pool_counts_a_class_once() {
    assert_eq!(character_pool("abcdefghijklmnopqrstuvwxyz"), 26);
    assert_eq!(character_pool("0000000000000000000000000000000000000000"), 10);
}

#[test]
fn entropy_exactly_at_a_threshold_reaches_it() {
    // 32 = 2^5, so each symbol is worth exactly 5 bits.
    assert_eq!(classify_entropy(32, 6), StrengthTier::Weak);
    assert_eq!(classify_entropy(32, 7), StrengthTier::Fair);
    assert_eq!(classify_entropy(32, 11), StrengthTier::Fair);
    assert_eq!(classify_entropy(32, 12), StrengthTier::Good);
    assert_eq!(classify_entropy(32, 15), StrengthTier::Good);
    assert_eq!(classify_entropy(32, 16), StrengthTier::Strong);
    assert_eq!(score("!!!!!!").label, "Weak");
    assert_eq!(score("!!!!!!!").label, "Fair");
    assert_eq!(score("!!!!!!!!!!!").label, "Fair");
    assert_eq!(score("!!!!!!!!!!!!").label, "Good");
    assert_eq!(score("!!!!!!!!!!!!!!!").label, "Good");
    assert_eq!(score("!!!!!!!!!!!!!!!!").label, "Strong");
}

#[test]
fn first_length_of_each_tier() {
    assert_eq!(classify_entropy(10, 10), StrengthTier::Weak);
    assert_eq!(classify_entropy(10, 11), StrengthTier::Fair);
    assert_eq!(classify_entropy(10, 18), StrengthTier::Fair);
    assert_eq!(classify_entropy(10, 19), StrengthTier::Good);
    assert_eq!(classify_entropy(10, 24), StrengthTier::Good);
    assert_eq!(classify_entropy(10, 25), StrengthTier::Strong);
    assert_eq!(classify_entropy(26, 7), StrengthTier::Weak);
    assert_eq!(classify_entropy(26, 8), StrengthTier::Fair);
    assert_eq!(classify_entropy(26, 12), StrengthTier::Fair);
    assert_eq!(classify_entropy(26, 13), StrengthTier::Good);
    assert_eq!(classify_entropy(26, 17), StrengthTier::Good);
    assert_eq!(classify_entropy(26, 18), StrengthTier::Strong);
    assert_eq!(classify_entropy(94, 5), StrengthTier::Weak);
    assert_eq!(classify_entropy(94, 6), StrengthTier::Fair);
    assert_eq!(classify_entropy(94, 9), StrengthTier::Fair);
    assert_eq!(classify_entropy(94, 10), StrengthTier::Good);
    assert_eq!(classify_entropy(94, 12), StrengthTier::Good);
    assert_eq!(classify_entropy(94, 13), StrengthTier::Strong);
}

#[test]
fn tiers_agree_with_the_entropy_formula() {
    for pool in [1u32, 10, 26, 32, 36, 42, 52, 58, 62, 68, 84, 94] {
        for count in 0usize..200 {
            assert_eq!(classify_entropy(pool, count), tier_by_entropy(pool, count), "{} {}", pool, count);
        }
    }
}

#[test]
fn degenerate_pools_are_weak() {
    assert_eq!(classify_entropy(0, 0), StrengthTier::Weak);
    assert_eq!(classify_entropy(0, 5), StrengthTier::Weak);
    assert_eq!(classify_entropy(1, 0), StrengthTier::Weak);
    assert_eq!(classify_entropy(1, usize::MAX), StrengthTier::Weak);
    assert_eq!(classify_entropy(94, 0), StrengthTier::Weak);
}

#[test]
fn huge_counts_are_strong() {
    assert_eq!(classify_entropy(2, 79), StrengthTier::Good);
    assert_eq!(classify_entropy(2, 80), StrengthTier::Strong);
    assert_eq!(classify_entropy(2, usize::MAX), StrengthTier::Strong);
    assert_eq!(classify_entropy(u32::MAX, 2), StrengthTier::Good);
    assert_eq!(classify_entropy(u32::MAX, 3), StrengthTier::Strong);
    assert_eq!(classify_entropy(u32::MAX, usize::MAX), StrengthTier::Strong);
}

#[test]
fn characters_are_counted_not_bytes() {
    // Seven two-byte characters: 7 * 5 = 35 bits. Counted in bytes they would
    // be worth 70.
    let r = score("ééééééé");
    assert_eq!(r, report("Fair", "bg-orange-500", 50));
    assert_eq!(score("éééééé").label, "Weak");
    assert_eq!(score("猫猫猫猫猫猫").label, "Weak");
}

#[test]
fn repetition_is_not_penalised() {
    assert_eq!(score("aaaaaaaaaaaaaaaaaa"), report("Strong", "bg-green-600", 100));
    assert_eq!(score("00000000000"), report("Fair", "bg-orange-500", 50));
}

#[test]
fn long_password_is_strong() {
    let password: String = "x".repeat(100_000);
    assert_eq!(score(&password), report("Strong", "bg-green-600", 100));
}

#[test]
fn score_is_a_function_of_the_password() {
    for password in ["", "a", "Tr0ub4dor&3", "correct horse battery staple"] {
        assert_eq!(score(password), score(password));
    }
    assert_eq!(score("Tr0ub4dor&3"), report("Good", "bg-yellow-500", 75));
    assert_eq!(score("correct horse battery staple"), report("Strong", "bg-green-600", 100));
}
