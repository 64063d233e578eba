//! The fixed character tables: the four classes a password may draw from, and
//! the characters that are easily mistaken for one another.

use vstd::prelude::*;

verus! {

/// The lowercase letters, in order.
pub const LOWERCASE: &'static str = "abcdefghijklmnopqrstuvwxyz";

/// The uppercase letters, in order.
pub const UPPERCASE: &'static str = "ABCDEFGHIJKLMNOPQRSTUVWXYZ";

/// The digits, in order.
pub const DIGITS: &'static str = "0123456789";

/// The symbols, in the order in which they enter a character set.
pub const SYMBOLS: &'static str = "!@#$%^&*()-_=+[]{};:'\",.<>/?\\|`~";

/// The characters that look alike in many typefaces.
pub const AMBIGUOUS: &'static str = "ilIL|1oO0S52";

/// Lowercase letters, uppercase letters and digits: what a character set falls
/// back to, and what the alphanumeric sampler draws from.
pub open spec fn alphanumeric() -> Seq<char> {
    LOWERCASE@ + UPPERCASE@ + DIGITS@
}

pub open spec fn is_ambiguous(c: char) -> bool {
    AMBIGUOUS@.contains(c)
}

/// `s` with every ambiguous character taken out; the others keep their order.
pub open spec fn without_ambiguous(s: Seq<char>) -> Seq<char> {
    s.filter(|c: char| !is_ambiguous(c))
}

/// The tables hold what their names say: the letters and digits in order, 32
/// symbols, 12 ambiguous characters.
pub proof fn lemma_tables()
    ensures
        LOWERCASE@.len() == 26,
        forall|i: int| 0 <= i < 26 ==> #[trigger] LOWERCASE@[i] as int == 'a' as int + i,
        UPPERCASE@.len() == 26,
        forall|i: int| 0 <= i < 26 ==> #[trigger] UPPERCASE@[i] as int == 'A' as int + i,
        DIGITS@.len() == 10,
        forall|i: int| 0 <= i < 10 ==> #[trigger] DIGITS@[i] as int == '0' as int + i,
        SYMBOLS@.len() == 32,
        AMBIGUOUS@.len() == 12,
        alphanumeric().len() == 62,
{
    reveal_strlit("abcdefghijklmnopqrstuvwxyz");
    reveal_strlit("ABCDEFGHIJKLMNOPQRSTUVWXYZ");
    reveal_strlit("0123456789");
    reveal_strlit("!@#$%^&*()-_=+[]{};:'\",.<>/?\\|`~");
    reveal_strlit("ilIL|1oO0S52");
}

/// The ambiguous characters, one by one.
pub proof fn lemma_ambiguous_members(c: char)
    ensures
        is_ambiguous(c) <==> (c == 'i' || c == 'l' || c == 'I' || c == 'L' || c == '|' || c == '1'
            || c == 'o' || c == 'O' || c == '0' || c == 'S' || c == '5' || c == '2'),
{
    reveal_strlit("ilIL|1oO0S52");
    let t = AMBIGUOUS@;
    assert(t[0] == 'i' && t[1] == 'l' && t[2] == 'I' && t[3] == 'L' && t[4] == '|' && t[5] == '1');
    assert(t[6] == 'o' && t[7] == 'O' && t[8] == '0' && t[9] == 'S' && t[10] == '5' && t[11] == '2');
}

/// Each class holds a character that is not ambiguous: its first, or, for the
/// digits, the first after `0`, `1` and `2`.
pub proof fn lemma_unambiguous_members()
    ensures
        LOWERCASE@.len() > 0 && !is_ambiguous(LOWERCASE@[0]),
        UPPERCASE@.len() > 0 && !is_ambiguous(UPPERCASE@[0]),
        DIGITS@.len() > 3 && !is_ambiguous(DIGITS@[3]),
        SYMBOLS@.len() > 0 && !is_ambiguous(SYMBOLS@[0]),
{
    lemma_tables();
    reveal_strlit("!@#$%^&*()-_=+[]{};:'\",.<>/?\\|`~");
    lemma_ambiguous_members('a');
    lemma_ambiguous_members('A');
    lemma_ambiguous_members('3');
    lemma_ambiguous_members('!');
}

/// Whether `c` is one of the ambiguous characters.
pub fn is_ambiguous_char(c: char) -> (found: bool)
    ensures
        found == is_ambiguous(c),
{
    let mut found: bool = false;
    for a in it: AMBIGUOUS.chars()
        invariant
            it.seq() == AMBIGUOUS@,
            found == (exists|i: int| 0 <= i < it.index() && #[trigger] AMBIGUOUS@[i] == c),
    {
        if a == c {
            found = true;
        }
    }
    found
}

} // verus!
