//! From a policy to the characters that a password may draw from.

use crate::alphabet::{
    alphanumeric, is_ambiguous, is_ambiguous_char, lemma_tables, lemma_unambiguous_members,
    without_ambiguous, DIGITS, LOWERCASE, SYMBOLS, UPPERCASE,
};
use crate::policy::PasswordOptions;
use vstd::prelude::*;

verus! {

/// The classes that the policy names, one after the other: lowercase,
/// uppercase, digits, symbols.
pub open spec fn selected_classes(options: PasswordOptions) -> Seq<char> {
    let lower = if options.use_lower { LOWERCASE@ } else { Seq::<char>::empty() };
    let upper = if options.use_upper { UPPERCASE@ } else { Seq::<char>::empty() };
    let digits = if options.use_numeric { DIGITS@ } else { Seq::<char>::empty() };
    let symbols = if options.use_symbols { SYMBOLS@ } else { Seq::<char>::empty() };
    lower + upper + digits + symbols
}

/// The named classes, less the ambiguous characters where the policy avoids
/// them.
pub open spec fn kept_classes(options: PasswordOptions) -> Seq<char> {
    if options.avoid_ambiguous {
        without_ambiguous(selected_classes(options))
    } else {
        selected_classes(options)
    }
}

/// The character set of a policy: what is kept of the named classes, or, where
/// nothing is, letters and digits with nothing taken out.
pub open spec fn charset_of(options: PasswordOptions) -> Seq<char> {
    if kept_classes(options).len() == 0 {
        alphanumeric()
    } else {
        kept_classes(options)
    }
}

/// Appends the characters of `table`, in order.
fn extend_with(charset: &mut Vec<char>, table: &str)
    ensures
        final(charset)@ == old(charset)@ + table@,
{
    let ghost before = charset@;
    for c in it: table.chars()
        invariant
            it.seq() == table@,
            charset@ == before + table@.take(it.index()),
    {
        proof {
            assert(table@.take(it.index() + 1) == table@.take(it.index()).push(table@[it.index()]));
        }
        charset.push(c);
    }
    proof {
        assert(table@.take(table@.len() as int) == table@);
    }
}

/// One step of the filter: what the next character does to what was kept.
proof fn lemma_without_ambiguous_step(s: Seq<char>, i: int)
    requires
        0 <= i < s.len(),
    ensures
        without_ambiguous(s.take(i + 1)) == if is_ambiguous(s[i]) {
            without_ambiguous(s.take(i))
        } else {
            without_ambiguous(s.take(i)).push(s[i])
        },
{
    reveal(Seq::filter);
    assert(s.take(i + 1).drop_last() == s.take(i));
    assert(s.take(i + 1).last() == s[i]);
}

/// Copies `charset` without its ambiguous characters.
fn retain_unambiguous(charset: &Vec<char>) -> (kept: Vec<char>)
    ensures
        kept@ == without_ambiguous(charset@),
{
    let mut kept: Vec<char> = Vec::new();
    let mut i: usize = 0;
    proof {
        reveal(Seq::filter);
        assert(charset@.take(0) == Seq::<char>::empty());
    }
    while i < charset.len()
        invariant
            i <= charset.len(),
            kept@ == without_ambiguous(charset@.take(i as int)),
        decreases charset.len() - i,
    {
        proof {
            lemma_without_ambiguous_step(charset@, i as int);
        }
        let c: char = charset[i];
        if !is_ambiguous_char(c) {
            kept.push(c);
        }
        i = i + 1;
    }
    proof {
        assert(charset@.take(charset@.len() as int) == charset@);
    }
    kept
}

/// Nothing that the filter keeps is ambiguous.
pub proof fn lemma_without_ambiguous_is_unambiguous(s: Seq<char>)
    ensures
        forall|i: int|
            0 <= i < without_ambiguous(s).len() ==> !is_ambiguous(#[trigger] without_ambiguous(s)[i]),
{
    let keep = |c: char| !is_ambiguous(c);
    assert forall|i: int| 0 <= i < without_ambiguous(s).len() implies !is_ambiguous(
        #[trigger] without_ambiguous(s)[i],
    ) by {
        s.lemma_filter_pred(keep, i);
    }
}

/// Every class holds a character that is not ambiguous, so the filter never
/// empties a policy that names a class.
pub proof fn lemma_kept_classes_nonempty(options: PasswordOptions)
    requires
        options.names_a_class(),
    ensures
        kept_classes(options).len() > 0,
{
    lemma_unambiguous_members();
    let all = selected_classes(options);
    let keep = |c: char| !is_ambiguous(c);
    let witness: int = if options.use_lower || options.use_upper {
        0
    } else if options.use_numeric {
        3
    } else {
        0
    };
    assert(0 <= witness < all.len() && !is_ambiguous(all[witness]));
    if options.avoid_ambiguous {
        all.lemma_filter_contains(keep, witness);
    }
}

/// A policy that names no class gets letters and digits, all 62 of them,
/// whether or not it avoids ambiguous characters.
pub proof fn lemma_charset_without_classes(options: PasswordOptions)
    requires
        !options.names_a_class(),
    ensures
        charset_of(options) == alphanumeric(),
        charset_of(options).len() == 62,
{
    lemma_tables();
    reveal(Seq::filter);
    assert(selected_classes(options) == Seq::<char>::empty());
}

/// A policy that names a class and avoids ambiguous characters gets none of
/// them.
pub proof fn lemma_charset_excludes_ambiguous(options: PasswordOptions)
    requires
        options.avoid_ambiguous,
        options.names_a_class(),
    ensures
        forall|i: int|
            0 <= i < charset_of(options).len() ==> !is_ambiguous(#[trigger] charset_of(options)[i]),
{
    lemma_kept_classes_nonempty(options);
    lemma_without_ambiguous_is_unambiguous(selected_classes(options));
}

/// No policy has an empty character set.
pub proof fn lemma_charset_nonempty(options: PasswordOptions)
    ensures
        charset_of(options).len() > 0,
{
    lemma_tables();
}

/// Resolves the character set of `options`.
pub fn build_charset(options: &PasswordOptions) -> (charset: Vec<char>)
    ensures
        charset@ == charset_of(*options),
        charset@.len() > 0,
        !options.names_a_class() ==> charset@ == alphanumeric() && charset@.len() == 62,
        options.names_a_class() ==> charset@ == kept_classes(*options),
        options.avoid_ambiguous && options.names_a_class() ==> forall|i: int|
            0 <= i < charset@.len() ==> !is_ambiguous(#[trigger] charset@[i]),
{
    let mut charset: Vec<char> = Vec::new();
    if options.use_lower {
        extend_with(&mut charset, LOWERCASE);
    }
    if options.use_upper {
        extend_with(&mut charset, UPPERCASE);
    }
    if options.use_numeric {
        extend_with(&mut charset, DIGITS);
    }
    if options.use_symbols {
        extend_with(&mut charset, SYMBOLS);
    }
    assert(charset@ == selected_classes(*options));
    if options.avoid_ambiguous {
        charset = retain_unambiguous(&charset);
    }
    if charset.len() == 0 {
        extend_with(&mut charset, LOWERCASE);
        extend_with(&mut charset, UPPERCASE);
        extend_with(&mut charset, DIGITS);
    }
    proof {
        lemma_charset_nonempty(*options);
        if !options.names_a_class() {
            lemma_charset_without_classes(*options);
        } else {
            lemma_kept_classes_nonempty(*options);
            if options.avoid_ambiguous {
                lemma_charset_excludes_ambiguous(*options);
            }
        }
    }
    charset
}

} // verus!
