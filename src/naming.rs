use vstd::prelude::*;

use crate::error::{ErrorModel, GenerationError};
use crate::text::{push_char, to_upper_ascii, upper_ascii};

verus! {

/// The pattern that entity and reference names must match.
pub const IDENTIFIER_PATTERN: &'static str = "^[a-zA-Z_][a-zA-Z_0-9]*$";

pub open spec fn is_ascii_letter(c: char) -> bool {
    ('a' <= c && c <= 'z') || ('A' <= c && c <= 'Z')
}

pub open spec fn is_word_char(c: char) -> bool {
    is_ascii_letter(c) || ('0' <= c && c <= '9') || c == '_'
}

/// A letter or underscore followed by letters, digits or underscores (ASCII only).
pub open spec fn is_identifier(s: Seq<char>) -> bool {
    &&& s.len() > 0
    &&& (is_ascii_letter(s[0]) || s[0] == '_')
    &&& forall|i: int| 0 <= i < s.len() ==> #[trigger] is_word_char(s[i])
}

/// Drops every underscore and upper-cases each character that starts a word;
/// `capitalize` says whether the first kept character of `s` starts one.
pub open spec fn camel_from(s: Seq<char>, capitalize: bool) -> Seq<char>
    decreases s.len(),
{
    if s.len() == 0 {
        Seq::empty()
    } else if s[0] == '_' {
        camel_from(s.drop_first(), true)
    } else {
        let c = if capitalize { upper_ascii(s[0]) } else { s[0] };
        seq![c] + camel_from(s.drop_first(), false)
    }
}

/// `s` as an upper camel case word: `task_manager` becomes `TaskManager`.
pub open spec fn camel_case(s: Seq<char>) -> Seq<char> {
    camel_from(s, true)
}

/// Already a class name: an upper-case ASCII letter, then ASCII letters or digits.
pub open spec fn is_upper_camel(s: Seq<char>) -> bool {
    &&& s.len() > 0
    &&& 'A' <= s[0] && s[0] <= 'Z'
    &&& forall|i: int| 0 <= i < s.len() ==> #[trigger] is_word_char(s[i]) && s[i] != '_'
}

proof fn lemma_camel_keeps_plain(s: Seq<char>)
    requires
        no_underscore(s),
    ensures
        camel_from(s, false) == s,
    decreases s.len(),
{
    if s.len() > 0 {
        assert forall|i: int| 0 <= i < s.drop_first().len() implies #[trigger] s.drop_first()[i]
            != '_' by {
            assert(s.drop_first()[i] == s[i + 1]);
        }
        lemma_camel_keeps_plain(s.drop_first());
        assert(seq![s[0]] + s.drop_first() =~= s);
    }
}

/// A name that is already a class name is an identifier and normalizes to
/// itself, so normalizing it any number of times gives it back.
pub proof fn lemma_upper_camel_is_fixed(s: Seq<char>)
    requires
        is_upper_camel(s),
    ensures
        is_identifier(s),
        camel_case(s) == s,
{
    assert forall|i: int| 0 <= i < s.drop_first().len() implies #[trigger] s.drop_first()[i]
        != '_' by {
        assert(s.drop_first()[i] == s[i + 1]);
        assert(is_word_char(s[i + 1]) && s[i + 1] != '_');
    }
    lemma_camel_keeps_plain(s.drop_first());
    assert(seq![s[0]] + s.drop_first() =~= s);
}

pub open spec fn all_word_chars(s: Seq<char>) -> bool {
    forall|i: int| 0 <= i < s.len() ==> #[trigger] is_word_char(s[i])
}

pub open spec fn no_underscore(s: Seq<char>) -> bool {
    forall|i: int| 0 <= i < s.len() ==> #[trigger] s[i] != '_'
}

proof fn lemma_upper_ascii(c: char)
    ensures
        c != '_' ==> upper_ascii(c) != '_',
        is_word_char(c) ==> is_word_char(upper_ascii(c)),
        is_ascii_letter(upper_ascii(c)) ==> 'A' <= upper_ascii(c) && upper_ascii(c) <= 'Z',
        is_ascii_letter(c) ==> is_ascii_letter(upper_ascii(c)),
{
}

/// The first character of `s` that is not an underscore is an ASCII letter.
pub open spec fn first_word_starts_with_letter(s: Seq<char>) -> bool
    decreases s.len(),
{
    s.len() > 0 && if s[0] == '_' {
        first_word_starts_with_letter(s.drop_first())
    } else {
        is_ascii_letter(s[0])
    }
}

proof fn lemma_camel_starts_with_letter(s: Seq<char>)
    requires
        first_word_starts_with_letter(s),
    ensures
        camel_from(s, true).len() > 0,
        is_ascii_letter(camel_from(s, true)[0]),
    decreases s.len(),
{
    if s[0] == '_' {
        lemma_camel_starts_with_letter(s.drop_first());
    } else {
        lemma_upper_ascii(s[0]);
    }
}

proof fn lemma_camel_shape(s: Seq<char>, capitalize: bool)
    ensures
        no_underscore(camel_from(s, capitalize)),
        all_word_chars(s) ==> all_word_chars(camel_from(s, capitalize)),
        capitalize && camel_from(s, capitalize).len() > 0 && is_ascii_letter(
            camel_from(s, capitalize)[0],
        ) ==> 'A' <= camel_from(s, capitalize)[0] && camel_from(s, capitalize)[0] <= 'Z',
    decreases s.len(),
{
    if s.len() > 0 {
        let rest = s.drop_first();
        lemma_camel_shape(rest, true);
        lemma_camel_shape(rest, false);
        if all_word_chars(s) {
            assert forall|i: int| 0 <= i < rest.len() implies #[trigger] is_word_char(rest[i]) by {
                assert(rest[i] == s[i + 1]);
            }
        }
        if s[0] != '_' {
            let c = if capitalize {
                upper_ascii(s[0])
            } else {
                s[0]
            };
            let r = camel_from(rest, false);
            let whole = camel_from(s, capitalize);
            assert(whole == seq![c] + r);
            lemma_upper_ascii(s[0]);
            assert forall|i: int| 0 <= i < whole.len() implies #[trigger] whole[i] != '_' by {
                if i > 0 {
                    assert(whole[i] == r[i - 1]);
                }
            }
            if all_word_chars(s) {
                assert forall|i: int| 0 <= i < whole.len() implies #[trigger] is_word_char(
                    whole[i],
                ) by {
                    if i > 0 {
                        assert(whole[i] == r[i - 1]);
                    }
                }
            }
        }
    }
}

/// Normalizing is idempotent: a name whose first word starts with a letter
/// normalizes to a name that is accepted again and normalizes to itself.
pub proof fn lemma_normalize_idempotent(s: Seq<char>)
    requires
        is_identifier(s),
        first_word_starts_with_letter(s),
    ensures
        is_identifier(camel_case(s)),
        camel_case(camel_case(s)) == camel_case(s),
{
    let c = camel_case(s);
    lemma_camel_shape(s, true);
    lemma_camel_starts_with_letter(s);
    assert(is_upper_camel(c)) by {
        assert forall|i: int| 0 <= i < c.len() implies #[trigger] is_word_char(c[i]) && c[i]
            != '_' by {
            assert(is_word_char(c[i]));
        }
    }
    lemma_upper_camel_is_fixed(c);
}

/// Relies on regex::Regex::new and regex::Regex::is_match: the identifier
/// pattern compiles, and since it is anchored at both ends and made of ASCII
/// ranges, it matches exactly the identifiers.
#[verifier::external_body]
fn pattern_matches(pattern: &str, text: &str) -> (r: bool)
    requires
        pattern@ == IDENTIFIER_PATTERN@,
    ensures
        r == is_identifier(text@),
{
    regex::Regex::new(pattern).unwrap().is_match(text)
}

/// Whether `word` is an identifier, and so may name an entity.
pub fn is_valid_name(word: &str) -> (r: bool)
    ensures
        r == is_identifier(word@),
{
    pattern_matches(IDENTIFIER_PATTERN, word)
}

/// Upper camel case of `word`, whatever characters it holds.
pub fn camel(word: &str) -> (r: String)
    ensures
        r@ == camel_case(word@),
{
    let n = word.unicode_len();
    let mut res = String::new();
    let mut capitalize = true;
    let mut i: usize = 0;
    assert(word@.subrange(0, n as int) =~= word@);
    assert(res@ + camel_case(word@) =~= camel_case(word@));
    while i < n
        invariant
            n == word@.len(),
            i <= n,
            res@ + camel_from(word@.subrange(i as int, n as int), capitalize) == camel_case(word@),
        decreases n - i,
    {
        let ghost rest = word@.subrange(i as int, n as int);
        assert(rest.drop_first() =~= word@.subrange(i + 1, n as int));
        let c = word.get_char(i);
        if c == '_' {
            capitalize = true;
        } else {
            if capitalize {
                push_char(&mut res, to_upper_ascii(c));
            } else {
                push_char(&mut res, c);
            }
            capitalize = false;
        }
        i = i + 1;
    }
    assert(word@.subrange(n as int, n as int) =~= Seq::<char>::empty());
    assert(res@ + Seq::<char>::empty() =~= res@);
    res
}

/// Normalizes a name into a class name: `user_group` becomes `UserGroup`.
/// Fails with `InvalidName` where `word` is not an identifier.
pub fn upper_camel_case(word: &str) -> (r: Result<String, GenerationError>)
    ensures
        match r {
            Ok(s) => is_identifier(word@) && s@ == camel_case(word@),
            Err(e) => !is_identifier(word@) && e@ == ErrorModel::InvalidName(word@),
        },
{
    if is_valid_name(word) {
        Ok(camel(word))
    } else {
        Err(GenerationError::InvalidName(word.to_string()))
    }
}

} // verus!
