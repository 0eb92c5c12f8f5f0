//! Tracking codes. A code is compared and stored in its normal form:
//! ASCII letters and digits only, letters in upper case.

use crate::text::{
    char_is_alphanumeric, char_upper, is_alphanumeric, is_white_space, trimmed, trimmed_end,
    trimmed_start, upper, upper_all,
};
use vstd::prelude::*;

verus! {

/// A character of a normal form: an ASCII digit or an upper-case ASCII
/// letter.
pub open spec fn is_code_char(c: char) -> bool {
    ('0' <= c && c <= '9') || ('A' <= c && c <= 'Z')
}

/// The letters and digits of `s`, in order.
pub open spec fn letters_and_digits(s: Seq<char>) -> Seq<char> {
    s.filter(|c: char| is_alphanumeric(c))
}

/// The normal form of `s`: its ASCII letters and digits, in order, the
/// letters in upper case. Everything else, white space included, is
/// dropped.
pub open spec fn normalized(s: Seq<char>) -> Seq<char> {
    upper_all(letters_and_digits(s))
}

/// The normal form of what was typed or scanned. It is empty when the
/// input holds no letter and no digit; an empty code stands for no code.
pub fn normalize_tracking(input: &str) -> (code: String)
    ensures
        code@ == normalized(input@),
{
    broadcast use vstd::string::group_string_axioms;

    let mut code = String::new();
    let it = input.chars();
    for c in iter: it
        invariant
            iter.seq() == input@,
            code@ == normalized(input@.take(iter.index() as int)),
    {
        proof {
            let before = input@.take(iter.index() as int);
            assert(input@.take(iter.index() + 1) == before.push(c));
            lemma_normalized_push(before, c);
        }
        if char_is_alphanumeric(c) {
            code.push(char_upper(c));
        }
    }
    assert(input@.take(input@.len() as int) == input@);
    code
}

/// One more character adds its upper-case form to the normal form if it
/// is a letter or a digit, and nothing otherwise.
pub proof fn lemma_normalized_push(s: Seq<char>, c: char)
    ensures
        normalized(s.push(c)) == if is_alphanumeric(c) {
            normalized(s).push(upper(c))
        } else {
            normalized(s)
        },
{
    let keep = |c: char| is_alphanumeric(c);
    s.lemma_filter_push(c, keep);
    if is_alphanumeric(c) {
        assert(upper_all(s.filter(keep).push(c)) =~= upper_all(s.filter(keep)).push(upper(c)));
    }
}

/// The normal form of a concatenation is the concatenation of the normal
/// forms.
pub proof fn lemma_normalized_concat(a: Seq<char>, b: Seq<char>)
    ensures
        normalized(a + b) == normalized(a) + normalized(b),
{
    let keep = |c: char| is_alphanumeric(c);
    Seq::filter_distributes_over_add(a, b, keep);
    assert(upper_all(a.filter(keep) + b.filter(keep)) =~= upper_all(a.filter(keep)) + upper_all(
        b.filter(keep),
    ));
}

/// A normal form holds digits and upper-case letters only: no character
/// that is not alphanumeric is left, and no letter is left in lower case.
pub proof fn lemma_normalized_chars(s: Seq<char>)
    ensures
        forall|i: int| 0 <= i < normalized(s).len() ==> is_code_char(#[trigger] normalized(s)[i]),
        normalized(s).len() <= s.len(),
    decreases s.len(),
{
    if s.len() > 0 {
        assert(s == s.drop_last().push(s.last()));
        lemma_normalized_chars(s.drop_last());
        lemma_normalized_push(s.drop_last(), s.last());
    } else {
        assert(normalized(s) =~= Seq::<char>::empty()) by {
            reveal(Seq::filter);
        }
    }
}

/// A text of digits and upper-case letters is its own normal form.
pub proof fn lemma_normalized_fixed(s: Seq<char>)
    requires
        forall|i: int| 0 <= i < s.len() ==> is_code_char(#[trigger] s[i]),
    ensures
        normalized(s) == s,
    decreases s.len(),
{
    if s.len() > 0 {
        assert(s == s.drop_last().push(s.last()));
        lemma_normalized_fixed(s.drop_last());
        lemma_normalized_push(s.drop_last(), s.last());
    } else {
        assert(normalized(s) =~= s) by {
            reveal(Seq::filter);
        }
    }
}

/// Normalizing twice is normalizing once.
pub proof fn lemma_normalized_idempotent(s: Seq<char>)
    ensures
        normalized(normalized(s)) == normalized(s),
{
    lemma_normalized_chars(s);
    lemma_normalized_fixed(normalized(s));
}

/// A text without letters and digits has the empty normal form.
pub proof fn lemma_normalized_nothing(s: Seq<char>)
    requires
        forall|i: int| 0 <= i < s.len() ==> !is_alphanumeric(#[trigger] s[i]),
    ensures
        normalized(s).len() == 0,
    decreases s.len(),
{
    if s.len() > 0 {
        assert(s == s.drop_last().push(s.last()));
        lemma_normalized_nothing(s.drop_last());
        lemma_normalized_push(s.drop_last(), s.last());
    } else {
        assert(normalized(s) =~= s) by {
            reveal(Seq::filter);
        }
    }
}

/// White space at the front of a text does not reach its normal form.
proof fn lemma_normalized_trimmed_start(s: Seq<char>)
    ensures
        normalized(trimmed_start(s)) == normalized(s),
    decreases s.len(),
{
    if s.len() > 0 && is_white_space(s.first()) {
        let head = seq![s.first()];
        assert(s == head + s.drop_first());
        lemma_normalized_concat(head, s.drop_first());
        lemma_normalized_nothing(head);
        assert(normalized(head) + normalized(s.drop_first()) =~= normalized(s.drop_first()));
        lemma_normalized_trimmed_start(s.drop_first());
    }
}

/// White space at the back of a text does not reach its normal form.
proof fn lemma_normalized_trimmed_end(s: Seq<char>)
    ensures
        normalized(trimmed_end(s)) == normalized(s),
    decreases s.len(),
{
    if s.len() > 0 && is_white_space(s.last()) {
        assert(s == s.drop_last().push(s.last()));
        lemma_normalized_push(s.drop_last(), s.last());
        lemma_normalized_trimmed_end(s.drop_last());
    }
}

/// Trimming first changes nothing: white space is neither letter nor
/// digit.
pub proof fn lemma_normalized_trimmed(s: Seq<char>)
    ensures
        normalized(trimmed(s)) == normalized(s),
{
    lemma_normalized_trimmed_end(trimmed_start(s));
    lemma_normalized_trimmed_start(s);
}

/// The case of the letters does not reach the normal form.
pub proof fn lemma_normalized_ignores_case(s: Seq<char>)
    ensures
        normalized(upper_all(s)) == normalized(s),
    decreases s.len(),
{
    if s.len() > 0 {
        let front = s.drop_last();
        assert(s == front.push(s.last()));
        assert(upper_all(s) =~= upper_all(front).push(upper(s.last())));
        lemma_normalized_ignores_case(front);
        lemma_normalized_push(front, s.last());
        lemma_normalized_push(upper_all(front), upper(s.last()));
    } else {
        assert(upper_all(s) =~= s);
    }
}

/// A character that is neither letter nor digit, wherever it stands, does
/// not reach the normal form.
pub proof fn lemma_normalized_ignores_separator(a: Seq<char>, c: char, b: Seq<char>)
    requires
        !is_alphanumeric(c),
    ensures
        normalized(a.push(c) + b) == normalized(a + b),
{
    lemma_normalized_concat(a.push(c), b);
    lemma_normalized_concat(a, b);
    lemma_normalized_push(a, c);
}

} // verus!
