//! Deterministic case conversion from JSON keys and paths to generated
//! type names (capitalized word-boundary form) and field names (snake form).

use vstd::prelude::*;
use vstd::string::StrSliceExecFns;

verus! {

pub open spec fn is_upper(c: char) -> bool {
    'A' <= c && c <= 'Z'
}

pub open spec fn is_lower(c: char) -> bool {
    'a' <= c && c <= 'z'
}

pub open spec fn is_digit(c: char) -> bool {
    '0' <= c && c <= '9'
}

/// Characters that survive into a generated identifier unchanged.
pub open spec fn is_word_char(c: char) -> bool {
    is_lower(c) || is_upper(c) || is_digit(c)
}

pub open spec fn to_lower_char(c: char) -> char {
    if is_upper(c) {
        ((c as u8) + 32) as char
    } else {
        c
    }
}

pub open spec fn to_upper_char(c: char) -> char {
    if is_lower(c) {
        ((c as u8) - 32) as char
    } else {
        c
    }
}

/// What one character of a key contributes to its snake-form field name:
/// an upper-case letter is lowered and, except at the start, preceded by an
/// underscore; any character that cannot stand in an identifier becomes an
/// underscore.
pub open spec fn snake_char(c: char, at_start: bool) -> Seq<char> {
    if is_upper(c) {
        if at_start {
            seq![to_lower_char(c)]
        } else {
            seq!['_', to_lower_char(c)]
        }
    } else if is_word_char(c) {
        seq![c]
    } else {
        seq!['_']
    }
}

pub open spec fn snake_case_spec(s: Seq<char>) -> Seq<char>
    decreases s.len(),
{
    if s.len() == 0 {
        Seq::empty()
    } else {
        snake_case_spec(s.drop_last()) + snake_char(s.last(), s.len() == 1)
    }
}

/// The capitalized word-boundary form of a key, starting at position `i`:
/// word characters are kept, the first of each word upper-cased, and every
/// other character is dropped while starting a new word.
pub open spec fn type_case_from(s: Seq<char>, i: int, word_start: bool) -> Seq<char>
    decreases s.len() - i,
{
    if i >= s.len() {
        Seq::empty()
    } else if is_word_char(s[i]) {
        seq![if word_start { to_upper_char(s[i]) } else { s[i] }]
            + type_case_from(s, i + 1, false)
    } else {
        type_case_from(s, i + 1, true)
    }
}

pub open spec fn type_case_spec(s: Seq<char>) -> Seq<char> {
    type_case_from(s, 0, true)
}

/// Relies on `String::push`: appends the one character at the end.
#[verifier::external_body]
pub(crate) fn push_char(s: &mut String, c: char)
    ensures
        final(s)@ == old(s)@.push(c),
{
    s.push(c);
}

/// Converts a JSON key to the snake-form field name used in a generated record.
pub fn snake_case(s: &str) -> (r: String)
    ensures
        r@ == snake_case_spec(s@),
{
    let n = s.unicode_len();
    let mut out = String::new();
    let mut i: usize = 0;
    while i < n
        invariant
            n == s@.len(),
            i <= n,
            out@ == snake_case_spec(s@.take(i as int)),
        decreases n - i,
    {
        let c = s.get_char(i);
        if 'A' <= c && c <= 'Z' {
            if i > 0 {
                push_char(&mut out, '_');
            }
            push_char(&mut out, ((c as u8) + 32) as char);
        } else if ('a' <= c && c <= 'z') || ('0' <= c && c <= '9') {
            push_char(&mut out, c);
        } else {
            push_char(&mut out, '_');
        }
        proof {
            assert(s@.take(i as int + 1).drop_last() =~= s@.take(i as int));
            assert(s@.take(i as int + 1).last() == s@[i as int]);
            assert(out@ =~= snake_case_spec(s@.take(i as int)) + snake_char(s@[i as int], i == 0));
        }
        i = i + 1;
    }
    proof {
        assert(s@.take(n as int) =~= s@);
    }
    out
}

/// Converts a path to the capitalized type name of the record generated there.
pub fn type_case(s: &str) -> (r: String)
    ensures
        r@ == type_case_spec(s@),
{
    let n = s.unicode_len();
    let mut out = String::new();
    let mut word_start = true;
    let mut i: usize = 0;
    while i < n
        invariant
            n == s@.len(),
            i <= n,
            out@ + type_case_from(s@, i as int, word_start) == type_case_spec(s@),
        decreases n - i,
    {
        let c = s.get_char(i);
        if ('a' <= c && c <= 'z') || ('A' <= c && c <= 'Z') || ('0' <= c && c <= '9') {
            let e = if word_start {
                if 'a' <= c && c <= 'z' {
                    ((c as u8) - 32) as char
                } else {
                    c
                }
            } else {
                c
            };
            push_char(&mut out, e);
            proof {
                assert(out@ + type_case_from(s@, i + 1, false) =~= type_case_spec(s@));
            }
            word_start = false;
        } else {
            word_start = true;
        }
        i = i + 1;
    }
    proof {
        assert(out@ + type_case_from(s@, n as int, word_start) =~= out@);
    }
    out
}

} // verus!
