//! Which environment names are accepted, and how a user name is made safe
//! to use inside a container.
use vstd::prelude::*;
use vstd::utf8::encode_utf8;

use crate::error::LenvError;
use crate::text::{chars_of, push_char};

verus! {

/// The longest accepted environment name, in bytes.
pub const MAX_NAME_BYTES: usize = 64;

/// An ASCII letter, an ASCII digit, `-` or `_`.
pub open spec fn is_name_char(c: char) -> bool {
    ||| 'a' <= c <= 'z'
    ||| 'A' <= c <= 'Z'
    ||| '0' <= c <= '9'
    ||| c == '-'
    ||| c == '_'
}

/// Every character of `s` is a name character.
pub open spec fn all_name_chars(s: Seq<char>) -> bool {
    forall|i: int| 0 <= i < s.len() ==> is_name_char(#[trigger] s[i])
}

/// The verdict on an environment name: the checks run in this order, and the
/// first that fails gives the error. Its length is counted in UTF-8 bytes.
pub open spec fn name_verdict(name: Seq<char>) -> Result<(), LenvError> {
    if name.len() == 0 {
        Err(LenvError::EmptyName)
    } else if encode_utf8(name).len() > MAX_NAME_BYTES {
        Err(LenvError::NameTooLong)
    } else if !all_name_chars(name) {
        Err(LenvError::InvalidNameChar)
    } else {
        Ok(())
    }
}

/// `s` with every character that is not a name character removed.
pub open spec fn sanitized(s: Seq<char>) -> Seq<char> {
    s.filter(|c: char| is_name_char(c))
}

/// Whether `c` is a name character.
pub fn is_name_char_exec(c: char) -> (b: bool)
    ensures
        b == is_name_char(c),
{
    ('a' <= c && c <= 'z') || ('A' <= c && c <= 'Z') || ('0' <= c && c <= '9') || c == '-' || c
        == '_'
}

/// Checks an environment name: it must be non-empty, at most 64 bytes long,
/// and made of ASCII letters, digits, `-` and `_` only.
pub fn validate_name(name: &str) -> (r: Result<(), LenvError>)
    ensures
        r == name_verdict(name@),
{
    if name.is_empty() {
        return Err(LenvError::EmptyName);
    }
    if name.as_bytes().len() > MAX_NAME_BYTES {
        return Err(LenvError::NameTooLong);
    }
    let v = chars_of(name);
    let mut i: usize = 0;
    while i < v.len()
        invariant
            v@ == name@,
            name@.len() > 0,
            encode_utf8(name@).len() <= MAX_NAME_BYTES,
            i <= v.len(),
            forall|k: int| 0 <= k < i ==> is_name_char(#[trigger] v@[k]),
        decreases v.len() - i,
    {
        if !is_name_char_exec(v[i]) {
            return Err(LenvError::InvalidNameChar);
        }
        i += 1;
    }
    Ok(())
}

/// Removes from a user name every character that is not an ASCII letter,
/// digit, `-` or `_`, keeping the others in order.
pub fn sanitize_username(username: &str) -> (r: String)
    ensures
        r@ == sanitized(username@),
{
    let v = chars_of(username);
    let mut r = String::new();
    let mut i: usize = 0;
    while i < v.len()
        invariant
            v@ == username@,
            i <= v.len(),
            r@ == sanitized(v@.take(i as int)),
        decreases v.len() - i,
    {
        let c = v[i];
        proof {
            assert(v@.take(i + 1) =~= v@.take(i as int).push(c));
            v@.take(i as int).lemma_filter_push(c, |c: char| is_name_char(c));
        }
        if is_name_char_exec(c) {
            push_char(&mut r, c);
        }
        i += 1;
    }
    assert(v@.take(v.len() as int) =~= v@);
    r
}

/// A sanitized user name is made of name characters only.
pub proof fn lemma_sanitized_only_name_chars(s: Seq<char>)
    ensures
        all_name_chars(sanitized(s)),
{
    assert forall|i: int| 0 <= i < sanitized(s).len() implies is_name_char(
        #[trigger] sanitized(s)[i],
    ) by {
        s.lemma_filter_pred(|c: char| is_name_char(c), i);
    }
}

/// Sanitizing leaves a name that is already made of name characters unchanged.
pub proof fn lemma_sanitize_keeps_clean_names(s: Seq<char>)
    requires
        all_name_chars(s),
    ensures
        sanitized(s) == s,
    decreases s.len(),
{
    reveal(Seq::filter);
    if s.len() > 0 {
        assert(all_name_chars(s.drop_last()));
        lemma_sanitize_keeps_clean_names(s.drop_last());
        assert(is_name_char(s.last()));
        assert(s.drop_last().push(s.last()) =~= s);
    }
}

/// Sanitizing twice gives what sanitizing once gave.
pub proof fn lemma_sanitize_idempotent(s: Seq<char>)
    ensures
        sanitized(sanitized(s)) == sanitized(s),
{
    lemma_sanitized_only_name_chars(s);
    lemma_sanitize_keeps_clean_names(sanitized(s));
}

/// A name made of name characters is as long in bytes as in characters, so
/// it is accepted exactly when it is non-empty and has at most 64 characters.
pub proof fn lemma_clean_name_verdict(s: Seq<char>)
    requires
        all_name_chars(s),
    ensures
        name_verdict(s) is Ok <==> (0 < s.len() <= MAX_NAME_BYTES),
{
    assert(vstd::utf8::is_ascii_chars(s)) by {
        assert forall|i: int| 0 <= i < s.len() implies '\0' <= #[trigger] s[i] <= '\u{7f}' by {
            assert(is_name_char(s[i]));
        }
    }
    vstd::utf8::is_ascii_chars_encode_utf8(s);
}

/// Every user name whose sanitized form has between 1 and 64 characters
/// sanitizes to an acceptable environment name.
pub proof fn lemma_sanitized_name_accepted(s: Seq<char>)
    requires
        0 < sanitized(s).len() <= MAX_NAME_BYTES,
    ensures
        name_verdict(sanitized(s)) == Ok::<(), LenvError>(()),
{
    lemma_sanitized_only_name_chars(s);
    lemma_clean_name_verdict(sanitized(s));
}

/// An ASCII letter or digit, or `-` or `_`, told by its code point: the
/// characters `char::is_ascii_alphanumeric` accepts, and the two marks.
pub open spec fn is_word_code(c: char) -> bool {
    let n = c as u32;
    ||| 48 <= n <= 57
    ||| 65 <= n <= 90
    ||| 97 <= n <= 122
    ||| n == 45
    ||| n == 95
}

/// A name is accepted exactly when it is non-empty, at most 64 bytes long
/// in UTF-8, and every one of its characters is an ASCII letter, an ASCII
/// digit, `-` or `_`; an accepted name therefore holds no other character.
pub proof fn lemma_accepted_names(name: Seq<char>)
    ensures
        name_verdict(name) is Ok <==> {
            &&& name.len() > 0
            &&& encode_utf8(name).len() <= 64
            &&& forall|i: int| 0 <= i < name.len() ==> is_word_code(#[trigger] name[i])
        },
        name_verdict(name) is Ok ==> forall|i: int|
            0 <= i < name.len() ==> is_word_code(#[trigger] name[i]),
{
    assert forall|c: char| is_name_char(c) <==> is_word_code(c) by {
        lemma_name_char_codes(c);
    }
}

/// The name characters are exactly the characters whose code is that of an
/// ASCII digit, an ASCII letter, `-` or `_`.
pub proof fn lemma_name_char_codes(c: char)
    ensures
        is_name_char(c) <==> is_word_code(c),
{
}

/// A name that is refused for its characters holds a character other than
/// an ASCII letter, digit, `-` or `_`; and a non-empty name of at most 64
/// bytes that holds such a character anywhere (also as its last character)
/// is refused for it.
pub proof fn lemma_refused_characters(name: Seq<char>, i: int)
    requires
        0 <= i < name.len(),
        !is_word_code(name[i]),
        encode_utf8(name).len() <= 64,
    ensures
        name_verdict(name) == Err::<(), LenvError>(LenvError::InvalidNameChar),
{
    lemma_name_char_codes(name[i]);
}

/// Sanitizing keeps every ASCII letter, digit, `-` and `_` and drops every
/// other character: it distributes over appending one character.
pub proof fn lemma_sanitize_one_more(s: Seq<char>, c: char)
    ensures
        is_word_code(c) ==> sanitized(s.push(c)) == sanitized(s).push(c),
        !is_word_code(c) ==> sanitized(s.push(c)) == sanitized(s),
{
    lemma_name_char_codes(c);
    s.lemma_filter_push(c, |c: char| is_name_char(c));
}

/// A user name made only of ASCII letters, digits, `-` and `_` is left as it
/// is by sanitizing, and a sanitized user name holds only such characters.
pub proof fn lemma_sanitize_word_names(s: Seq<char>)
    ensures
        (forall|i: int| 0 <= i < s.len() ==> is_word_code(#[trigger] s[i])) ==> sanitized(s)
            == s,
        forall|i: int| 0 <= i < sanitized(s).len() ==> is_word_code(#[trigger] sanitized(s)[i]),
{
    if forall|i: int| 0 <= i < s.len() ==> is_word_code(#[trigger] s[i]) {
        assert forall|i: int| 0 <= i < s.len() implies is_name_char(#[trigger] s[i]) by {
            lemma_name_char_codes(s[i]);
        }
        lemma_sanitize_keeps_clean_names(s);
    }
    lemma_sanitized_only_name_chars(s);
    assert forall|i: int| 0 <= i < sanitized(s).len() implies is_word_code(
        #[trigger] sanitized(s)[i],
    ) by {
        lemma_name_char_codes(sanitized(s)[i]);
    }
}

} // verus!
