//! File-name sanitization: strips path metacharacters and control
//! characters, and optionally every non-ASCII character, from a name
//! before it is used as a file name.
use vstd::prelude::*;

use crate::text::push_char;

verus! {

/// The characters that are never allowed in a file name.
pub open spec fn is_invalid_file_char(c: char) -> bool {
    c == '<' || c == '>' || c == ':' || c == '\'' || c == '"' || c == '/' || c == '\\'
        || c == '|' || c == '?' || c == '*'
}

/// Control characters: the C0 range, DEL, and the C1 range.
pub open spec fn is_control_char(c: char) -> bool {
    (c as u32) < 0x20 || (0x7f <= (c as u32) && (c as u32) <= 0x9f)
}

pub open spec fn is_ascii_char(c: char) -> bool {
    (c as u32) < 0x80
}

/// A character survives sanitization when it is not a forbidden file-name
/// character, not a control character, and, where the platform class only
/// accepts ASCII names, ASCII.
pub open spec fn keeps_char(c: char, ascii_only: bool) -> bool {
    !is_invalid_file_char(c) && !is_control_char(c) && (!ascii_only || is_ascii_char(c))
}

/// What sanitization leaves of a name: the surviving characters, in order.
pub open spec fn clean_of(s: Seq<char>, ascii_only: bool) -> Seq<char> {
    s.filter(|c: char| keeps_char(c, ascii_only))
}

/// Whether `c` is one of the forbidden file-name characters.
fn invalid_file_char(c: char) -> (r: bool)
    ensures
        r == is_invalid_file_char(c),
{
    c == '<' || c == '>' || c == ':' || c == '\'' || c == '"' || c == '/' || c == '\\'
        || c == '|' || c == '?' || c == '*'
}

/// Removes from `file_name` every forbidden file-name character and every
/// control character; with `ascii_only` it removes non-ASCII characters too.
pub fn clean_file_name(file_name: &str, ascii_only: bool) -> (clean: String)
    ensures
        clean@ == clean_of(file_name@, ascii_only),
{
    let len = file_name.unicode_len();
    let mut clean = String::new();
    let mut i: usize = 0;
    while i < len
        invariant
            i <= len,
            len == file_name@.len(),
            clean@ == clean_of(file_name@.take(i as int), ascii_only),
        decreases len - i,
    {
        let c = file_name.get_char(i);
        let code = c as u32;
        let keep = !invalid_file_char(c) && !(code < 0x20 || (0x7f <= code && code <= 0x9f))
            && (!ascii_only || code < 0x80);
        if keep {
            push_char(&mut clean, c);
        }
        proof {
            reveal(Seq::filter);
            assert(file_name@.take(i + 1).drop_last() =~= file_name@.take(i as int));
            assert(file_name@.take(i + 1).last() == file_name@[i as int]);
            assert(clean@ =~= clean_of(file_name@.take(i + 1), ascii_only));
        }
        i = i + 1;
    }
    proof {
        assert(file_name@.take(len as int) =~= file_name@);
    }
    clean
}

/// Sanitizing is idempotent: a name that sanitization has already cleaned
/// comes back unchanged, so cleaning twice equals cleaning once.
pub proof fn lemma_clean_idempotent(s: Seq<char>, ascii_only: bool)
    ensures
        clean_of(clean_of(s, ascii_only), ascii_only) == clean_of(s, ascii_only),
    decreases s.len(),
{
    reveal(Seq::filter);
    let pred = |c: char| keeps_char(c, ascii_only);
    if s.len() == 0 {
        assert(clean_of(s, ascii_only) =~= Seq::<char>::empty());
        assert(clean_of(clean_of(s, ascii_only), ascii_only) =~= clean_of(s, ascii_only));
    } else {
        lemma_clean_idempotent(s.drop_last(), ascii_only);
        let rest = clean_of(s.drop_last(), ascii_only);
        if pred(s.last()) {
            assert(clean_of(s, ascii_only) == rest.push(s.last()));
            assert(rest.push(s.last()).drop_last() =~= rest);
            assert(rest.push(s.last()).last() == s.last());
            assert(clean_of(rest.push(s.last()), ascii_only) == clean_of(rest, ascii_only).push(
                s.last(),
            ));
            assert(clean_of(clean_of(s, ascii_only), ascii_only) =~= clean_of(s, ascii_only));
        } else {
            assert(clean_of(s, ascii_only) == rest);
            assert(clean_of(clean_of(s, ascii_only), ascii_only) =~= clean_of(s, ascii_only));
        }
    }
}

} // verus!
