//! The command word of a text message: its first run of characters that are
//! not white space.

use vstd::prelude::*;
use vstd::string::*;

verus! {

/// Whether `c` is white space to `char::is_whitespace`, that is whether it
/// has the Unicode property `White_Space`.
pub uninterp spec fn whitespace(c: char) -> bool;

/// Calls `char::is_whitespace`, whose answer `whitespace` names.
#[verifier::external_body]
fn is_whitespace(c: char) -> (answer: bool)
    ensures
        answer == whitespace(c),
{
    c.is_whitespace()
}

/// Whether `body` holds white space only.
pub open spec fn blank(body: Seq<char>) -> bool {
    forall|i: int| 0 <= i < body.len() ==> whitespace(#[trigger] body[i])
}

/// Whether `body[start..end]` is the first word of `body`: only white space
/// stands before it, none in it, and it ends where white space or the end of
/// `body` follows.
pub open spec fn first_word_at(body: Seq<char>, start: int, end: int) -> bool {
    &&& 0 <= start < end <= body.len()
    &&& forall|i: int| 0 <= i < start ==> whitespace(#[trigger] body[i])
    &&& forall|i: int| start <= i < end ==> !whitespace(#[trigger] body[i])
    &&& end < body.len() ==> whitespace(body[end])
}

/// The first word of `body`, if it has one.
pub open spec fn spec_first_token(body: Seq<char>) -> Option<Seq<char>> {
    if blank(body) {
        None
    } else {
        let (start, end) = choose|start: int, end: int| first_word_at(body, start, end);
        Some(body.subrange(start, end))
    }
}

/// A text has at most one first word.
pub proof fn lemma_first_word_unique(body: Seq<char>, s1: int, e1: int, s2: int, e2: int)
    requires
        first_word_at(body, s1, e1),
        first_word_at(body, s2, e2),
    ensures
        s1 == s2,
        e1 == e2,
{
    if s1 < s2 {
        assert(whitespace(body[s1]));
    }
    if s2 < s1 {
        assert(whitespace(body[s2]));
    }
    if e1 < e2 {
        assert(!whitespace(body[e1]));
    }
    if e2 < e1 {
        assert(!whitespace(body[e2]));
    }
}

/// From `from` on, where only white space stands before `from`, a text that
/// is not blank has a place where its first word starts.
proof fn lemma_word_starts(body: Seq<char>, from: int) -> (start: int)
    requires
        0 <= from <= body.len(),
        forall|i: int| 0 <= i < from ==> whitespace(#[trigger] body[i]),
        !blank(body),
    ensures
        from <= start < body.len(),
        !whitespace(body[start]),
        forall|i: int| 0 <= i < start ==> whitespace(#[trigger] body[i]),
    decreases body.len() - from,
{
    if from < body.len() && !whitespace(body[from]) {
        from
    } else {
        assert forall|i: int| 0 <= i < from + 1 implies whitespace(#[trigger] body[i]) by {}
        lemma_word_starts(body, from + 1)
    }
}

/// A word that starts at `start` and has no white space up to `upto` ends
/// somewhere.
proof fn lemma_word_ends(body: Seq<char>, start: int, upto: int) -> (end: int)
    requires
        0 <= start < upto <= body.len(),
        forall|i: int| start <= i < upto ==> !whitespace(#[trigger] body[i]),
    ensures
        upto <= end <= body.len(),
        forall|i: int| start <= i < end ==> !whitespace(#[trigger] body[i]),
        end < body.len() ==> whitespace(body[end]),
    decreases body.len() - upto,
{
    if upto == body.len() || whitespace(body[upto]) {
        upto
    } else {
        lemma_word_ends(body, start, upto + 1)
    }
}

/// A text has a first token exactly if it is not blank, and its first token
/// is not empty and holds no white space.
pub proof fn lemma_first_token_is_a_word(body: Seq<char>)
    ensures
        spec_first_token(body) is Some <==> !blank(body),
        spec_first_token(body) matches Some(word) ==> word.len() > 0 && forall|i: int|
            0 <= i < word.len() ==> !whitespace(#[trigger] word[i]),
{
    if !blank(body) {
        let start = lemma_word_starts(body, 0);
        let end = lemma_word_ends(body, start, start + 1);
        assert(first_word_at(body, start, end));
        lemma_first_token_at(body, start, end);
        let word = body.subrange(start, end);
        assert forall|i: int| 0 <= i < word.len() implies !whitespace(#[trigger] word[i]) by {
            assert(word[i] == body[start + i]);
        }
    }
}

/// A text whose first word stands at `start..end` has that word as its first
/// token.
pub proof fn lemma_first_token_at(body: Seq<char>, start: int, end: int)
    requires
        first_word_at(body, start, end),
    ensures
        spec_first_token(body) == Some(body.subrange(start, end)),
{
    assert(!whitespace(body[start]));
    assert(!blank(body));
    let (s, e) = choose|s: int, e: int| first_word_at(body, s, e);
    lemma_first_word_unique(body, start, end, s, e);
}

/// The first whitespace-delimited token of `body`; `None` where `body` is
/// empty or white space only.
pub fn first_token(body: &str) -> (token: Option<String>)
    ensures
        match token {
            Some(word) => spec_first_token(body@) == Some(word@),
            None => spec_first_token(body@) is None,
        },
{
    let len: usize = body.unicode_len();
    let mut start: usize = 0;
    while start < len && is_whitespace(body.get_char(start))
        invariant
            len == body@.len(),
            start <= len,
            forall|i: int| 0 <= i < start ==> whitespace(#[trigger] body@[i]),
        decreases len - start,
    {
        start += 1;
    }
    if start == len {
        return None;
    }
    let mut end: usize = start + 1;
    while end < len && !is_whitespace(body.get_char(end))
        invariant
            len == body@.len(),
            start < end <= len,
            forall|i: int| start <= i < end ==> !whitespace(#[trigger] body@[i]),
        decreases len - end,
    {
        end += 1;
    }
    proof {
        lemma_first_token_at(body@, start as int, end as int);
    }
    Some(String::from_str(body.substring_char(start, end)))
}

} // verus!
