//! Escaping free text for use between HTML tags.

use vstd::prelude::*;

verus! {

/// What one character becomes: the three characters that could open or close
/// markup turn into their entities, every other character stays.
pub open spec fn escaped_char(c: char) -> Seq<char> {
    if c == '&' {
        seq!['&', 'a', 'm', 'p', ';']
    } else if c == '<' {
        seq!['&', 'l', 't', ';']
    } else if c == '>' {
        seq!['&', 'g', 't', ';']
    } else {
        seq![c]
    }
}

/// The escaped form of a text: its characters' escaped forms, in order.
pub open spec fn escaped(text: Seq<char>) -> Seq<char>
    decreases text.len(),
{
    if text.len() == 0 {
        Seq::empty()
    } else {
        escaped(text.drop_last()) + escaped_char(text.last())
    }
}

/// Calls `html_escape::encode_text`. Trusted: it replaces every `&`, `<` and
/// `>` by `&amp;`, `&lt;` and `&gt;` and copies everything else.
#[verifier::external_body]
pub(crate) fn encode_text(text: &str) -> (encoded: String)
    ensures
        encoded@ == escaped(text@),
{
    html_escape::encode_text(text).into_owned()
}

/// Escaping never shortens a text, so a non-empty text stays non-empty.
pub proof fn lemma_escaped_len(text: Seq<char>)
    ensures
        escaped(text).len() >= text.len(),
    decreases text.len(),
{
    if text.len() > 0 {
        lemma_escaped_len(text.drop_last());
    }
}

/// Escaped text holds no `<` and no `>`: it cannot open or close a tag.
pub proof fn lemma_escaped_has_no_markup(text: Seq<char>, i: int)
    requires
        0 <= i < escaped(text).len(),
    ensures
        escaped(text)[i] != '<',
        escaped(text)[i] != '>',
    decreases text.len(),
{
    if text.len() > 0 {
        let head = escaped(text.drop_last());
        if i < head.len() {
            lemma_escaped_has_no_markup(text.drop_last(), i);
        }
    }
}

} // verus!
