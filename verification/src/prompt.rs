//! Text prompts: what is asked, and how a typed line becomes an answer.

use vstd::prelude::*;
use vstd::string::StrSliceExecFns;

verus! {

/// Whether `c` is whitespace: what `char::is_whitespace` answers for `c`,
/// that is, whether `c` has the Unicode property `White_Space`.
pub uninterp spec fn is_whitespace(c: char) -> bool;

/// `text` without the whitespace at its two ends. Whitespace between other
/// characters stays.
pub open spec fn trimmed(text: Seq<char>) -> Seq<char>
    decreases text.len(),
{
    if text.len() == 0 {
        text
    } else if is_whitespace(text.first()) {
        trimmed(text.drop_first())
    } else if is_whitespace(text.last()) {
        trimmed(text.drop_last())
    } else {
        text
    }
}

/// Calls `char::is_whitespace`. Nothing is proved of the answer: the contract
/// only gives it the name [`is_whitespace`].
#[verifier::external_body]
fn char_is_whitespace(c: char) -> (yes: bool)
    ensures
        yes == is_whitespace(c),
{
    c.is_whitespace()
}

/// A text of whitespace only trims to nothing.
pub proof fn lemma_trimmed_blank(text: Seq<char>)
    requires
        forall|k: int| 0 <= k < text.len() ==> is_whitespace(text[k]),
    ensures
        trimmed(text) == Seq::<char>::empty(),
    decreases text.len(),
{
    if text.len() > 0 {
        lemma_trimmed_blank(text.drop_first());
    }
}

/// Between a first and a last character that are not whitespace, with only
/// whitespace outside them, lies the trimmed text.
pub proof fn lemma_trimmed_between(text: Seq<char>, start: int, end: int)
    requires
        0 <= start < end <= text.len(),
        forall|k: int| 0 <= k < start ==> is_whitespace(text[k]),
        forall|k: int| end <= k < text.len() ==> is_whitespace(text[k]),
        !is_whitespace(text[start]),
        !is_whitespace(text[end - 1]),
    ensures
        trimmed(text) == text.subrange(start, end),
    decreases text.len(),
{
    if start > 0 {
        lemma_trimmed_between(text.drop_first(), start - 1, end - 1);
    } else if end < text.len() {
        lemma_trimmed_between(text.drop_last(), start, end);
    }
}

/// A trimmed text neither begins nor ends with whitespace, and trimming it
/// again changes nothing.
pub proof fn lemma_trimmed_is_clean(text: Seq<char>)
    ensures
        trimmed(text).len() > 0 ==> !is_whitespace(trimmed(text).first()) && !is_whitespace(
            trimmed(text).last(),
        ),
        trimmed(text).len() <= text.len(),
        trimmed(trimmed(text)) == trimmed(text),
    decreases text.len(),
{
    if text.len() > 0 {
        if is_whitespace(text.first()) {
            lemma_trimmed_is_clean(text.drop_first());
        } else if is_whitespace(text.last()) {
            lemma_trimmed_is_clean(text.drop_last());
        }
    }
}

/// The answer that a typed line stands for: the line without the whitespace
/// at its ends, which takes the line break with it.
pub fn trim_answer(line: &str) -> (answer: String)
    ensures
        answer@ == trimmed(line@),
{
    let n: usize = line.unicode_len();
    let mut start: usize = 0;
    while start < n && char_is_whitespace(line.get_char(start))
        invariant
            start <= n,
            n == line@.len(),
            forall|k: int| 0 <= k < start ==> is_whitespace(line@[k]),
        decreases n - start,
    {
        start = start + 1;
    }
    let mut end: usize = n;
    while end > start && char_is_whitespace(line.get_char(end - 1))
        invariant
            start <= end <= n,
            n == line@.len(),
            forall|k: int| end <= k < n ==> is_whitespace(line@[k]),
        decreases end,
    {
        end = end - 1;
    }
    proof {
        if start < end {
            lemma_trimmed_between(line@, start as int, end as int);
        } else {
            lemma_trimmed_blank(line@);
        }
    }
    line.substring_char(start, end).to_owned()
}

} // verus!
