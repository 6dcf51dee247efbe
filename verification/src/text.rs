//! Suffix tests and trimming on strings, character by character.

use vstd::prelude::*;
use vstd::string::StrSliceExecFns;

verus! {

/// `text` without the run of `c` at its end.
pub open spec fn trim_end(text: Seq<char>, c: char) -> Seq<char>
    decreases text.len(),
{
    if text.len() > 0 && text.last() == c {
        trim_end(text.drop_last(), c)
    } else {
        text
    }
}

/// What is left after trimming is the start of `text`, does not end in `c`,
/// and everything cut away is `c`.
pub proof fn lemma_trim_end_cuts_a_run(text: Seq<char>, c: char)
    ensures
        trim_end(text, c).is_prefix_of(text),
        trim_end(text, c).len() > 0 ==> trim_end(text, c).last() != c,
        forall|i: int| trim_end(text, c).len() <= i < text.len() ==> text[i] == c,
    decreases text.len(),
{
    if text.len() > 0 && text.last() == c {
        let shorter = text.drop_last();
        lemma_trim_end_cuts_a_run(shorter, c);
        assert forall|i: int| trim_end(text, c).len() <= i < text.len() implies text[i] == c by {
            if i < shorter.len() {
                assert(text[i] == shorter[i]);
            }
        }
    }
}

/// Whether `text` ends with `suffix`.
pub fn ends_with(text: &str, suffix: &str) -> (found: bool)
    ensures
        found == suffix@.is_suffix_of(text@),
{
    let text_len = text.unicode_len();
    let suffix_len = suffix.unicode_len();
    if suffix_len > text_len {
        return false;
    }
    let tail = text.substring_char(text_len - suffix_len, text_len);
    let mut i: usize = 0;
    while i < suffix_len
        invariant
            i <= suffix_len,
            suffix_len == suffix@.len(),
            tail@ == text@.subrange(text@.len() - suffix@.len(), text@.len() as int),
            tail@.len() == suffix_len,
            forall|j: int| 0 <= j < i ==> tail@[j] == suffix@[j],
        decreases suffix_len - i,
    {
        if tail.get_char(i) != suffix.get_char(i) {
            return false;
        }
        i += 1;
    }
    true
}

/// Cuts the run of `c` off the end of `text`: what is returned is the start
/// of `text` and does not end in `c`, and all that was cut away is `c`.
pub fn trim_end_matches(text: &str, c: char) -> (kept: &str)
    ensures
        kept@ == trim_end(text@, c),
        kept@.is_prefix_of(text@),
        kept@.len() > 0 ==> kept@.last() != c,
        forall|i: int| kept@.len() <= i < text@.len() ==> text@[i] == c,
{
    let mut end = text.unicode_len();
    assert(text@.subrange(0, end as int) == text@);
    while end > 0 && text.get_char(end - 1) == c
        invariant
            end <= text@.len(),
            trim_end(text@, c) == trim_end(text@.subrange(0, end as int), c),
        decreases end,
    {
        assert(text@.subrange(0, end as int).drop_last() == text@.subrange(0, end - 1));
        end -= 1;
    }
    proof {
        lemma_trim_end_cuts_a_run(text@, c);
    }
    text.substring_char(0, end)
}

} // verus!
