//! Summary extraction from a completed transcript. The transcript is scanned,
//! case-insensitively, for the first region delimited by the literal tags
//! `[SUMMARY]` and `[/SUMMARY]`; the result is the enclosed text with leading
//! and trailing whitespace trimmed. When no such region exists the result is
//! the whole transcript, verbatim: a missing marker is not an error.

use vstd::prelude::*;
use vstd::string::StrSliceExecFns;

use crate::text::lower_char;
use crate::text::to_lower;
use crate::text::trim_str;
use crate::text::trimmed;

verus! {

/// The opening tag, lower-cased.
pub open spec fn open_tag() -> Seq<char> {
    seq!['[', 's', 'u', 'm', 'm', 'a', 'r', 'y', ']']
}

/// The closing tag, lower-cased.
pub open spec fn close_tag() -> Seq<char> {
    seq!['[', '/', 's', 'u', 'm', 'm', 'a', 'r', 'y', ']']
}

/// The tag occurs at position `i` of `s`, comparing case-insensitively.
pub open spec fn tag_at(s: Seq<char>, i: int, tag: Seq<char>) -> bool {
    &&& 0 <= i
    &&& i + tag.len() <= s.len()
    &&& forall|k: int| 0 <= k < tag.len() ==> lower_char(s[i + k]) == tag[k]
}

/// The first position at or after `from` where the tag occurs, if any.
pub open spec fn first_tag_from(s: Seq<char>, from: int, tag: Seq<char>) -> Option<int>
    decreases s.len() - from,
    when 0 <= from <= s.len() && 1 <= tag.len()
{
    if from + tag.len() > s.len() {
        None
    } else if tag_at(s, from, tag) {
        Some(from)
    } else {
        first_tag_from(s, from + 1, tag)
    }
}

/// The first marker region: the first opening tag, paired with the first
/// closing tag that starts at or after the end of that opening tag.
pub open spec fn marker_region(t: Seq<char>) -> Option<(int, int)> {
    match first_tag_from(t, 0, open_tag()) {
        Some(i) => match first_tag_from(t, i + open_tag().len(), close_tag()) {
            Some(j) => Some((i, j)),
            None => None,
        },
        None => None,
    }
}

/// Whether the transcript holds a complete marker region.
pub open spec fn has_marker(t: Seq<char>) -> bool {
    marker_region(t) is Some
}

/// What extraction returns: the trimmed text between the tags of the first
/// marker region, or the whole transcript when there is none.
pub open spec fn extract_spec(t: Seq<char>) -> Seq<char> {
    match marker_region(t) {
        Some((i, j)) => trimmed(t.subrange(i + open_tag().len(), j)),
        None => t,
    }
}

proof fn lemma_first_tag_found(s: Seq<char>, from: int, i: int, tag: Seq<char>)
    requires
        1 <= tag.len(),
        0 <= from <= i,
        tag_at(s, i, tag),
        forall|k: int| from <= k < i ==> !tag_at(s, k, tag),
    ensures
        first_tag_from(s, from, tag) == Some(i),
    decreases i - from,
{
    if from < i {
        lemma_first_tag_found(s, from + 1, i, tag);
    }
}

proof fn lemma_first_tag_none(s: Seq<char>, from: int, tag: Seq<char>)
    requires
        1 <= tag.len(),
        0 <= from <= s.len(),
        forall|k: int| from <= k ==> !tag_at(s, k, tag),
    ensures
        first_tag_from(s, from, tag) is None,
    decreases s.len() - from,
{
    if from + tag.len() <= s.len() {
        lemma_first_tag_none(s, from + 1, tag);
    }
}

/// The tag occurs at position `i` of `s`, comparing case-insensitively.
/// The tag itself must already be lower-case for a match to be possible.
fn tag_match_at(s: &str, i: usize, tag: &str) -> (r: bool)
    requires
        i + tag@.len() <= s@.len(),
    ensures
        r == tag_at(s@, i as int, tag@),
{
    let n = s.unicode_len();
    let m = tag.unicode_len();
    let mut k: usize = 0;
    while k < m
        invariant
            n == s@.len(),
            m == tag@.len(),
            i + m <= n,
            0 <= k <= m,
            forall|j: int| 0 <= j < k ==> lower_char(s@[i + j]) == tag@[j],
        decreases m - k,
    {
        let c = to_lower(s.get_char(i + k));
        if c != tag.get_char(k) {
            return false;
        }
        k = k + 1;
    }
    true
}

/// The first position at or after `from` where the tag occurs in `s`,
/// comparing case-insensitively.
fn find_tag_from(s: &str, from: usize, tag: &str) -> (r: Option<usize>)
    requires
        from <= s@.len(),
        1 <= tag@.len(),
    ensures
        match r {
            Some(i) => first_tag_from(s@, from as int, tag@) == Some(i as int) && tag_at(
                s@,
                i as int,
                tag@,
            ) && from <= i,
            None => first_tag_from(s@, from as int, tag@) is None,
        },
{
    let n = s.unicode_len();
    let m = tag.unicode_len();
    if m > n {
        proof {
            lemma_first_tag_none(s@, from as int, tag@);
        }
        return None;
    }
    let mut i: usize = from;
    while i <= n - m
        invariant
            n == s@.len(),
            m == tag@.len(),
            1 <= m <= n,
            from <= i <= n,
            forall|k: int| from <= k < i ==> !tag_at(s@, k, tag@),
        decreases n - i,
    {
        if tag_match_at(s, i, tag) {
            proof {
                lemma_first_tag_found(s@, from as int, i as int, tag@);
            }
            return Some(i);
        }
        i = i + 1;
    }
    proof {
        assert(forall|k: int| from <= k ==> !tag_at(s@, k, tag@));
        lemma_first_tag_none(s@, from as int, tag@);
    }
    None
}

/// Scan a transcript once for its first marker region. A `Some((i, j))`
/// result places the first opening tag at `i` and the first closing tag at
/// or after the opening tag's end at `j`.
pub fn find_marker(transcript: &str) -> (r: Option<(usize, usize)>)
    ensures
        match r {
            Some(p) => marker_region(transcript@) == Some((p.0 as int, p.1 as int)) && p.0 + 9
                <= p.1 && p.1 + 10 <= transcript@.len(),
            None => marker_region(transcript@) is None,
        },
{
    let open: &str = "[summary]";
    let close: &str = "[/summary]";
    proof {
        reveal_strlit("[summary]");
        reveal_strlit("[/summary]");
        assert(open@ =~= open_tag());
        assert(close@ =~= close_tag());
    }
    let _n = transcript.unicode_len();
    match find_tag_from(transcript, 0, open) {
        None => None,
        Some(i) => {
            match find_tag_from(transcript, i + 9, close) {
                None => None,
                Some(j) => Some((i, j)),
            }
        },
    }
}

/// Extract the report from a completed transcript: the trimmed text between
/// the first `[SUMMARY]` tag and the first `[/SUMMARY]` tag after it, matched
/// case-insensitively; or the whole transcript, verbatim, when no complete
/// marker region is present.
pub fn extract_summary(transcript: &str) -> (r: String)
    ensures
        r@ == extract_spec(transcript@),
        !has_marker(transcript@) ==> r@ == transcript@,
{
    match find_marker(transcript) {
        None => transcript.to_owned(),
        Some((i, j)) => {
            let content = transcript.substring_char(i + 9, j);
            trim_str(content)
        },
    }
}

/// Extraction is idempotent on transcripts without a marker: such a
/// transcript comes back verbatim, so running extraction on that result
/// changes nothing.
pub proof fn lemma_extract_idempotent_no_marker(t: Seq<char>)
    requires
        !has_marker(t),
    ensures
        extract_spec(extract_spec(t)) == extract_spec(t),
{
}

} // verus!
