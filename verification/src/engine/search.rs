use vstd::prelude::*;
use vstd::string::*;

verus! {

/// The query occurs in `c` starting at character position `i`.
pub open spec fn match_at(c: Seq<char>, q: Seq<char>, i: int) -> bool {
    &&& 0 <= i
    &&& i + q.len() <= c.len()
    &&& forall|j: int| 0 <= j < q.len() ==> c[i + j] == #[trigger] q[j]
}

/// The query occurs somewhere in `c` as a contiguous run of characters.
pub open spec fn contains_query(c: Seq<char>, q: Seq<char>) -> bool {
    exists|i: int| match_at(c, q, i)
}

/// The empty query matches every content: position 0 is always a match.
pub proof fn lemma_empty_query_matches(c: Seq<char>)
    ensures
        contains_query(c, Seq::<char>::empty()),
{
    assert(match_at(c, Seq::<char>::empty(), 0));
}

/// Compares the characters of `content` and `query` starting at
/// character position `i` of `content`.
fn matches_at(content: &str, query: &str, i: usize) -> (r: bool)
    requires
        i + query@.len() <= content@.len(),
        content@.len() <= usize::MAX,
    ensures
        r == match_at(content@, query@, i as int),
{
    let m = query.unicode_len();
    let mut j: usize = 0;
    while j < m
        invariant
            j <= m,
            m == query@.len(),
            i + m <= content@.len(),
            content@.len() <= usize::MAX,
            forall|k: int| 0 <= k < j ==> content@[i + k] == #[trigger] query@[k],
        decreases m - j,
    {
        if content.get_char(i + j) != query.get_char(j) {
            return false;
        }
        j += 1;
    }
    true
}

/// Scans every candidate position of `content` for the query.
fn contains_str(content: &str, query: &str) -> (r: bool)
    ensures
        r == contains_query(content@, query@),
{
    let n = content.unicode_len();
    let m = query.unicode_len();
    if m > n {
        return false;
    }
    let mut i: usize = 0;
    while i <= n - m
        invariant
            m <= n,
            n == content@.len(),
            m == query@.len(),
            i <= n - m + 1,
            forall|k: int| 0 <= k < i ==> !match_at(content@, query@, k),
        decreases n - m + 1 - i,
    {
        if matches_at(content, query, i) {
            return true;
        }
        i += 1;
    }
    false
}

/// Run configuration: the pattern to look for, the paths of the files
/// to search in, and whether debug logging is enabled.
pub struct Config {
    pub lookup_pattern: String,
    pub file_paths: Vec<String>,
    pub debug: bool,
}

/// The lines among `lines` that contain the query, kept in their
/// original order.
pub open spec fn spec_matching_lines(q: Seq<char>, lines: Seq<Seq<char>>) -> Seq<Seq<char>> {
    lines.filter(|l: Seq<char>| contains_query(l, q))
}

/// Filters a file's lines down to the ones that contain the query;
/// these are exactly the lines the search driver prints.
pub fn matching_lines(query: &str, lines: &Vec<String>) -> (r: Vec<String>)
    ensures
        r.deep_view() == spec_matching_lines(query@, lines.deep_view()),
{
    let mut r: Vec<String> = Vec::new();
    let mut i: usize = 0;
    while i < lines.len()
        invariant
            i <= lines.len(),
            r.deep_view() == spec_matching_lines(query@, lines.deep_view().take(i as int)),
        decreases lines.len() - i,
    {
        let line = &lines[i];
        proof {
            reveal(Seq::filter);
            assert(lines.deep_view().take(i + 1).drop_last() =~= lines.deep_view().take(i as int));
            assert(lines.deep_view().take(i + 1).last() == line@);
        }
        let ghost r_before = r.deep_view();
        if contains_str(line.as_str(), query) {
            r.push(line.clone());
            proof {
                assert(r.deep_view() =~= r_before.push(line@));
            }
        }
        i += 1;
    }
    proof {
        assert(lines.deep_view().take(lines.len() as int) =~= lines.deep_view());
    }
    r
}

/// Returns the content unchanged when it contains the query as a
/// case-sensitive substring, and nothing otherwise.
pub fn search<'a>(query: &str, content: &'a str) -> (r: Option<&'a str>)
    ensures
        contains_query(content@, query@) ==> r == Some(content),
        !contains_query(content@, query@) ==> r is None,
{
    if contains_str(content, query) {
        Some(content)
    } else {
        None
    }
}

} // verus!
