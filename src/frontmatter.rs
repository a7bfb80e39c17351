use vstd::prelude::*;

use crate::text::{
    is_ws, strip_newlines, strip_newlines_spec, trim, trim_spec, trim_start, trim_start_spec,
};

verus! {

/// The metadata block of a post.
pub struct FrontMatter {
    pub title: String,
    pub summary: Option<String>,
    pub tags: Option<Vec<String>>,
    pub slug: Option<String>,
}

/// How framing a document can fail.
#[derive(Debug, PartialEq, Eq, Structural)]
pub enum FrameError {
    /// The opening marker has no closing marker after it.
    NoClosingMarker,
}

/// The frontmatter block of a document and the text that follows it.
pub struct Frame {
    /// The text between the two markers, trimmed.
    pub yaml: String,
    /// The text after the closing marker, with its leading line feeds removed.
    pub body: String,
}

/// Whether `t` holds the three-dash marker at `i`.
pub open spec fn marker_at(t: Seq<char>, i: int) -> bool {
    0 <= i && i + 3 <= t.len() && t[i] == '-' && t[i + 1] == '-' && t[i + 2] == '-'
}

/// The first position at or after `from` where `t` holds the marker.
pub open spec fn find_marker(t: Seq<char>, from: int) -> Option<int>
    decreases t.len() - from,
{
    if from < 0 || from + 3 > t.len() {
        None
    } else if marker_at(t, from) {
        Some(from)
    } else {
        find_marker(t, from + 1)
    }
}

/// Whether the document, after its leading whitespace, opens with the marker.
pub open spec fn has_frontmatter(doc: Seq<char>) -> bool {
    marker_at(trim_start_spec(doc), 0)
}

/// Where the closing marker of a document that has frontmatter stands.
pub open spec fn closing_marker(doc: Seq<char>) -> Option<int> {
    find_marker(trim_start_spec(doc), 3)
}

/// The frontmatter block of a document whose closing marker stands at `j`.
pub open spec fn yaml_block(doc: Seq<char>, j: int) -> Seq<char> {
    trim_spec(trim_start_spec(doc).subrange(3, j))
}

/// The text after a closing marker that stands at `j`.
pub open spec fn body_after(doc: Seq<char>, j: int) -> Seq<char> {
    let t = trim_start_spec(doc);
    strip_newlines_spec(t.subrange(j + 3, t.len() as int))
}

proof fn lemma_find_marker_bounds(t: Seq<char>, from: int)
    ensures
        find_marker(t, from) matches Some(j) ==> from <= j && j + 3 <= t.len() && marker_at(t, j),
    decreases t.len() - from,
{
    if from >= 0 && from + 3 <= t.len() && !marker_at(t, from) {
        lemma_find_marker_bounds(t, from + 1);
    }
}

proof fn lemma_find_past_block(doc: Seq<char>, y: Seq<char>, from: int)
    requires
        doc.len() >= 6 + y.len(),
        forall|k: int| 0 <= k < y.len() + 3 ==> doc[3 + k] == (y + "---"@)[k],
        forall|i: int| 0 <= i < y.len() ==> !marker_at(y + "---"@, i),
        marker_at(doc, 3 + y.len() as int),
        3 <= from <= 3 + y.len() as int,
    ensures
        find_marker(doc, from) == Some(3 + y.len() as int),
    decreases 3 + y.len() - from,
{
    reveal_strlit("---");
    if from < 3 + y.len() {
        let z = y + "---"@;
        assert(doc[from] == z[from - 3]);
        assert(doc[from + 1] == z[from - 2]);
        assert(doc[from + 2] == z[from - 1]);
        assert(!marker_at(z, from - 3));
        lemma_find_past_block(doc, y, from + 1);
    }
}

/// A document made of the marker, a block in which no marker starts, the
/// marker again and a body has frontmatter; its block is that block trimmed,
/// and what follows is the body without its leading line feeds.
pub proof fn law_block_between_markers(y: Seq<char>, b: Seq<char>)
    requires
        forall|i: int| 0 <= i < y.len() ==> !marker_at(y + "---"@, i),
    ensures
        has_frontmatter("---"@ + y + "---"@ + b),
        closing_marker("---"@ + y + "---"@ + b) == Some(3 + y.len() as int),
        yaml_block("---"@ + y + "---"@ + b, 3 + y.len() as int) == trim_spec(y),
        body_after("---"@ + y + "---"@ + b, 3 + y.len() as int) == strip_newlines_spec(b),
{
    reveal_strlit("---");
    let m = "---"@;
    let doc = m + y + m + b;
    let n = y.len() as int;
    assert(doc[0] == '-');
    assert(!is_ws('-'));
    assert(trim_start_spec(doc) == doc);
    assert(marker_at(doc, 0));
    assert(doc[3 + n] == '-' && doc[4 + n] == '-' && doc[5 + n] == '-');
    assert forall|k: int| 0 <= k < n + 3 implies doc[3 + k] == (y + m)[k] by {
        if k < n {
            assert(doc[3 + k] == y[k]);
        }
    }
    lemma_find_past_block(doc, y, 3);
    assert(doc.subrange(3, 3 + n) =~= y);
    assert(doc.subrange(6 + n, doc.len() as int) =~= b);
}

/// Finds the first marker at or after `from`.
fn search_marker(t: &str, from: usize) -> (r: Option<usize>)
    requires
        from <= t@.len(),
    ensures
        r matches Some(j) ==> find_marker(t@, from as int) == Some(j as int),
        r is None ==> find_marker(t@, from as int) is None,
{
    let n = t.unicode_len();
    let mut i: usize = from;
    while n - i >= 3
        invariant
            n == t@.len(),
            from <= i <= n,
            find_marker(t@, from as int) == find_marker(t@, i as int),
        decreases n - i,
    {
        if t.get_char(i) == '-' && t.get_char(i + 1) == '-' && t.get_char(i + 2) == '-' {
            return Some(i);
        }
        i = i + 1;
    }
    None
}

/// Splits a document into its frontmatter block and the rest.
///
/// After its leading whitespace the document must open with the marker `---`
/// for a block to be there; else the result is `None`. The block runs up to the
/// next marker, and a document without one is malformed.
pub fn split_frontmatter(doc: &str) -> (r: Result<Option<Frame>, FrameError>)
    ensures
        !has_frontmatter(doc@) ==> r == Ok::<Option<Frame>, FrameError>(None),
        has_frontmatter(doc@) && closing_marker(doc@) is None ==> r == Err::<
            Option<Frame>,
            FrameError,
        >(FrameError::NoClosingMarker),
        has_frontmatter(doc@) && closing_marker(doc@) is Some ==> {
            &&& r matches Ok(Some(f))
            &&& f.yaml@ == yaml_block(doc@, closing_marker(doc@)->0)
            &&& f.body@ == body_after(doc@, closing_marker(doc@)->0)
        },
{
    let t = trim_start(doc);
    let ts = t.as_str();
    let n = ts.unicode_len();
    if n < 3 || !(ts.get_char(0) == '-' && ts.get_char(1) == '-' && ts.get_char(2) == '-') {
        return Ok(None);
    }
    match search_marker(ts, 3) {
        None => Err(FrameError::NoClosingMarker),
        Some(j) => {
            proof {
                lemma_find_marker_bounds(t@, 3);
            }
            let yaml = trim(ts.substring_char(3, j));
            let body = strip_newlines(ts.substring_char(j + 3, n));
            Ok(Some(Frame { yaml, body }))
        },
    }
}

} // verus!
