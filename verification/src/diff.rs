//! The difference between a text and its correction, word by word, and the
//! markup that shows it.

use vstd::prelude::*;
use vstd::string::StringExecFns;

verus! {

/// What a piece of a comparison is with respect to the old text.
#[derive(Clone, Copy, Debug, PartialEq, Eq, Structural)]
pub enum ChangeTag {
    /// The piece stands in both texts.
    Equal,
    /// The piece stands in the new text only.
    Inserted,
    /// The piece stands in the old text only.
    Deleted,
}

/// A piece of a comparison: a run of words and spaces with its tag.
#[derive(Clone, Debug, PartialEq, Eq)]
pub struct DiffSegment {
    pub tag: ChangeTag,
    pub text: String,
}

impl View for DiffSegment {
    type V = (ChangeTag, Seq<char>);

    open spec fn view(&self) -> (ChangeTag, Seq<char>) {
        (self.tag, self.text@)
    }
}

/// The pieces that a word-by-word comparison of `old` and `new` gives, in
/// the order of the texts.
pub uninterp spec fn word_diff(old: Seq<char>, new: Seq<char>) -> Seq<(ChangeTag, Seq<char>)>;

/// The views of the segments, in order.
pub open spec fn segment_views(segments: Seq<DiffSegment>) -> Seq<(ChangeTag, Seq<char>)> {
    segments.map_values(|s: DiffSegment| s@)
}

/// Compares two texts word by word with `similar::utils::diff_words`,
/// under the algorithm that `similar` takes by default. That function
/// returns the changes as connected pieces of the two texts, each with its
/// tag. The contract only gives the pieces their name: they depend on the
/// two texts and on nothing else.
#[verifier::external_body]
pub(crate) fn diff_words(old: &str, new: &str) -> (r: Vec<DiffSegment>)
    ensures
        segment_views(r@) == word_diff(old@, new@),
{
    similar::utils::diff_words(similar::Algorithm::default(), old, new).into_iter().map(
        |(tag, text)| DiffSegment {
            tag: match tag {
                similar::ChangeTag::Equal => ChangeTag::Equal,
                similar::ChangeTag::Insert => ChangeTag::Inserted,
                similar::ChangeTag::Delete => ChangeTag::Deleted,
            },
            text: text.to_string(),
        },
    ).collect()
}

/// The mark that opens an inserted piece.
pub open spec fn insert_open() -> Seq<char> {
    seq!['<', 'u', '>']
}

/// The mark that closes an inserted piece.
pub open spec fn insert_close() -> Seq<char> {
    seq!['<', '/', 'u', '>']
}

/// How one piece is shown: what is equal as it is, what was inserted
/// between the two marks, what was deleted not at all.
pub open spec fn segment_markup(segment: (ChangeTag, Seq<char>)) -> Seq<char> {
    match segment.0 {
        ChangeTag::Equal => segment.1,
        ChangeTag::Inserted => insert_open() + segment.1 + insert_close(),
        ChangeTag::Deleted => Seq::empty(),
    }
}

/// How a comparison is shown: its pieces one after the other.
pub open spec fn markup(segments: Seq<(ChangeTag, Seq<char>)>) -> Seq<char>
    decreases segments.len(),
{
    if segments.len() == 0 {
        Seq::empty()
    } else {
        markup(segments.drop_last()) + segment_markup(segments.last())
    }
}

/// Pieces shown one after the other are shown as their sequence is.
pub proof fn lemma_markup_concat(
    first: Seq<(ChangeTag, Seq<char>)>,
    second: Seq<(ChangeTag, Seq<char>)>,
)
    ensures
        markup(first + second) == markup(first) + markup(second),
    decreases second.len(),
{
    if second.len() == 0 {
        assert(first + second =~= first);
        assert(markup(first) + markup(second) =~= markup(first));
    } else {
        lemma_markup_concat(first, second.drop_last());
        assert((first + second).drop_last() =~= first + second.drop_last());
        assert((first + second).last() == second.last());
        assert(markup(first + second) =~= markup(first) + markup(second));
    }
}

/// What was deleted leaves no trace: a comparison is shown as it would be
/// without its deleted pieces.
pub proof fn lemma_markup_drops_deleted(segments: Seq<(ChangeTag, Seq<char>)>)
    ensures
        markup(segments) == markup(
            segments.filter(|segment: (ChangeTag, Seq<char>)| segment.0 != ChangeTag::Deleted),
        ),
    decreases segments.len(),
{
    reveal(Seq::filter);
    let kept = |segment: (ChangeTag, Seq<char>)| segment.0 != ChangeTag::Deleted;
    if segments.len() > 0 {
        lemma_markup_drops_deleted(segments.drop_last());
        let before = segments.drop_last().filter(kept);
        if kept(segments.last()) {
            assert(before.push(segments.last()).drop_last() =~= before);
        } else {
            assert(markup(segments.drop_last()) + Seq::<char>::empty() =~= markup(
                segments.drop_last(),
            ));
        }
    }
}

/// Renders the pieces of a comparison as markup.
pub fn render_segments(segments: &Vec<DiffSegment>) -> (r: String)
    ensures
        r@ == markup(segment_views(segments@)),
{
    let ghost views = segment_views(segments@);
    let n: usize = segments.len();
    let mut out: String = String::new();
    let mut i: usize = 0;
    while i < n
        invariant
            n == segments.len(),
            i <= n,
            views == segment_views(segments@),
            out@ == markup(views.take(i as int)),
        decreases n - i,
    {
        let segment: &DiffSegment = &segments[i];
        proof {
            reveal_strlit("<u>");
            reveal_strlit("</u>");
            assert(views.take(i + 1).drop_last() == views.take(i as int));
            assert(views.take(i + 1).last() == segment@);
            assert("<u>"@ == insert_open());
            assert("</u>"@ == insert_close());
        }
        match segment.tag {
            ChangeTag::Equal => {
                out.append(segment.text.as_str());
            },
            ChangeTag::Inserted => {
                out.append("<u>");
                out.append(segment.text.as_str());
                out.append("</u>");
            },
            ChangeTag::Deleted => {
                assert(out@ + Seq::<char>::empty() == out@);
            },
        }
        i += 1;
    }
    assert(views.take(n as int) == views);
    out
}

/// Compares `old` and `new` word by word and shows the result: the new text
/// with the marks around what is new in it.
pub fn render_diff(old: &str, new: &str) -> (r: String)
    ensures
        r@ == markup(word_diff(old@, new@)),
{
    let segments: Vec<DiffSegment> = diff_words(old, new);
    render_segments(&segments)
}

} // verus!
