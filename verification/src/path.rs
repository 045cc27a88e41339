//! Path templates: a template is cut at `/` into literal and variable segments.

use crate::text::texts;
use vstd::prelude::*;
use vstd::string::StrSliceExecFns;

verus! {

/// One segment of a path template.
#[derive(Debug)]
pub enum HttpPathSegment {
    /// `:name`, a place where a request path carries a value.
    Var(String),
    /// Text that a request path must repeat.
    Lit(String),
}

/// The mathematical form of a segment.
pub enum Segment {
    Var(Seq<char>),
    Lit(Seq<char>),
}

impl View for HttpPathSegment {
    type V = Segment;

    open spec fn view(&self) -> Segment {
        match self {
            HttpPathSegment::Var(name) => Segment::Var(name@),
            HttpPathSegment::Lit(text) => Segment::Lit(text@),
        }
    }
}

/// The segments of a vector, each by its view.
pub open spec fn segments_view(segments: Seq<HttpPathSegment>) -> Seq<Segment> {
    segments.map_values(|s: HttpPathSegment| s@)
}

/// How many characters stand before the first `/` of `s`.
pub open spec fn run_len(s: Seq<char>) -> nat
    decreases s.len(),
{
    if s.len() == 0 || s[0] == '/' {
        0
    } else {
        1 + run_len(s.drop_first())
    }
}

/// A piece that starts with `:` is a variable named by the rest; any other is a literal.
pub open spec fn classify(piece: Seq<char>) -> Segment {
    if piece.len() > 0 && piece[0] == ':' {
        Segment::Var(piece.skip(1))
    } else {
        Segment::Lit(piece)
    }
}

/// The segments of a template: its pieces between slashes, the empty ones left out.
pub open spec fn path_segments(s: Seq<char>) -> Seq<Segment>
    decreases s.len(),
{
    if s.len() == 0 {
        Seq::empty()
    } else {
        let n = run_len(s) as int;
        let rest = if n < s.len() {
            path_segments(s.skip(n + 1))
        } else {
            Seq::empty()
        };
        if n == 0 {
            rest
        } else {
            seq![classify(s.take(n))] + rest
        }
    }
}

/// `run_len` is the place of the first slash, or the length where there is none.
pub proof fn lemma_run_len(s: Seq<char>, n: int)
    requires
        0 <= n <= s.len(),
        forall|k: int| 0 <= k < n ==> s[k] != '/',
        n == s.len() || s[n] == '/',
    ensures
        run_len(s) == n,
    decreases n,
{
    if n > 0 {
        lemma_run_len(s.drop_first(), n - 1);
    }
}

/// A path that ends inside its last piece has that piece as its only segment.
proof fn lemma_last_piece(s: Seq<char>)
    requires
        forall|k: int| 0 <= k < s.len() ==> s[k] != '/',
    ensures
        path_segments(s) == if s.len() == 0 {
            Seq::<Segment>::empty()
        } else {
            seq![classify(s)]
        },
{
    lemma_run_len(s, s.len() as int);
    if s.len() > 0 {
        assert(s.take(s.len() as int) =~= s);
        assert(seq![classify(s)] + Seq::<Segment>::empty() =~= seq![classify(s)]);
    }
}

/// A path whose first piece ends at the slash at `n` has that piece, unless it
/// is empty, and then the segments of what follows the slash.
proof fn lemma_piece_then_rest(s: Seq<char>, n: int)
    requires
        0 <= n < s.len(),
        forall|k: int| 0 <= k < n ==> s[k] != '/',
        s[n] == '/',
    ensures
        path_segments(s) == if n == 0 {
            path_segments(s.skip(n + 1))
        } else {
            seq![classify(s.take(n))] + path_segments(s.skip(n + 1))
        },
{
    lemma_run_len(s, n);
}

/// Turns one non-empty piece of a template into its segment.
fn make_segment(piece: &str) -> (segment: HttpPathSegment)
    ensures
        segment@ == classify(piece@),
{
    let n = piece.unicode_len();
    if n > 0 && piece.get_char(0) == ':' {
        HttpPathSegment::Var(piece.substring_char(1, n).to_owned())
    } else {
        HttpPathSegment::Lit(piece.to_owned())
    }
}

/// Splits a path template at `/` and drops the empty pieces, so that leading,
/// trailing and doubled slashes do not count. A piece that starts with `:`
/// becomes a variable named by the rest of the piece, any other a literal.
pub fn parse_path(path: &str) -> (segments: Vec<HttpPathSegment>)
    ensures
        segments_view(segments@) == path_segments(path@),
{
    let len = path.unicode_len();
    let mut segments: Vec<HttpPathSegment> = Vec::new();
    let mut start: usize = 0;
    let mut i: usize = 0;
    proof {
        assert(path@.skip(0) =~= path@);
        assert(segments_view(segments@) + path_segments(path@) =~= path_segments(path@));
    }
    for c in it: path.chars()
        invariant
            it.seq() == path@,
            len == path@.len(),
            i == it.index(),
            start <= i <= len,
            forall|k: int| start <= k < i ==> path@[k] != '/',
            path_segments(path@) == segments_view(segments@) + path_segments(
                path@.skip(start as int),
            ),
    {
        if c == '/' {
            proof {
                let tail = path@.skip(start as int);
                lemma_piece_then_rest(tail, i - start);
                assert(tail.skip(i - start + 1) =~= path@.skip(i + 1));
                assert(tail.take(i - start) =~= path@.subrange(start as int, i as int));
            }
            if start < i {
                let ghost before = segments@;
                let segment = make_segment(path.substring_char(start, i));
                segments.push(segment);
                assert(segments_view(segments@) =~= segments_view(before) + seq![segment@]);
            }
            start = i + 1;
        }
        i = i + 1;
    }
    proof {
        let tail = path@.skip(start as int);
        lemma_last_piece(tail);
        assert(tail =~= path@.subrange(start as int, i as int));
    }
    if start < i {
        let ghost before = segments@;
        let segment = make_segment(path.substring_char(start, i));
        segments.push(segment);
        assert(segments_view(segments@) =~= segments_view(before) + seq![segment@]);
    }
    segments
}

/// The names of the variables among the segments, in their order.
pub open spec fn variable_names(segments: Seq<Segment>) -> Seq<Seq<char>>
    decreases segments.len(),
{
    if segments.len() == 0 {
        Seq::empty()
    } else {
        match segments.last() {
            Segment::Var(name) => variable_names(segments.drop_last()).push(name),
            Segment::Lit(_) => variable_names(segments.drop_last()),
        }
    }
}

/// Lists the names of the variables of a template in their order: the names
/// of the capture groups of its pattern.
pub fn capture_names(segments: &Vec<HttpPathSegment>) -> (names: Vec<String>)
    ensures
        texts(names@) == variable_names(segments_view(segments@)),
{
    let mut names: Vec<String> = Vec::new();
    let mut i: usize = 0;
    proof {
        assert(segments_view(segments@).take(0) =~= Seq::<Segment>::empty());
        assert(texts(names@) =~= Seq::<Seq<char>>::empty());
    }
    while i < segments.len()
        invariant
            i <= segments.len(),
            texts(names@) == variable_names(segments_view(segments@).take(i as int)),
        decreases segments.len() - i,
    {
        proof {
            let head = segments_view(segments@).take(i + 1);
            assert(head.last() == segments@[i as int]@);
            assert(head.drop_last() =~= segments_view(segments@).take(i as int));
        }
        match &segments[i] {
            HttpPathSegment::Var(name) => {
                let ghost before = names@;
                names.push(name.clone());
                assert(texts(names@) =~= texts(before).push(name@));
            },
            HttpPathSegment::Lit(_) => {},
        }
        i = i + 1;
    }
    proof {
        assert(segments_view(segments@).take(i as int) =~= segments_view(segments@));
    }
    names
}

} // verus!
