//! The pipeline parser: a line is cut into segments at each ` | `, and every segment into a
//! command name and its arguments at runs of white space.

use crate::text::{chars_of, is_space, is_whitespace, texts, trim, trim_range};
use vstd::prelude::*;

verus! {

/// True where ` | `, a pipe between two single spaces, stands in `s` at index `i`.
pub open spec fn delimiter_at(s: Seq<char>, i: int) -> bool {
    &&& 0 <= i
    &&& i + 3 <= s.len()
    &&& s[i] == ' '
    &&& s[i + 1] == '|'
    &&& s[i + 2] == ' '
}

/// The first index at or after `from` where the delimiter stands in `s`, or the length of
/// `s` if there is none.
pub open spec fn first_delimiter(s: Seq<char>, from: int) -> int
    decreases s.len() - from,
{
    if from >= s.len() {
        s.len() as int
    } else if delimiter_at(s, from) {
        from
    } else {
        first_delimiter(s, from + 1)
    }
}

/// The raw segments of `s`: the text before the first delimiter, then the raw segments of
/// what follows that delimiter. Empty pieces are kept.
pub open spec fn split_segments(s: Seq<char>) -> Seq<Seq<char>>
    decreases s.len(),
{
    let cut = first_delimiter(s, 0);
    if 0 <= cut && cut + 3 <= s.len() {
        seq![s.take(cut)] + split_segments(s.skip(cut + 3))
    } else {
        seq![s]
    }
}

/// The number of characters before the first white space of `s`.
pub open spec fn word_len(s: Seq<char>) -> nat
    decreases s.len(),
{
    if s.len() > 0 && !is_space(s[0]) {
        1 + word_len(s.drop_first())
    } else {
        0
    }
}

/// A word never runs past the end of the text.
pub proof fn lemma_word_len_bound(s: Seq<char>)
    ensures
        word_len(s) <= s.len(),
    decreases s.len(),
{
    if s.len() > 0 && !is_space(s[0]) {
        lemma_word_len_bound(s.drop_first());
    }
}

/// The words of `s`: its maximal runs of characters that are not white space, in order.
pub open spec fn words(s: Seq<char>) -> Seq<Seq<char>>
    decreases s.len(),
{
    if s.len() == 0 {
        Seq::empty()
    } else if is_space(s[0]) {
        words(s.drop_first())
    } else {
        proof {
            lemma_word_len_bound(s);
        }
        seq![s.take(word_len(s) as int)] + words(s.skip(word_len(s) as int))
    }
}

/// What a segment holds: the command's name and its arguments.
pub ghost struct SegmentView {
    pub name: Seq<char>,
    pub args: Seq<Seq<char>>,
}

/// The segment made of the given words: the first is the name, the others are the arguments.
/// Without words the name is empty.
pub open spec fn segment_of_words(tokens: Seq<Seq<char>>) -> SegmentView {
    if tokens.len() == 0 {
        SegmentView { name: Seq::empty(), args: Seq::empty() }
    } else {
        SegmentView { name: tokens[0], args: tokens.drop_first() }
    }
}

/// The segment written as `raw`: the text is trimmed and cut into words.
pub open spec fn segment_of(raw: Seq<char>) -> SegmentView {
    segment_of_words(words(trim(raw)))
}

/// The segments written as the given raw pieces, one for one.
pub open spec fn segments_of(pieces: Seq<Seq<char>>) -> Seq<SegmentView> {
    Seq::new(pieces.len(), |i: int| segment_of(pieces[i]))
}

/// The segments of a line: the line is trimmed and cut at the delimiters, and every piece
/// is trimmed and cut into words.
pub open spec fn parse(line: Seq<char>) -> Seq<SegmentView> {
    segments_of(split_segments(trim(line)))
}

/// One stage of a pipeline.
#[derive(Debug, Clone, PartialEq, Eq)]
pub struct Segment {
    /// The command's name; empty for a stage that does nothing.
    pub name: String,
    /// The arguments, in the order in which they were written.
    pub args: Vec<String>,
}

impl View for Segment {
    type V = SegmentView;

    open spec fn view(&self) -> SegmentView {
        SegmentView { name: self.name@, args: texts(self.args@) }
    }
}

impl Segment {
    /// A copy of this segment.
    pub fn duplicate(&self) -> (copy: Segment)
        ensures
            copy@ == self@,
    {
        let n: usize = self.args.len();
        let mut args: Vec<String> = Vec::new();
        let mut i: usize = 0;
        while i < n
            invariant
                n == self.args@.len(),
                i <= n,
                args@.len() == i,
                forall|j: int| 0 <= j < i ==> (#[trigger] args@[j])@ == self.args@[j]@,
            decreases n - i,
        {
            args.push(self.args[i].clone());
            i += 1;
        }
        assert(texts(args@) =~= texts(self.args@));
        Segment { name: self.name.clone(), args }
    }
}

/// What each segment of `v` holds, in order.
pub open spec fn segment_views(v: Seq<Segment>) -> Seq<SegmentView> {
    Seq::new(v.len(), |i: int| v[i]@)
}

/// Where no delimiter stands in `s` between `from` and `k`, and one stands at `k` or `k` is
/// the end, the first delimiter at or after `from` is at `k`.
proof fn lemma_first_delimiter(s: Seq<char>, from: int, k: int)
    requires
        0 <= from <= k <= s.len(),
        forall|j: int| from <= j < k ==> !delimiter_at(s, j),
        k == s.len() || delimiter_at(s, k),
    ensures
        first_delimiter(s, from) == k,
    decreases k - from,
{
    if from < k {
        lemma_first_delimiter(s, from + 1, k);
    }
}

/// Where `s` has no white space before `k`, and has it at `k` or ends there, its first
/// word has `k` characters.
proof fn lemma_word_len(s: Seq<char>, k: int)
    requires
        0 <= k <= s.len(),
        forall|j: int| 0 <= j < k ==> !is_space(s[j]),
        k == s.len() || is_space(s[k]),
    ensures
        word_len(s) == k,
    decreases k,
{
    if k > 0 {
        lemma_word_len(s.drop_first(), k - 1);
    }
}

/// The first delimiter lies within the text, and the delimiter does stand there unless the
/// text has none at or after `from`.
pub proof fn lemma_first_delimiter_found(s: Seq<char>, from: int)
    requires
        0 <= from <= s.len(),
    ensures
        from <= first_delimiter(s, from) <= s.len(),
        first_delimiter(s, from) < s.len() ==> delimiter_at(s, first_delimiter(s, from)),
        forall|j: int| from <= j < first_delimiter(s, from) ==> !delimiter_at(s, j),
    decreases s.len() - from,
{
    if from < s.len() && !delimiter_at(s, from) {
        lemma_first_delimiter_found(s, from + 1);
    }
}

/// The pieces written one after another with ` | ` between neighbours.
pub open spec fn joined(pieces: Seq<Seq<char>>) -> Seq<char>
    decreases pieces.len(),
{
    if pieces.len() == 0 {
        Seq::empty()
    } else if pieces.len() == 1 {
        pieces[0]
    } else {
        pieces[0] + seq![' ', '|', ' '] + joined(pieces.drop_first())
    }
}

/// Cutting loses nothing: a text has at least one raw segment, and its raw segments with the
/// delimiter put back between them are the text again.
pub proof fn lemma_split_rejoins(s: Seq<char>)
    ensures
        split_segments(s).len() >= 1,
        joined(split_segments(s)) == s,
    decreases s.len(),
{
    lemma_first_delimiter_found(s, 0);
    let cut = first_delimiter(s, 0);
    if cut + 3 <= s.len() {
        let rest = s.skip(cut + 3);
        lemma_split_rejoins(rest);
        let pieces = seq![s.take(cut)] + split_segments(rest);
        assert(pieces.drop_first() =~= split_segments(rest));
        assert(s.take(cut) + seq![' ', '|', ' '] + rest =~= s);
    }
}

/// The first word of a text holds no white space.
pub proof fn lemma_first_word_is_solid(s: Seq<char>)
    ensures
        forall|j: int| 0 <= j < word_len(s) ==> !is_space(#[trigger] s[j]),
    decreases s.len(),
{
    if s.len() > 0 && !is_space(s[0]) {
        lemma_first_word_is_solid(s.drop_first());
        lemma_word_len_bound(s);
        assert forall|j: int| 0 <= j < word_len(s) implies !is_space(#[trigger] s[j]) by {
            if j > 0 {
                assert(s[j] == s.drop_first()[j - 1]);
            }
        }
    }
}

/// Every word has at least one character, and none of its characters is white space.
pub proof fn lemma_words_are_solid(s: Seq<char>, i: int)
    requires
        0 <= i < words(s).len(),
    ensures
        words(s)[i].len() > 0,
        forall|j: int| 0 <= j < words(s)[i].len() ==> !is_space(#[trigger] words(s)[i][j]),
    decreases s.len(),
{
    if s.len() == 0 {
    } else if is_space(s[0]) {
        lemma_words_are_solid(s.drop_first(), i);
    } else {
        lemma_word_len_bound(s);
        lemma_first_word_is_solid(s);
        if i > 0 {
            lemma_words_are_solid(s.skip(word_len(s) as int), i - 1);
        }
    }
}

/// A line always has a first segment.
pub proof fn lemma_parse_has_a_segment(line: Seq<char>)
    ensures
        parse(line).len() >= 1,
{
    lemma_split_rejoins(trim(line));
}

/// Cuts `chars[lo..hi]` into its words. `line` is the text that `chars` was read from; the
/// words are copied out of it.
fn split_words(line: &str, chars: &Vec<char>, lo: usize, hi: usize) -> (out: Vec<String>)
    requires
        chars@ == line@,
        lo <= hi <= chars@.len(),
    ensures
        texts(out@) == words(chars@.subrange(lo as int, hi as int)),
{
    let ghost s = chars@;
    let mut out: Vec<String> = Vec::new();
    let mut i: usize = lo;
    assert(texts(out@) + words(s.subrange(i as int, hi as int)) =~= words(
        s.subrange(lo as int, hi as int),
    ));
    while i < hi
        invariant
            s == chars@,
            s == line@,
            lo <= i <= hi <= s.len(),
            texts(out@) + words(s.subrange(i as int, hi as int)) == words(
                s.subrange(lo as int, hi as int),
            ),
        decreases hi - i,
    {
        let ghost rest = s.subrange(i as int, hi as int);
        if is_whitespace(chars[i]) {
            assert(rest.drop_first() =~= s.subrange(i + 1, hi as int));
            i += 1;
        } else {
            let mut j: usize = i + 1;
            while j < hi && !is_whitespace(chars[j])
                invariant
                    s == chars@,
                    i < j <= hi <= s.len(),
                    forall|k: int| i <= k < j ==> !is_space(s[k]),
                decreases hi - j,
            {
                j += 1;
            }
            let word = line.substring_char(i, j).to_owned();
            proof {
                lemma_word_len(rest, j - i);
                assert(rest.take(j - i) =~= s.subrange(i as int, j as int));
                assert(rest.skip(j - i) =~= s.subrange(j as int, hi as int));
                assert(texts(out@.push(word)) =~= texts(out@).push(word@));
                assert(texts(out@).push(word@) + words(s.subrange(j as int, hi as int)) =~= texts(
                    out@,
                ) + words(rest));
            }
            out.push(word);
            i = j;
        }
    }
    assert(texts(out@) + Seq::<Seq<char>>::empty() =~= texts(out@));
    out
}

/// Reads the segment written in `chars[lo..hi]`.
fn segment_in(line: &str, chars: &Vec<char>, lo: usize, hi: usize) -> (seg: Segment)
    requires
        chars@ == line@,
        lo <= hi <= chars@.len(),
    ensures
        seg@ == segment_of(chars@.subrange(lo as int, hi as int)),
{
    let (a, b) = trim_range(chars, lo, hi);
    let mut tokens = split_words(line, chars, a, b);
    let ghost all = texts(tokens@);
    if tokens.len() == 0 {
        let seg = Segment { name: String::new(), args: tokens };
        assert(seg@.args =~= Seq::<Seq<char>>::empty());
        seg
    } else {
        let name = tokens.remove(0);
        let seg = Segment { name, args: tokens };
        assert(seg@.args =~= all.drop_first());
        seg
    }
}

/// Parses one line of input into the stages of a pipeline.
///
/// The line is trimmed and cut at every ` | `; each piece is trimmed and cut into words at
/// runs of white space. Pieces without words are kept, as segments with an empty name, so
/// the result always has at least one segment.
pub fn parse_line(line: &str) -> (segments: Vec<Segment>)
    ensures
        segment_views(segments@) == parse(line@),
        segments@.len() >= 1,
{
    let chars = chars_of(line);
    let ghost s = chars@;
    let (a, b) = trim_range(&chars, 0, chars.len());
    assert(s.subrange(0, s.len() as int) =~= s);
    let mut out: Vec<Segment> = Vec::new();
    let mut start: usize = a;
    let mut i: usize = a;
    assert(segment_views(out@) + segments_of(split_segments(s.subrange(start as int, b as int)))
        =~= parse(line@));
    while b - i >= 3
        invariant
            s == chars@,
            s == line@,
            a <= start <= i <= b <= s.len(),
            forall|j: int|
                0 <= j < i - start ==> !delimiter_at(s.subrange(start as int, b as int), j),
            segment_views(out@) + segments_of(split_segments(s.subrange(start as int, b as int)))
                == parse(line@),
        decreases b - i,
    {
        let ghost piece = s.subrange(start as int, b as int);
        if chars[i] == ' ' && chars[i + 1] == '|' && chars[i + 2] == ' ' {
            let seg = segment_in(line, &chars, start, i);
            proof {
                let k = i - start;
                assert(delimiter_at(piece, k));
                lemma_first_delimiter(piece, 0, k);
                assert(piece.take(k) =~= s.subrange(start as int, i as int));
                assert(piece.skip(k + 3) =~= s.subrange(i + 3, b as int));
                let tail = split_segments(s.subrange(i + 3, b as int));
                assert(split_segments(piece) == seq![piece.take(k)] + tail);
                assert(segment_views(out@.push(seg)) =~= segment_views(out@).push(seg@));
                assert(segments_of(seq![piece.take(k)] + tail) =~= seq![seg@] + segments_of(tail));
                assert(segment_views(out@).push(seg@) + segments_of(tail) =~= segment_views(out@)
                    + segments_of(split_segments(piece)));
            }
            out.push(seg);
            start = i + 3;
            i = start;
        } else {
            i += 1;
        }
    }
    let seg = segment_in(line, &chars, start, b);
    proof {
        let piece = s.subrange(start as int, b as int);
        lemma_first_delimiter(piece, 0, piece.len() as int);
        assert(split_segments(piece) == seq![piece]);
        assert(segment_views(out@.push(seg)) =~= segment_views(out@).push(seg@));
        assert(segments_of(seq![piece]) =~= seq![seg@]);
    }
    out.push(seg);
    proof {
        lemma_parse_has_a_segment(line@);
    }
    out
}

} // verus!
