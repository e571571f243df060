//! Font selection: among the fonts found for the requested families, the one that covers the
//! most characters of the text is used.

use crate::render::text::FontProperties;
use std::sync::Arc;
use vstd::prelude::*;
use vstd::string::StrSliceExecFns;

verus! {

/// Declares `std::path::PathBuf` (a folder of font files).
#[verifier::external_type_specification]
#[verifier::external_body]
pub struct ExPathBuf(std::path::PathBuf);

/// Whether `ttf_parser::Face::parse` accepts face `index` of the font data.
pub uninterp spec fn face_parses(data: Seq<u8>, index: u32) -> bool;

/// Whether face `index` of the font data maps the character to a glyph
/// (`ttf_parser::Face::glyph_index` returns `Some`).
pub uninterp spec fn face_has_glyph(data: Seq<u8>, index: u32, c: char) -> bool;

/// `ttf_parser::Face::parse`, telling whether the face can be read. Trusted: the answer is the
/// named property of the data and the index.
#[verifier::external_body]
fn parses(data: &[u8], index: u32) -> (r: bool)
    ensures
        r == face_parses(data@, index),
{
    rustybuzz::ttf_parser::Face::parse(data, index).is_ok()
}

/// `ttf_parser::Face::parse` followed by `Face::glyph_index`, telling whether the face has a
/// glyph for `c`. Trusted: the answer is the named property of the data, the index and the
/// character.
#[verifier::external_body]
fn has_glyph(data: &[u8], index: u32, c: char) -> (r: bool)
    requires
        face_parses(data@, index),
    ensures
        r == face_has_glyph(data@, index, c),
{
    match rustybuzz::ttf_parser::Face::parse(data, index) {
        Ok(face) => face.glyph_index(c).is_some(),
        Err(_) => false,
    }
}

/// Number of characters of `text` that face `index` of the font data has glyphs for.
pub open spec fn supported_chars(data: Seq<u8>, index: u32, text: Seq<char>) -> int
    decreases text.len(),
{
    if text.len() == 0 {
        0
    } else {
        supported_chars(data, index, text.drop_last()) + if face_has_glyph(data, index, text.last()) {
            1int
        } else {
            0int
        }
    }
}

/// A font covers at most every character of the text.
pub proof fn lemma_supported_chars_at_most_len(data: Seq<u8>, index: u32, text: Seq<char>)
    ensures
        0 <= supported_chars(data, index, text) <= text.len(),
    decreases text.len(),
{
    if text.len() > 0 {
        lemma_supported_chars_at_most_len(data, index, text.drop_last());
    }
}

/// Whether a font covering `contains_chars` characters of the text replaces the current
/// candidate, which covers `current` characters (`None` when there is no candidate yet): a first
/// font must cover at least one character, a later one must cover more than the candidate.
pub open spec fn replaces_candidate(current: Option<usize>, contains_chars: int) -> bool {
    (contains_chars > 0 && current is None) || (current matches Some(n) && n < contains_chars)
}

/// Decides whether a font covering `contains_chars` characters of the text replaces the current
/// candidate.
pub fn replaces(current: Option<usize>, contains_chars: usize) -> (r: bool)
    ensures
        r == replaces_candidate(current, contains_chars as int),
{
    (contains_chars > 0 && current.is_none()) || match current {
        Some(n) => n < contains_chars,
        None => false,
    }
}

/// Counts the characters of `text` that face `index` of the font data has glyphs for.
fn count_supported(data: &[u8], index: u32, text: &str) -> (count: usize)
    requires
        face_parses(data@, index),
        text@.len() <= usize::MAX,
    ensures
        count == supported_chars(data@, index, text@),
{
    let mut count: usize = 0;
    let ghost chars = text@;
    for c in it: text.chars()
        invariant
            it.seq() == chars,
            face_parses(data@, index),
            chars.len() <= usize::MAX,
            count == supported_chars(data@, index, chars.subrange(0, it.index() as int)),
            count <= it.index(),
    {
        proof {
            let k = it.index() as int;
            assert(chars.subrange(0, k + 1).drop_last() =~= chars.subrange(0, k));
        }
        if has_glyph(data, index, c) {
            count = count + 1;
        }
    }
    proof {
        assert(chars.subrange(0, chars.len() as int) =~= chars);
    }
    count
}

/// The number of characters the candidate font covers (`None` when there is no candidate).
pub open spec fn candidate_chars(candidate: Option<(Arc<Vec<u8>>, u32, usize)>) -> Option<usize> {
    match candidate {
        Some((_, _, c)) => Some(c),
        None => None,
    }
}

/// The candidate after the provider's answer `loaded` is considered for `text`: a font that can
/// be read and covers more characters than the candidate (at least one, when there is no
/// candidate yet) replaces it, with the number of characters it covers.
pub open spec fn considered(
    candidate: Option<(Arc<Vec<u8>>, u32, usize)>,
    loaded: Option<(Arc<Vec<u8>>, u32)>,
    text: Seq<char>,
) -> Option<(Arc<Vec<u8>>, u32, usize)> {
    match loaded {
        Some((data, index)) => if face_parses(data@, index) && replaces_candidate(
            candidate_chars(candidate),
            supported_chars(data@, index, text),
        ) {
            Some((data, index, supported_chars(data@, index, text) as usize))
        } else {
            candidate
        },
        None => candidate,
    }
}

/// Whether considering `loaded` ends the search: it became the candidate and covers every
/// character of the text.
pub open spec fn search_ends(
    candidate: Option<(Arc<Vec<u8>>, u32, usize)>,
    loaded: Option<(Arc<Vec<u8>>, u32)>,
    text: Seq<char>,
) -> bool {
    match loaded {
        Some((data, index)) => face_parses(data@, index) && replaces_candidate(
            candidate_chars(candidate),
            supported_chars(data@, index, text),
        ) && supported_chars(data@, index, text) == text.len(),
        None => false,
    }
}

/// Considers the provider's answer `loaded` for `text` (of `text_len` characters): returns the
/// new candidate and whether the search ends.
pub fn consider_font(
    candidate: Option<(Arc<Vec<u8>>, u32, usize)>,
    loaded: Option<(Arc<Vec<u8>>, u32)>,
    text: &str,
    text_len: usize,
) -> (r: (Option<(Arc<Vec<u8>>, u32, usize)>, bool))
    requires
        text_len == text@.len(),
    ensures
        r.0 == considered(candidate, loaded, text@),
        r.1 == search_ends(candidate, loaded, text@),
{
    if let Some((data, index)) = loaded {
        if parses(data.as_slice(), index) {
            let contains_chars = count_supported(data.as_slice(), index, text);
            let current = match &candidate {
                Some((_, _, c)) => Some(*c),
                None => None,
            };
            if replaces(current, contains_chars) {
                let done = contains_chars == text_len;
                return (Some((data, index, contains_chars)), done);
            }
        }
    }
    (candidate, false)
}

/// The candidate after the provider's answers are considered one after the other, starting
/// with no candidate.
pub open spec fn candidate_after(
    answers: Seq<Option<(Arc<Vec<u8>>, u32)>>,
    text: Seq<char>,
) -> Option<(Arc<Vec<u8>>, u32, usize)>
    decreases answers.len(),
{
    if answers.len() == 0 {
        None
    } else {
        considered(candidate_after(answers.drop_last(), text), answers.last(), text)
    }
}

/// No answer ended the search: none of them became a candidate covering every character.
pub open spec fn search_goes_on(answers: Seq<Option<(Arc<Vec<u8>>, u32)>>, text: Seq<char>) -> bool {
    forall|k: int|
        0 <= k < answers.len() ==> !search_ends(
            candidate_after(answers.subrange(0, k), text),
            #[trigger] answers[k],
            text,
        )
}

/// The font of a candidate.
pub open spec fn font_of(candidate: Option<(Arc<Vec<u8>>, u32, usize)>) -> Option<
    (Arc<Vec<u8>>, u32),
> {
    match candidate {
        Some((data, index, _)) => Some((data, index)),
        None => None,
    }
}

/// The font selection over the provider's answers `answers` for the suffixes of
/// `family_count` families gives `r`: the answers are those of the first suffixes, in order;
/// no answer but the last ended the search; the last ended it unless every suffix was asked;
/// and `r` is the font of the candidate after all of them.
pub open spec fn selection_over(
    answers: Seq<Option<(Arc<Vec<u8>>, u32)>>,
    family_count: int,
    text: Seq<char>,
    r: Option<(Arc<Vec<u8>>, u32)>,
) -> bool {
    &&& answers.len() <= family_count
    &&& r == font_of(candidate_after(answers, text))
    &&& answers.len() > 0 ==> search_goes_on(answers.drop_last(), text)
    &&& answers.len() < family_count ==> answers.len() > 0 && search_ends(
        candidate_after(answers.drop_last(), text),
        answers.last(),
        text,
    )
}

/// How many characters of `text` the provider's answer `answer` covers: 0 when there is no
/// answer or its face cannot be read.
pub open spec fn answer_coverage(answer: Option<(Arc<Vec<u8>>, u32)>, text: Seq<char>) -> int {
    match answer {
        Some((data, index)) => if face_parses(data@, index) {
            supported_chars(data@, index, text)
        } else {
            0
        },
        None => 0,
    }
}

/// How many characters of the text the candidate covers: 0 when there is none.
pub open spec fn candidate_coverage(candidate: Option<(Arc<Vec<u8>>, u32, usize)>) -> int {
    match candidate {
        Some((_, _, c)) => c as int,
        None => 0,
    }
}

/// The candidate after considering `answers` covers the most characters of the text among them:
/// no readable answer covers more. It is the first answer that covers that many, it covers at
/// least one character, and its count is the one its face gives; there is no candidate only when
/// no answer covers any character.
pub proof fn lemma_candidate_covers_most(
    answers: Seq<Option<(Arc<Vec<u8>>, u32)>>,
    text: Seq<char>,
)
    requires
        text.len() <= usize::MAX,
    ensures
        forall|k: int|
            0 <= k < answers.len() ==> answer_coverage(#[trigger] answers[k], text)
                <= candidate_coverage(candidate_after(answers, text)),
        candidate_after(answers, text) matches Some((data, index, c)) ==> {
            &&& face_parses(data@, index)
            &&& c == supported_chars(data@, index, text)
            &&& c > 0
            &&& exists|j: int|
                0 <= j < answers.len() && answers[j] == Some((data, index)) && forall|k: int|
                    0 <= k < j ==> answer_coverage(#[trigger] answers[k], text) < c
        },
    decreases answers.len(),
{
    if answers.len() > 0 {
        let prev = answers.drop_last();
        lemma_candidate_covers_most(prev, text);
        let before = candidate_after(prev, text);
        let last = answers.last();
        if let Some((data, index)) = last {
            lemma_supported_chars_at_most_len(data@, index, text);
        }
        assert forall|k: int| 0 <= k < answers.len() implies answer_coverage(
            #[trigger] answers[k],
            text,
        ) <= candidate_coverage(candidate_after(answers, text)) by {
            if k < prev.len() {
                assert(answers[k] == prev[k]);
            }
        }
        if candidate_after(answers, text) != before {
            let j = answers.len() - 1;
            assert(answers[j] == last);
            assert forall|k: int| 0 <= k < j implies answer_coverage(#[trigger] answers[k], text)
                < candidate_coverage(candidate_after(answers, text)) by {
                assert(answers[k] == prev[k]);
            }
        } else if let Some((data, index, c)) = before {
            let j = choose|j: int|
                0 <= j < prev.len() && prev[j] == Some((data, index)) && forall|k: int|
                    0 <= k < j ==> answer_coverage(#[trigger] prev[k], text) < c;
            assert(answers[j] == prev[j]);
            assert forall|k: int| 0 <= k < j implies answer_coverage(#[trigger] answers[k], text)
                < c by {
                assert(answers[k] == prev[k]);
            }
        }
    }
}

/// The font that the selection gives covers the most characters of the text among the
/// provider's answers it considered: no readable answer covers more (see
/// [`lemma_candidate_covers_most`]). The premise is what `best_match` ensures of its answers.
pub proof fn lemma_selection_covers_most(
    answers: Seq<Option<(Arc<Vec<u8>>, u32)>>,
    family_count: int,
    text: Seq<char>,
    r: Option<(Arc<Vec<u8>>, u32)>,
)
    requires
        selection_over(answers, family_count, text, r),
        text.len() <= usize::MAX,
    ensures
        forall|k: int|
            0 <= k < answers.len() ==> answer_coverage(#[trigger] answers[k], text)
                <= answer_coverage(r, text),
        r is None ==> forall|k: int|
            0 <= k < answers.len() ==> answer_coverage(#[trigger] answers[k], text) == 0,
{
    lemma_candidate_covers_most(answers, text);
    assert forall|k: int| 0 <= k < answers.len() implies answer_coverage(#[trigger] answers[k], text)
        <= answer_coverage(r, text) by {
        if let Some((data, index)) = answers[k] {
            lemma_supported_chars_at_most_len(data@, index, text);
        }
    }
    assert forall|k: int| 0 <= k < answers.len() && r is None implies answer_coverage(
        #[trigger] answers[k],
        text,
    ) == 0 by {
        if let Some((data, index)) = answers[k] {
            lemma_supported_chars_at_most_len(data@, index, text);
        }
    }
}

/// Answers that keep the search going keep it going after one more such answer.
proof fn lemma_search_goes_on_push(
    before: Seq<Option<(Arc<Vec<u8>>, u32)>>,
    answer: Option<(Arc<Vec<u8>>, u32)>,
    text: Seq<char>,
)
    requires
        search_goes_on(before, text),
        !search_ends(candidate_after(before, text), answer, text),
    ensures
        search_goes_on(before.push(answer), text),
{
    let answers = before.push(answer);
    assert(answers.subrange(0, before.len() as int) == before);
    assert forall|k: int| 0 <= k < answers.len() implies !search_ends(
        candidate_after(answers.subrange(0, k), text),
        #[trigger] answers[k],
        text,
    ) by {
        if k < before.len() {
            assert(answers.subrange(0, k) == before.subrange(0, k));
            assert(answers[k] == before[k]);
        }
    }
}

/// The search goes on over every prefix of answers over which it goes on.
proof fn lemma_search_goes_on_drop_last(answers: Seq<Option<(Arc<Vec<u8>>, u32)>>, text: Seq<char>)
    requires
        answers.len() > 0,
        search_goes_on(answers, text),
    ensures
        search_goes_on(answers.drop_last(), text),
{
    assert forall|k: int| 0 <= k < answers.drop_last().len() implies !search_ends(
        candidate_after(answers.drop_last().subrange(0, k), text),
        #[trigger] answers.drop_last()[k],
        text,
    ) by {
        assert(answers.drop_last().subrange(0, k) == answers.subrange(0, k));
        assert(answers.drop_last()[k] == answers[k]);
    }
}

/// Source of font data.
pub trait FontProvider {
    /// Finds the font that best matches the first available family of `font_families` and the
    /// properties; returns the font data and the index of the face in it.
    fn find_best_match(&self, font_families: &[String], font_properties: &FontProperties) -> Option<
        (Arc<Vec<u8>>, u32),
    >;

    /// Loads all fonts of the given folder.
    fn load_fonts_folder(&self, path: std::path::PathBuf);

    /// Loads the faces of the given font data.
    fn load_font_data(&self, font_data: Arc<Vec<u8>>);

    /// Selects a font for `text`: for each suffix of `font_families` (all families, then all
    /// but the first, and so on) the provider's best match is considered, and the first font that
    /// covers more characters of the text than the ones before it becomes the candidate. The
    /// search stops at a font that covers every character.
    fn best_match(
        &self,
        text: &str,
        font_families: &[String],
        font_properties: FontProperties,
    ) -> (r: Option<(Arc<Vec<u8>>, u32)>)
        ensures
            r matches Some((data, index)) ==> face_parses(data@, index) && supported_chars(
                data@,
                index,
                text@,
            ) > 0,
            exists|answers: Seq<Option<(Arc<Vec<u8>>, u32)>>|
                {
                    &&& selection_over(answers, font_families@.len() as int, text@, r)
                    &&& forall|k: int|
                        0 <= k < answers.len() ==> exists|s: &[String]|
                            s@ == font_families@.subrange(k, font_families@.len() as int)
                                && call_ensures(
                                Self::find_best_match,
                                (self, s, &font_properties),
                                #[trigger] answers[k],
                            )
                },
            font_families@.len() == 0 ==> r is None,
    {
        let mut candidate: Option<(Arc<Vec<u8>>, u32, usize)> = None;
        let text_len = text.unicode_len();
        let n = font_families.len();
        let mut first: usize = 0;
        let mut done = false;
        let ghost mut answers: Seq<Option<(Arc<Vec<u8>>, u32)>> = Seq::empty();
        let ghost mut asked_families: Seq<&[String]> = Seq::empty();
        while !done && first < n
            invariant
                n == font_families@.len(),
                first <= n,
                text_len == text@.len(),
                answers.len() == first,
                asked_families.len() == first,
                forall|k: int|
                    0 <= k < answers.len() ==> (#[trigger] asked_families[k])@
                        == font_families@.subrange(k, n as int) && call_ensures(
                        Self::find_best_match,
                        (self, asked_families[k], &font_properties),
                        answers[k],
                    ),
                candidate == candidate_after(answers, text@),
                candidate matches Some((d, i, c)) ==> face_parses(d@, i) && c == supported_chars(
                    d@,
                    i,
                    text@,
                ) && c > 0,
                !done ==> search_goes_on(answers, text@),
                done ==> answers.len() > 0 && search_goes_on(answers.drop_last(), text@)
                    && search_ends(candidate_after(answers.drop_last(), text@), answers.last(), text@),
            decreases n - first,
        {
            let asked = &font_families[first..n];
            // Called as a function value, so that the answer is known to be one the provider
            // gives for `asked` (`call_ensures`).
            let find = Self::find_best_match;
            let loaded = find(self, asked, &font_properties);
            proof {
                if loaded is Some {
                    let pair = loaded->0;
                    lemma_supported_chars_at_most_len(pair.0@, pair.1, text@);
                }
            }
            let ghost before = answers;
            let ghost before_asked = asked_families;
            let (next, stop) = consider_font(candidate, loaded, text, text_len);
            candidate = next;
            proof {
                answers = before.push(loaded);
                asked_families = before_asked.push(asked);
                assert(answers.drop_last() == before);
                assert forall|k: int| 0 <= k < answers.len() implies (#[trigger] asked_families[k])@
                    == font_families@.subrange(k, n as int) && call_ensures(
                    Self::find_best_match,
                    (self, asked_families[k], &font_properties),
                    answers[k],
                ) by {
                    if k < before.len() {
                        assert(answers[k] == before[k]);
                        assert(asked_families[k] == before_asked[k]);
                    }
                }
                if !stop {
                    lemma_search_goes_on_push(before, loaded, text@);
                }
            }
            done = stop;
            first = first + 1;
        }
        proof {
            if answers.len() > 0 && !done {
                lemma_search_goes_on_drop_last(answers, text@);
            }
            assert(selection_over(answers, n as int, text@, font_of(candidate)));
            assert forall|k: int| 0 <= k < answers.len() implies exists|s: &[String]|
                s@ == font_families@.subrange(k, n as int) && call_ensures(
                    Self::find_best_match,
                    (self, s, &font_properties),
                    #[trigger] answers[k],
                ) by {
                assert(asked_families[k]@ == font_families@.subrange(k, n as int));
            }
        }
        match candidate {
            Some((data, index, _)) => Some((data, index)),
            None => None,
        }
    }
}

} // verus!
