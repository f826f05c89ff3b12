//! The sentiment of a text and the colour it suggests.

use vstd::prelude::*;

use crate::style::Color;

verus! {

/// The positive and the negative score that the word lexicon gives `text`.
pub uninterp spec fn lexicon_scores(text: Seq<char>) -> (u64, u64);

/// Relies on `sentiment::analyze`: the positive and the negative score of
/// the text, each a sum of the lexicon's whole-number word ratings, which the
/// conversion to an integer keeps as they are. The result depends on the text
/// alone.
#[verifier::external_body]
fn analyze_scores(text: &str) -> (r: (u64, u64))
    ensures
        r == lexicon_scores(text@),
{
    let analysis = sentiment::analyze(text.to_string());
    (analysis.positive.score as u64, analysis.negative.score as u64)
}

/// How far apart the two scores may be for a text to count as neutral.
/// The scores are whole numbers, so a margin of zero asks for a tie.
pub const NEUTRAL_MARGIN: u64 = 0;

/// The affect detected in a text: how positive and how negative it reads.
#[derive(Clone, Copy, Debug, PartialEq, Eq, Structural)]
pub struct Sentiment {
    pub positive: u64,
    pub negative: u64,
}

/// `1` for a positive text, `-1` for a negative one, `0` for a neutral one.
pub open spec fn polarity(s: Sentiment) -> int {
    if s.positive as int - s.negative as int <= NEUTRAL_MARGIN && s.negative as int
        - s.positive as int <= NEUTRAL_MARGIN {
        0
    } else if s.positive > s.negative {
        1
    } else {
        -1
    }
}

/// The colour that a sentiment suggests: green for positive, red for
/// negative, blue for neutral.
pub open spec fn inferred_color(s: Sentiment) -> Color {
    if polarity(s) == 1 {
        Color::Green
    } else if polarity(s) == -1 {
        Color::Red
    } else {
        Color::Blue
    }
}

/// The colour of the output: none in plain mode, else the explicit colour,
/// else the one the sentiment suggests (no sentiment reads as neutral).
pub open spec fn resolved_color(
    explicit: Option<Color>,
    plain: bool,
    sentiment: Option<Sentiment>,
) -> Option<Color> {
    if plain {
        None
    } else if explicit is Some {
        explicit
    } else {
        match sentiment {
            Some(s) => Some(inferred_color(s)),
            None => Some(Color::Blue),
        }
    }
}

impl Sentiment {
    /// Scores `text` against the word lexicon.
    pub fn new(text: &str) -> (r: Sentiment)
        ensures
            (r.positive, r.negative) == lexicon_scores(text@),
    {
        let (positive, negative) = analyze_scores(text);
        Sentiment { positive, negative }
    }

    /// The polarity of the scores: `1`, `0` or `-1`.
    pub fn get_polarity(&self) -> (r: i8)
        ensures
            r as int == polarity(*self),
    {
        let gap = if self.positive >= self.negative {
            self.positive - self.negative
        } else {
            self.negative - self.positive
        };
        if gap <= NEUTRAL_MARGIN {
            0
        } else if self.positive > self.negative {
            1
        } else {
            -1
        }
    }
}

/// The colour that `sentiment` suggests.
pub fn determine_color(sentiment: &Sentiment) -> (r: Color)
    ensures
        r == inferred_color(*sentiment),
{
    let p = sentiment.get_polarity();
    if p == 1 {
        Color::Green
    } else if p == -1 {
        Color::Red
    } else {
        Color::Blue
    }
}

/// Decides the colour of the output from the flags and, when it is needed,
/// the sentiment of the text.
pub fn resolve_color(explicit: Option<Color>, plain: bool, sentiment: Option<Sentiment>) -> (r:
    Option<Color>)
    ensures
        r == resolved_color(explicit, plain, sentiment),
{
    if plain {
        None
    } else if explicit.is_some() {
        explicit
    } else {
        match sentiment {
            Some(s) => Some(determine_color(&s)),
            None => Some(Color::Blue),
        }
    }
}

/// In plain mode no colour is applied, whatever else is given.
pub proof fn lemma_plain_has_no_color(explicit: Option<Color>, sentiment: Option<Sentiment>)
    ensures
        resolved_color(explicit, true, sentiment) == None::<Color>,
{
}

/// An explicit colour is used as it is, whatever the sentiment.
pub proof fn lemma_explicit_color_wins(c: Color, sentiment: Option<Sentiment>)
    ensures
        resolved_color(Some(c), false, sentiment) == Some(c),
{
}

/// Inference only ever picks green, red or blue.
pub proof fn lemma_inferred_colors(sentiment: Option<Sentiment>)
    ensures
        resolved_color(None, false, sentiment) matches Some(c) && (c == Color::Green || c
            == Color::Red || c == Color::Blue),
{
}

} // verus!
