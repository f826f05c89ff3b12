//! The rendering pipeline: join, expand escapes, pick a colour, paint,
//! end the line, style.

use vstd::prelude::*;

use crate::affect::{lexicon_scores, resolve_color, resolved_color, Sentiment};
use crate::escape::{expanded, interpret_escapes, lemma_expand_without_backslash};
use crate::text::push_char;
use crate::style::{
    apply_color, apply_format, color_code, colored, format_code, formatted, start_seq, Color, Format,
};

verus! {

/// The options of one run, as the command line gave them.
#[derive(Clone, Copy, Debug, PartialEq, Eq, Structural)]
pub struct Config {
    /// Expand backslash escapes (`-e`; `-E` turns it off again).
    pub interpretations: bool,
    /// Leave out the trailing newline (`-n`).
    pub newline: bool,
    /// Join the fragments without spaces (`-s`).
    pub spaces: bool,
    /// The colour asked for; when there is none it is guessed from the text.
    pub color: Option<Color>,
    /// The text style asked for, if any.
    pub format: Option<Format>,
    /// Print without any colour (`-p`).
    pub plain: bool,
}

impl Config {
    pub fn new(
        interpretations: bool,
        newline: bool,
        spaces: bool,
        plain: bool,
        color: Option<Color>,
        format: Option<Format>,
    ) -> (r: Self)
        ensures
            r == (Config { interpretations, newline, spaces, color, format, plain }),
    {
        Self { interpretations, newline, spaces, plain, color, format }
    }
}

/// The characters of each fragment.
pub open spec fn texts(v: Seq<String>) -> Seq<Seq<char>> {
    v.map_values(|s: String| s@)
}

/// The fragments one after the other, with `sep` between each two.
pub open spec fn joined(parts: Seq<Seq<char>>, sep: Seq<char>) -> Seq<char>
    decreases parts.len(),
{
    if parts.len() == 0 {
        seq![]
    } else if parts.len() == 1 {
        parts[0]
    } else {
        joined(parts.drop_last(), sep) + sep + parts.last()
    }
}

/// What goes between two fragments: nothing with `-s`, else one space.
pub open spec fn separator(spaces: bool) -> Seq<char> {
    if spaces {
        seq![]
    } else {
        seq![' ']
    }
}

/// The text when escape expansion is on, or as it is when it is off.
pub open spec fn interpreted(text: Seq<char>, enabled: bool) -> Seq<char> {
    if enabled {
        expanded(text)
    } else {
        text
    }
}

/// The text before any styling: fragments joined, escapes expanded.
pub open spec fn assembled(parts: Seq<Seq<char>>, config: Config) -> Seq<char> {
    interpreted(joined(parts, separator(config.spaces)), config.interpretations)
}

/// Whether the colour has to be guessed from the sentiment of the text.
pub open spec fn needs_sentiment(config: Config) -> bool {
    !config.plain && config.color is None
}

/// The text with a newline after it, unless that is suppressed.
pub open spec fn with_newline(text: Seq<char>, suppress: bool) -> Seq<char> {
    if suppress {
        text
    } else {
        text.push('\n')
    }
}

/// The output for a given sentiment (which only counts where the colour is
/// guessed): painted, ended with a newline, then styled.
pub open spec fn rendered_with(
    parts: Seq<Seq<char>>,
    config: Config,
    sentiment: Option<Sentiment>,
) -> Seq<char> {
    formatted(
        with_newline(
            colored(
                assembled(parts, config),
                resolved_color(config.color, config.plain, sentiment),
            ),
            config.newline,
        ),
        config.format,
    )
}

/// The sentiment of the assembled text, where the colour has to be guessed.
pub open spec fn classified(parts: Seq<Seq<char>>, config: Config) -> Option<Sentiment> {
    if needs_sentiment(config) {
        let scores = lexicon_scores(assembled(parts, config));
        Some(Sentiment { positive: scores.0, negative: scores.1 })
    } else {
        None
    }
}

/// The output of a run on `parts` with `config`.
pub open spec fn rendered(parts: Seq<Seq<char>>, config: Config) -> Seq<char> {
    rendered_with(parts, config, classified(parts, config))
}

/// Joins the fragments, with a space between each two unless `spaces` is set.
pub fn join_fragments(parts: &Vec<String>, spaces: bool) -> (r: String)
    ensures
        r@ == joined(texts(parts@), separator(spaces)),
{
    let ghost all = texts(parts@);
    let mut out = String::new();
    let mut i: usize = 0;
    while i < parts.len()
        invariant
            i <= parts@.len(),
            all == texts(parts@),
            out@ == joined(all.take(i as int), separator(spaces)),
        decreases parts@.len() - i,
    {
        let ghost prefix = all.take(i as int);
        if i > 0 && !spaces {
            push_char(&mut out, ' ');
        }
        out.append(parts[i].as_str());
        assert(all.take(i + 1).drop_last() =~= prefix);
        if i == 0 {
            assert(out@ =~= joined(all.take(1), separator(spaces)));
        } else {
            assert(out@ =~= joined(prefix, separator(spaces)) + separator(spaces) + all[i as int]);
        }
        i = i + 1;
    }
    assert(all.take(parts@.len() as int) =~= all);
    out
}

/// Expands the escapes of `text` when `enabled`, else hands it back.
pub fn interpret(text: String, enabled: bool) -> (r: String)
    ensures
        r@ == interpreted(text@, enabled),
{
    if enabled {
        interpret_escapes(text.as_str())
    } else {
        text
    }
}

/// Ends `text` with a newline, unless `suppress` is set.
pub fn apply_newline(text: String, suppress: bool) -> (r: String)
    ensures
        r@ == with_newline(text@, suppress),
{
    let mut text = text;
    if !suppress {
        push_char(&mut text, '\n');
    }
    text
}

/// Joins the fragments and expands their escapes, as `config` says.
pub fn assemble(parts: &Vec<String>, config: &Config) -> (r: String)
    ensures
        r@ == assembled(texts(parts@), *config),
{
    interpret(join_fragments(parts, config.spaces), config.interpretations)
}

/// The stages after assembly: paint, end the line, style.
fn finish(text: String, config: &Config, sentiment: Option<Sentiment>) -> (r: String)
    ensures
        r@ == formatted(
            with_newline(
                colored(text@, resolved_color(config.color, config.plain, sentiment)),
                config.newline,
            ),
            config.format,
        ),
{
    let color = resolve_color(config.color, config.plain, sentiment);
    let text = apply_color(text, color);
    let text = apply_newline(text, config.newline);
    apply_format(text, config.format)
}

/// Renders `parts` with `config`, taking `sentiment` as the sentiment of the
/// assembled text where the colour has to be guessed.
pub fn render_with(parts: &Vec<String>, config: &Config, sentiment: Option<Sentiment>) -> (r:
    String)
    ensures
        r@ == rendered_with(texts(parts@), *config, sentiment),
{
    finish(assemble(parts, config), config, sentiment)
}

/// Renders `parts` with `config`: the fragments are joined and their escapes
/// expanded; where no colour is given and the output is not plain, the
/// sentiment of that text picks one; then the text is painted, ended with a
/// newline and styled.
pub fn render(parts: &Vec<String>, config: &Config) -> (r: String)
    ensures
        r@ == rendered(texts(parts@), *config),
{
    let text = assemble(parts, config);
    let sentiment = if !config.plain && config.color.is_none() {
        Some(Sentiment::new(text.as_str()))
    } else {
        None
    };
    finish(text, config, sentiment)
}

/// Whether `needle` occurs in `hay` as a contiguous run.
pub open spec fn occurs_in(needle: Seq<char>, hay: Seq<char>) -> bool {
    exists|i: int| 0 <= i && i + needle.len() <= hay.len() && #[trigger] hay.subrange(i, i + needle.len()) == needle
}

/// Rendering is a function of the fragments and the options alone: two runs
/// on fragments of the same text with the same options give the same output.
pub proof fn lemma_render_deterministic(
    parts1: Seq<String>,
    parts2: Seq<String>,
    config: Config,
    out1: Seq<char>,
    out2: Seq<char>,
)
    requires
        texts(parts1) == texts(parts2),
        out1 == rendered(texts(parts1), config),
        out2 == rendered(texts(parts2), config),
    ensures
        out1 == out2,
{
}

/// With the newline kept and no text style, the output ends in exactly one
/// newline, unless plain output of a text that itself ends in a newline.
pub proof fn lemma_newline_ends_output(parts: Seq<Seq<char>>, config: Config)
    requires
        !config.newline,
        config.format is None,
        config.plain ==> assembled(parts, config).len() == 0 || assembled(parts, config).last()
            != '\n',
    ensures
        ({
            let r = rendered(parts, config);
            &&& r.len() >= 1
            &&& r.last() == '\n'
            &&& r.len() >= 2 ==> r[r.len() - 2] != '\n'
        }),
{
    let t = assembled(parts, config);
    let c = resolved_color(config.color, config.plain, classified(parts, config));
    let painted = colored(t, c);
    if let Some(col) = c {
        assert(painted.last() == 'm');
    }
    assert(rendered(parts, config) == painted.push('\n'));
}

/// With the newline left out, the output ends in a newline only where the
/// text, joined and expanded, ends in one itself.
pub proof fn lemma_suppressed_newline(parts: Seq<Seq<char>>, config: Config)
    requires
        config.newline,
    ensures
        ({
            let r = rendered(parts, config);
            let t = assembled(parts, config);
            r.len() >= 1 && r.last() == '\n' ==> t.len() >= 1 && t.last() == '\n'
        }),
{
    let t = assembled(parts, config);
    let c = resolved_color(config.color, config.plain, classified(parts, config));
    let painted = colored(t, c);
    if let Some(col) = c {
        assert(painted.last() == 'm');
    }
    if let Some(f) = config.format {
        assert(rendered(parts, config).last() == 'm');
    }
}

/// The joined and expanded text stands in the output unchanged, between the
/// control sequences that style it.
pub proof fn lemma_output_contains_text(parts: Seq<Seq<char>>, config: Config)
    ensures
        occurs_in(assembled(parts, config), rendered(parts, config)),
{
    let t = assembled(parts, config);
    let c = resolved_color(config.color, config.plain, classified(parts, config));
    let painted = colored(t, c);
    let lead: int = match c {
        Some(col) => start_seq(color_code(col)).len() as int,
        None => 0,
    };
    assert(painted.subrange(lead, lead + t.len()) =~= t);
    let lined = with_newline(painted, config.newline);
    assert(lined.subrange(lead, lead + t.len()) =~= t);
    let r = rendered(parts, config);
    let outer: int = match config.format {
        Some(f) => start_seq(format_code(f)).len() as int,
        None => 0,
    };
    assert(r.subrange(outer + lead, outer + lead + t.len()) =~= t);
}

/// Two fragments are joined with a space between them, or with nothing
/// with `-s`, and the joined text stands in the output, wherever escapes
/// are not expanded or the text holds no backslash.
pub proof fn lemma_join_law(a: Seq<char>, b: Seq<char>, config: Config)
    requires
        config.interpretations ==> forall|k: int|
            0 <= k < (a + separator(config.spaces) + b).len() ==> (a + separator(config.spaces)
                + b)[k] != '\\',
    ensures
        occurs_in(a + separator(config.spaces) + b, rendered(seq![a, b], config)),
{
    let parts = seq![a, b];
    let sep = separator(config.spaces);
    assert(parts.drop_last() =~= seq![a]);
    assert(joined(seq![a], sep) == a);
    assert(joined(parts, sep) == a + sep + b);
    if config.interpretations {
        lemma_expand_without_backslash(a + sep + b, 0);
        assert((a + sep + b).subrange(0, (a + sep + b).len() as int) =~= a + sep + b);
    }
    assert(assembled(parts, config) == a + sep + b);
    lemma_output_contains_text(parts, config);
}

/// Plain output is the joined and expanded text, ended with a newline
/// unless that is suppressed, and styled only by an explicit text style.
pub proof fn lemma_plain_output(parts: Seq<Seq<char>>, config: Config)
    requires
        config.plain,
    ensures
        rendered(parts, config) == formatted(
            with_newline(assembled(parts, config), config.newline),
            config.format,
        ),
{
}

} // verus!
