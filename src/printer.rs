//! `Printr`: one run of the printer, carried out stage by stage.

use vstd::prelude::*;

use crate::affect::{resolve_color, resolved_color, Sentiment};
use crate::pipeline::{
    assemble, classified, interpret, interpreted, join_fragments, joined, needs_sentiment,
    rendered, separator, texts, with_newline, apply_newline, Config,
};
use crate::style::{apply_color, apply_format, colored, formatted, Color, Format};

verus! {

/// The text and state of one run.
#[derive(Debug, PartialEq)]
pub struct Printr {
    /// The input fragments; the contents of the input file when one was read.
    pub string: Vec<String>,
    /// The sentiment of the text, once it has been determined.
    pub sentiment: Option<Sentiment>,
    /// The output as far as the stages run so far have built it.
    pub output_string: Option<String>,
    /// The options of the run; the colour is filled in once it is determined.
    pub config: Config,
}

/// The fragments a run starts from: the file's contents when there are any,
/// else the fragments given, else one empty fragment.
pub open spec fn input_parts(file: Option<String>, string: Option<Vec<String>>) -> Seq<Seq<char>> {
    match file {
        Some(f) => seq![f@],
        None => match string {
            Some(s) => texts(s@),
            None => seq![Seq::<char>::empty()],
        },
    }
}

/// The output string with `f` applied, if there is one yet.
pub open spec fn map_output(o: Option<String>, f: spec_fn(Seq<char>) -> Seq<char>) -> Option<
    Seq<char>,
> {
    match o {
        Some(s) => Some(f(s@)),
        None => None,
    }
}

/// The view of an optional output string.
pub open spec fn output_view(o: Option<String>) -> Option<Seq<char>> {
    match o {
        Some(s) => Some(s@),
        None => None,
    }
}

impl Printr {
    /// Sets up a run. `file` holds the contents of the input file, which take
    /// the place of the fragments in `string`.
    pub fn new(
        interpretations: bool,
        newline: bool,
        plain: bool,
        spaces: bool,
        file: Option<String>,
        color: Option<Color>,
        string: Option<Vec<String>>,
        format: Option<Format>,
    ) -> (r: Self)
        ensures
            texts(r.string@) == input_parts(file, string),
            r.sentiment is None,
            r.output_string is None,
            r.config == (Config { interpretations, newline, spaces, color, format, plain }),
    {
        let ghost parts = input_parts(file, string);
        let string = match file {
            Some(f) => {
                let v = vec![f];
                assert(texts(v@) =~= parts);
                v
            },
            None => match string {
                Some(s) => s,
                None => {
                    let v = vec![String::new()];
                    assert(texts(v@) =~= parts);
                    v
                },
            },
        };
        let config = Config::new(interpretations, newline, spaces, plain, color, format);
        Self { string, sentiment: None, config, output_string: None }
    }

    /// Scores the joined and expanded text, where the colour has to be
    /// guessed from it; else leaves the sentiment as it is.
    pub fn determine_sentiment(&mut self)
        ensures
            final(self).string == old(self).string,
            final(self).config == old(self).config,
            output_view(final(self).output_string) == output_view(old(self).output_string),
            final(self).sentiment == if needs_sentiment(old(self).config) {
                classified(texts(old(self).string@), old(self).config)
            } else {
                old(self).sentiment
            },
    {
        if !self.config.plain && self.config.color.is_none() {
            let text = assemble(&self.string, &self.config);
            self.sentiment = Some(Sentiment::new(text.as_str()));
        }
    }

    /// Joins the fragments into the output, with spaces unless `-s` was given.
    pub fn handle_spaces(&mut self)
        ensures
            final(self).string == old(self).string,
            final(self).config == old(self).config,
            final(self).sentiment == old(self).sentiment,
            output_view(final(self).output_string) == Some(
                joined(texts(old(self).string@), separator(old(self).config.spaces)),
            ),
    {
        self.output_string = Some(join_fragments(&self.string, self.config.spaces));
    }

    /// Expands the escapes of the output when `-e` was given.
    pub fn handle_interpretations(&mut self)
        ensures
            final(self).string == old(self).string,
            final(self).config == old(self).config,
            final(self).sentiment == old(self).sentiment,
            output_view(final(self).output_string) == map_output(
                old(self).output_string,
                |t: Seq<char>| interpreted(t, old(self).config.interpretations),
            ),
    {
        let enabled = self.config.interpretations;
        self.output_string = match self.output_string.take() {
            Some(t) => Some(interpret(t, enabled)),
            None => None,
        };
    }

    /// Fills in the colour: where none was given and the output is not
    /// plain, the one the sentiment suggests.
    pub fn determine_color(&mut self)
        ensures
            final(self).string == old(self).string,
            final(self).sentiment == old(self).sentiment,
            output_view(final(self).output_string) == output_view(old(self).output_string),
            final(self).config == (Config {
                color: if needs_sentiment(old(self).config) {
                    resolved_color(None, false, old(self).sentiment)
                } else {
                    old(self).config.color
                },
                ..old(self).config
            }),
    {
        if !self.config.plain && self.config.color.is_none() {
            self.config.color = resolve_color(None, false, self.sentiment);
        }
    }

    /// Paints the output in the colour of the run: none when plain, and
    /// none when no colour has been given or determined.
    pub fn handle_coloring(&mut self)
        ensures
            final(self).string == old(self).string,
            final(self).config == old(self).config,
            final(self).sentiment == old(self).sentiment,
            output_view(final(self).output_string) == map_output(
                old(self).output_string,
                |t: Seq<char>|
                    colored(
                        t,
                        if old(self).config.plain {
                            None
                        } else {
                            old(self).config.color
                        },
                    ),
            ),
    {
        let color = if self.config.plain {
            None
        } else {
            self.config.color
        };
        self.output_string = match self.output_string.take() {
            Some(t) => Some(apply_color(t, color)),
            None => None,
        };
    }

    /// Wraps the output in the text style of the run, if there is one.
    pub fn handle_formatting(&mut self)
        ensures
            final(self).string == old(self).string,
            final(self).config == old(self).config,
            final(self).sentiment == old(self).sentiment,
            output_view(final(self).output_string) == map_output(
                old(self).output_string,
                |t: Seq<char>| formatted(t, old(self).config.format),
            ),
    {
        let format = self.config.format;
        self.output_string = match self.output_string.take() {
            Some(t) => Some(apply_format(t, format)),
            None => None,
        };
    }

    /// Ends the output with a newline, unless `-n` was given.
    pub fn handle_newline(&mut self)
        ensures
            final(self).string == old(self).string,
            final(self).config == old(self).config,
            final(self).sentiment == old(self).sentiment,
            output_view(final(self).output_string) == map_output(
                old(self).output_string,
                |t: Seq<char>| with_newline(t, old(self).config.newline),
            ),
    {
        let suppress = self.config.newline;
        self.output_string = match self.output_string.take() {
            Some(t) => Some(apply_newline(t, suppress)),
            None => None,
        };
    }

    /// Runs every stage in order: join, expand escapes, determine the
    /// sentiment and the colour, paint, end the line, style.
    pub fn run_all_handles(&mut self)
        ensures
            final(self).string == old(self).string,
            output_view(final(self).output_string) == Some(
                rendered(texts(old(self).string@), old(self).config),
            ),
            final(self).sentiment == if needs_sentiment(old(self).config) {
                classified(texts(old(self).string@), old(self).config)
            } else {
                old(self).sentiment
            },
            final(self).config == (Config {
                color: if needs_sentiment(old(self).config) {
                    resolved_color(
                        old(self).config.color,
                        old(self).config.plain,
                        classified(texts(old(self).string@), old(self).config),
                    )
                } else {
                    old(self).config.color
                },
                ..old(self).config
            }),
    {
        self.handle_spaces();
        self.handle_interpretations();
        self.determine_sentiment();
        self.determine_color();
        self.handle_coloring();
        self.handle_newline();
        self.handle_formatting();
    }

    /// The output built so far; empty before any stage has run.
    pub fn get_output_string(self) -> (r: String)
        ensures
            r@ == match output_view(self.output_string) {
                Some(s) => s,
                None => Seq::<char>::empty(),
            },
    {
        match self.output_string {
            Some(s) => s,
            None => String::new(),
        }
    }
}

} // verus!
