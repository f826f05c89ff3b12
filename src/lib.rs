//! A drop-in replacement for `echo` that colours its output, guessing the
//! colour from the sentiment of the text when none is given.

pub mod affect;
pub mod escape;
pub mod pipeline;
pub mod printer;
pub mod style;
mod text;

pub use affect::{determine_color, resolve_color, Sentiment, NEUTRAL_MARGIN};
pub use escape::interpret_escapes;
pub use pipeline::{
    apply_newline, assemble, interpret, join_fragments, render, render_with, Config,
};
pub use printer::Printr;
pub use style::{apply_color, apply_format, Color, Format};

use vstd::prelude::*;

verus! {

use crate::affect::resolved_color;
use crate::pipeline::{classified, needs_sentiment, rendered, texts};
use crate::printer::output_view;

/// Runs every stage of `printr`, leaving the finished output in it.
pub fn run(printr: &mut Printr)
    ensures
        final(printr).string == old(printr).string,
        output_view(final(printr).output_string) == Some(
            rendered(texts(old(printr).string@), old(printr).config),
        ),
        final(printr).sentiment == if needs_sentiment(old(printr).config) {
            classified(texts(old(printr).string@), old(printr).config)
        } else {
            old(printr).sentiment
        },
        final(printr).config == (Config {
            color: if needs_sentiment(old(printr).config) {
                resolved_color(
                    old(printr).config.color,
                    old(printr).config.plain,
                    classified(texts(old(printr).string@), old(printr).config),
                )
            } else {
                old(printr).config.color
            },
            ..old(printr).config
        }),
{
    printr.run_all_handles()
}

} // verus!
