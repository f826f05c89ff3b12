use std::error::Error;
use std::io::{Read, Write};

use printr::{run, Color, Config, Format, Printr, Sentiment};
use tempfile::NamedTempFile;

// "zealous" has a lexicon rating of 2, which makes it a steady positive input.

fn read_back(file: &NamedTempFile) -> Result<String, Box<dyn Error>> {
    let mut contents = String::new();
    file.reopen()?.read_to_string(&mut contents)?;
    Ok(contents)
}

#[test]
fn lib_test_new_being_created_with_filename_supplied() -> Result<(), Box<dyn Error>> {
    let mut file = NamedTempFile::new()?;
    let content = "zealous";
    file.write_all(content.as_bytes())?;
    let mut printr = Printr::new(
        true,
        true,
        false,
        false,
        Some(read_back(&file)?),
        None,
        None,
        None,
    );
    printr.run_all_handles();
    assert_eq!(printr.string, vec![content.to_string()]);
    assert_eq!(printr.sentiment, Some(Sentiment { positive: 2, negative: 0 }));
    assert_eq!(
        printr.config,
        Config::new(true, true, false, false, Some(Color::Green), None)
    );
    assert_eq!(
        printr.get_output_string(),
        "\u{1b}[32mzealous\u{1b}[0m".to_string()
    );
    Ok(())
}

#[test]
fn lib_test_new_being_created_with_input_string_supplied() -> Result<(), Box<dyn Error>> {
    let content = String::from("zealous");
    let mut printr = Printr::new(
        true,
        true,
        false,
        false,
        None,
        None,
        Some(vec![content.clone()]),
        Some(Format::Bold),
    );
    printr.run_all_handles();
    assert_eq!(printr.string, vec![content.clone()]);
    assert_eq!(printr.sentiment, Some(Sentiment { positive: 2, negative: 0 }));
    assert_eq!(
        printr.config,
        Config::new(true, true, false, false, Some(Color::Green), Some(Format::Bold))
    );
    assert_eq!(
        printr.get_output_string(),
        "\u{1b}[1m\u{1b}[32mzealous\u{1b}[0m\u{1b}[0m".to_string()
    );
    Ok(())
}

#[test]
fn tests_test_new_being_created_with_filename_supplied() -> Result<(), Box<dyn Error>> {
    let mut file = NamedTempFile::new()?;
    let content = "zealous";
    file.write_all(content.as_bytes())?;
    let mut printr = Printr::new(
        true,
        true,
        false,
        false,
        Some(read_back(&file)?),
        None,
        None,
        None,
    );
    run(&mut printr);
    assert_eq!(printr.string, vec![content.to_string()]);
    assert_eq!(printr.sentiment, Some(Sentiment { positive: 2, negative: 0 }));
    assert_eq!(printr.config.color, Some(Color::Green));
    assert!(printr.config.interpretations);
    assert!(printr.config.newline);
    assert!(!printr.config.spaces);
    Ok(())
}

#[test]
fn tests_test_new_being_created_with_input_string_supplied() -> Result<(), Box<dyn Error>> {
    let content = String::from("zealous");
    let mut printr = Printr::new(
        true,
        true,
        false,
        false,
        None,
        None,
        Some(vec![content.clone()]),
        None,
    );
    run(&mut printr);
    assert_eq!(printr.string, vec![content.clone()]);
    assert_eq!(printr.sentiment, Some(Sentiment { positive: 2, negative: 0 }));
    assert_eq!(printr.config.color, Some(Color::Green));
    assert!(printr.config.interpretations);
    assert!(printr.config.newline);
    assert!(!printr.config.spaces);
    Ok(())
}

#[test]
fn new_without_input_starts_from_one_empty_fragment() {
    let printr = Printr::new(false, false, false, false, None, None, None, None);
    assert_eq!(printr.string, vec![String::new()]);
    assert_eq!(printr.sentiment, None);
    assert_eq!(printr.output_string, None);
}

#[test]
fn file_contents_take_the_place_of_fragments() {
    let printr = Printr::new(
        false,
        false,
        false,
        true,
        Some("from  file".to_string()),
        None,
        Some(vec!["a".to_string(), "b".to_string()]),
        None,
    );
    assert_eq!(printr.string, vec!["from  file".to_string()]);
}

#[test]
fn output_is_empty_before_any_stage() {
    let printr = Printr::new(false, false, false, false, None, None, None, None);
    assert_eq!(printr.get_output_string(), "");
}

#[test]
fn stages_build_the_output_one_by_one() {
    let mut printr = Printr::new(
        false,
        false,
        false,
        false,
        None,
        Some(Color::Cyan),
        Some(vec!["x".to_string(), "y".to_string()]),
        Some(Format::Underline),
    );
    printr.handle_spaces();
    assert_eq!(printr.output_string, Some("x y".to_string()));
    printr.handle_interpretations();
    printr.determine_sentiment();
    assert_eq!(printr.sentiment, None);
    printr.determine_color();
    assert_eq!(printr.config.color, Some(Color::Cyan));
    printr.handle_coloring();
    assert_eq!(printr.output_string, Some("\u{1b}[36mx y\u{1b}[0m".to_string()));
    printr.handle_newline();
    assert_eq!(printr.output_string, Some("\u{1b}[36mx y\u{1b}[0m\n".to_string()));
    printr.handle_formatting();
    assert_eq!(
        printr.get_output_string(),
        "\u{1b}[4m\u{1b}[36mx y\u{1b}[0m\n\u{1b}[0m"
    );
}

#[test]
fn plain_run_leaves_colour_unset() {
    let mut printr = Printr::new(
        false,
        false,
        true,
        false,
        None,
        None,
        Some(vec!["bad".to_string(), "terrible".to_string()]),
        None,
    );
    run(&mut printr);
    assert_eq!(printr.config.color, None);
    assert_eq!(printr.sentiment, None);
    assert_eq!(printr.get_output_string(), "bad terrible\n");
}

#[test]
fn coloring_without_a_colour_leaves_the_output() {
    let mut printr = Printr::new(
        false,
        false,
        false,
        false,
        None,
        None,
        Some(vec!["zealous".to_string()]),
        None,
    );
    printr.handle_spaces();
    printr.handle_coloring();
    assert_eq!(printr.output_string, Some("zealous".to_string()));
    printr.determine_sentiment();
    printr.determine_color();
    printr.handle_coloring();
    assert_eq!(
        printr.output_string,
        Some("\u{1b}[32mzealous\u{1b}[0m".to_string())
    );
}

#[test]
fn run_fills_in_the_colour_as_run_all_handles_does() {
    let make = || {
        Printr::new(
            false,
            false,
            false,
            false,
            None,
            None,
            Some(vec!["bad".to_string(), "day".to_string()]),
            None,
        )
    };
    let mut a = make();
    let mut b = make();
    run(&mut a);
    b.run_all_handles();
    assert_eq!(a, b);
    assert_eq!(a.config.color, Some(Color::Red));
}
