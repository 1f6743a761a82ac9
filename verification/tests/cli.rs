use barcode_read::args::{parse_args, usage_text, Invocation};
use barcode_read::decode::read_barcodes;
use barcode_read::outcome::{classify, DecodeFailure, GetBarcodes, ReturnBarcodes};
use barcode_read::render::{failure_text, join_semicolon, render, PrintJob};

fn strings(texts: &[&str]) -> Vec<String> {
    texts.iter().map(|t| t.to_string()).collect()
}

#[test]
fn no_arguments_is_usage_error() {
    assert_eq!(parse_args(&strings(&[])), None);
}

#[test]
fn flag_alone_is_usage_error() {
    assert_eq!(parse_args(&strings(&["--first"])), None);
}

#[test]
fn plain_path_parses_as_list_mode() {
    assert_eq!(
        parse_args(&strings(&["pic.png"])),
        Some(Invocation { first_only: false, path: "pic.png".to_string() })
    );
}

#[test]
fn flag_and_path_parse_as_first_mode() {
    assert_eq!(
        parse_args(&strings(&["--first", "pic.png"])),
        Some(Invocation { first_only: true, path: "pic.png".to_string() })
    );
}

#[test]
fn extra_arguments_are_ignored() {
    assert_eq!(
        parse_args(&strings(&["pic.png", "other.png"])),
        Some(Invocation { first_only: false, path: "pic.png".to_string() })
    );
}

#[test]
fn second_flag_is_taken_as_the_path() {
    assert_eq!(
        parse_args(&strings(&["--first", "--first"])),
        Some(Invocation { first_only: true, path: "--first".to_string() })
    );
}

#[test]
fn usage_text_is_exact() {
    assert_eq!(usage_text(), "usage: barcode-read [--first] <path-to-image>");
}

#[test]
fn missing_path_is_path_error() {
    let bogus = "no_such_file_anywhere_on_this_machine.png";
    let r = read_barcodes(false, bogus.to_string());
    assert_eq!(r, GetBarcodes::PathError);
    assert_eq!(render(&r), PrintJob::Stderr("Path error!".to_string()));
    let r = read_barcodes(true, bogus.to_string());
    assert_eq!(r, GetBarcodes::PathError);
    assert_eq!(render(&r), PrintJob::Stderr("Path error!".to_string()));
}

#[test]
fn single_barcode_prints_its_text_in_both_modes() {
    let r = classify(false, Ok(strings(&["ABC123"])));
    assert_eq!(render(&r), PrintJob::Stdout("ABC123".to_string()));
    let r = classify(true, Ok(strings(&["ABC123"])));
    assert_eq!(
        r,
        GetBarcodes::Found(ReturnBarcodes::First(Some("ABC123".to_string())))
    );
    assert_eq!(render(&r), PrintJob::Stdout("ABC123".to_string()));
}

#[test]
fn three_barcodes_join_or_pick_the_first() {
    let r = classify(false, Ok(strings(&["A", "B", "C"])));
    assert_eq!(render(&r), PrintJob::Stdout("A;B;C".to_string()));
    let r = classify(true, Ok(strings(&["A", "B", "C"])));
    assert_eq!(render(&r), PrintJob::Stdout("A".to_string()));
}

#[test]
fn not_found_prints_singular_in_first_mode() {
    let r = classify(true, Err(DecodeFailure::NotFound));
    assert_eq!(r, GetBarcodes::Found(ReturnBarcodes::First(None)));
    assert_eq!(render(&r), PrintJob::Stderr("No barcode found!".to_string()));
}

#[test]
fn not_found_prints_plural_in_list_mode() {
    let r = classify(false, Err(DecodeFailure::NotFound));
    assert_eq!(r, GetBarcodes::Found(ReturnBarcodes::List(vec![])));
    assert_eq!(render(&r), PrintJob::Stderr("No barcodes found!".to_string()));
}

#[test]
fn empty_decode_prints_like_not_found() {
    let r = classify(true, Ok(strings(&[])));
    assert_eq!(render(&r), PrintJob::Stderr("No barcode found!".to_string()));
    let r = classify(false, Ok(strings(&[])));
    assert_eq!(render(&r), PrintJob::Stderr("No barcodes found!".to_string()));
}

#[test]
fn other_failure_prints_its_message() {
    let r = classify(false, Err(DecodeFailure::Other("boom".to_string())));
    assert_eq!(r, GetBarcodes::Failed("boom".to_string()));
    assert_eq!(render(&r), PrintJob::Stderr("Error: 'boom'".to_string()));
}

#[test]
fn failure_text_wraps_the_message() {
    assert_eq!(failure_text(&"bad header".to_string()), "Error: 'bad header'");
    assert_eq!(failure_text(&"".to_string()), "Error: ''");
}

#[test]
fn join_semicolon_cases() {
    assert_eq!(join_semicolon(&strings(&[])), "");
    assert_eq!(join_semicolon(&strings(&["solo"])), "solo");
    assert_eq!(join_semicolon(&strings(&["A", "B", "C"])), "A;B;C");
    assert_eq!(join_semicolon(&strings(&["", ""])), ";");
}

#[test]
fn repeated_runs_print_the_same_line() {
    let once = render(&classify(false, Ok(strings(&["A", "B"]))));
    let twice = render(&classify(false, Ok(strings(&["A", "B"]))));
    assert_eq!(once, twice);
    let bogus = "no_such_file_anywhere_on_this_machine.png";
    let first = render(&read_barcodes(true, bogus.to_string()));
    let second = render(&read_barcodes(true, bogus.to_string()));
    assert_eq!(first, second);
}
