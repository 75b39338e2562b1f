use hexagen_firmware::at::command::{
    compile_at_done, compile_at_error, field_from, field_of, get_empty_id, parse, AtCommand,
};
use hexagen_firmware::bounded::{line_from, FIELD_CAP, LINE_CAP, MAX_PARAMS};
use hexagen_firmware::at::grammar::find_char;
use hexagen_firmware::error::Error;

fn field(text: &str) -> heapless::String<16> {
    heapless::String::try_from(text).unwrap()
}

fn command(id: &str, name: &str, params: &[&str], is_query: bool) -> AtCommand {
    let mut list = heapless::Vec::new();
    for p in params {
        list.push(field(p)).unwrap();
    }
    AtCommand { id: field(id), name: field(name), params: list, is_query }
}

fn texts(cmd: &AtCommand) -> Vec<String> {
    cmd.params.iter().map(|p| p.as_str().to_string()).collect()
}

fn parse_error(text: &str) -> Error {
    match parse(text) {
        Ok(_) => panic!("{} was accepted", text),
        Err(e) => e,
    }
}

#[test]
fn parse_set_form_with_id_and_params() {
    let cmd = parse("AT+NAME=ID#a#b").unwrap();
    assert_eq!(cmd.name.as_str(), "NAME");
    assert_eq!(cmd.id.as_str(), "ID");
    assert_eq!(texts(&cmd), vec!["a", "b"]);
    assert!(!cmd.is_query);
}

#[test]
fn parse_set_form_with_id_only() {
    let cmd = parse("AT+FREQ=9").unwrap();
    assert_eq!(cmd.name.as_str(), "FREQ");
    assert_eq!(cmd.id.as_str(), "9");
    assert!(cmd.params.is_empty());
    assert!(!cmd.is_query);
}

#[test]
fn parse_set_form_without_fields_keeps_default_id() {
    let cmd = parse("AT+NAME=").unwrap();
    assert_eq!(cmd.name.as_str(), "NAME");
    assert_eq!(cmd.id.as_str(), "0");
    assert!(cmd.params.is_empty());
}

#[test]
fn parse_query_form() {
    let cmd = parse("AT+VERSION?").unwrap();
    assert_eq!(cmd.name.as_str(), "VERSION");
    assert_eq!(cmd.id.as_str(), "0");
    assert!(cmd.params.is_empty());
    assert!(cmd.is_query);
}

#[test]
fn parse_bare_form() {
    let cmd = parse("AT+RESET").unwrap();
    assert_eq!(cmd.name.as_str(), "RESET");
    assert_eq!(cmd.id.as_str(), "0");
    assert!(cmd.params.is_empty());
    assert!(!cmd.is_query);
}

#[test]
fn parse_prefix_alone_is_a_bare_command_without_name() {
    let cmd = parse("AT+").unwrap();
    assert_eq!(cmd.name.as_str(), "");
    assert!(!cmd.is_query);
}

#[test]
fn parse_set_form_wins_over_trailing_question_mark() {
    let cmd = parse("AT+A=1#x?").unwrap();
    assert!(!cmd.is_query);
    assert_eq!(cmd.id.as_str(), "1");
    assert_eq!(texts(&cmd), vec!["x?"]);
}

#[test]
fn parse_refuses_a_line_that_starts_with_white_space() {
    assert_eq!(parse_error(" AT+X"), Error::InvalidCommand);
    assert_eq!(parse_error("\tAT+VERSION?"), Error::InvalidCommand);
    assert_eq!(parse_error("\nAT+X=1"), Error::InvalidCommand);
}

#[test]
fn parse_copies_fields_as_they_stand() {
    let cmd = parse("AT+SETRGB= 7 # 1 #2 #\u{3000}3\r\n").unwrap();
    assert_eq!(cmd.name.as_str(), "SETRGB");
    assert_eq!(cmd.id.as_str(), " 7 ");
    assert_eq!(texts(&cmd), vec![" 1 ", "2 ", "\u{3000}3\r\n"]);
}

#[test]
fn parse_keeps_white_space_at_the_end_of_the_line() {
    assert!(!parse("AT+VERSION? ").unwrap().is_query);
    assert_eq!(parse("AT+VERSION? ").unwrap().name.as_str(), "VERSION? ");
    assert_eq!(parse("AT+RESET\r\n").unwrap().name.as_str(), "RESET\r\n");
}

#[test]
fn parse_leaves_empty_fields_out() {
    let cmd = parse("AT+X=#1##2# #").unwrap();
    assert_eq!(cmd.id.as_str(), "1");
    assert_eq!(texts(&cmd), vec!["2", " "]);
    let cmd = parse("AT+X=###").unwrap();
    assert_eq!(cmd.id.as_str(), "0");
    assert!(cmd.params.is_empty());
}

#[test]
fn parse_keeps_white_space_inside_the_name() {
    let cmd = parse("AT+NAME =1").unwrap();
    assert_eq!(cmd.name.as_str(), "NAME ");
    assert_eq!(cmd.id.as_str(), "1");
}

#[test]
fn parse_splits_at_the_first_equals_sign() {
    let cmd = parse("AT+A=b=c#d=e").unwrap();
    assert_eq!(cmd.name.as_str(), "A");
    assert_eq!(cmd.id.as_str(), "b=c");
    assert_eq!(texts(&cmd), vec!["d=e"]);
}

#[test]
fn parse_refuses_text_without_prefix() {
    assert_eq!(parse_error("hello"), Error::InvalidCommand);
    assert_eq!(parse_error(""), Error::InvalidCommand);
    assert_eq!(parse_error("AT"), Error::InvalidCommand);
    assert_eq!(parse_error("at+VERSION?"), Error::InvalidCommand);
    assert_eq!(parse_error("XAT+VERSION?"), Error::InvalidCommand);
}

#[test]
fn parse_accepts_fields_of_sixteen_bytes() {
    let cmd = parse("AT+ABCDEFGHIJKLMNOP=0123456789abcdef#0123456789ABCDEF").unwrap();
    assert_eq!(cmd.name.as_str(), "ABCDEFGHIJKLMNOP");
    assert_eq!(cmd.id.as_str(), "0123456789abcdef");
    assert_eq!(texts(&cmd), vec!["0123456789ABCDEF"]);
}

#[test]
fn parse_refuses_oversized_fields() {
    assert_eq!(parse_error("AT+X=0123456789abcdefg"), Error::InvalidUtf8);
    assert_eq!(parse_error("AT+X=1#0123456789abcdefg"), Error::InvalidUtf8);
    assert_eq!(parse_error("AT+ABCDEFGHIJKLMNOPQ=1"), Error::InvalidUtf8);
    assert_eq!(parse_error("AT+ABCDEFGHIJKLMNOPQ?"), Error::InvalidUtf8);
    assert_eq!(parse_error("AT+ABCDEFGHIJKLMNOPQ"), Error::InvalidUtf8);
}

#[test]
fn parse_counts_bytes_not_characters() {
    let cmd = parse("AT+X=\u{e9}\u{e9}\u{e9}\u{e9}\u{e9}\u{e9}\u{e9}\u{e9}").unwrap();
    assert_eq!(cmd.id.as_str().len(), 16);
    assert_eq!(
        parse_error("AT+X=\u{e9}\u{e9}\u{e9}\u{e9}\u{e9}\u{e9}\u{e9}\u{e9}\u{e9}"),
        Error::InvalidUtf8
    );
}

#[test]
fn parse_accepts_eight_params_and_refuses_nine() {
    let cmd = parse("AT+X=0#1#2#3#4#5#6#7#8").unwrap();
    assert_eq!(cmd.id.as_str(), "0");
    assert_eq!(texts(&cmd), vec!["1", "2", "3", "4", "5", "6", "7", "8"]);
    assert_eq!(parse_error("AT+X=0#1#2#3#4#5#6#7#8#9"), Error::ParamCount);
}

#[test]
fn parse_reports_the_first_failing_field() {
    assert_eq!(parse_error("AT+X=0#1#2#3#4#5#6#7#8#0123456789abcdefg"), Error::InvalidUtf8);
    assert_eq!(parse_error("AT+X=0#1#2#3#4#5#6#7#8#9#0123456789abcdefg"), Error::ParamCount);
    assert_eq!(parse_error("AT+ABCDEFGHIJKLMNOPQ=0#1#2#3#4#5#6#7#8#9"), Error::ParamCount);
}

#[test]
fn compile_set_form() {
    let cmd = command("ID", "NAME", &["a", "b"], false);
    assert_eq!(cmd.compile().as_str(), "AT+NAME=ID#a#b");
}

#[test]
fn compile_set_form_without_params_still_has_the_id() {
    let cmd = command("0", "RESET", &[], false);
    assert_eq!(cmd.compile().as_str(), "AT+RESET=0");
}

#[test]
fn compile_query() {
    let cmd = command("0", "VERSION", &[], true);
    assert_eq!(cmd.compile().as_str(), "AT+VERSION?");
}

#[test]
fn compile_after_parse_gives_the_text_back() {
    for text in [
        "AT+NAME=ID#a#b",
        "AT+SETRGB=7#255#0#16",
        "AT+FREQ=9#1000#500",
        "AT+X=1",
        "AT+X=1# a#b",
        "AT+ A B=x y#=#?",
        "AT+X= 1 # 2 ",
        "AT+VERSION?",
        "AT+?",
    ] {
        let cmd = parse(text).unwrap();
        assert_eq!(cmd.compile().as_str(), text);
    }
}

#[test]
fn compile_after_parse_normalises_other_texts() {
    assert_eq!(parse("AT+RESET").unwrap().compile().as_str(), "AT+RESET=0");
    assert_eq!(parse("AT+X=#1##2#").unwrap().compile().as_str(), "AT+X=1#2");
    assert_eq!(parse("AT+X=").unwrap().compile().as_str(), "AT+X=0");
}

#[test]
fn rendered_len_counts_the_bytes_of_the_line() {
    assert_eq!(command("ID", "NAME", &["a", "b"], false).rendered_len(), 14);
    assert_eq!(command("0", "VERSION", &[], true).rendered_len(), 11);
    assert_eq!(command("\u{e9}", "N", &["\u{3000}"], false).rendered_len(), 11);
}

#[test]
fn try_compile_refuses_a_line_over_sixty_four_bytes() {
    let long = "0123456789abcdef";
    let fits = command(long, long, &[long, "0123456789"], false);
    assert_eq!(fits.rendered_len(), 64);
    assert_eq!(
        fits.try_compile().unwrap().as_str(),
        "AT+0123456789abcdef=0123456789abcdef#0123456789abcdef#0123456789"
    );
    let over = command(long, long, &[long, "0123456789a"], false);
    assert_eq!(over.rendered_len(), 65);
    assert!(over.try_compile().is_none());
}

#[test]
fn empty_id_is_zero() {
    assert_eq!(get_empty_id().as_str(), "0");
}

#[test]
fn done_line() {
    assert_eq!(compile_at_done(field("42")).as_str(), "AT+DONE=42");
    assert_eq!(compile_at_done(field("0123456789abcdef")).as_str(), "AT+DONE=0123456789abcdef");
}

#[test]
fn error_line() {
    assert_eq!(compile_at_error(field("7"), Error::DdsBusy).as_str(), "AT+ERROR=7#E001002");
    assert_eq!(
        compile_at_error(get_empty_id(), Error::UnknownCommand).as_str(),
        "AT+ERROR=0#E001009"
    );
}

#[test]
fn field_from_keeps_the_text_or_refuses() {
    assert_eq!(field_from("abc").unwrap().as_str(), "abc");
    assert_eq!(field_from("").unwrap().as_str(), "");
    assert!(field_from("0123456789abcdefg").is_none());
}

#[test]
fn field_of_holds_the_text() {
    assert_eq!(field_of("DONE").as_str(), "DONE");
    assert_eq!(field_of("0123456789abcdef").as_str(), "0123456789abcdef");
}

#[test]
fn line_from_keeps_the_text_or_refuses() {
    let line = "0123456789012345678901234567890123456789012345678901234567890123";
    assert_eq!(line_from(line).unwrap().as_str(), line);
    assert_eq!(line_from("AT+X").unwrap().as_str(), "AT+X");
    assert!(line_from("01234567890123456789012345678901234567890123456789012345678901234").is_none());
}

#[test]
fn limits_of_the_wire_format() {
    assert_eq!((FIELD_CAP, LINE_CAP, MAX_PARAMS), (16, 64, 8));
}

#[test]
fn find_char_counts_characters() {
    let text = " \u{e9}a#b ";
    assert_eq!(find_char(text, 0, 6, '#'), 3);
    assert_eq!(find_char(text, 4, 6, '#'), 6);
    assert_eq!(find_char(text, 3, 3, '#'), 3);
    assert_eq!(find_char(text, 0, 6, '\u{e9}'), 1);
}

#[test]
fn error_codes_are_stable() {
    assert_eq!(Error::InvalidCommand.code(), "E001001");
    assert_eq!(Error::DdsBusy.code(), "E001002");
    assert_eq!(Error::InvalidUtf8.code(), "E001003");
    assert_eq!(Error::InvalidSysEx.code(), "E001004");
    assert_eq!(Error::InvalidDataLenght.code(), "E001005");
    assert_eq!(Error::ParamCount.code(), "E001006");
    assert_eq!(Error::ParamValue.code(), "E001007");
    assert_eq!(Error::NotAQuery.code(), "E001008");
    assert_eq!(Error::UnknownCommand.code(), "E001009");
}
