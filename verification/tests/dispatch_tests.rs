use hexagen_firmware::at::command::AtCommand;
use hexagen_firmware::at::dispatcher::AtDispatcher;
use hexagen_firmware::at::handler::{register_all, AtHandler, Handler, Outcome};
use hexagen_firmware::at::handlers::freq_handler::{params_are_u32, FreqHandler};
use hexagen_firmware::at::handlers::fwupdate_handler::{FwUpdateHandler, FWUPDATE_DELAY_MS};
use hexagen_firmware::at::handlers::reset_handler::ResetHandler;
use hexagen_firmware::at::handlers::setrgb_handler::{params_are_u8, SetRgbHandler};
use hexagen_firmware::at::handlers::version_handler::{version_command, VersionHandler};
use hexagen_firmware::channel::message_type::Msg;
use hexagen_firmware::channel::module_type::ModuleId;
use hexagen_firmware::error::Error;
use hexagen_firmware::hexa_config::CONF_VERSION;

fn make(id: &str, name: &str, params: &[&str], is_query: bool) -> AtCommand {
    let mut list = heapless::Vec::new();
    for p in params {
        list.push(heapless::String::try_from(*p).unwrap()).unwrap();
    }
    AtCommand {
        id: heapless::String::try_from(id).unwrap(),
        name: heapless::String::try_from(name).unwrap(),
        params: list,
        is_query,
    }
}

fn param_strings(cmd: &AtCommand) -> Vec<String> {
    cmd.params.iter().map(|p| p.as_str().to_string()).collect()
}

fn refusal(available: bool, line: &str) -> Option<Error> {
    AtDispatcher::new().dispatch(available, line).error()
}

#[test]
fn version_query_yields_the_version_command() {
    match AtDispatcher::new().dispatch(true, "AT+VERSION?") {
        Outcome::Send(ModuleId::At, Msg::AtCmdOutput(cmd)) => {
            assert_eq!(cmd.name.as_str(), "VERSION");
            assert_eq!(param_strings(&cmd), vec![CONF_VERSION]);
            assert_eq!(param_strings(&cmd), vec!["v1.0.0"]);
            assert_eq!(cmd.id.as_str(), "0");
            assert!(!cmd.is_query);
            assert_eq!(cmd.compile().as_str(), "AT+VERSION=0#v1.0.0");
        }
        _ => panic!("no version command"),
    }
}

#[test]
fn version_that_is_no_query_is_refused() {
    assert_eq!(refusal(true, "AT+VERSION"), Some(Error::NotAQuery));
    assert_eq!(refusal(true, "AT+VERSION=1"), Some(Error::NotAQuery));
}

#[test]
fn setrgb_out_of_range_value_is_refused() {
    assert_eq!(refusal(true, "AT+SETRGB=7#256#0#0"), Some(Error::ParamValue));
}

#[test]
fn setrgb_wrong_count_is_refused() {
    assert_eq!(refusal(true, "AT+SETRGB=7#1#2"), Some(Error::ParamCount));
    assert_eq!(refusal(true, "AT+SETRGB=7#1#2#3#4"), Some(Error::ParamCount));
    assert_eq!(refusal(true, "AT+SETRGB=7"), Some(Error::ParamCount));
    assert_eq!(refusal(true, "AT+SETRGB"), Some(Error::ParamCount));
}

#[test]
fn setrgb_count_is_checked_before_values() {
    assert_eq!(refusal(true, "AT+SETRGB=7#x#y"), Some(Error::ParamCount));
}

#[test]
fn setrgb_values_that_are_no_numbers_are_refused() {
    for line in [
        "AT+SETRGB=7#a#0#0",
        "AT+SETRGB=7#0#-1#0",
        "AT+SETRGB=7#0#0#1.5",
        "AT+SETRGB=7#0#0#0x10",
        "AT+SETRGB=7#0#0#+",
        "AT+SETRGB=7#0#1 2#0",
        "AT+SETRGB=7#0#0#1000",
        "AT+SETRGB=7#\u{663}#0#0",
    ] {
        assert_eq!(refusal(true, line), Some(Error::ParamValue), "{}", line);
    }
}

#[test]
fn setrgb_is_forwarded_to_the_light() {
    for line in ["AT+SETRGB=7#255#0#16", "AT+SETRGB=7#+255#000#016"] {
        match AtDispatcher::new().dispatch(false, line) {
            Outcome::Send(ModuleId::Rgb, Msg::RgbWithValue(cmd)) => {
                assert_eq!(cmd.id.as_str(), "7");
                assert_eq!(cmd.name.as_str(), "SETRGB");
                assert_eq!(cmd.params.len(), 3);
            }
            _ => panic!("{} was not forwarded", line),
        }
    }
}

#[test]
fn freq_while_busy_is_refused() {
    assert_eq!(refusal(false, "AT+FREQ=9#1000#500"), Some(Error::DdsBusy));
}

#[test]
fn freq_while_idle_is_forwarded_to_the_synthesizer() {
    match AtDispatcher::new().dispatch(true, "AT+FREQ=9#1000#500") {
        Outcome::Send(ModuleId::Dds, Msg::FreqWithValue(cmd)) => {
            assert_eq!(cmd.id.as_str(), "9");
            assert_eq!(param_strings(&cmd), vec!["1000", "500"]);
        }
        _ => panic!("not forwarded"),
    }
    assert_eq!(refusal(true, "AT+FREQ=9#4294967295#4294967295"), None);
}

#[test]
fn freq_while_busy_is_refused_whatever_it_holds() {
    assert_eq!(refusal(false, "AT+FREQ=9#1000"), Some(Error::DdsBusy));
    assert_eq!(refusal(false, "AT+FREQ=9#1000#x"), Some(Error::DdsBusy));
    assert_eq!(refusal(false, "AT+FREQ=9#1#2#3"), Some(Error::DdsBusy));
    assert_eq!(refusal(false, "AT+FREQ"), Some(Error::DdsBusy));
    assert_eq!(refusal(false, "AT+FREQ?"), Some(Error::DdsBusy));
}

#[test]
fn freq_parameters_are_checked_while_idle() {
    assert_eq!(refusal(true, "AT+FREQ=9#1000"), Some(Error::ParamCount));
    assert_eq!(refusal(true, "AT+FREQ=9#1000#500#1"), Some(Error::ParamCount));
    assert_eq!(refusal(true, "AT+FREQ=9#1000#x"), Some(Error::ParamValue));
    assert_eq!(refusal(true, "AT+FREQ=9#1000# 500"), Some(Error::ParamValue));
    assert_eq!(refusal(true, "AT+FREQ=9#4294967296#500"), Some(Error::ParamValue));
    assert_eq!(refusal(true, "AT+FREQ=9#-1#500"), Some(Error::ParamValue));
}

#[test]
fn unknown_command_is_refused() {
    assert_eq!(refusal(true, "AT+FOO"), Some(Error::UnknownCommand));
    assert_eq!(refusal(true, "AT+version?"), Some(Error::UnknownCommand));
    assert_eq!(refusal(true, "AT+"), Some(Error::UnknownCommand));
    assert_eq!(refusal(true, "AT+SUM=1#2#3"), Some(Error::UnknownCommand));
}

#[test]
fn text_without_prefix_is_refused() {
    assert_eq!(refusal(true, "VERSION?"), Some(Error::InvalidCommand));
    assert_eq!(refusal(true, ""), Some(Error::InvalidCommand));
    assert_eq!(refusal(true, " AT+VERSION?"), Some(Error::InvalidCommand));
    assert_eq!(refusal(false, " AT+FREQ=9#1000#500"), Some(Error::InvalidCommand));
}

#[test]
fn parse_errors_come_before_the_lookup() {
    assert_eq!(refusal(true, "AT+FOO=0123456789abcdefg"), Some(Error::InvalidUtf8));
    assert_eq!(refusal(true, "AT+SETRGB=0#1#2#3#4#5#6#7#8#9"), Some(Error::ParamCount));
}

#[test]
fn reset_and_firmware_update_are_handed_back() {
    assert!(matches!(AtDispatcher::new().dispatch(true, "AT+RESET"), Outcome::Reset));
    assert!(matches!(AtDispatcher::new().dispatch(false, "AT+RESET=5#x"), Outcome::Reset));
    assert!(matches!(AtDispatcher::new().dispatch(true, "AT+FWUPDATE"), Outcome::FwUpdate));
    assert!(matches!(AtDispatcher::new().dispatch(true, "AT+FWUPDATE?"), Outcome::FwUpdate));
    assert_eq!(refusal(true, "AT+RESET"), None);
}

#[test]
fn registry_holds_the_five_handlers() {
    let map = register_all();
    assert_eq!(map.len(), 5);
    let key = |name: &str| heapless::String::<16>::try_from(name).unwrap();
    assert!(matches!(map.get(&key("VERSION")), Some(Handler::Version(_))));
    assert!(matches!(map.get(&key("SETRGB")), Some(Handler::SetRgb(_))));
    assert!(matches!(map.get(&key("RESET")), Some(Handler::Reset(_))));
    assert!(matches!(map.get(&key("FWUPDATE")), Some(Handler::FwUpdate(_))));
    assert!(matches!(map.get(&key("FREQ")), Some(Handler::Freq(_))));
    assert!(map.get(&key("FOO")).is_none());
}

#[test]
fn handlers_decide_on_their_own() {
    assert!(matches!(
        VersionHandler.handle(make("0", "VERSION", &[], true), false),
        Outcome::Send(ModuleId::At, Msg::AtCmdOutput(_))
    ));
    assert!(matches!(
        VersionHandler.handle(make("0", "VERSION", &[], false), true),
        Outcome::Rejected(Error::NotAQuery)
    ));
    assert!(matches!(
        SetRgbHandler.handle(make("1", "SETRGB", &["1", "2", "3"], false), true),
        Outcome::Send(ModuleId::Rgb, Msg::RgbWithValue(_))
    ));
    assert!(matches!(
        FreqHandler.handle(make("1", "FREQ", &["1", "2"], false), false),
        Outcome::Rejected(Error::DdsBusy)
    ));
    assert!(matches!(
        FreqHandler.handle(make("1", "FREQ", &["1"], false), false),
        Outcome::Rejected(Error::DdsBusy)
    ));
    assert!(matches!(
        FreqHandler.handle(make("1", "FREQ", &["1"], false), true),
        Outcome::Rejected(Error::ParamCount)
    ));
    assert!(matches!(ResetHandler.handle(make("1", "RESET", &[], false), true), Outcome::Reset));
    assert!(matches!(
        FwUpdateHandler.handle(make("1", "FWUPDATE", &[], false), true),
        Outcome::FwUpdate
    ));
    assert_eq!(FWUPDATE_DELAY_MS, 100);
}

#[test]
fn number_checks_follow_the_limits() {
    assert!(params_are_u8(&make("0", "X", &["0", "255", "+7", "007"], false)));
    assert!(!params_are_u8(&make("0", "X", &["0", "256"], false)));
    assert!(!params_are_u8(&make("0", "X", &["7", ""], false)));
    assert!(params_are_u8(&make("0", "X", &[], false)));
    assert!(params_are_u32(&make("0", "X", &["256", "4294967295"], false)));
    assert!(!params_are_u32(&make("0", "X", &["4294967296"], false)));
    assert!(!params_are_u32(&make("0", "X", &["12a"], false)));
}

#[test]
fn version_command_is_complete() {
    let cmd = version_command();
    assert_eq!(cmd.name.as_str(), "VERSION");
    assert_eq!(cmd.id.as_str(), "0");
    assert_eq!(param_strings(&cmd), vec!["v1.0.0"]);
}
