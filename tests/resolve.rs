use taskly::utils::{FlagArgs, NonFlagArgs};
use taskly::{Conditions, CommandError};

fn resolve<'a>(args: &[&'a str]) -> Conditions<'a> {
    if args.is_empty() {
        return Conditions::default();
    }
    Conditions::from(Some(args[0]), args.get(1).copied(), args.get(2).copied())
}

#[test]
fn no_tokens_is_help() {
    let c = resolve(&[]);
    assert!(matches!(c.non_flag, NonFlagArgs::Help));
    assert_eq!(c.flag, FlagArgs::All);
    let n = Conditions::new();
    assert!(matches!(n.non_flag, NonFlagArgs::Help));
    assert_eq!(n.flag, FlagArgs::All);
}

#[test]
fn keywords_select_commands() {
    assert!(matches!(resolve(&["help"]).non_flag, NonFlagArgs::Help));
    assert!(matches!(resolve(&["add", "x"]).non_flag, NonFlagArgs::Add(Some("x"))));
    assert!(matches!(resolve(&["edit", "3"]).non_flag, NonFlagArgs::Edit(Some("3"))));
    assert!(matches!(resolve(&["list"]).non_flag, NonFlagArgs::List));
    assert!(matches!(resolve(&["remove", "3"]).non_flag, NonFlagArgs::Remove(Some("3"))));
    assert!(matches!(resolve(&["rm", "4"]).non_flag, NonFlagArgs::Remove(Some("4"))));
    assert!(matches!(resolve(&["done", "5"]).non_flag, NonFlagArgs::Done(Some("5"))));
    assert!(matches!(resolve(&["undone", "6"]).non_flag, NonFlagArgs::Undone(Some("6"))));
    assert!(matches!(resolve(&["clear"]).non_flag, NonFlagArgs::Clear));
}

#[test]
fn unknown_keyword_is_help() {
    assert!(matches!(resolve(&["frobnicate"]).non_flag, NonFlagArgs::Help));
    assert!(matches!(resolve(&["ADD", "x"]).non_flag, NonFlagArgs::Help));
    assert!(matches!(resolve(&[""]).non_flag, NonFlagArgs::Help));
    assert!(matches!(resolve(&["lists", "-c"]).non_flag, NonFlagArgs::Help));
}

#[test]
fn missing_argument_is_none() {
    assert!(matches!(resolve(&["add"]).non_flag, NonFlagArgs::Add(None)));
    assert!(matches!(resolve(&["done", "-c"]).non_flag, NonFlagArgs::Done(None)));
}

#[test]
fn flags_select_filters() {
    assert_eq!(resolve(&["list", "-c"]).flag, FlagArgs::CompletedOnly);
    assert_eq!(resolve(&["list", "-p"]).flag, FlagArgs::UncompletedOnly);
    assert_eq!(resolve(&["list", "-x"]).flag, FlagArgs::All);
    assert_eq!(resolve(&["list"]).flag, FlagArgs::All);
}

#[test]
fn flag_and_argument_in_either_order() {
    let a = resolve(&["add", "-c", "milk"]);
    assert!(matches!(a.non_flag, NonFlagArgs::Add(Some("milk"))));
    assert_eq!(a.flag, FlagArgs::CompletedOnly);
    let b = resolve(&["add", "milk", "-p"]);
    assert!(matches!(b.non_flag, NonFlagArgs::Add(Some("milk"))));
    assert_eq!(b.flag, FlagArgs::UncompletedOnly);
}

#[test]
fn two_plain_tokens_take_the_first_as_argument() {
    let c = resolve(&["add", "milk", "bread"]);
    assert!(matches!(c.non_flag, NonFlagArgs::Add(Some("milk"))));
    assert_eq!(c.flag, FlagArgs::All);
}

#[test]
fn two_flag_tokens_take_the_second_as_argument() {
    let c = resolve(&["add", "-c", "-p"]);
    assert!(matches!(c.non_flag, NonFlagArgs::Add(Some("-p"))));
    assert_eq!(c.flag, FlagArgs::CompletedOnly);
}

#[test]
fn missing_argument_error() {
    for cmd in ["add", "remove", "rm", "edit", "done", "undone"] {
        let c = resolve(&[cmd]);
        assert!(matches!(c.plan(), Err(CommandError::MissingArgument)));
    }
    assert!(taskly::require_arg(&None).is_err());
    assert_eq!(taskly::require_arg(&Some("7")), Ok("7"));
}
