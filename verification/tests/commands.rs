use kernel_core::command::command::Command;
use kernel_core::command::command_register::{CommandHandler, CommandRegister};

#[test]
fn parse_single_word() {
    let c = Command::parse(String::from("ping")).unwrap();
    assert_eq!(c.command, "ping");
    assert!(c.arguments.is_empty());
}

#[test]
fn parse_takes_last_word_as_command() {
    let c = Command::parse(String::from("a b c")).unwrap();
    assert_eq!(c.command, "c");
    assert_eq!(c.arguments, vec![String::from("a"), String::from("b")]);
}

#[test]
fn parse_trims_surrounding_blanks() {
    let c = Command::parse(String::from("  ping  ")).unwrap();
    assert_eq!(c.command, "ping");
    assert!(c.arguments.is_empty());
}

#[test]
fn parse_keeps_empty_pieces_between_spaces() {
    let c = Command::parse(String::from("a  b")).unwrap();
    assert_eq!(c.command, "b");
    assert_eq!(c.arguments, vec![String::from("a"), String::from("")]);
}

#[test]
fn parse_blank_line_is_no_command() {
    assert!(Command::parse(String::from("")).is_none());
    assert!(Command::parse(String::from("   ")).is_none());
    assert!(Command::parse(String::from(" \t ")).is_none());
    // The whole white-space set is trimmed, as `str::trim` trims it.
    assert!(Command::parse(String::from("\n")).is_none());
    assert!(Command::parse(String::from("\r\n \u{a0}\u{3000}")).is_none());
}

#[test]
fn parse_trims_any_whitespace() {
    let c = Command::parse(String::from("\u{a0}ping\r\n")).unwrap();
    assert_eq!(c.command, "ping");
    assert!(c.arguments.is_empty());
}

struct Recorder {
    performed: Vec<String>,
}

impl CommandHandler for Recorder {
    fn perform(&mut self, command: Command) {
        self.performed.push(command.command);
    }
}

#[test]
fn register_and_perform() {
    let mut register: CommandRegister<Recorder> = CommandRegister::new();
    register.register("ping", Recorder { performed: Vec::new() });

    let ping = Command::parse(String::from("ping")).unwrap();
    assert!(register.perform(ping));

    let pong = Command::parse(String::from("pong")).unwrap();
    assert!(!register.perform(pong));
}

#[test]
fn register_replaces_same_name() {
    let mut register: CommandRegister<Recorder> = CommandRegister::new();
    register.register("ping", Recorder { performed: Vec::new() });
    register.register("ping", Recorder { performed: Vec::new() });

    let ping = Command::parse(String::from("ping")).unwrap();
    assert!(register.perform(ping));
}
