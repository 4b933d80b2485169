use std::cell::RefCell;
use std::rc::Rc;

use clinput::text::{error_message, info_message, insert_note, tag_info, unsupported_note};
use clinput::{
    Action, App, AppInterface, Input, Key, Log, Next, Quit, Reaction, ReturnStatus,
};

type Shared = Rc<RefCell<Vec<String>>>;

/// Keeps every line it is run on; asks for `Exit` on "quit" and for
/// `ClearScreen` on "clear".
struct Shell(Shared);

impl Action for Shell {
    fn invoke(&mut self, interface: &mut AppInterface<'_>) {
        self.0.borrow_mut().push(interface.line().to_owned());
        if interface.line() == "quit" {
            interface.exit();
        } else if interface.line() == "clear" {
            interface.clear_screen();
        }
    }
}

struct Journal(Shared);

impl Log for Journal {
    fn record(&mut self, message: String) {
        self.0.borrow_mut().push(message);
    }
}

struct Fixture {
    app: App<Shell, Journal, Shell>,
    submitted: Shared,
    escaped: Shared,
    logged: Shared,
}

fn fixture() -> Fixture {
    let submitted = Shared::default();
    let escaped = Shared::default();
    let logged = Shared::default();
    let mut app = App::new();
    app.on_submit(Shell(Rc::clone(&submitted)));
    app.log(Journal(Rc::clone(&logged)));
    Fixture { app, submitted, escaped, logged }
}

fn type_text(app: &mut App<Shell, Journal, Shell>, text: &str) {
    for ch in text.chars() {
        app.step(Input::Char(ch));
    }
}

fn submit(app: &mut App<Shell, Journal, Shell>, text: &str) -> Reaction {
    type_text(app, text);
    let asked = app.step(Input::Enter);
    assert_eq!(asked.next, Next::Submit);
    app.take_action()
}

#[test]
fn typing_then_moving_then_typing() {
    let mut fix = fixture();
    type_text(&mut fix.app, "abc");
    fix.app.step(Input::Left);
    fix.app.step(Input::Left);
    let reaction = fix.app.step(Input::Char('X'));
    assert_eq!(fix.app.line().content(), "aXbc");
    assert_eq!(fix.app.line().cursor(), 2);
    assert_eq!(reaction.screen, "\r>>> aXbc");
    assert_eq!(reaction.column, Some(6));
    assert_eq!(reaction.status, ReturnStatus::Nothing);
    assert_eq!(reaction.next, Next::Read);
    assert_eq!(reaction.record, None);
}

#[test]
fn arrows_only_move_the_cursor() {
    let mut fix = fixture();
    type_text(&mut fix.app, "ab");
    let reaction = fix.app.step(Input::Left);
    assert_eq!(reaction.screen, "");
    assert_eq!(reaction.column, Some(5));
    let reaction = fix.app.step(Input::Right);
    assert_eq!(reaction.column, Some(6));
    let reaction = fix.app.step(Input::Right);
    assert_eq!(reaction.column, Some(6));
    assert_eq!(fix.app.line().content(), "ab");
}

#[test]
fn backspace_redraws_with_a_blank() {
    let mut fix = fixture();
    type_text(&mut fix.app, "ab");
    let reaction = fix.app.step(Input::Backspace);
    assert_eq!(reaction.screen, "\r>>> a ");
    assert_eq!(reaction.column, Some(5));
    assert_eq!(fix.app.line().content(), "a");
}

#[test]
fn submitted_lines_are_recalled() {
    let mut fix = fixture();
    submit(&mut fix.app, "foo");
    submit(&mut fix.app, "bar");
    assert_eq!(*fix.submitted.borrow(), ["foo", "bar"]);
    let reaction = fix.app.step(Input::Up);
    assert_eq!(fix.app.line().content(), "bar");
    assert_eq!(fix.app.line().cursor(), 2);
    assert_eq!(reaction.screen, "\r>>> \r>>> bar");
    assert_eq!(reaction.column, Some(6));
    let reaction = fix.app.step(Input::Up);
    assert_eq!(fix.app.line().content(), "foo");
    assert_eq!(reaction.screen, "\r>>>    \r>>> foo");
    fix.app.step(Input::Down);
    assert_eq!(fix.app.line().content(), "bar");
    let reaction = fix.app.step(Input::Down);
    assert_eq!(fix.app.past().cursor(), 2);
    assert_eq!(fix.app.line().content(), "bar");
    assert_eq!(reaction.screen, "");
    assert_eq!(reaction.column, Some(6));
}

#[test]
fn enter_asks_for_submission() {
    let mut fix = fixture();
    type_text(&mut fix.app, "ls");
    let reaction = fix.app.step(Input::Enter);
    assert_eq!(reaction.screen, "\n\r");
    assert_eq!(reaction.column, None);
    assert_eq!(reaction.next, Next::Submit);
    assert_eq!(reaction.status, ReturnStatus::Nothing);
    assert_eq!(fix.app.line().content(), "ls");
    assert!(fix.submitted.borrow().is_empty());
}

#[test]
fn submission_runs_the_action_and_fills_history() {
    let mut fix = fixture();
    let reaction = submit(&mut fix.app, "ls");
    assert_eq!(*fix.submitted.borrow(), ["ls"]);
    assert_eq!(reaction.status, ReturnStatus::Nothing);
    assert_eq!(reaction.screen, "\r>>> ");
    assert_eq!(reaction.column, Some(4));
    assert_eq!(reaction.record, None);
    assert_eq!(reaction.next, Next::Read);
    assert_eq!(fix.app.line().content(), "");
    assert_eq!(fix.app.line().cursor(), 0);
    assert_eq!(fix.app.past().len(), 1);
    assert_eq!(fix.app.past().entry(0), Some("ls"));
    assert_eq!(fix.app.past().cursor(), 1);
}

#[test]
fn submission_without_action() {
    let mut app: App<Shell, Journal, Shell> = App::default();
    app.step(Input::Char('q'));
    app.step(Input::Enter);
    let reaction = app.take_action();
    assert_eq!(reaction.status, ReturnStatus::Nothing);
    assert_eq!(app.past().entry(0), Some("q"));
}

#[test]
fn submission_owes_the_store_a_record() {
    let mut fix = fixture();
    fix.app.history("history.txt".to_owned());
    let reaction = submit(&mut fix.app, "make");
    assert_eq!(reaction.record, Some("make\n".to_owned()));
}

#[test]
fn exit_on_submission_leaves_history_alone() {
    let mut fix = fixture();
    fix.app.history("history.txt".to_owned());
    submit(&mut fix.app, "ls");
    let reaction = submit(&mut fix.app, "quit");
    assert_eq!(reaction.status, ReturnStatus::Exit);
    assert_eq!(reaction.next, Next::Stop);
    assert_eq!(reaction.screen, "\r");
    assert_eq!(reaction.column, None);
    assert_eq!(reaction.record, None);
    assert_eq!(fix.app.past().len(), 1);
    assert_eq!(fix.app.line().content(), "");
}

#[test]
fn clear_screen_on_submission() {
    let mut fix = fixture();
    let reaction = submit(&mut fix.app, "clear");
    assert_eq!(reaction.status, ReturnStatus::ClearScreen);
    assert_eq!(reaction.next, Next::Read);
    assert_eq!(reaction.screen, "\r>>> \x1B[2J\x1B[1;1H\r>>> ");
    assert_eq!(reaction.column, Some(4));
    assert_eq!(fix.app.past().entry(0), Some("clear"));
    assert_eq!(fix.app.line().content(), "");
}

#[test]
fn escape_bound_to_exit_stops_the_loop() {
    let mut fix = fixture();
    fix.app.on(Key::Escape, Shell(Rc::clone(&fix.escaped)));
    submit(&mut fix.app, "ls");
    type_text(&mut fix.app, "quit");
    let reaction = fix.app.step(Input::Escape);
    assert_eq!(reaction.status, ReturnStatus::Exit);
    assert_eq!(reaction.next, Next::Stop);
    assert_eq!(reaction.screen, "\r");
    assert_eq!(reaction.column, None);
    assert_eq!(*fix.escaped.borrow(), ["quit"]);
    assert_eq!(*fix.submitted.borrow(), ["ls"]);
    assert_eq!(fix.app.past().len(), 1);
    assert_eq!(fix.app.line().content(), "quit");
}

#[test]
fn escape_bound_to_clear_screen_resets_the_line() {
    let mut fix = fixture();
    fix.app.on(Key::Escape, Shell(Rc::clone(&fix.escaped)));
    type_text(&mut fix.app, "clear");
    let reaction = fix.app.step(Input::Escape);
    assert_eq!(reaction.status, ReturnStatus::ClearScreen);
    assert_eq!(reaction.screen, "\x1B[2J\x1B[1;1H\r>>> ");
    assert_eq!(reaction.column, Some(4));
    assert_eq!(reaction.next, Next::Read);
    assert_eq!(fix.app.line().content(), "");
    assert_eq!(fix.app.past().len(), 0);
}

#[test]
fn unbound_escape_does_nothing() {
    let mut fix = fixture();
    type_text(&mut fix.app, "ab");
    let reaction = fix.app.step(Input::Escape);
    assert_eq!(reaction.status, ReturnStatus::Nothing);
    assert_eq!(reaction.next, Next::Read);
    assert_eq!(reaction.screen, "");
    assert_eq!(reaction.column, Some(6));
    assert_eq!(fix.app.line().content(), "ab");
}

#[test]
fn other_events_change_nothing() {
    let mut fix = fixture();
    type_text(&mut fix.app, "ab");
    fix.logged.borrow_mut().clear();
    let reaction = fix.app.step(Input::Other);
    assert_eq!(reaction.screen, "");
    assert_eq!(reaction.column, Some(6));
    assert_eq!(reaction.next, Next::Read);
    assert!(fix.logged.borrow().is_empty());
    let reaction = fix.app.step(Input::Unsupported("Home".to_owned()));
    assert_eq!(reaction.screen, "");
    assert_eq!(reaction.column, Some(6));
    assert_eq!(*fix.logged.borrow(), ["[INFO] \"Pressed unsupported Home.\""]);
    assert_eq!(fix.app.line().content(), "ab");
}

#[test]
fn inserted_characters_are_noted() {
    let mut fix = fixture();
    fix.app.step(Input::Char('a'));
    fix.app.step(Input::Char('"'));
    assert_eq!(*fix.logged.borrow(), ["[INFO] \"Insert a.\"", "[INFO] \"Insert \\\".\""]);
}

#[test]
fn start_notes_and_draws_the_prompt() {
    let mut fix = fixture();
    let reaction = fix.app.start(None);
    assert_eq!(reaction.screen, "\r>>> ");
    assert_eq!(reaction.column, None);
    assert_eq!(reaction.next, Next::Read);
    assert_eq!(reaction.status, ReturnStatus::Nothing);
    assert_eq!(*fix.logged.borrow(), ["[INFO] \"CLI started\""]);
    assert_eq!(fix.app.past().len(), 0);
}

#[test]
fn start_loads_the_store() {
    let mut fix = fixture();
    fix.app.history("history.txt".to_owned());
    fix.app.start(Some("foo\nbar\n"));
    assert_eq!(fix.app.past().len(), 2);
    assert_eq!(fix.app.past().cursor(), 2);
    fix.app.step(Input::Up);
    assert_eq!(fix.app.line().content(), "bar");
}

#[test]
fn start_without_store_ignores_text() {
    let mut fix = fixture();
    fix.app.start(Some("foo\nbar\n"));
    assert_eq!(fix.app.past().len(), 0);
}

#[test]
fn failed_store_is_logged_once_and_history_still_grows() {
    let mut fix = fixture();
    fix.app.log_error("Os { code: 13, kind: PermissionDenied, message: \"Permission denied\" }");
    let reaction = submit(&mut fix.app, "ls");
    assert_eq!(reaction.record, None);
    assert_eq!(fix.app.past().entry(0), Some("ls"));
    let logged = fix.logged.borrow();
    let errors: Vec<&String> = logged.iter().filter(|text| text.starts_with("[ERROR]")).collect();
    assert_eq!(
        errors,
        ["[ERROR] Os { code: 13, kind: PermissionDenied, message: \"Permission denied\" }"]
    );
}

#[test]
fn failed_write_is_logged_once_and_history_still_grows() {
    let mut fix = fixture();
    fix.app.history("/proc/read-only/history.txt".to_owned());
    let reaction = submit(&mut fix.app, "ls");
    assert_eq!(reaction.record, Some("ls\n".to_owned()));
    fix.app.log_error("Kind(PermissionDenied)");
    assert_eq!(fix.app.past().len(), 1);
    assert_eq!(fix.app.past().entry(0), Some("ls"));
    assert_eq!(fix.app.past().cursor(), 1);
    let logged = fix.logged.borrow();
    let errors: Vec<&String> = logged.iter().filter(|text| text.starts_with("[ERROR]")).collect();
    assert_eq!(errors, ["[ERROR] Kind(PermissionDenied)"]);
}

#[test]
fn reactions_compare_as_values() {
    let mut fix = fixture();
    let reaction = fix.app.step(Input::Char('a'));
    let expected = Reaction {
        status: ReturnStatus::Nothing,
        screen: "\r>>> a".to_owned(),
        column: Some(5),
        record: None,
        next: Next::Read,
    };
    assert_eq!(reaction, expected);
}

#[test]
fn concluding_takes_the_line() {
    let mut fix = fixture();
    type_text(&mut fix.app, "make");
    let reaction = fix.app.conclude(ReturnStatus::Nothing);
    assert_eq!(reaction.screen, "\r>>> ");
    assert_eq!(fix.app.past().entry(0), Some("make"));
    assert_eq!(fix.app.line().content(), "");
    assert!(fix.submitted.borrow().is_empty());
    type_text(&mut fix.app, "x");
    let reaction = fix.app.conclude(ReturnStatus::Exit);
    assert_eq!(reaction.next, Next::Stop);
    assert_eq!(fix.app.past().len(), 1);
    assert_eq!(fix.app.line().content(), "");
}

#[test]
fn settling_follows_the_status() {
    let mut fix = fixture();
    type_text(&mut fix.app, "ab");
    let reaction = fix.app.settle(ReturnStatus::Nothing, "drawn".to_owned());
    assert_eq!(reaction.screen, "drawn");
    assert_eq!(reaction.column, Some(6));
    assert_eq!(reaction.next, Next::Read);
    let reaction = fix.app.settle(ReturnStatus::Exit, "drawn".to_owned());
    assert_eq!(reaction.screen, "drawn\r");
    assert_eq!(reaction.column, None);
    assert_eq!(reaction.next, Next::Stop);
    assert_eq!(fix.app.line().content(), "ab");
    let reaction = fix.app.settle(ReturnStatus::ClearScreen, "drawn".to_owned());
    assert_eq!(reaction.screen, "drawn\x1B[2J\x1B[1;1H\r>>> ");
    assert_eq!(reaction.column, Some(4));
    assert_eq!(reaction.next, Next::Read);
    assert_eq!(fix.app.line().content(), "");
}

#[test]
fn nothing_is_logged_without_a_logger() {
    let mut app: App<Shell, Journal, Shell> = App::new();
    app.log_info("note");
    app.log_error("failure");
    app.step(Input::Char('a'));
    assert_eq!(app.line().content(), "a");
}

#[test]
fn messages_are_tagged() {
    assert_eq!(error_message("broken pipe"), "[ERROR] broken pipe");
    assert_eq!(tag_info("\"x\""), "[INFO] \"x\"");
    assert_eq!(info_message("CLI started"), "[INFO] \"CLI started\"");
    assert_eq!(info_message("tab\there"), "[INFO] \"tab\\there\"");
    assert_eq!(insert_note('z'), "Insert z.");
    assert_eq!(unsupported_note("F(5)"), "Pressed unsupported F(5).");
}

#[test]
fn quit_asks_for_exit() {
    let mut interface = AppInterface::new("anything");
    Quit.invoke(&mut interface);
    assert_eq!(interface.line(), "anything");
    assert_eq!(interface.take_status(), ReturnStatus::Exit);
}

#[test]
fn quit_on_escape_ends_the_run() {
    let mut app: App<Quit, Vec<String>, Quit> = App::new();
    app.on(Key::Escape, Quit);
    app.step(Input::Char('l'));
    app.step(Input::Char('s'));
    let reaction = app.step(Input::Escape);
    assert_eq!(reaction.status, ReturnStatus::Exit);
    assert_eq!(reaction.next, Next::Stop);
    assert_eq!(app.past().len(), 0);
    assert_eq!(app.line().content(), "ls");
}

#[test]
fn quit_on_submission_ends_the_run() {
    let mut app: App<Quit, Vec<String>, Quit> = App::new();
    app.on_submit(Quit);
    app.step(Input::Char('x'));
    assert_eq!(app.step(Input::Enter).next, Next::Submit);
    let reaction = app.take_action();
    assert_eq!(reaction.next, Next::Stop);
    assert_eq!(app.past().len(), 0);
}

#[test]
fn a_list_of_messages_is_a_log() {
    let mut log: Vec<String> = Vec::new();
    log.record("[INFO] one".to_owned());
    log.record("[ERROR] two".to_owned());
    assert_eq!(log, ["[INFO] one", "[ERROR] two"]);
}
