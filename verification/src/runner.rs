//! The runner: what each key does to the line, the history and the screen.
use vstd::prelude::*;
use vstd::string::*;
use crate::history::History;
use crate::interface::{Action, AppInterface, Log, ReturnStatus};
use crate::key::{Key, Keys};
use crate::line::Line;
use crate::text::{
    blanks, clear_sequence, clear_text, debug_form, draw_prompt, error_line, error_message,
    fresh_row, fresh_row_text, info_line, info_message, insert_note, insert_words, lines_of, row,
    start_words, text_of, unsupported_note, unsupported_words, PREFIX_SIZE,
};

verus! {

/// One event from the terminal, as the runner sees it.
#[derive(Clone, Debug, PartialEq, Eq)]
pub enum Input {
    /// A character was typed.
    Char(char),
    /// The backspace key.
    Backspace,
    /// The left arrow.
    Left,
    /// The right arrow.
    Right,
    /// The up arrow.
    Up,
    /// The down arrow.
    Down,
    /// The enter key.
    Enter,
    /// The escape key.
    Escape,
    /// Any other key, with the name under which it is logged.
    Unsupported(String),
    /// Anything that is no key press.
    Other,
}

/// What the caller does once it has carried out a reaction.
#[derive(PartialEq, Eq, Structural, Clone, Copy, Debug)]
pub enum Next {
    /// Wait for the next event and hand it to `step`.
    Read,
    /// Call `take_action`: a line was submitted.
    Submit,
    /// Leave the loop.
    Stop,
}

/// What the runner owes the outside after one call. The caller appends
/// `record` to the store of the history, writes `screen` to the terminal,
/// moves the terminal's cursor to `column`, each where there is one and in
/// this order, and goes on as `next` says.
#[derive(Clone, Debug, PartialEq, Eq)]
pub struct Reaction {
    /// The status that the call ended with.
    pub status: ReturnStatus,
    /// The text to write to the terminal.
    pub screen: String,
    /// The column at which the terminal's cursor belongs.
    pub column: Option<u16>,
    /// The text to append to the store of the history.
    pub record: Option<String>,
    /// What the caller does next.
    pub next: Next,
}

/// The editor: the line being typed, the history of submitted lines, the
/// key bindings, and the callbacks of its user.
pub struct App<S: Action, L: Log, K: Action> {
    /// The submitted lines.
    history: History,
    /// The actions bound to keys.
    keys: Keys<K>,
    /// The line being typed.
    line: Line,
    /// Where notes and errors go.
    log: Option<L>,
    /// What runs on every submitted line.
    on_submit: Option<S>,
}

/// Two lines show the same text with the cursor at the same place.
pub open spec fn same_line(a: Line, b: Line) -> bool {
    a.text() == b.text() && a.position() == b.position()
}

/// Two histories hold the same entries, cursor and store.
pub open spec fn same_history(a: History, b: History) -> bool {
    a.entries() == b.entries() && a.position() == b.position() && a.store_path() == b.store_path()
}

/// The line `after` holds the recalled `entry` in place of what `before`
/// held, with the cursor on its last character.
pub open spec fn recalls(before: Line, entry: Seq<char>, after: Line, screen: Seq<char>) -> bool {
    &&& after.text() == entry
    &&& after.position() == if entry.len() > 0 {
        entry.len() - 1
    } else {
        0
    }
    &&& screen == row(blanks(before.text().len())) + row(entry)
}

/// The reaction to a status with which a call ends, after `screen` was
/// drawn on behalf of the line `before`: `Exit` stops the loop, `ClearScreen`
/// clears the screen and the line, `Nothing` puts the cursor where it
/// belongs.
pub open spec fn settles(
    before: Line,
    status: ReturnStatus,
    screen: Seq<char>,
    after: Line,
    reaction: Reaction,
) -> bool {
    &&& reaction.status == status
    &&& reaction.record is None
    &&& match status {
        ReturnStatus::Exit => {
            &&& same_line(after, before)
            &&& reaction.screen@ == screen.push('\r')
            &&& reaction.column is None
            &&& reaction.next == Next::Stop
        },
        ReturnStatus::ClearScreen => {
            &&& after.text() == Seq::<char>::empty()
            &&& after.position() == 0
            &&& reaction.screen@ == screen + clear_sequence() + row(Seq::empty())
            &&& reaction.column == Some(PREFIX_SIZE)
            &&& reaction.next == Next::Read
        },
        ReturnStatus::Nothing => {
            &&& same_line(after, before)
            &&& reaction.screen@ == screen
            &&& reaction.column == Some(before.column() as u16)
            &&& reaction.next == Next::Read
        },
    }
}

impl<S: Action, L: Log, K: Action> App<S, L, K> {
    /// The line being typed.
    pub closed spec fn line_view(&self) -> Line {
        self.line
    }

    /// The history of submitted lines.
    pub closed spec fn history_view(&self) -> History {
        self.history
    }

    /// The key bindings.
    pub closed spec fn keys_view(&self) -> Keys<K> {
        self.keys
    }

    /// What runs on submitted lines, if anything.
    pub closed spec fn action_view(&self) -> Option<S> {
        self.on_submit
    }

    /// Where notes and errors go, if anywhere.
    pub closed spec fn log_view(&self) -> Option<L> {
        self.log
    }

    /// The log of `after` is that of `self` once it has received `message`;
    /// without a log the message is dropped.
    pub open spec fn logs(&self, message: Seq<char>, after: &Self) -> bool {
        match self.log_view() {
            Some(log) => after.log_view() is Some && log.receives(message, &after.log_view()->0),
            None => after.log_view() is None,
        }
    }

    /// The action of `after` is that of `self` once it has run on a fresh
    /// interface over `line` and asked for `status`; without an action the
    /// status is `Nothing`.
    pub open spec fn submits(&self, line: Seq<char>, status: ReturnStatus, after: &Self) -> bool {
        match self.action_view() {
            Some(action) => {
                &&& after.action_view() is Some
                &&& action.runs(line, ReturnStatus::Nothing, status, &after.action_view()->0)
            },
            None => status == ReturnStatus::Nothing && after.action_view() is None,
        }
    }

    /// The cursors of the line and of the history are within their bounds.
    /// This holds of every editor.
    pub open spec fn wf(&self) -> bool {
        self.line_view().wf() && self.history_view().wf()
    }

    /// An editor with an empty line, an empty history, no binding and no
    /// callback.
    #[must_use]
    pub fn new() -> (app: Self)
        ensures
            app.wf(),
            app.line_view().text() == Seq::<char>::empty(),
            app.line_view().position() == 0,
            app.history_view().entries() == Seq::<Seq<char>>::empty(),
            app.history_view().position() == 0,
            app.history_view().store_path() is None,
            forall|key: Key| !app.keys_view().is_bound(key),
            app.action_view() is None,
            app.log_view() is None,
    {
        App {
            history: History::new(),
            keys: Keys::new(),
            line: Line::new(),
            log: None,
            on_submit: None,
        }
    }

    /// The line being typed.
    pub fn line(&self) -> (line: &Line)
        ensures
            *line == self.line_view(),
    {
        &self.line
    }

    /// The history of submitted lines.
    pub fn past(&self) -> (history: &History)
        ensures
            *history == self.history_view(),
    {
        &self.history
    }

    /// Sends a note to the log, if there is one.
    pub fn log_info(&mut self, note: &str)
        ensures
            final(self).line_view() == old(self).line_view(),
            final(self).history_view() == old(self).history_view(),
            final(self).keys_view() == old(self).keys_view(),
            final(self).action_view() == old(self).action_view(),
            old(self).logs(info_line(debug_form(note@)), final(self)),
    {
        match &mut self.log {
            Some(log) => {
                log.record(info_message(note));
            },
            None => {},
        }
    }

    /// Sends the description of an error to the log, if there is one.
    pub fn log_error(&mut self, detail: &str)
        ensures
            final(self).line_view() == old(self).line_view(),
            final(self).history_view() == old(self).history_view(),
            final(self).keys_view() == old(self).keys_view(),
            final(self).action_view() == old(self).action_view(),
            old(self).logs(error_line(detail@), final(self)),
    {
        match &mut self.log {
            Some(log) => {
                log.record(error_message(detail));
            },
            None => {},
        }
    }

    /// Keeps the entries of the history in a store at `path` from now on.
    pub fn history(&mut self, path: String)
        ensures
            final(self).history_view().store_path() == Some(path@),
            final(self).history_view().entries() == old(self).history_view().entries(),
            final(self).history_view().position() == old(self).history_view().position(),
            final(self).line_view() == old(self).line_view(),
            final(self).keys_view() == old(self).keys_view(),
            final(self).action_view() == old(self).action_view(),
            final(self).log_view() == old(self).log_view(),
    {
        self.history.store(path);
    }

    /// Sets where notes and errors go.
    pub fn log(&mut self, log: L)
        ensures
            final(self).log_view() == Some(log),
            final(self).line_view() == old(self).line_view(),
            final(self).history_view() == old(self).history_view(),
            final(self).keys_view() == old(self).keys_view(),
            final(self).action_view() == old(self).action_view(),
    {
        self.log = Some(log);
    }

    /// Binds `action` to `key`, in place of what was bound to it.
    pub fn on(&mut self, key: Key, action: K)
        ensures
            final(self).wf(),
            forall|other: Key|
                final(self).keys_view().is_bound(other) <==> (other == key || old(
                    self,
                ).keys_view().is_bound(other)),
            final(self).keys_view().action_of(key) == Some(action),
            forall|other: Key|
                other != key ==> final(self).keys_view().action_of(other) == old(
                    self,
                ).keys_view().action_of(other),
            final(self).line_view() == old(self).line_view(),
            final(self).history_view() == old(self).history_view(),
            final(self).action_view() == old(self).action_view(),
            final(self).log_view() == old(self).log_view(),
    {
        proof {
            use_type_invariant(&self.line);
            use_type_invariant(&self.history);
        }
        self.keys.define_key(key, action);
    }

    /// Sets what runs on every submitted line.
    pub fn on_submit(&mut self, on_submit: S)
        ensures
            final(self).action_view() == Some(on_submit),
            final(self).line_view() == old(self).line_view(),
            final(self).history_view() == old(self).history_view(),
            final(self).keys_view() == old(self).keys_view(),
            final(self).log_view() == old(self).log_view(),
    {
        self.on_submit = Some(on_submit);
    }

    /// Opens the run: notes the start in the log, takes `stored`, the
    /// content of the store where it could be read, as the history, and
    /// draws the empty prompt.
    pub fn start(&mut self, stored: Option<&str>) -> (reaction: Reaction)
        ensures
            final(self).wf(),
            same_line(final(self).line_view(), old(self).line_view()),
            final(self).keys_view() == old(self).keys_view(),
            final(self).action_view() == old(self).action_view(),
            old(self).logs(info_line(debug_form(start_words())), final(self)),
            final(self).history_view().store_path() == old(self).history_view().store_path(),
            match stored {
                Some(text) if old(self).history_view().store_path() is Some => {
                    &&& final(self).history_view().entries() == lines_of(text@)
                    &&& final(self).history_view().position() == lines_of(text@).len()
                },
                _ => same_history(final(self).history_view(), old(self).history_view()),
            },
            reaction.status == ReturnStatus::Nothing,
            reaction.screen@ == row(Seq::empty()),
            reaction.column is None,
            reaction.record is None,
            reaction.next == Next::Read,
    {
        proof {
            use_type_invariant(&self.line);
            use_type_invariant(&self.history);
        }
        self.log_info("CLI started");
        match stored {
            Some(text) => {
                self.history.load(text);
            },
            None => {},
        }
        Reaction {
            status: ReturnStatus::Nothing,
            screen: draw_prompt(),
            column: None,
            record: None,
            next: Next::Read,
        }
    }

    /// Ends a call with `status`, after `screen` was drawn: see `settles`.
    pub fn settle(&mut self, status: ReturnStatus, screen: String) -> (reaction: Reaction)
        ensures
            final(self).wf(),
            settles(old(self).line_view(), status, screen@, final(self).line_view(), reaction),
            final(self).history_view() == old(self).history_view(),
            final(self).keys_view() == old(self).keys_view(),
            final(self).action_view() == old(self).action_view(),
            final(self).log_view() == old(self).log_view(),
    {
        proof {
            use_type_invariant(&self.line);
            use_type_invariant(&self.history);
        }
        let mut screen = screen;
        match status {
            ReturnStatus::Exit => {
                proof {
                    reveal_strlit("\r");
                    assert(screen@ + "\r"@ =~= screen@.push('\r'));
                }
                screen.append("\r");
                let reaction = Reaction {
                    status,
                    screen,
                    column: None,
                    record: None,
                    next: Next::Stop,
                };
                reaction
            },
            ReturnStatus::ClearScreen => {
                screen.append(clear_text().as_str());
                let _ = self.line.take();
                screen.append(draw_prompt().as_str());
                let column = self.line.update_cursor();
                Reaction { status, screen, column: Some(column), record: None, next: Next::Read }
            },
            ReturnStatus::Nothing => {
                let column = self.line.update_cursor();
                Reaction { status, screen, column: Some(column), record: None, next: Next::Read }
            },
        }
    }

    /// What ends a submission whose action asked for `status`: the line
    /// being typed leaves the editor; on `Exit` the history is untouched
    /// and the loop stops; otherwise the line joins the history, the store
    /// is owed its record, and the empty prompt is drawn.
    pub open spec fn concludes(&self, status: ReturnStatus, after: &Self, reaction: Reaction) -> bool {
        let line = self.line_view().text();
        let past = self.history_view();
        let now = after.history_view();
        &&& reaction.status == status
        &&& after.line_view().text() == Seq::<char>::empty()
        &&& after.line_view().position() == 0
        &&& now.store_path() == past.store_path()
        &&& match status {
            ReturnStatus::Exit => {
                &&& same_history(now, past)
                &&& reaction.screen@ == seq!['\r']
                &&& reaction.column is None
                &&& reaction.record is None
                &&& reaction.next == Next::Stop
            },
            _ => {
                &&& now.entries() == past.entries().push(line)
                &&& now.position() == past.entries().len() + 1
                &&& reaction.screen@ == if status == ReturnStatus::ClearScreen {
                    row(Seq::empty()) + clear_sequence() + row(Seq::empty())
                } else {
                    row(Seq::empty())
                }
                &&& reaction.column == Some(PREFIX_SIZE)
                &&& text_of(reaction.record) == match past.store_path() {
                    Some(_) => Some(line.push('\n')),
                    None => None,
                }
                &&& reaction.next == Next::Read
            },
        }
    }

    /// Ends the submission of the line being typed, whose action asked for
    /// `status`: see `concludes`.
    pub fn conclude(&mut self, status: ReturnStatus) -> (reaction: Reaction)
        ensures
            final(self).wf(),
            old(self).concludes(status, final(self), reaction),
            final(self).keys_view() == old(self).keys_view(),
            final(self).action_view() == old(self).action_view(),
            final(self).log_view() == old(self).log_view(),
    {
        let line = self.line.take();
        match status {
            ReturnStatus::Exit => {
                let reaction = self.settle(status, String::new());
                assert(reaction.screen@ =~= seq!['\r']);
                reaction
            },
            _ => {
                let record = self.history.push(line);
                let mut reaction = self.settle(status, draw_prompt());
                reaction.record = record;
                reaction
            },
        }
    }

    /// Submits the line being typed: runs the action on a fresh interface
    /// over its text (see `submits`) and ends as the status that the action
    /// asked for demands (see `concludes`). Without an action the status is
    /// `Nothing`.
    pub fn take_action(&mut self) -> (reaction: Reaction)
        ensures
            final(self).wf(),
            old(self).concludes(reaction.status, final(self), reaction),
            old(self).submits(old(self).line_view().text(), reaction.status, final(self)),
            final(self).keys_view() == old(self).keys_view(),
            final(self).log_view() == old(self).log_view(),
    {
        let mut interface = AppInterface::new(self.line.content());
        match &mut self.on_submit {
            Some(action) => {
                action.invoke(&mut interface);
            },
            None => {},
        }
        let status = interface.take_status();
        self.conclude(status)
    }

    /// What one event does, given the status that the action bound to the
    /// escape key asked for where the event is that key.
    ///
    /// A character is inserted at the cursor; backspace removes the
    /// character before it; the left and right arrows move it; the up and
    /// down arrows walk the history and show the entry reached, if there is
    /// one; enter asks the caller to submit; escape fires the action bound
    /// to it and ends as `settles` says of the status it asked for, and
    /// has no effect where nothing is bound to it; any other event changes
    /// nothing. But for enter, the terminal's cursor is put where it
    /// belongs. An inserted character and a key without effect are noted
    /// in the log.
    pub open spec fn reacts(&self, input: Input, after: &Self, reaction: Reaction) -> bool {
        let line = self.line_view();
        let shown = after.line_view();
        let past = self.history_view();
        let now = after.history_view();
        &&& after.action_view() == self.action_view()
        &&& match input {
            Input::Char(ch) => self.logs(info_line(debug_form(insert_words(ch))), after),
            Input::Unsupported(name) => self.logs(
                info_line(debug_form(unsupported_words(name@))),
                after,
            ),
            _ => after.log_view() == self.log_view(),
        }
        &&& match input {
            Input::Escape => self.keys_view().fires(
                Key::Escape,
                line.text(),
                reaction.status,
                &after.keys_view(),
            ),
            _ => after.keys_view() == self.keys_view(),
        }
        &&& now.entries() == past.entries()
        &&& now.store_path() == past.store_path()
        &&& match input {
            Input::Char(ch) => {
                &&& now.position() == past.position()
                &&& shown.text() == line.text().insert(line.position() as int, ch)
                &&& shown.position() == line.position() + 1
                &&& settles(shown, ReturnStatus::Nothing, row(shown.text()), shown, reaction)
            },
            Input::Backspace => {
                &&& now.position() == past.position()
                &&& shown.text() == if line.position() > 0 {
                    line.text().remove(line.position() - 1)
                } else {
                    line.text()
                }
                &&& shown.position() == if line.position() > 0 {
                    line.position() - 1
                } else {
                    0
                }
                &&& settles(
                    shown,
                    ReturnStatus::Nothing,
                    row(shown.text()).push(' '),
                    shown,
                    reaction,
                )
            },
            Input::Left => {
                &&& now.position() == past.position()
                &&& shown.text() == line.text()
                &&& shown.position() == if line.position() > 0 {
                    line.position() - 1
                } else {
                    0
                }
                &&& settles(shown, ReturnStatus::Nothing, Seq::empty(), shown, reaction)
            },
            Input::Right => {
                &&& now.position() == past.position()
                &&& shown.text() == line.text()
                &&& shown.position() == if line.position() < line.text().len() {
                    line.position() + 1
                } else {
                    line.position()
                }
                &&& settles(shown, ReturnStatus::Nothing, Seq::empty(), shown, reaction)
            },
            Input::Up => {
                &&& now.position() == if past.position() > 0 {
                    past.position() - 1
                } else {
                    0
                }
                &&& match now.recalled() {
                    Some(entry) => {
                        &&& recalls(line, entry, shown, reaction.screen@)
                        &&& settles(shown, ReturnStatus::Nothing, reaction.screen@, shown, reaction)
                    },
                    None => settles(line, ReturnStatus::Nothing, Seq::empty(), shown, reaction),
                }
            },
            Input::Down => {
                &&& now.position() == if past.position() < past.entries().len() {
                    past.position() + 1
                } else {
                    past.position()
                }
                &&& match now.recalled() {
                    Some(entry) => {
                        &&& recalls(line, entry, shown, reaction.screen@)
                        &&& settles(shown, ReturnStatus::Nothing, reaction.screen@, shown, reaction)
                    },
                    None => settles(line, ReturnStatus::Nothing, Seq::empty(), shown, reaction),
                }
            },
            Input::Enter => {
                &&& now.position() == past.position()
                &&& same_line(shown, line)
                &&& reaction.status == ReturnStatus::Nothing
                &&& reaction.screen@ == fresh_row()
                &&& reaction.column is None
                &&& reaction.record is None
                &&& reaction.next == Next::Submit
            },
            Input::Escape => {
                &&& now.position() == past.position()
                &&& settles(line, reaction.status, Seq::empty(), shown, reaction)
            },
            Input::Unsupported(_) | Input::Other => {
                &&& now.position() == past.position()
                &&& settles(line, ReturnStatus::Nothing, Seq::empty(), shown, reaction)
            },
        }
    }

    /// Takes one event and reacts to it: see `reacts`.
    pub fn step(&mut self, input: Input) -> (reaction: Reaction)
        ensures
            final(self).wf(),
            old(self).reacts(input, final(self), reaction),
    {
        proof {
            use_type_invariant(&self.line);
            use_type_invariant(&self.history);
        }
        match input {
            Input::Enter => Reaction {
                status: ReturnStatus::Nothing,
                screen: fresh_row_text(),
                column: None,
                record: None,
                next: Next::Submit,
            },
            Input::Char(ch) => {
                let note = insert_note(ch);
                self.log_info(note.as_str());
                let screen = self.line.insert(ch);
                self.settle(ReturnStatus::Nothing, screen)
            },
            Input::Backspace => {
                let screen = self.line.backspace();
                self.settle(ReturnStatus::Nothing, screen)
            },
            Input::Left => {
                self.line.decrease_counter();
                self.settle(ReturnStatus::Nothing, String::new())
            },
            Input::Right => {
                self.line.increase_counter();
                self.settle(ReturnStatus::Nothing, String::new())
            },
            Input::Up => {
                let screen = match self.history.up() {
                    Some(entry) => self.line.set(entry.to_owned()),
                    None => String::new(),
                };
                self.settle(ReturnStatus::Nothing, screen)
            },
            Input::Down => {
                let screen = match self.history.down() {
                    Some(entry) => self.line.set(entry.to_owned()),
                    None => String::new(),
                };
                self.settle(ReturnStatus::Nothing, screen)
            },
            Input::Escape => {
                let status = self.keys.fire_key(&Key::Escape, self.line.content());
                self.settle(status, String::new())
            },
            Input::Unsupported(name) => {
                let note = unsupported_note(name.as_str());
                self.log_info(note.as_str());
                self.settle(ReturnStatus::Nothing, String::new())
            },
            Input::Other => self.settle(ReturnStatus::Nothing, String::new()),
        }
    }
}

impl<S: Action, L: Log, K: Action> Default for App<S, L, K> {
    fn default() -> (app: Self)
        ensures
            app.wf(),
            app.line_view().text() == Seq::<char>::empty(),
            app.history_view().entries() == Seq::<Seq<char>>::empty(),
            app.action_view() is None,
            app.log_view() is None,
    {
        App::new()
    }
}

} // verus!
