//! The handle given to callbacks, and the status they request through it.
use vstd::prelude::*;
use crate::text::texts;

verus! {

/// What the runner is asked to do once a callback returns, ordered by
/// severity: `Nothing < ClearScreen < Exit`.
#[derive(PartialEq, Eq, Structural, PartialOrd, Ord, Clone, Copy, Debug)]
pub enum ReturnStatus {
    /// Carry on with the next key.
    Nothing,
    /// Clear the screen and start over with an empty line.
    ClearScreen,
    /// Leave the run loop.
    Exit,
}

impl ReturnStatus {
    /// The rank of a status: a higher one overrides a lower one.
    pub open spec fn severity(self) -> nat {
        match self {
            ReturnStatus::Nothing => 0,
            ReturnStatus::ClearScreen => 1,
            ReturnStatus::Exit => 2,
        }
    }

    /// The more severe of two statuses.
    pub open spec fn combine(self, other: ReturnStatus) -> ReturnStatus {
        if self.severity() >= other.severity() {
            self
        } else {
            other
        }
    }

    /// The rank of this status, as a number.
    pub fn rank(self) -> (rank: u8)
        ensures
            rank == self.severity(),
    {
        match self {
            ReturnStatus::Nothing => 0,
            ReturnStatus::ClearScreen => 1,
            ReturnStatus::Exit => 2,
        }
    }

    /// Asks for one more effect: only the most severe request is kept.
    pub fn add(&mut self, other: ReturnStatus)
        ensures
            *final(self) == old(self).combine(other),
    {
        if self.rank() < other.rank() {
            *self = other;
        }
    }

    /// Combining keeps the higher rank of the two.
    pub proof fn lemma_combine_is_max(a: ReturnStatus, b: ReturnStatus)
        ensures
            a.combine(b).severity() == if a.severity() >= b.severity() {
                a.severity()
            } else {
                b.severity()
            },
            a.combine(b) == a || a.combine(b) == b,
    {
    }

    /// Combining does not depend on the order of the two requests.
    pub proof fn lemma_combine_commutative(a: ReturnStatus, b: ReturnStatus)
        ensures
            a.combine(b) == b.combine(a),
    {
    }

    /// Combining three requests does not depend on how they are grouped.
    pub proof fn lemma_combine_associative(a: ReturnStatus, b: ReturnStatus, c: ReturnStatus)
        ensures
            a.combine(b).combine(c) == a.combine(b.combine(c)),
    {
    }

    /// `Nothing` gives way to every request, and `Exit` to none.
    pub proof fn lemma_combine_bounds(a: ReturnStatus)
        ensures
            ReturnStatus::Nothing.combine(a) == a,
            a.combine(ReturnStatus::Nothing) == a,
            ReturnStatus::Exit.combine(a) == ReturnStatus::Exit,
            a.combine(ReturnStatus::Exit) == ReturnStatus::Exit,
            a.combine(a) == a,
    {
    }
}

impl Default for ReturnStatus {
    fn default() -> (status: ReturnStatus)
        ensures
            status == ReturnStatus::Nothing,
    {
        ReturnStatus::Nothing
    }
}

/// The view of one submission that a callback gets: the submitted text, to
/// read, and a status, to raise.
pub struct AppInterface<'line> {
    /// The line being executed.
    line: &'line str,
    /// What the runner is to do next.
    status: ReturnStatus,
}

impl<'line> AppInterface<'line> {
    /// The text of the line being executed.
    pub closed spec fn text(&self) -> Seq<char> {
        self.line@
    }

    /// The most severe status requested so far.
    pub closed spec fn status(&self) -> ReturnStatus {
        self.status
    }

    /// A fresh interface over `line`, with nothing requested.
    pub fn new(line: &'line str) -> (interface: AppInterface<'line>)
        ensures
            interface.text() == line@,
            interface.status() == ReturnStatus::Nothing,
    {
        AppInterface { line, status: ReturnStatus::Nothing }
    }

    /// Asks the runner to clear the screen.
    pub fn clear_screen(&mut self)
        ensures
            final(self).status() == old(self).status().combine(ReturnStatus::ClearScreen),
            final(self).text() == old(self).text(),
    {
        self.status.add(ReturnStatus::ClearScreen);
    }

    /// Asks the runner to leave the loop.
    pub fn exit(&mut self)
        ensures
            final(self).status() == ReturnStatus::Exit,
            final(self).text() == old(self).text(),
    {
        self.status.add(ReturnStatus::Exit);
    }

    /// The line being executed.
    #[must_use]
    pub fn line(&self) -> (line: &str)
        ensures
            line@ == self.text(),
    {
        self.line
    }

    /// Hands out the requested status and leaves `Nothing` behind.
    pub fn take_status(&mut self) -> (status: ReturnStatus)
        ensures
            status == old(self).status(),
            final(self).status() == ReturnStatus::Nothing,
            final(self).text() == old(self).text(),
    {
        let status = self.status;
        self.status = ReturnStatus::Nothing;
        status
    }
}

/// What runs when a line is submitted or a bound key is pressed.
///
/// The action may read the line and raise a status through the interface;
/// it has no other way to reach the editor.
pub trait Action: Sized {
    /// What one run of the action may do: started on `line` with `before`
    /// already requested, it may leave `after` requested and become
    /// `next`. An action that says nothing of its runs allows every
    /// outcome.
    open spec fn runs(
        &self,
        line: Seq<char>,
        before: ReturnStatus,
        after: ReturnStatus,
        next: &Self,
    ) -> bool {
        true
    }

    /// Runs the action on one submission.
    fn invoke(&mut self, interface: &mut AppInterface<'_>)
        ensures
            old(self).runs(
                old(interface).text(),
                old(interface).status(),
                final(interface).status(),
                final(self),
            ),
    ;
}

/// Where the runner sends its notes, each tagged `[INFO]` or `[ERROR]`.
pub trait Log: Sized {
    /// What receiving `message` may make of the log: it may become `next`.
    /// A log that says nothing of it allows every outcome.
    open spec fn receives(&self, message: Seq<char>, next: &Self) -> bool {
        true
    }

    /// Receives one message.
    fn record(&mut self, message: String)
        ensures
            old(self).receives(message@, final(self)),
    ;
}

/// The action that asks to leave the loop, whatever the line.
#[derive(Clone, Copy, Debug)]
pub struct Quit;

impl Action for Quit {
    open spec fn runs(
        &self,
        line: Seq<char>,
        before: ReturnStatus,
        after: ReturnStatus,
        next: &Self,
    ) -> bool {
        after == ReturnStatus::Exit
    }

    fn invoke(&mut self, interface: &mut AppInterface<'_>) {
        interface.exit();
    }
}

/// A list of messages as a log: each message received is appended to it.
impl Log for Vec<String> {
    open spec fn receives(&self, message: Seq<char>, next: &Self) -> bool {
        texts(next@) == texts(self@).push(message)
    }

    fn record(&mut self, message: String) {
        proof {
            assert(texts(self@.push(message)) =~= texts(self@).push(message@));
        }
        self.push(message);
    }
}

} // verus!
