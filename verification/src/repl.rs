//! The decisions of the interactive read-eval-print loop. The caller reads
//! lines, evaluates them and prints; these functions say, for each thing
//! that happened, what to do next.

use vstd::prelude::*;

verus! {

/// What reading one line from the editor gave.
pub enum ReadOutcome {
    /// A line was entered.
    Line(String),
    /// Ctrl+C was pressed.
    Interrupted,
    /// The input ended (Ctrl+D).
    Eof,
    /// Reading failed; the error as the caller prints it.
    Failed(String),
}

/// [`ReadOutcome`] with its text taken as characters.
pub enum ReadModel {
    Line(Seq<char>),
    Interrupted,
    Eof,
    Failed(Seq<char>),
}

impl View for ReadOutcome {
    type V = ReadModel;

    open spec fn view(&self) -> ReadModel {
        match self {
            ReadOutcome::Line(line) => ReadModel::Line(line@),
            ReadOutcome::Interrupted => ReadModel::Interrupted,
            ReadOutcome::Eof => ReadModel::Eof,
            ReadOutcome::Failed(error) => ReadModel::Failed(error@),
        }
    }
}

/// What the loop does after a read.
pub enum ReplAction {
    /// Record the line in the history, evaluate it, then call
    /// [`after_evaluation`].
    Evaluate(String),
    /// Print the text and read again.
    Print(String),
    /// Leave the loop.
    Exit,
    /// Print the text and leave the loop.
    PrintAndExit(String),
}

/// [`ReplAction`] with its text taken as characters.
pub enum ActionModel {
    Evaluate(Seq<char>),
    Print(Seq<char>),
    Exit,
    PrintAndExit(Seq<char>),
}

impl View for ReplAction {
    type V = ActionModel;

    open spec fn view(&self) -> ActionModel {
        match self {
            ReplAction::Evaluate(line) => ActionModel::Evaluate(line@),
            ReplAction::Print(text) => ActionModel::Print(text@),
            ReplAction::Exit => ActionModel::Exit,
            ReplAction::PrintAndExit(text) => ActionModel::PrintAndExit(text@),
        }
    }
}

/// The notice printed after a first Ctrl+C.
pub open spec fn interrupt_notice() -> Seq<char> {
    "press ctrl+c again to exit"@
}

/// An error as the loop prints it.
pub open spec fn error_line(detail: Seq<char>) -> Seq<char> {
    "Error: "@ + detail
}

/// Whether an action leaves the loop.
pub open spec fn leaves_loop(action: ActionModel) -> bool {
    action is Exit || action is PrintAndExit
}

/// The loop's answer to a read, given whether a Ctrl+C now leaves the loop:
/// whether a Ctrl+C leaves it afterwards, and the action.
///
/// A line is evaluated and disarms Ctrl+C; a first Ctrl+C prints a notice
/// and arms it, a second one leaves; the end of input leaves; a failed read
/// prints the error and leaves.
pub open spec fn after_read(exit_on_interrupt: bool, read: ReadModel) -> (bool, ActionModel) {
    match read {
        ReadModel::Line(line) => (false, ActionModel::Evaluate(line)),
        ReadModel::Interrupted => if exit_on_interrupt {
            (true, ActionModel::Exit)
        } else {
            (true, ActionModel::Print(interrupt_notice()))
        },
        ReadModel::Eof => (exit_on_interrupt, ActionModel::Exit),
        ReadModel::Failed(error) => (exit_on_interrupt, ActionModel::PrintAndExit(error_line(error))),
    }
}

/// Builds `"Error: "` followed by the detail.
fn error_text(detail: &str) -> (text: String)
    ensures
        text@ == error_line(detail@),
{
    String::from_str("Error: ").concat(detail)
}

/// The state the loop keeps between reads.
pub struct ReplState {
    /// Whether the next Ctrl+C leaves the loop.
    pub exit_on_interrupt: bool,
}

impl ReplState {
    /// The state at the start: a Ctrl+C does not yet leave the loop.
    pub fn new() -> (state: ReplState)
        ensures
            !state.exit_on_interrupt,
    {
        ReplState { exit_on_interrupt: false }
    }

    /// Decides what to do with what a read gave, and updates the state.
    pub fn on_read(&mut self, read: ReadOutcome) -> (action: ReplAction)
        ensures
            (final(self).exit_on_interrupt, action@) == after_read(
                old(self).exit_on_interrupt,
                read@,
            ),
            read matches ReadOutcome::Line(line) ==> action@ == ActionModel::Evaluate(line@)
                && !final(self).exit_on_interrupt,
            read is Interrupted && old(self).exit_on_interrupt ==> action@ == ActionModel::Exit,
            read is Interrupted && !old(self).exit_on_interrupt ==> action@ == ActionModel::Print(
                "press ctrl+c again to exit"@,
            ) && final(self).exit_on_interrupt,
            read is Eof ==> action@ == ActionModel::Exit,
            read matches ReadOutcome::Failed(error) ==> action@ matches ActionModel::PrintAndExit(
                text,
            ) && text.len() == error@.len() + 7 && text.subrange(7, text.len() as int)
                == error@,
    {
        match read {
            ReadOutcome::Line(line) => {
                self.exit_on_interrupt = false;
                ReplAction::Evaluate(line)
            },
            ReadOutcome::Interrupted => {
                if self.exit_on_interrupt {
                    ReplAction::Exit
                } else {
                    self.exit_on_interrupt = true;
                    ReplAction::Print(String::from_str("press ctrl+c again to exit"))
                }
            },
            ReadOutcome::Eof => ReplAction::Exit,
            ReadOutcome::Failed(error) => {
                proof {
                    lemma_error_line(error@);
                }
                ReplAction::PrintAndExit(error_text(error.as_str()))
            },
        }
    }
}

/// A second Ctrl+C in a row leaves the loop, whatever state it came in.
pub proof fn lemma_second_interrupt_exits(exit_on_interrupt: bool)
    ensures
        after_read(after_read(exit_on_interrupt, ReadModel::Interrupted).0, ReadModel::Interrupted).1
            == ActionModel::Exit,
{
}

/// After a line has been entered, a Ctrl+C only prints the notice: it takes
/// two more to leave.
pub proof fn lemma_line_disarms_interrupt(exit_on_interrupt: bool, line: Seq<char>)
    ensures
        after_read(after_read(exit_on_interrupt, ReadModel::Line(line)).0, ReadModel::Interrupted)
            == (true, ActionModel::Print(interrupt_notice())),
{
}

/// The loop is left exactly on the end of input, on a failed read, and on
/// a Ctrl+C that follows another Ctrl+C.
pub proof fn lemma_exit_reasons(exit_on_interrupt: bool, read: ReadModel)
    ensures
        leaves_loop(after_read(exit_on_interrupt, read).1) <==> (read is Eof || read is Failed || (
        read is Interrupted && exit_on_interrupt)),
{
}

/// A line that is read is always evaluated, exactly as it was typed,
/// whatever Ctrl+C state the loop is in; afterwards a Ctrl+C no longer
/// leaves the loop.
pub proof fn lemma_line_always_evaluated(exit_on_interrupt: bool, line: Seq<char>)
    ensures
        after_read(exit_on_interrupt, ReadModel::Line(line)).1 == ActionModel::Evaluate(line),
        !after_read(exit_on_interrupt, ReadModel::Line(line)).0,
{
}

/// A first Ctrl+C prints the 26-character notice
/// `press ctrl+c again to exit` and arms the next one; the end of input
/// always leaves the loop.
pub proof fn lemma_interrupt_and_eof(exit_on_interrupt: bool)
    ensures
        !exit_on_interrupt ==> after_read(exit_on_interrupt, ReadModel::Interrupted) == (
            true,
            ActionModel::Print("press ctrl+c again to exit"@),
        ),
        interrupt_notice().len() == 26,
        after_read(exit_on_interrupt, ReadModel::Eof).1 == ActionModel::Exit,
{
    reveal_strlit("press ctrl+c again to exit");
}

/// An error is printed as `Error: ` followed by the whole error text.
pub proof fn lemma_error_line(detail: Seq<char>)
    ensures
        error_line(detail).len() == detail.len() + 7,
        error_line(detail).subrange(0, 7) == seq!['E', 'r', 'r', 'o', 'r', ':', ' '],
        error_line(detail).subrange(7, error_line(detail).len() as int) == detail,
{
    reveal_strlit("Error: ");
    assert(error_line(detail).subrange(0, 7) =~= seq!['E', 'r', 'r', 'o', 'r', ':', ' ']);
    assert(error_line(detail).subrange(7, error_line(detail).len() as int) =~= detail);
}

/// A failed read prints the whole error after `Error: ` and leaves the
/// loop, whatever the Ctrl+C state.
pub proof fn lemma_failed_read_reports_error(exit_on_interrupt: bool, error: Seq<char>)
    ensures
        after_read(exit_on_interrupt, ReadModel::Failed(error)).1 matches ActionModel::PrintAndExit(
            text,
        ) && text.len() == error.len() + 7 && text.subrange(7, text.len() as int) == error,
{
    lemma_error_line(error);
}

/// The notification that is reported is the one named
/// `Runtime.exceptionThrown`.
pub proof fn lemma_exception_method()
    ensures
        exception_method() == "Runtime.exceptionThrown"@,
        exception_method().len() == 23,
{
    reveal_strlit("Runtime.exceptionThrown");
}

/// How the session answered the question whether it is closing, after a
/// line was evaluated.
pub enum Closing {
    /// The session is closing (the line called `close()`).
    Closed,
    /// The session goes on.
    Open,
    /// The question failed; the error as the caller prints it.
    Failed(String),
}

/// What to do once a line has been evaluated.
pub struct EvaluationReport {
    /// The lines to print, in order.
    pub lines: Vec<String>,
    /// Whether to leave the loop.
    pub exit: bool,
}

/// Decides what follows the evaluation of a line, given the session's
/// answer on closing and the evaluation's printed output: a closing session
/// leaves the loop and prints nothing; otherwise the output is printed,
/// after the error if the question failed, and the loop reads again.
pub fn after_evaluation(closing: Closing, output: String) -> (report: EvaluationReport)
    ensures
        report.exit == (closing is Closed),
        closing is Closed ==> report.lines@.len() == 0,
        closing is Open ==> report.lines@.len() == 1 && report.lines@[0]@ == output@,
        closing matches Closing::Failed(error) ==> {
            &&& report.lines@.len() == 2
            &&& report.lines@[0]@ == error_line(error@)
            &&& report.lines@[1]@ == output@
        },
{
    match closing {
        Closing::Closed => EvaluationReport { lines: Vec::new(), exit: true },
        Closing::Open => {
            let mut lines: Vec<String> = Vec::new();
            lines.push(output);
            EvaluationReport { lines, exit: false }
        },
        Closing::Failed(error) => {
            let mut lines: Vec<String> = Vec::new();
            lines.push(error_text(error.as_str()));
            lines.push(output);
            EvaluationReport { lines, exit: false }
        },
    }
}

/// The method of the inspector notification that reports an uncaught
/// exception.
pub open spec fn exception_method() -> Seq<char> {
    "Runtime.exceptionThrown"@
}

/// What to print for an inspector notification while a line is being read:
/// for an uncaught exception, its message and description separated by a
/// space; for any other notification, nothing.
pub fn exception_report(method: &str, message: &str, description: &str) -> (report: Option<
    String,
>)
    ensures
        report is Some <==> method@ == exception_method(),
        report matches Some(text) ==> text@ == message@ + " "@ + description@,
{
    let thrown = String::from_str("Runtime.exceptionThrown");
    let received = String::from_str(method);
    if received == thrown {
        Some(String::from_str(message).concat(" ").concat(description))
    } else {
        None
    }
}

/// What happened while the loop waited for a line.
pub enum WaitEvent {
    /// The line (or the end of input, or an error) arrived.
    LineRead,
    /// A message from the editor was answered, or the editor's message
    /// channel was found closed.
    MessageAnswered,
    /// An inspector notification arrived.
    Notification,
    /// The runtime's event loop ran for a turn.
    EventLoopTurn,
}

/// Whether the runtime's event loop may be run while waiting for a line.
pub struct WaitState {
    /// The event loop may be run; it is cleared once it has run and set
    /// again when a message from the editor has been answered.
    pub poll_worker: bool,
}

impl WaitState {
    /// The state when the wait begins: the event loop may run.
    pub fn new() -> (state: WaitState)
        ensures
            state.poll_worker,
    {
        WaitState { poll_worker: true }
    }

    /// Records an event; returns whether the wait is over.
    pub fn on_event(&mut self, event: WaitEvent) -> (done: bool)
        ensures
            done == (event is LineRead),
            event is MessageAnswered ==> final(self).poll_worker,
            event is EventLoopTurn ==> !final(self).poll_worker,
            (event is LineRead || event is Notification) ==> final(self).poll_worker
                == old(self).poll_worker,
    {
        match event {
            WaitEvent::LineRead => true,
            WaitEvent::MessageAnswered => {
                self.poll_worker = true;
                false
            },
            WaitEvent::Notification => false,
            WaitEvent::EventLoopTurn => {
                self.poll_worker = false;
                false
            },
        }
    }
}

} // verus!
