//! What the running instance does when something happens to it: a second
//! launch is intercepted, a focus request is answered, the run loop ends.
//!
//! The shell around this library observes the events and carries out the
//! actions; which actions follow which event is decided here.

use vstd::prelude::*;
use vstd::string::*;
use crate::logging::{shell_log_config, Level, LogRecord, LogRecordView};
use crate::text::{bracketed, bracketed_list, debug_string, debug_strings, debug_text, debug_texts};

verus! {

/// Label of the main window, the one a second launch brings to the front.
pub const MAIN_WINDOW_LABEL: &'static str = "main";

/// Opening of the diagnostic with which the process ends when the run loop
/// fails.
pub const RUN_FAILURE_MESSAGE: &'static str = "error while running tauri application";

/// Something the running instance is told of.
#[derive(Clone, Debug, PartialEq, Eq)]
pub enum Event {
    /// Another process of the application was started with `args` in the
    /// working directory `cwd`. `main_window_present` says whether a window
    /// labelled [`MAIN_WINDOW_LABEL`] exists at this moment.
    SecondLaunch { args: Vec<String>, cwd: String, main_window_present: bool },
    /// The platform answered a focus request; `failure` holds its error.
    FocusFinished { failure: Option<String> },
    /// The run loop returned; `failure` holds the error that ended it.
    RunFinished { failure: Option<String> },
}

/// Something the running instance does in answer.
#[derive(Clone, Debug, PartialEq, Eq)]
pub enum Action {
    /// Hand this record to the log sink.
    Log(LogRecord),
    /// Ask the window with this label to take input focus.
    FocusWindow(String),
    /// End the process with this diagnostic.
    Abort(String),
}

/// An event as contracts see it.
pub enum EventView {
    SecondLaunch { args: Seq<Seq<char>>, cwd: Seq<char>, main_window_present: bool },
    FocusFinished { failure: Option<Seq<char>> },
    RunFinished { failure: Option<Seq<char>> },
}

/// An action as contracts see it.
pub enum ActionView {
    Log(LogRecordView),
    FocusWindow(Seq<char>),
    Abort(Seq<char>),
}

impl View for Event {
    type V = EventView;

    open spec fn view(&self) -> EventView {
        match *self {
            Event::SecondLaunch { args, cwd, main_window_present } => EventView::SecondLaunch {
                args: args.deep_view(),
                cwd: cwd@,
                main_window_present,
            },
            Event::FocusFinished { failure } => EventView::FocusFinished {
                failure: failure.deep_view(),
            },
            Event::RunFinished { failure } => EventView::RunFinished {
                failure: failure.deep_view(),
            },
        }
    }
}

impl View for Action {
    type V = ActionView;

    open spec fn view(&self) -> ActionView {
        match *self {
            Action::Log(record) => ActionView::Log(record@),
            Action::FocusWindow(label) => ActionView::FocusWindow(label@),
            Action::Abort(diagnostic) => ActionView::Abort(diagnostic@),
        }
    }
}

impl DeepView for Action {
    type V = ActionView;

    open spec fn deep_view(&self) -> ActionView {
        self@
    }
}

/// The log line for a second launch, from the rendered arguments and the
/// rendered working directory.
pub open spec fn second_launch_text(arg_texts: Seq<Seq<char>>, cwd_text: Seq<char>) -> Seq<char> {
    "Second instance attempted. Args: "@ + bracketed(arg_texts) + ", CWD: "@ + cwd_text
}

/// The record written for a second launch with these arguments from this
/// working directory: informational, both rendered as `{:?}` prints them.
pub open spec fn second_launch_record(args: Seq<Seq<char>>, cwd: Seq<char>) -> LogRecordView {
    LogRecordView {
        level: Level::Info,
        message: second_launch_text(debug_texts(args), debug_text(cwd)),
    }
}

/// The diagnostic for a run loop that ended with the error `detail`.
pub open spec fn run_failure_text(detail: Seq<char>) -> Seq<char> {
    RUN_FAILURE_MESSAGE@ + ": "@ + detail
}

/// The actions that answer `event`, in the order in which they are carried out.
///
/// A second launch is logged, and the main window is asked to take focus if it
/// exists. The answer to a focus request changes nothing, whether it succeeded
/// or failed. A run loop that ends with an error ends the process; one that
/// ends cleanly asks for nothing more.
pub open spec fn reaction(event: EventView) -> Seq<ActionView> {
    match event {
        EventView::SecondLaunch { args, cwd, main_window_present } => {
            let logged = seq![ActionView::Log(second_launch_record(args, cwd))];
            if main_window_present {
                logged.push(ActionView::FocusWindow(MAIN_WINDOW_LABEL@))
            } else {
                logged
            }
        },
        EventView::FocusFinished { failure } => Seq::empty(),
        EventView::RunFinished { failure } => match failure {
            Some(detail) => seq![ActionView::Abort(run_failure_text(detail))],
            None => Seq::empty(),
        },
    }
}

/// `actions` hands exactly one record to the log sink, namely `record`, and
/// the shell's sink writes it.
pub open spec fn logs_once(actions: Seq<ActionView>, record: LogRecordView) -> bool {
    &&& exists|i: int| 0 <= i < actions.len() && actions[i] == ActionView::Log(record)
    &&& forall|i: int, j: int|
        0 <= i < actions.len() && 0 <= j < actions.len() && actions[i] is Log && actions[j] is Log
            ==> i == j
    &&& shell_log_config().level.admits(record.level)
}

/// `actions` asks the window labelled `label` for focus exactly once.
pub open spec fn focuses_once(actions: Seq<ActionView>, label: Seq<char>) -> bool {
    &&& exists|i: int| 0 <= i < actions.len() && actions[i] == ActionView::FocusWindow(label)
    &&& forall|i: int, j: int|
        0 <= i < actions.len() && 0 <= j < actions.len() && actions[i] is FocusWindow
            && actions[j] is FocusWindow ==> i == j
}

/// `actions` asks no window for focus.
pub open spec fn focuses_nothing(actions: Seq<ActionView>) -> bool {
    forall|i: int| 0 <= i < actions.len() ==> !(#[trigger] actions[i] is FocusWindow)
}

/// `actions` does nothing but log and ask for focus: it opens no window and
/// does not end the process.
pub open spec fn only_logs_and_focuses(actions: Seq<ActionView>) -> bool {
    forall|i: int|
        0 <= i < actions.len() ==> (#[trigger] actions[i] is Log) || actions[i] is FocusWindow
}

/// Puts the log line for a second launch together from the arguments and the
/// working directory as they are to appear in it.
pub fn second_launch_line(arg_texts: &Vec<String>, cwd_text: &str) -> (line: String)
    ensures
        line@ == second_launch_text(arg_texts.deep_view(), cwd_text@),
{
    let mut line = String::from_str("Second instance attempted. Args: ");
    let list = bracketed_list(arg_texts);
    line.append(list.as_str());
    line.append(", CWD: ");
    line.append(cwd_text);
    line
}

/// Puts the diagnostic for a failed run loop together from the error's text.
pub fn run_failure_diagnostic(detail: &str) -> (diagnostic: String)
    ensures
        diagnostic@ == run_failure_text(detail@),
{
    let mut diagnostic = String::from_str(RUN_FAILURE_MESSAGE);
    diagnostic.append(": ");
    diagnostic.append(detail);
    diagnostic
}

/// Decides what to do about `event`.
///
/// For a second launch the answer logs the launch exactly once and does nothing
/// else but, where the main window exists, ask that window for focus; where it
/// does not, no window is asked and nothing is reported as an error.
pub fn react(event: &Event) -> (actions: Vec<Action>)
    ensures
        actions.deep_view() == reaction(event@),
        event@ matches EventView::SecondLaunch { args, cwd, main_window_present } ==> {
            &&& logs_once(actions.deep_view(), second_launch_record(args, cwd))
            &&& only_logs_and_focuses(actions.deep_view())
            &&& main_window_present ==> focuses_once(actions.deep_view(), MAIN_WINDOW_LABEL@)
            &&& !main_window_present ==> focuses_nothing(actions.deep_view())
        },
{
    let mut actions: Vec<Action> = Vec::new();
    match event {
        Event::SecondLaunch { args, cwd, main_window_present } => {
            let arg_texts = debug_strings(args);
            let cwd_text = debug_string(cwd.as_str());
            let line = second_launch_line(&arg_texts, cwd_text.as_str());
            actions.push(Action::Log(LogRecord::info(line)));
            if *main_window_present {
                actions.push(Action::FocusWindow(String::from_str(MAIN_WINDOW_LABEL)));
            }
            proof {
                let shown = actions.deep_view();
                assert(shown =~= reaction(event@));
                // The places of the one record and of the one focus request.
                assert(shown[0] is Log);
                if *main_window_present {
                    assert(shown[1] is FocusWindow);
                }
            }
        },
        Event::FocusFinished { failure } => {
            // A focus request is best effort: its failure is dropped on purpose.
            match failure {
                Some(_) => {},
                None => {},
            }
            assert(actions.deep_view() =~= reaction(event@));
        },
        Event::RunFinished { failure } => {
            match failure {
                Some(detail) => {
                    actions.push(Action::Abort(run_failure_diagnostic(detail.as_str())));
                },
                None => {},
            }
            assert(actions.deep_view() =~= reaction(event@));
        },
    }
    actions
}

} // verus!
