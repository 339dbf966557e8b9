//! The settings window controller: show the settings window, creating it
//! first where the host does not have it yet.
//!
//! The controller never touches a window. It says what to ask of the host
//! next and what to write to the diagnostic log, and is told what the host
//! answered. The caller performs each request once and hands the reply to
//! [`advance`], until a step asks for nothing more.
//!
//! A window that was just created is shown at once: the controller does not
//! wait for the window's content to load, so the window may come on screen
//! before its content does. A failure ends the invocation; nothing is retried
//! and no window is made in place of one that could not be shown.

use crate::window::{settings_label, settings_window_config, settings_window_view, WindowConfig, WindowConfigView};
use vstd::prelude::*;
use vstd::string::*;

verus! {

/// Where an invocation stands: what it is waiting for.
#[derive(Clone, Copy, Debug, PartialEq, Eq, Structural)]
pub enum Phase {
    /// Waiting to hear whether the settings window exists.
    Looking,
    /// Waiting for a window that was found to be shown.
    ShowingExisting,
    /// Waiting for the settings window to be created.
    Creating,
    /// Waiting for the window that was just created to be shown.
    ShowingNew,
    /// Over: nothing more is asked of the host.
    Done,
}

/// What the controller asks of the host.
#[derive(Debug, PartialEq, Eq)]
pub enum Request {
    /// Look in the window registry for a window of this name.
    Lookup(String),
    /// Make the window of this name visible.
    Show(String),
    /// Create a window.
    Create(WindowConfig),
}

/// What the host answers. A failure carries the host's description of it.
#[derive(Debug, PartialEq, Eq)]
pub enum Reply {
    Found,
    Missing,
    Shown,
    ShowFailed(String),
    Created,
    CreateFailed(String),
}

/// How a diagnostic line is marked.
#[derive(Clone, Copy, Debug, PartialEq, Eq, Structural)]
pub enum Level {
    Info,
    Error,
}

/// A line for the diagnostic log.
#[derive(Debug, PartialEq, Eq)]
pub struct LogLine {
    pub level: Level,
    pub message: String,
}

/// One step of an invocation: the phase it leads to, the line to log, if
/// any, and the request to perform next, if any.
#[derive(Debug, PartialEq, Eq)]
pub struct Step {
    pub phase: Phase,
    pub log: Option<LogLine>,
    pub request: Option<Request>,
}

/// What a [`Request`] holds, as mathematical values.
pub enum RequestView {
    Lookup(Seq<char>),
    Show(Seq<char>),
    Create(WindowConfigView),
}

/// What a [`Reply`] holds, as mathematical values.
pub enum ReplyView {
    Found,
    Missing,
    Shown,
    ShowFailed(Seq<char>),
    Created,
    CreateFailed(Seq<char>),
}

/// What a [`LogLine`] holds, as mathematical values.
pub struct LogLineView {
    pub level: Level,
    pub message: Seq<char>,
}

/// What a [`Step`] holds, as mathematical values.
pub struct StepView {
    pub phase: Phase,
    pub log: Option<LogLineView>,
    pub request: Option<RequestView>,
}

impl View for Request {
    type V = RequestView;

    open spec fn view(&self) -> RequestView {
        match self {
            Request::Lookup(label) => RequestView::Lookup(label@),
            Request::Show(label) => RequestView::Show(label@),
            Request::Create(config) => RequestView::Create(config@),
        }
    }
}

impl View for Reply {
    type V = ReplyView;

    open spec fn view(&self) -> ReplyView {
        match self {
            Reply::Found => ReplyView::Found,
            Reply::Missing => ReplyView::Missing,
            Reply::Shown => ReplyView::Shown,
            Reply::ShowFailed(detail) => ReplyView::ShowFailed(detail@),
            Reply::Created => ReplyView::Created,
            Reply::CreateFailed(detail) => ReplyView::CreateFailed(detail@),
        }
    }
}

impl View for LogLine {
    type V = LogLineView;

    open spec fn view(&self) -> LogLineView {
        LogLineView { level: self.level, message: self.message@ }
    }
}

impl View for Step {
    type V = StepView;

    open spec fn view(&self) -> StepView {
        StepView {
            phase: self.phase,
            log: match self.log {
                Some(line) => Some(line@),
                None => None,
            },
            request: match self.request {
                Some(request) => Some(request@),
                None => None,
            },
        }
    }
}

impl Phase {
    /// An upper bound on the requests that are still to come.
    pub open spec fn rank(self) -> nat {
        match self {
            Phase::Looking => 3,
            Phase::Creating => 2,
            Phase::ShowingExisting => 1,
            Phase::ShowingNew => 1,
            Phase::Done => 0,
        }
    }
}

impl Level {
    /// The mark that a line of this level begins with.
    pub open spec fn prefix(self) -> Seq<char> {
        match self {
            Level::Info => "[i]"@,
            Level::Error => "[e]"@,
        }
    }
}

impl LogLineView {
    /// The line as it is written: the level's mark, a space, the message.
    pub open spec fn rendered(self) -> Seq<char> {
        self.level.prefix() + " "@ + self.message
    }
}

/// Whether `text` starts with `prefix`.
pub open spec fn begins_with(text: Seq<char>, prefix: Seq<char>) -> bool {
    prefix.len() <= text.len() && text.subrange(0, prefix.len() as int) == prefix
}

/// A line is written with the mark of its own level, and not with the other
/// one: the mark tells errors from notices.
pub proof fn lemma_rendered_mark(line: LogLineView)
    ensures
        begins_with(line.rendered(), "[e]"@) <==> line.level == Level::Error,
        begins_with(line.rendered(), "[i]"@) <==> line.level == Level::Info,
{
    reveal_strlit("[e]");
    reveal_strlit("[i]");
    let text = line.rendered();
    let mark = line.level.prefix();
    assert(text.subrange(0, 3) =~= mark);
    assert("[e]"@[1] != "[i]"@[1]);
}

impl LogLine {
    /// The text to write to the error stream.
    pub fn render(&self) -> (text: String)
        ensures
            text@ == self@.rendered(),
    {
        let mark = match self.level {
            Level::Info => "[i]",
            Level::Error => "[e]",
        };
        let mut text = String::from_str(mark);
        text.append(" ");
        text.append(self.message.as_str());
        text
    }
}

/// The identifier under which a click on the "Settings" menu item is reported.
pub open spec fn settings_item_id() -> Seq<char> {
    "show_settings"@
}

/// A step that ends the invocation, with this line or none.
pub open spec fn finish(log: Option<LogLineView>) -> StepView {
    StepView { phase: Phase::Done, log, request: None }
}

/// An error line: what failed, then the host's description of the failure.
pub open spec fn failure(what: Seq<char>, detail: Seq<char>) -> LogLineView {
    LogLineView { level: Level::Error, message: what + detail }
}

/// The notice that the settings window is about to be created.
pub open spec fn creation_notice() -> LogLineView {
    LogLineView { level: Level::Info, message: "Settings window not found, creating a new one"@ }
}

/// The first step of an invocation: look the settings window up.
pub open spec fn begin_spec() -> StepView {
    StepView {
        phase: Phase::Looking,
        log: None,
        request: Some(RequestView::Lookup(settings_label())),
    }
}

/// The step that a menu click leads to: the first step of an invocation for
/// the "Settings" item, and nothing at all for any other.
pub open spec fn menu_event_spec(item_id: Seq<char>) -> StepView {
    if item_id == settings_item_id() {
        begin_spec()
    } else {
        finish(None)
    }
}

/// The step that follows when the host answers `reply` in `phase`.
///
/// A window that was found is shown; one that is missing is announced and
/// created, and shown once created. Each failure is logged and ends the
/// invocation: nothing is tried twice. So does a reply that does not answer
/// what the phase was waiting for, without a line.
pub open spec fn advance_spec(phase: Phase, reply: ReplyView) -> StepView {
    match (phase, reply) {
        (Phase::Looking, ReplyView::Found) => StepView {
            phase: Phase::ShowingExisting,
            log: None,
            request: Some(RequestView::Show(settings_label())),
        },
        (Phase::Looking, ReplyView::Missing) => StepView {
            phase: Phase::Creating,
            log: Some(creation_notice()),
            request: Some(RequestView::Create(settings_window_view())),
        },
        (Phase::ShowingExisting, ReplyView::Shown) => finish(None),
        (Phase::ShowingExisting, ReplyView::ShowFailed(detail)) => finish(
            Some(failure("Error showing settings window: "@, detail)),
        ),
        (Phase::Creating, ReplyView::Created) => StepView {
            phase: Phase::ShowingNew,
            log: None,
            request: Some(RequestView::Show(settings_label())),
        },
        (Phase::Creating, ReplyView::CreateFailed(detail)) => finish(
            Some(failure("Failed to create settings window: "@, detail)),
        ),
        (Phase::ShowingNew, ReplyView::Shown) => finish(None),
        (Phase::ShowingNew, ReplyView::ShowFailed(detail)) => finish(
            Some(failure("Error showing new settings window: "@, detail)),
        ),
        _ => finish(None),
    }
}

/// Every step brings the end nearer, so an invocation makes three requests
/// at most. A step asks something of the host exactly when it does not end the
/// invocation, and only a failure is logged at the end.
pub proof fn lemma_advance_ends(phase: Phase, reply: ReplyView)
    ensures
        ({
            let step = advance_spec(phase, reply);
            &&& phase != Phase::Done ==> step.phase.rank() < phase.rank()
            &&& step.request is Some <==> step.phase != Phase::Done
            &&& step.phase == Phase::Done ==> (step.log matches Some(line) ==> line.level
                == Level::Error)
        }),
{
}

fn done(log: Option<LogLine>) -> (step: Step)
    ensures
        step.phase == Phase::Done,
        step.log == log,
        step.request is None,
{
    Step { phase: Phase::Done, log, request: None }
}

fn failure_line(what: &str, detail: &str) -> (line: LogLine)
    ensures
        line@ == failure(what@, detail@),
{
    LogLine { level: Level::Error, message: String::from_str(what).concat(detail) }
}

/// Begins an invocation, as the front-end's command does.
pub fn begin() -> (step: Step)
    ensures
        step@ == begin_spec(),
{
    Step {
        phase: Phase::Looking,
        log: None,
        request: Some(Request::Lookup(String::from_str("settings"))),
    }
}

/// Answers a click on the menu item that is reported as `item_id`: the
/// "Settings" item begins an invocation, any other item begins nothing.
pub fn on_menu_event(item_id: &str) -> (step: Step)
    ensures
        step@ == menu_event_spec(item_id@),
{
    if String::from_str(item_id) == String::from_str("show_settings") {
        begin()
    } else {
        done(None)
    }
}

/// Takes the host's reply to the request of the step that led to `phase`, and
/// says what comes next.
pub fn advance(phase: Phase, reply: Reply) -> (step: Step)
    ensures
        step@ == advance_spec(phase, reply@),
{
    match (phase, reply) {
        (Phase::Looking, Reply::Found) => Step {
            phase: Phase::ShowingExisting,
            log: None,
            request: Some(Request::Show(String::from_str("settings"))),
        },
        (Phase::Looking, Reply::Missing) => Step {
            phase: Phase::Creating,
            log: Some(
                LogLine {
                    level: Level::Info,
                    message: String::from_str("Settings window not found, creating a new one"),
                },
            ),
            request: Some(Request::Create(settings_window_config())),
        },
        (Phase::ShowingExisting, Reply::Shown) => done(None),
        (Phase::ShowingExisting, Reply::ShowFailed(detail)) => done(
            Some(failure_line("Error showing settings window: ", detail.as_str())),
        ),
        (Phase::Creating, Reply::Created) => Step {
            phase: Phase::ShowingNew,
            log: None,
            request: Some(Request::Show(String::from_str("settings"))),
        },
        (Phase::Creating, Reply::CreateFailed(detail)) => done(
            Some(failure_line("Failed to create settings window: ", detail.as_str())),
        ),
        (Phase::ShowingNew, Reply::Shown) => done(None),
        (Phase::ShowingNew, Reply::ShowFailed(detail)) => done(
            Some(failure_line("Error showing new settings window: ", detail.as_str())),
        ),
        _ => done(None),
    }
}

} // verus!
