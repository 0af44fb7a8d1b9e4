//! The hotkey pipeline: one run per trigger, from the clipboard through the
//! inference server and back, as a function from stage and event to the next
//! stage and the action to perform.

use vstd::prelude::*;
use vstd::string::*;
use crate::config::{Configuration, ConfigurationView};
use crate::inference::{
    build_request, error_text, request_for, EnhancementRequest, EnhancementRequestView,
    InferenceError, InferenceErrorView,
};
use crate::text::{is_blank, is_blank_text};

verus! {

/// Where a run stands. A run that ends, in success or failure, is back at
/// `Idle`.
#[derive(Clone, Copy, Debug, PartialEq, Eq, Structural)]
pub enum Stage {
    Idle,
    Reading,
    Enhancing,
    Writing,
}

/// The clipboard operation that failed.
#[derive(Clone, Copy, Debug, PartialEq, Eq, Structural)]
pub enum ClipboardOperation {
    Read,
    Write,
}

/// What the outside world reports to a run.
#[derive(Debug, PartialEq, Eq)]
pub enum Event {
    /// A key combination changed state.
    Hotkey { combination: String, pressed: bool },
    /// The clipboard was read, or the read failed with a message.
    ClipboardRead { text: Result<String, String> },
    /// The inference exchange ended.
    Enhanced { result: Result<String, InferenceError> },
    /// The clipboard was written, or the write failed with a message.
    ClipboardWritten { result: Result<(), String> },
}

/// An [`Event`] over sequences of characters.
pub enum EventView {
    Hotkey { combination: Seq<char>, pressed: bool },
    ClipboardRead { text: Result<Seq<char>, Seq<char>> },
    Enhanced { result: Result<Seq<char>, InferenceErrorView> },
    ClipboardWritten { result: Result<(), Seq<char>> },
}

impl View for Event {
    type V = EventView;

    open spec fn view(&self) -> EventView {
        match self {
            Event::Hotkey { combination, pressed } => EventView::Hotkey {
                combination: combination@,
                pressed: *pressed,
            },
            Event::ClipboardRead { text } => EventView::ClipboardRead {
                text: match text {
                    Ok(t) => Ok(t@),
                    Err(m) => Err(m@),
                },
            },
            Event::Enhanced { result } => EventView::Enhanced {
                result: match result {
                    Ok(t) => Ok(t@),
                    Err(e) => Err(e@),
                },
            },
            Event::ClipboardWritten { result } => EventView::ClipboardWritten {
                result: match result {
                    Ok(_) => Ok(()),
                    Err(m) => Err(m@),
                },
            },
        }
    }
}

/// What the caller is to do next for a run.
#[derive(Clone, Debug, PartialEq, Eq)]
pub enum Action {
    /// Nothing: the run is over, or the event was not for it.
    Nothing,
    /// Read the clipboard and report `ClipboardRead`.
    ReadClipboard,
    /// Send the request to the inference server and report `Enhanced`.
    Enhance { request: EnhancementRequest },
    /// Write the text to the clipboard and report `ClipboardWritten`.
    WriteClipboard { text: String },
}

/// An [`Action`] over sequences of characters.
pub enum ActionView {
    Nothing,
    ReadClipboard,
    Enhance { request: EnhancementRequestView },
    WriteClipboard { text: Seq<char> },
}

impl View for Action {
    type V = ActionView;

    open spec fn view(&self) -> ActionView {
        match self {
            Action::Nothing => ActionView::Nothing,
            Action::ReadClipboard => ActionView::ReadClipboard,
            Action::Enhance { request } => ActionView::Enhance { request: request@ },
            Action::WriteClipboard { text } => ActionView::WriteClipboard { text: text@ },
        }
    }
}

/// Why a run failed.
#[derive(Clone, Debug, PartialEq, Eq)]
pub enum PipelineError {
    /// The clipboard could not be read or written.
    Clipboard { operation: ClipboardOperation, message: String },
    /// No model is configured.
    Configuration,
    /// The inference exchange failed.
    Inference { cause: InferenceError },
    /// The configuration store can no longer be read.
    StatePoisoned,
}

/// A [`PipelineError`] over sequences of characters.
pub enum PipelineErrorView {
    Clipboard { operation: ClipboardOperation, message: Seq<char> },
    Configuration,
    Inference { cause: InferenceErrorView },
    StatePoisoned,
}

impl View for PipelineError {
    type V = PipelineErrorView;

    open spec fn view(&self) -> PipelineErrorView {
        match self {
            PipelineError::Clipboard { operation, message } => PipelineErrorView::Clipboard {
                operation: *operation,
                message: message@,
            },
            PipelineError::Configuration => PipelineErrorView::Configuration,
            PipelineError::Inference { cause } => PipelineErrorView::Inference { cause: cause@ },
            PipelineError::StatePoisoned => PipelineErrorView::StatePoisoned,
        }
    }
}

/// A short message for the user.
#[derive(Clone, Debug, PartialEq, Eq)]
pub enum Notice {
    /// The run has started.
    Processing,
    /// There is no text to work on: copy some first.
    CopyTextFirst,
    /// No model is configured.
    NoModel,
    /// The rewritten text is on the clipboard.
    Success,
    /// The run failed for `reason`.
    Failure { reason: String },
}

/// A [`Notice`] over sequences of characters.
pub enum NoticeView {
    Processing,
    CopyTextFirst,
    NoModel,
    Success,
    Failure { reason: Seq<char> },
}

impl View for Notice {
    type V = NoticeView;

    open spec fn view(&self) -> NoticeView {
        match self {
            Notice::Processing => NoticeView::Processing,
            Notice::CopyTextFirst => NoticeView::CopyTextFirst,
            Notice::NoModel => NoticeView::NoModel,
            Notice::Success => NoticeView::Success,
            Notice::Failure { reason } => NoticeView::Failure { reason: reason@ },
        }
    }
}

/// How one event left the run.
#[derive(Clone, Debug, PartialEq, Eq)]
pub enum Outcome {
    /// The run goes on: the action's report is awaited.
    Pending,
    /// The event was not for this run; nothing changed.
    Ignored,
    /// The run ended without work, as expected for an empty clipboard.
    Skipped,
    /// The run ended with the rewritten text on the clipboard.
    Completed,
    /// The run ended in failure.
    Failed { error: PipelineError },
}

/// An [`Outcome`] over sequences of characters.
pub enum OutcomeView {
    Pending,
    Ignored,
    Skipped,
    Completed,
    Failed { error: PipelineErrorView },
}

impl View for Outcome {
    type V = OutcomeView;

    open spec fn view(&self) -> OutcomeView {
        match self {
            Outcome::Pending => OutcomeView::Pending,
            Outcome::Ignored => OutcomeView::Ignored,
            Outcome::Skipped => OutcomeView::Skipped,
            Outcome::Completed => OutcomeView::Completed,
            Outcome::Failed { error } => OutcomeView::Failed { error: error@ },
        }
    }
}

/// The answer to one event.
#[derive(Clone, Debug, PartialEq, Eq)]
pub struct Transition {
    pub stage: Stage,
    pub action: Action,
    pub notice: Option<Notice>,
    pub outcome: Outcome,
}

/// A [`Transition`] over sequences of characters.
pub struct TransitionView {
    pub stage: Stage,
    pub action: ActionView,
    pub notice: Option<NoticeView>,
    pub outcome: OutcomeView,
}

impl View for Transition {
    type V = TransitionView;

    open spec fn view(&self) -> TransitionView {
        TransitionView {
            stage: self.stage,
            action: self.action@,
            notice: match self.notice {
                Some(n) => Some(n@),
                None => None,
            },
            outcome: self.outcome@,
        }
    }
}

/// Whether `combination` is one of the forms under which the platforms
/// report the registered shortcut.
pub open spec fn is_registered_combination(combination: Seq<char>) -> bool {
    ||| combination == "CommandOrControl+Shift+E"@
    ||| combination == "shift+super+KeyE"@
    ||| combination == "ctrl+shift+KeyE"@
    ||| combination == "super+shift+KeyE"@
}

/// Whether a key event starts a run: the registered shortcut, pressed.
pub open spec fn triggers(combination: Seq<char>, pressed: bool) -> bool {
    pressed && is_registered_combination(combination)
}

/// Tests whether a key event starts a run.
pub fn is_trigger(combination: &str, pressed: bool) -> (yes: bool)
    ensures
        yes == triggers(combination@, pressed),
{
    let name = combination.to_owned();
    pressed && (name == "CommandOrControl+Shift+E".to_owned() || name
        == "shift+super+KeyE".to_owned() || name == "ctrl+shift+KeyE".to_owned() || name
        == "super+shift+KeyE".to_owned())
}

/// The title of every notice.
pub open spec fn notice_title() -> Seq<char> {
    "Clip Prompt"@
}

/// What an error says to the user.
pub open spec fn failure_text(error: PipelineErrorView) -> Seq<char> {
    match error {
        PipelineErrorView::Clipboard { operation: ClipboardOperation::Read, message } => {
            "Failed to read clipboard: "@ + message
        },
        PipelineErrorView::Clipboard { operation: ClipboardOperation::Write, message } => {
            "Failed to write to clipboard: "@ + message
        },
        PipelineErrorView::Configuration => "No model configured"@,
        PipelineErrorView::Inference { cause } => "Failed to enhance text: "@ + error_text(cause),
        PipelineErrorView::StatePoisoned => "Configuration is no longer readable"@,
    }
}

/// The body of a notice.
pub open spec fn notice_body(notice: NoticeView) -> Seq<char> {
    match notice {
        NoticeView::Processing => "🤖 Enhancing your text..."@,
        NoticeView::CopyTextFirst => "📋 Please copy some text first (Cmd+C), then try again"@,
        NoticeView::NoModel => "❌ No AI model available. Please check your Ollama installation."@,
        NoticeView::Success => "✅ Text enhanced! Press Cmd+V to paste"@,
        NoticeView::Failure { reason } => "❌ Enhancement failed: "@ + reason,
    }
}

impl PipelineError {
    /// A short account of the error for the user.
    pub fn message(&self) -> (text: String)
        ensures
            text@ == failure_text(self@),
    {
        match self {
            PipelineError::Clipboard { operation, message } => {
                let mut text = match operation {
                    ClipboardOperation::Read => "Failed to read clipboard: ".to_owned(),
                    ClipboardOperation::Write => "Failed to write to clipboard: ".to_owned(),
                };
                text.append(message.as_str());
                text
            },
            PipelineError::Configuration => "No model configured".to_owned(),
            PipelineError::Inference { cause } => {
                let mut text = "Failed to enhance text: ".to_owned();
                let detail = cause.message();
                text.append(detail.as_str());
                text
            },
            PipelineError::StatePoisoned => "Configuration is no longer readable".to_owned(),
        }
    }
}

impl Notice {
    /// The title under which the notice is shown.
    pub fn title(&self) -> (text: String)
        ensures
            text@ == notice_title(),
    {
        "Clip Prompt".to_owned()
    }

    /// The text of the notice.
    pub fn body(&self) -> (text: String)
        ensures
            text@ == notice_body(self@),
    {
        match self {
            Notice::Processing => "🤖 Enhancing your text...".to_owned(),
            Notice::CopyTextFirst => {
                "📋 Please copy some text first (Cmd+C), then try again".to_owned()
            },
            Notice::NoModel => {
                "❌ No AI model available. Please check your Ollama installation.".to_owned()
            },
            Notice::Success => "✅ Text enhanced! Press Cmd+V to paste".to_owned(),
            Notice::Failure { reason } => {
                let mut text = "❌ Enhancement failed: ".to_owned();
                text.append(reason.as_str());
                text
            },
        }
    }
}

/// The transition that ends a run in failure: back to `Idle`, with the
/// notice that tells the user why.
pub open spec fn failed(error: PipelineErrorView) -> TransitionView {
    TransitionView {
        stage: Stage::Idle,
        action: ActionView::Nothing,
        notice: Some(NoticeView::Failure { reason: failure_text(error) }),
        outcome: OutcomeView::Failed { error },
    }
}

/// The transition for an event that is not for the run at `stage`.
pub open spec fn ignored(stage: Stage) -> TransitionView {
    TransitionView {
        stage,
        action: ActionView::Nothing,
        notice: None,
        outcome: OutcomeView::Ignored,
    }
}

/// What follows when the clipboard held `text`. `config` is `None` where the
/// configuration store could not be read.
pub open spec fn after_read(text: Seq<char>, config: Option<ConfigurationView>) -> TransitionView {
    if is_blank(text) {
        TransitionView {
            stage: Stage::Idle,
            action: ActionView::Nothing,
            notice: Some(NoticeView::CopyTextFirst),
            outcome: OutcomeView::Skipped,
        }
    } else {
        match config {
            None => failed(PipelineErrorView::StatePoisoned),
            Some(c) => if !c.has_model() {
                TransitionView {
                    stage: Stage::Idle,
                    action: ActionView::Nothing,
                    notice: Some(NoticeView::NoModel),
                    outcome: OutcomeView::Failed { error: PipelineErrorView::Configuration },
                }
            } else {
                TransitionView {
                    stage: Stage::Enhancing,
                    action: ActionView::Enhance {
                        request: request_for(text, c.active_model, c.template()),
                    },
                    notice: None,
                    outcome: OutcomeView::Pending,
                }
            },
        }
    }
}

/// The pipeline's transition function.
pub open spec fn next(stage: Stage, event: EventView, config: Option<ConfigurationView>) -> TransitionView {
    match (stage, event) {
        (Stage::Idle, EventView::Hotkey { combination, pressed }) => if triggers(
            combination,
            pressed,
        ) {
            TransitionView {
                stage: Stage::Reading,
                action: ActionView::ReadClipboard,
                notice: Some(NoticeView::Processing),
                outcome: OutcomeView::Pending,
            }
        } else {
            ignored(stage)
        },
        (Stage::Reading, EventView::ClipboardRead { text: Err(message) }) => TransitionView {
            stage: Stage::Idle,
            action: ActionView::Nothing,
            notice: Some(NoticeView::CopyTextFirst),
            outcome: OutcomeView::Failed {
                error: PipelineErrorView::Clipboard { operation: ClipboardOperation::Read, message },
            },
        },
        (Stage::Reading, EventView::ClipboardRead { text: Ok(text) }) => after_read(text, config),
        (Stage::Enhancing, EventView::Enhanced { result: Ok(text) }) => TransitionView {
            stage: Stage::Writing,
            action: ActionView::WriteClipboard { text },
            notice: None,
            outcome: OutcomeView::Pending,
        },
        (Stage::Enhancing, EventView::Enhanced { result: Err(cause) }) => failed(
            PipelineErrorView::Inference { cause },
        ),
        (Stage::Writing, EventView::ClipboardWritten { result: Ok(_) }) => TransitionView {
            stage: Stage::Idle,
            action: ActionView::Nothing,
            notice: Some(NoticeView::Success),
            outcome: OutcomeView::Completed,
        },
        (Stage::Writing, EventView::ClipboardWritten { result: Err(message) }) => failed(
            PipelineErrorView::Clipboard { operation: ClipboardOperation::Write, message },
        ),
        _ => ignored(stage),
    }
}

/// The view of a configuration that may be out of reach.
pub open spec fn config_view(config: Option<&Configuration>) -> Option<ConfigurationView> {
    match config {
        Some(c) => Some(c@),
        None => None,
    }
}

fn fail(error: PipelineError) -> (t: Transition)
    ensures
        t@ == failed(error@),
{
    let reason = error.message();
    Transition {
        stage: Stage::Idle,
        action: Action::Nothing,
        notice: Some(Notice::Failure { reason }),
        outcome: Outcome::Failed { error },
    }
}

fn ignore(stage: Stage) -> (t: Transition)
    ensures
        t@ == ignored(stage),
{
    Transition { stage, action: Action::Nothing, notice: None, outcome: Outcome::Ignored }
}

fn read_done(text: String, config: Option<&Configuration>) -> (t: Transition)
    ensures
        t@ == after_read(text@, config_view(config)),
{
    if is_blank_text(text.as_str()) {
        return Transition {
            stage: Stage::Idle,
            action: Action::Nothing,
            notice: Some(Notice::CopyTextFirst),
            outcome: Outcome::Skipped,
        };
    }
    match config {
        None => fail(PipelineError::StatePoisoned),
        Some(c) => {
            if !c.has_model() {
                Transition {
                    stage: Stage::Idle,
                    action: Action::Nothing,
                    notice: Some(Notice::NoModel),
                    outcome: Outcome::Failed { error: PipelineError::Configuration },
                }
            } else {
                let model = c.get_model();
                let template = c.get_instruction_template();
                let request = build_request(text.as_str(), model.as_str(), template.as_str());
                Transition {
                    stage: Stage::Enhancing,
                    action: Action::Enhance { request },
                    notice: None,
                    outcome: Outcome::Pending,
                }
            }
        },
    }
}

/// Answers one event for the run at `stage`. `config` is the configuration
/// store, or `None` where it could not be read; it is consulted only when
/// the clipboard has given text to work on.
pub fn advance(stage: Stage, event: Event, config: Option<&Configuration>) -> (t: Transition)
    ensures
        t@ == next(stage, event@, config_view(config)),
{
    match event {
        Event::Hotkey { combination, pressed } => {
            if stage == Stage::Idle && is_trigger(combination.as_str(), pressed) {
                Transition {
                    stage: Stage::Reading,
                    action: Action::ReadClipboard,
                    notice: Some(Notice::Processing),
                    outcome: Outcome::Pending,
                }
            } else {
                ignore(stage)
            }
        },
        Event::ClipboardRead { text } => {
            if stage == Stage::Reading {
                match text {
                    Ok(text) => read_done(text, config),
                    Err(message) => Transition {
                        stage: Stage::Idle,
                        action: Action::Nothing,
                        notice: Some(Notice::CopyTextFirst),
                        outcome: Outcome::Failed {
                            error: PipelineError::Clipboard {
                                operation: ClipboardOperation::Read,
                                message,
                            },
                        },
                    },
                }
            } else {
                ignore(stage)
            }
        },
        Event::Enhanced { result } => {
            if stage == Stage::Enhancing {
                match result {
                    Ok(text) => Transition {
                        stage: Stage::Writing,
                        action: Action::WriteClipboard { text },
                        notice: None,
                        outcome: Outcome::Pending,
                    },
                    Err(cause) => fail(PipelineError::Inference { cause }),
                }
            } else {
                ignore(stage)
            }
        },
        Event::ClipboardWritten { result } => {
            if stage == Stage::Writing {
                match result {
                    Ok(_) => Transition {
                        stage: Stage::Idle,
                        action: Action::Nothing,
                        notice: Some(Notice::Success),
                        outcome: Outcome::Completed,
                    },
                    Err(message) => fail(
                        PipelineError::Clipboard { operation: ClipboardOperation::Write, message },
                    ),
                }
            } else {
                ignore(stage)
            }
        },
    }
}

/// A clipboard that is empty or holds only white space ends the run at once:
/// no request is sent, nothing is written, the user is told to copy text, and
/// the run is not counted as failed.
pub proof fn blank_clipboard_ends_the_run(text: Seq<char>, config: Option<ConfigurationView>)
    requires
        is_blank(text),
    ensures
        next(Stage::Reading, EventView::ClipboardRead { text: Ok(text) }, config) == (TransitionView {
            stage: Stage::Idle,
            action: ActionView::Nothing,
            notice: Some(NoticeView::CopyTextFirst),
            outcome: OutcomeView::Skipped,
        }),
{
}

/// A request goes to the server only for clipboard text that is not blank,
/// under a configuration that names a model; it names that model and carries
/// the prompt rendered from the template in force.
pub proof fn request_needs_text_and_model(
    stage: Stage,
    event: EventView,
    config: Option<ConfigurationView>,
)
    requires
        next(stage, event, config).action is Enhance,
    ensures
        stage == Stage::Reading,
        event matches EventView::ClipboardRead { text: Ok(text) } && !is_blank(text) && (
        config matches Some(c) && c.has_model() && next(stage, event, config).action == (
        ActionView::Enhance { request: request_for(text, c.active_model, c.template()) })),
{
}

/// The clipboard is written only while enhancing, and only with the text
/// that the server returned, as it came.
pub proof fn only_the_answer_is_written(
    stage: Stage,
    event: EventView,
    config: Option<ConfigurationView>,
)
    requires
        next(stage, event, config).action is WriteClipboard,
    ensures
        stage == Stage::Enhancing,
        event matches EventView::Enhanced { result: Ok(text) } && next(
            stage,
            event,
            config,
        ).action == (ActionView::WriteClipboard { text }),
{
}

/// A run that has ended, in success or failure, is idle, asks for nothing
/// more and tells the user so; a run that goes on is not idle and asks for an
/// action; an event that is not for the run leaves it where it was; and only
/// a run that is under way can fail.
pub proof fn runs_end_idle(stage: Stage, event: EventView, config: Option<ConfigurationView>)
    ensures
        match next(stage, event, config).outcome {
            OutcomeView::Pending => {
                &&& next(stage, event, config).stage != Stage::Idle
                &&& next(stage, event, config).action != ActionView::Nothing
            },
            OutcomeView::Ignored => next(stage, event, config) == ignored(stage),
            OutcomeView::Skipped | OutcomeView::Completed => {
                &&& next(stage, event, config).stage == Stage::Idle
                &&& next(stage, event, config).action == ActionView::Nothing
                &&& next(stage, event, config).notice is Some
            },
            OutcomeView::Failed { error } => {
                &&& next(stage, event, config).stage == Stage::Idle
                &&& next(stage, event, config).action == ActionView::Nothing
                &&& next(stage, event, config).notice is Some
                &&& stage != Stage::Idle
            },
        },
{
}

/// Key events other than the registered shortcut being pressed start
/// nothing, and a shortcut that arrives while a run is under way does not
/// disturb it.
pub proof fn other_keys_start_nothing(
    stage: Stage,
    combination: Seq<char>,
    pressed: bool,
    config: Option<ConfigurationView>,
)
    requires
        stage != Stage::Idle || !triggers(combination, pressed),
    ensures
        next(stage, EventView::Hotkey { combination, pressed }, config) == ignored(stage),
{
}

/// A failed exchange ends the run with the clipboard untouched: no write is
/// asked for, and the user is told what the error says.
pub proof fn failed_exchange_leaves_clipboard(
    cause: InferenceErrorView,
    config: Option<ConfigurationView>,
)
    ensures
        next(Stage::Enhancing, EventView::Enhanced { result: Err(cause) }, config) == failed(
            PipelineErrorView::Inference { cause },
        ),
        failed(PipelineErrorView::Inference { cause }).action == ActionView::Nothing,
        failed(PipelineErrorView::Inference { cause }).stage == Stage::Idle,
{
}

/// The stage of a run that started idle and has answered `events` in order,
/// each under the configuration of its moment.
pub open spec fn stage_after(
    events: Seq<EventView>,
    configs: Seq<Option<ConfigurationView>>,
) -> Stage
    recommends
        configs.len() == events.len(),
    decreases events.len(),
{
    if events.len() == 0 {
        Stage::Idle
    } else {
        next(
            stage_after(events.drop_last(), configs.drop_last()),
            events.last(),
            configs.last(),
        ).stage
    }
}

/// The action that answers the event at position `i` of such a run.
pub open spec fn action_at(
    events: Seq<EventView>,
    configs: Seq<Option<ConfigurationView>>,
    i: int,
) -> ActionView
    recommends
        configs.len() == events.len(),
        0 <= i < events.len(),
{
    next(stage_after(events.subrange(0, i), configs.subrange(0, i)), events[i], configs[i]).action
}

/// Whether every clipboard read among `events` found nothing but white
/// space, or failed.
pub open spec fn clipboard_stays_blank(events: Seq<EventView>) -> bool {
    forall|i: int|
        0 <= i < events.len() ==> (#[trigger] events[i] matches EventView::ClipboardRead {
            text: Ok(text),
        } ==> is_blank(text))
}

proof fn blank_runs_stay_before_enhancing(
    events: Seq<EventView>,
    configs: Seq<Option<ConfigurationView>>,
)
    requires
        configs.len() == events.len(),
        clipboard_stays_blank(events),
    ensures
        stage_after(events, configs) == Stage::Idle || stage_after(events, configs)
            == Stage::Reading,
    decreases events.len(),
{
    if events.len() > 0 {
        let earlier = events.drop_last();
        assert forall|i: int| 0 <= i < earlier.len() implies (#[trigger] earlier[i] matches EventView::ClipboardRead {
            text: Ok(text),
        } ==> is_blank(text)) by {
            assert(earlier[i] == events[i]);
        }
        blank_runs_stay_before_enhancing(earlier, configs.drop_last());
        assert(events.last() == events[events.len() - 1]);
    }
}

/// However many key presses and reports arrive, and whatever is configured
/// when: as long as the clipboard holds nothing but white space, no request
/// is ever sent to the server and nothing is ever written to the clipboard.
pub proof fn blank_clipboard_never_reaches_the_server(
    events: Seq<EventView>,
    configs: Seq<Option<ConfigurationView>>,
)
    requires
        configs.len() == events.len(),
        clipboard_stays_blank(events),
    ensures
        forall|i: int|
            0 <= i < events.len() ==> !(#[trigger] action_at(events, configs, i) is Enhance)
                && !(action_at(events, configs, i) is WriteClipboard),
{
    assert forall|i: int| 0 <= i < events.len() implies !(#[trigger] action_at(events, configs, i)
        is Enhance) && !(action_at(events, configs, i) is WriteClipboard) by {
        let earlier = events.subrange(0, i);
        assert forall|j: int| 0 <= j < earlier.len() implies (#[trigger] earlier[j] matches EventView::ClipboardRead {
            text: Ok(text),
        } ==> is_blank(text)) by {
            assert(earlier[j] == events[j]);
        }
        blank_runs_stay_before_enhancing(earlier, configs.subrange(0, i));
    }
}

} // verus!
