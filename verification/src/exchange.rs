//! The conversation between the dispatcher and its caller.
//!
//! A command that needs the player to choose, or a collaborator to act,
//! stops with a [`Request`] and the [`Pending`] state to resume from. The
//! caller does what the request says and comes back with a [`Reply`].

use vstd::prelude::*;
use crate::outcome::{CommandResult, CommandResultView, CommandError, CommandErrorView};

verus! {

/// Work that only the caller can do.
#[derive(Clone, Debug, PartialEq, Eq)]
pub enum Request {
    /// Let the player pick one of `choices`.
    Select { title: String, choices: Vec<String> },
    /// Let the player pick one of `choices`, shown as a numbered list.
    RawSelect { title: String, choices: Vec<String> },
    /// Let the player tick any of `boxes`; the flag says which of them
    /// start ticked.
    MultiSelect { title: String, boxes: Vec<(String, bool)> },
    /// Show marked-up text to the player.
    Render { content: String },
    /// Stop the player of a channel that was on and has just been switched
    /// off, if it is playing.
    StopChannel { channel: String },
    /// Write the session through the save manager.
    Save { slot: Option<String>, silent: bool },
    /// Resolve a prompt and describe it for debugging.
    DescribePrompt { file: String, prompt: String },
}

/// A [`Request`] as sequences of characters.
pub enum RequestView {
    Select { title: Seq<char>, choices: Seq<Seq<char>> },
    RawSelect { title: Seq<char>, choices: Seq<Seq<char>> },
    MultiSelect { title: Seq<char>, boxes: Seq<(Seq<char>, bool)> },
    Render { content: Seq<char> },
    StopChannel { channel: Seq<char> },
    Save { slot: Option<Seq<char>>, silent: bool },
    DescribePrompt { file: Seq<char>, prompt: Seq<char> },
}

impl View for Request {
    type V = RequestView;

    open spec fn view(&self) -> RequestView {
        match *self {
            Request::Select { title, choices } => RequestView::Select {
                title: title@,
                choices: choices.deep_view(),
            },
            Request::RawSelect { title, choices } => RequestView::RawSelect {
                title: title@,
                choices: choices.deep_view(),
            },
            Request::MultiSelect { title, boxes } => RequestView::MultiSelect {
                title: title@,
                boxes: boxes.deep_view(),
            },
            Request::Render { content } => RequestView::Render { content: content@ },
            Request::StopChannel { channel } => RequestView::StopChannel { channel: channel@ },
            Request::Save { slot, silent } => RequestView::Save { slot: slot.deep_view(), silent },
            Request::DescribePrompt { file, prompt } => RequestView::DescribePrompt {
                file: file@,
                prompt: prompt@,
            },
        }
    }
}

/// What the caller brings back.
#[derive(Clone, Debug, PartialEq, Eq)]
pub enum Reply {
    /// The position, among the choices, of the one that the player picked.
    Picked(usize),
    /// The choices that the player left ticked.
    PickedMany(Vec<String>),
    /// The work is done.
    Done,
    /// The work is done, and this is the text it produced.
    Text(String),
    /// The work failed, with this message.
    Failed(String),
}

/// A [`Reply`] as sequences of characters.
pub enum ReplyView {
    Picked(nat),
    PickedMany(Seq<Seq<char>>),
    Done,
    Text(Seq<char>),
    Failed(Seq<char>),
}

impl View for Reply {
    type V = ReplyView;

    open spec fn view(&self) -> ReplyView {
        match *self {
            Reply::Picked(index) => ReplyView::Picked(index as nat),
            Reply::PickedMany(ticked) => ReplyView::PickedMany(ticked.deep_view()),
            Reply::Done => ReplyView::Done,
            Reply::Text(text) => ReplyView::Text(text@),
            Reply::Failed(message) => ReplyView::Failed(message@),
        }
    }
}

/// Where a command stopped to wait for its caller.
#[derive(Clone, Debug, PartialEq, Eq)]
pub enum Pending {
    /// The player is picking a language.
    Language,
    /// The player is picking an info page.
    InfoPage,
    /// The picked info page is being shown.
    Rendering,
    /// The player is picking a page of the log.
    LogPage,
    /// The player is ticking sound channels.
    Channels,
    /// The player of a channel that has just been switched off is being
    /// stopped: the channels before `next` have been switched, and `ticked`
    /// is what the player left ticked.
    Stopping { ticked: Vec<String>, next: usize },
    /// The session is being saved.
    Saving,
    /// The player is picking a prompt file.
    PromptFile,
    /// The player is picking a prompt of the file at position `file`.
    PromptName { file: usize },
    /// The picked prompt is being described.
    Describing,
}

/// A [`Pending`] as sequences of characters.
pub enum PendingView {
    Language,
    InfoPage,
    Rendering,
    LogPage,
    Channels,
    Stopping { ticked: Seq<Seq<char>>, next: nat },
    Saving,
    PromptFile,
    PromptName { file: nat },
    Describing,
}

impl View for Pending {
    type V = PendingView;

    open spec fn view(&self) -> PendingView {
        match *self {
            Pending::Language => PendingView::Language,
            Pending::InfoPage => PendingView::InfoPage,
            Pending::Rendering => PendingView::Rendering,
            Pending::LogPage => PendingView::LogPage,
            Pending::Channels => PendingView::Channels,
            Pending::Stopping { ticked, next } => PendingView::Stopping {
                ticked: ticked.deep_view(),
                next: next as nat,
            },
            Pending::Saving => PendingView::Saving,
            Pending::PromptFile => PendingView::PromptFile,
            Pending::PromptName { file } => PendingView::PromptName { file: file as nat },
            Pending::Describing => PendingView::Describing,
        }
    }
}

/// How far a command has come.
#[derive(Clone, Debug, PartialEq, Eq)]
pub enum Step {
    /// The command is done.
    Finished(CommandResult),
    /// The caller has work to do, and resumes from the pending state with
    /// the reply.
    Perform(Request, Pending),
}

/// A [`Step`] as sequences of characters.
pub enum StepView {
    Finished(CommandResultView),
    Perform(RequestView, PendingView),
}

impl View for Step {
    type V = StepView;

    open spec fn view(&self) -> StepView {
        match *self {
            Step::Finished(result) => StepView::Finished(result@),
            Step::Perform(request, pending) => StepView::Perform(request@, pending@),
        }
    }
}

/// What one call of the dispatcher gives: a step, or the failure.
pub type Outcome = Result<StepView, CommandErrorView>;

/// The outcome of a call, as sequences of characters.
pub open spec fn outcome_of(result: Result<Step, CommandError>) -> Outcome {
    match result {
        Ok(step) => Ok(step@),
        Err(error) => Err(error@),
    }
}

/// The outcome of a handler that never waits, as sequences of characters.
pub open spec fn result_of(result: Result<CommandResult, CommandError>) -> Result<
    CommandResultView,
    CommandErrorView,
> {
    match result {
        Ok(done) => Ok(done@),
        Err(error) => Err(error@),
    }
}

/// The outcome that fails with `message`.
pub open spec fn failure(message: Seq<char>) -> Outcome {
    Err(CommandErrorView::CommandFailed(message))
}

} // verus!
