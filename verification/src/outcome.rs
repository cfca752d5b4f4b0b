//! What a command hands back to the story loop, and how it can fail.

use vstd::prelude::*;

verus! {

/// The next action of the story loop once a command is done. What the flags
/// mean is the loop's business; the commands only pass them on.
#[derive(Clone, Copy, Debug, PartialEq, Eq, Structural)]
pub enum GameLoopResult {
    /// Go on with the story.
    Continue,
    /// Ask the player for input again.
    Retry(bool),
    /// Leave the game.
    Shutdown(bool),
}

/// The result of a runtime command.
#[derive(Clone, Debug, PartialEq, Eq)]
pub enum CommandResult {
    /// Hands the loop its next action.
    Submit(GameLoopResult),
    /// Text to show to the player. It carries no action of its own: the
    /// loop shows the text and then asks the player again.
    Output(String),
}

/// A [`CommandResult`] with its text as a sequence of characters.
pub enum CommandResultView {
    Submit(GameLoopResult),
    Output(Seq<char>),
}

impl View for CommandResult {
    type V = CommandResultView;

    open spec fn view(&self) -> CommandResultView {
        match *self {
            CommandResult::Submit(signal) => CommandResultView::Submit(signal),
            CommandResult::Output(text) => CommandResultView::Output(text@),
        }
    }
}

impl CommandResult {
    /// The result of a command after which the player is asked again.
    pub fn retry() -> (result: CommandResult)
        ensures
            result == CommandResult::Submit(GameLoopResult::Retry(true)),
    {
        CommandResult::Submit(GameLoopResult::Retry(true))
    }
}

/// Why a command did nothing, or stopped half way.
#[derive(Clone, Debug, PartialEq, Eq)]
pub enum CommandError {
    /// A debugging command was asked for outside debug mode.
    PermissionDenied,
    /// A handler found its precondition unmet, or a collaborator failed.
    CommandFailed(String),
}

/// A [`CommandError`] with its message as a sequence of characters.
pub enum CommandErrorView {
    PermissionDenied,
    CommandFailed(Seq<char>),
}

impl View for CommandError {
    type V = CommandErrorView;

    open spec fn view(&self) -> CommandErrorView {
        match *self {
            CommandError::PermissionDenied => CommandErrorView::PermissionDenied,
            CommandError::CommandFailed(message) => CommandErrorView::CommandFailed(message@),
        }
    }
}

impl CommandErrorView {
    /// The one line that the player reads.
    pub open spec fn message(self) -> Seq<char> {
        match self {
            CommandErrorView::PermissionDenied => "Unable to access debug commands"@,
            CommandErrorView::CommandFailed(message) => message,
        }
    }
}

impl CommandError {
    /// The one line that the player reads.
    pub fn message(&self) -> (line: String)
        ensures
            line@ == self@.message(),
    {
        match self {
            CommandError::PermissionDenied => String::from_str("Unable to access debug commands"),
            CommandError::CommandFailed(message) => message.clone(),
        }
    }

    /// A failure with `message` as its text.
    pub fn failed(message: &str) -> (error: CommandError)
        ensures
            error@ == CommandErrorView::CommandFailed(message@),
    {
        CommandError::CommandFailed(String::from_str(message))
    }
}

} // verus!
