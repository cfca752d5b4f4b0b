//! The runtime commands, their handlers and the dispatcher.
//!
//! [`RuntimeCommand::run`] checks that the command is allowed and begins it.
//! A command that has to wait for the player or for a collaborator stops
//! with a request; [`Pending::resume`] takes it up again with the reply.
//! What both do is said once, over plain sequences, by
//! [`RuntimeCommand::began`] and [`resumed`].

use vstd::prelude::*;
use crate::channels::{boxes, next_stop, tick_boxes, walk, walked};
use crate::exchange::{
    failure, outcome_of, result_of, Outcome, Pending, PendingView, Reply, ReplyView, Request,
    RequestView, Step, StepView,
};
use crate::outcome::{
    CommandError, CommandErrorView, CommandResult, CommandResultView, GameLoopResult,
};
use crate::paging::{labels, page_count, page_labels, page_text, read_page};
use crate::session::{file_names, Manifest, Resources, ResourcesView, Session, SessionView};
use crate::text::{comma_list, copy_list, join_range, joined, lemma_pushed};

verus! {

/// A command that the player can give outside the story.
#[derive(Clone, Copy, Debug, PartialEq, Eq, Structural)]
pub enum RuntimeCommand {
    /// Try going back a choice.
    Back,
    /// Manage the display language.
    Lang,
    /// Display an info page.
    Info,
    /// Display an action log page.
    Log,
    /// Manage sound effects and music channels.
    Sound,
    /// Save the player data.
    Save,
    /// Save and quit the game.
    Quit,
    /// Display debug info about a prompt.
    Prompt,
    /// List the currently applied notes.
    Notes,
    /// List the currently applied variable names and their values.
    Variables,
}

/// Who may give a command.
#[derive(Clone, Copy, Debug, PartialEq, Eq, Structural)]
pub enum Access {
    /// Every player.
    Normal,
    /// Only a player of a game in debug mode.
    DebugOnly,
}

/// What one call of the dispatcher comes to: the outcome that it returns and
/// the session that it leaves.
pub struct Turn {
    pub outcome: Outcome,
    pub session: SessionView,
}

/// The turn that fails with `message` and leaves the session as it is.
pub open spec fn refused(message: Seq<char>, session: SessionView) -> Turn {
    Turn { outcome: failure(message), session }
}

/// The turn that ends the command with `result`.
pub open spec fn finished(result: CommandResultView, session: SessionView) -> Turn {
    Turn { outcome: Ok(StepView::Finished(result)), session }
}

/// The turn that stops with `request`, to be resumed from `pending`.
pub open spec fn waiting(request: RequestView, pending: PendingView, session: SessionView) -> Turn {
    Turn { outcome: Ok(StepView::Perform(request, pending)), session }
}

/// The result after which the player is asked again.
pub open spec fn retry() -> CommandResultView {
    CommandResultView::Submit(GameLoopResult::Retry(true))
}

/// Going back: with more than one choice in the history the latest is
/// taken off and the story goes on; otherwise nothing changes.
pub open spec fn back_turn(session: SessionView) -> Turn {
    if session.history.len() <= 1 {
        refused("Can't go back right now!"@, session)
    } else {
        finished(
            CommandResultView::Submit(GameLoopResult::Continue),
            SessionView { history: session.history.drop_last(), ..session },
        )
    }
}

/// The language question: one of the languages that have a translation.
pub open spec fn lang_outcome(translations: Seq<Seq<char>>) -> Outcome {
    if translations.len() == 0 {
        failure("No display languages loaded"@)
    } else {
        Ok(
            StepView::Perform(
                RequestView::Select { title: "Select a language"@, choices: translations },
                PendingView::Language,
            ),
        )
    }
}

/// The info page question: one of the pages that the player has unlocked.
pub open spec fn info_outcome(unlocked: Seq<Seq<char>>) -> Outcome {
    if unlocked.len() == 0 {
        failure("No info pages unlocked"@)
    } else {
        Ok(
            StepView::Perform(
                RequestView::Select { title: "Select an info page"@, choices: unlocked },
                PendingView::InfoPage,
            ),
        )
    }
}

/// The log question: one of the pages of the log, each under its label.
pub open spec fn log_outcome(log: Seq<Seq<char>>) -> Outcome {
    if log.len() == 0 {
        failure("No log entries to display"@)
    } else {
        Ok(
            StepView::Perform(
                RequestView::RawSelect { title: "Log page"@, choices: labels(log) },
                PendingView::LogPage,
            ),
        )
    }
}

/// The channel question: every channel of the audio subsystem, ticked if
/// the session has it switched on.
pub open spec fn sound_outcome(channels: Seq<Seq<char>>, audio: Option<Seq<Seq<char>>>) -> Outcome {
    match audio {
        None => failure("No sound channels loaded"@),
        Some(known) => Ok(
            StepView::Perform(
                RequestView::MultiSelect {
                    title: "Select sound channels"@,
                    boxes: boxes(known, channels),
                },
                PendingView::Channels,
            ),
        ),
    }
}

/// The request to save: into the session's own slot, and not silently.
pub open spec fn save_outcome() -> Outcome {
    Ok(StepView::Perform(RequestView::Save { slot: None, silent: false }, PendingView::Saving))
}

/// The prompt file question: one of the prompt files.
pub open spec fn prompt_outcome(prompts: Seq<(Seq<char>, Seq<Seq<char>>)>) -> Outcome {
    Ok(
        StepView::Perform(
            RequestView::Select { title: "Prompt file"@, choices: file_names(prompts) },
            PendingView::PromptFile,
        ),
    )
}

/// The list of notes: the notes in their order, with ", " between them.
pub open spec fn notes_result(notes: Seq<Seq<char>>) -> Result<CommandResultView, CommandErrorView> {
    if notes.len() == 0 {
        Err(CommandErrorView::CommandFailed("No notes applied"@))
    } else {
        Ok(CommandResultView::Output(joined(notes, ", "@)))
    }
}

/// The line that shows one variable.
pub open spec fn variable_line(variable: (Seq<char>, Seq<char>)) -> Seq<char> {
    variable.0 + ": "@ + variable.1
}

/// The lines that show the variables, in their order.
pub open spec fn variable_lines(variables: Seq<(Seq<char>, Seq<char>)>) -> Seq<Seq<char>> {
    Seq::new(variables.len(), |i: int| variable_line(variables[i]))
}

/// The list of variables: an empty line, then one line for each variable.
pub open spec fn variables_result(variables: Seq<(Seq<char>, Seq<char>)>) -> Result<
    CommandResultView,
    CommandErrorView,
> {
    if variables.len() == 0 {
        Err(CommandErrorView::CommandFailed("No variables applied"@))
    } else {
        Ok(CommandResultView::Output("\n"@ + joined(variable_lines(variables), "\n"@)))
    }
}

/// A handler's result as the turn of a command that changes nothing.
pub open spec fn at_once(
    result: Result<CommandResultView, CommandErrorView>,
    session: SessionView,
) -> Turn {
    match result {
        Ok(done) => finished(done, session),
        Err(error) => Turn { outcome: Err(error), session },
    }
}

/// The turn of a reply that does not answer what was asked: the command
/// fails and the session stays as it is.
pub open spec fn misfit(session: SessionView) -> Turn {
    refused("Unexpected reply"@, session)
}

/// The text of the first page among `pages`, from position `from` on, whose
/// identifier is `id`.
pub open spec fn content_from(pages: Seq<(Seq<char>, Seq<char>)>, id: Seq<char>, from: int) -> Option<
    Seq<char>,
>
    decreases pages.len() - from,
{
    if from < 0 || from >= pages.len() {
        None
    } else if pages[from].0 == id {
        Some(pages[from].1)
    } else {
        content_from(pages, id, from + 1)
    }
}

/// The picked language becomes the session's language.
pub open spec fn language_turn(index: nat, session: SessionView, resources: ResourcesView) -> Turn {
    if index < resources.translations.len() {
        finished(retry(), SessionView { lang: resources.translations[index as int], ..session })
    } else {
        misfit(session)
    }
}

/// The picked info page is to be shown, if the game has loaded it.
pub open spec fn page_outcome(
    index: nat,
    unlocked: Seq<Seq<char>>,
    pages: Seq<(Seq<char>, Seq<char>)>,
) -> Outcome {
    if index < unlocked.len() {
        match content_from(pages, unlocked[index as int], 0) {
            Some(content) => Ok(
                StepView::Perform(RequestView::Render { content }, PendingView::Rendering),
            ),
            None => failure("Info page not found"@),
        }
    } else {
        failure("Unexpected reply"@)
    }
}

/// The picked page of the log is the command's output.
pub open spec fn log_page_outcome(index: nat, log: Seq<Seq<char>>) -> Outcome {
    if index < page_count(log.len()) {
        Ok(StepView::Finished(CommandResultView::Output(page_text(log, index as int))))
    } else {
        failure("Unexpected reply"@)
    }
}

/// One walk over the known channels from position `from`: the channels
/// that it passes are switched, and it halts to have the player of a
/// channel stopped that it has just switched off, or ends the command.
pub open spec fn walk_turn(
    ticked: Seq<Seq<char>>,
    from: nat,
    session: SessionView,
    resources: ResourcesView,
) -> Turn {
    match resources.audio {
        None => refused("No sound channels loaded"@, session),
        Some(known) => if from <= known.len() {
            let halt = next_stop(session.channels, known, ticked, from as int);
            let after = SessionView {
                channels: walked(session.channels, known, ticked, from as int),
                ..session
            };
            if halt < known.len() {
                waiting(
                    RequestView::StopChannel { channel: known[halt] },
                    PendingView::Stopping { ticked, next: (halt + 1) as nat },
                    after,
                )
            } else {
                finished(retry(), after)
            }
        } else {
            misfit(session)
        },
    }
}

/// The title of the question for a prompt of `file`.
pub open spec fn prompt_title(file: Seq<char>) -> Seq<char> {
    "Prompt in '"@ + file + "'"@
}

/// The prompt question: one of the prompts of the picked file.
pub open spec fn file_outcome(index: nat, prompts: Seq<(Seq<char>, Seq<Seq<char>>)>) -> Outcome {
    if index < prompts.len() {
        Ok(
            StepView::Perform(
                RequestView::Select {
                    title: prompt_title(prompts[index as int].0),
                    choices: prompts[index as int].1,
                },
                PendingView::PromptName { file: index },
            ),
        )
    } else {
        failure("Unexpected reply"@)
    }
}

/// The picked prompt of the file at position `file` is to be described.
pub open spec fn name_outcome(
    file: nat,
    index: nat,
    prompts: Seq<(Seq<char>, Seq<Seq<char>>)>,
) -> Outcome {
    if file < prompts.len() && index < prompts[file as int].1.len() {
        Ok(
            StepView::Perform(
                RequestView::DescribePrompt {
                    file: prompts[file as int].0,
                    prompt: prompts[file as int].1[index as int],
                },
                PendingView::Describing,
            ),
        )
    } else {
        failure("Unexpected reply"@)
    }
}

/// What resuming a command with a reply comes to. A failure of the caller's
/// work is the command's failure, with the same message; a reply of
/// another kind than the one awaited is a misfit.
pub open spec fn resumed(
    pending: PendingView,
    reply: ReplyView,
    session: SessionView,
    resources: ResourcesView,
) -> Turn {
    match (pending, reply) {
        (_, ReplyView::Failed(message)) => refused(message, session),
        (PendingView::Language, ReplyView::Picked(index)) => language_turn(
            index,
            session,
            resources,
        ),
        (PendingView::InfoPage, ReplyView::Picked(index)) => Turn {
            outcome: page_outcome(index, session.info_pages, resources.info_pages),
            session,
        },
        (PendingView::Rendering, ReplyView::Done) => finished(retry(), session),
        (PendingView::LogPage, ReplyView::Picked(index)) => Turn {
            outcome: log_page_outcome(index, session.log),
            session,
        },
        (PendingView::Channels, ReplyView::PickedMany(ticked)) => walk_turn(
            ticked,
            0,
            session,
            resources,
        ),
        (PendingView::Stopping { ticked, next }, ReplyView::Done) => walk_turn(
            ticked,
            next,
            session,
            resources,
        ),
        (PendingView::Saving, ReplyView::Done) => finished(
            CommandResultView::Output("Saving... "@),
            session,
        ),
        (PendingView::PromptFile, ReplyView::Picked(index)) => Turn {
            outcome: file_outcome(index, resources.prompts),
            session,
        },
        (PendingView::PromptName { file }, ReplyView::Picked(index)) => Turn {
            outcome: name_outcome(file, index, resources.prompts),
            session,
        },
        (PendingView::Describing, ReplyView::Text(text)) => finished(
            CommandResultView::Output(text),
            session,
        ),
        _ => misfit(session),
    }
}

impl RuntimeCommand {
    /// The table of who may give which command.
    pub open spec fn access(self) -> Access {
        match self {
            RuntimeCommand::Back => Access::Normal,
            RuntimeCommand::Lang => Access::Normal,
            RuntimeCommand::Info => Access::Normal,
            RuntimeCommand::Log => Access::Normal,
            RuntimeCommand::Sound => Access::Normal,
            RuntimeCommand::Save => Access::Normal,
            RuntimeCommand::Quit => Access::Normal,
            RuntimeCommand::Prompt => Access::DebugOnly,
            RuntimeCommand::Notes => Access::DebugOnly,
            RuntimeCommand::Variables => Access::DebugOnly,
        }
    }

    /// The word by which the player gives the command.
    pub open spec fn word(self) -> Seq<char> {
        match self {
            RuntimeCommand::Back => "back"@,
            RuntimeCommand::Lang => "lang"@,
            RuntimeCommand::Info => "info"@,
            RuntimeCommand::Log => "log"@,
            RuntimeCommand::Sound => "sound"@,
            RuntimeCommand::Save => "save"@,
            RuntimeCommand::Quit => "quit"@,
            RuntimeCommand::Prompt => "prompt"@,
            RuntimeCommand::Notes => "notes"@,
            RuntimeCommand::Variables => "variables"@,
        }
    }

    /// What beginning the command comes to once it is allowed.
    pub open spec fn handled(self, session: SessionView, resources: ResourcesView) -> Turn {
        match self {
            RuntimeCommand::Back => back_turn(session),
            RuntimeCommand::Lang => Turn { outcome: lang_outcome(resources.translations), session },
            RuntimeCommand::Info => Turn { outcome: info_outcome(session.info_pages), session },
            RuntimeCommand::Log => Turn { outcome: log_outcome(session.log), session },
            RuntimeCommand::Sound => Turn {
                outcome: sound_outcome(session.channels, resources.audio),
                session,
            },
            RuntimeCommand::Save => Turn { outcome: save_outcome(), session },
            RuntimeCommand::Quit => finished(
                CommandResultView::Submit(GameLoopResult::Shutdown(false)),
                session,
            ),
            RuntimeCommand::Prompt => Turn { outcome: prompt_outcome(resources.prompts), session },
            RuntimeCommand::Notes => at_once(notes_result(session.notes), session),
            RuntimeCommand::Variables => at_once(variables_result(session.variables), session),
        }
    }

    /// What running the command comes to: a command for debugging is
    /// refused outside debug mode, before any handler has run; any other is
    /// handled.
    pub open spec fn began(self, debug: bool, session: SessionView, resources: ResourcesView) -> Turn {
        if self.access() == Access::DebugOnly && !debug {
            Turn { outcome: Err(CommandErrorView::PermissionDenied), session }
        } else {
            self.handled(session, resources)
        }
    }

    /// The word by which the player gives the command.
    pub fn name(&self) -> (word: &'static str)
        ensures
            word@ == self.word(),
    {
        match self {
            RuntimeCommand::Back => "back",
            RuntimeCommand::Lang => "lang",
            RuntimeCommand::Info => "info",
            RuntimeCommand::Log => "log",
            RuntimeCommand::Sound => "sound",
            RuntimeCommand::Save => "save",
            RuntimeCommand::Quit => "quit",
            RuntimeCommand::Prompt => "prompt",
            RuntimeCommand::Notes => "notes",
            RuntimeCommand::Variables => "variables",
        }
    }

    /// The command that the player gives by `word`, letter for letter, if
    /// there is one.
    pub fn from_word(word: &str) -> (command: Option<RuntimeCommand>)
        ensures
            match command {
                Some(found) => found.word() == word@,
                None => forall|any: RuntimeCommand| any.word() != word@,
            },
    {
        let given = String::from_str(word);
        if spells(&given, "back") {
            Some(RuntimeCommand::Back)
        } else if spells(&given, "lang") {
            Some(RuntimeCommand::Lang)
        } else if spells(&given, "info") {
            Some(RuntimeCommand::Info)
        } else if spells(&given, "log") {
            Some(RuntimeCommand::Log)
        } else if spells(&given, "sound") {
            Some(RuntimeCommand::Sound)
        } else if spells(&given, "save") {
            Some(RuntimeCommand::Save)
        } else if spells(&given, "quit") {
            Some(RuntimeCommand::Quit)
        } else if spells(&given, "prompt") {
            Some(RuntimeCommand::Prompt)
        } else if spells(&given, "notes") {
            Some(RuntimeCommand::Notes)
        } else if spells(&given, "variables") {
            Some(RuntimeCommand::Variables)
        } else {
            None
        }
    }

    /// Determines if every player may give this command, also outside debug
    /// mode.
    pub fn is_normal(&self) -> (normal: bool)
        ensures
            normal == (self.access() == Access::Normal),
    {
        match self {
            RuntimeCommand::Back
            | RuntimeCommand::Lang
            | RuntimeCommand::Info
            | RuntimeCommand::Log
            | RuntimeCommand::Sound
            | RuntimeCommand::Save
            | RuntimeCommand::Quit => true,
            _ => false,
        }
    }

    /// Handles a [`Back`](RuntimeCommand::Back) command.
    pub fn back(session: &mut Session) -> (result: Result<CommandResult, CommandError>)
        ensures
            at_once(result_of(result), final(session)@) == back_turn(old(session)@),
            old(session)@.wf() ==> final(session)@.wf(),
    {
        if session.history.len() <= 1 {
            return Err(CommandError::failed("Can't go back right now!"));
        }
        session.history.pop();
        assert(session.history.deep_view() =~= old(session).history.deep_view().drop_last());
        Ok(CommandResult::Submit(GameLoopResult::Continue))
    }

    /// Handles a [`Lang`](RuntimeCommand::Lang) command: asks for one of the
    /// languages.
    pub fn lang(translations: &Vec<String>) -> (result: Result<Step, CommandError>)
        ensures
            outcome_of(result) == lang_outcome(translations.deep_view()),
    {
        if translations.len() == 0 {
            return Err(CommandError::failed("No display languages loaded"));
        }
        Ok(
            Step::Perform(
                Request::Select {
                    title: String::from_str("Select a language"),
                    choices: copy_list(translations),
                },
                Pending::Language,
            ),
        )
    }

    /// Handles an [`Info`](RuntimeCommand::Info) command: asks for one of
    /// the unlocked pages.
    pub fn info(unlocked_pages: &Vec<String>) -> (result: Result<Step, CommandError>)
        ensures
            outcome_of(result) == info_outcome(unlocked_pages.deep_view()),
    {
        if unlocked_pages.len() == 0 {
            return Err(CommandError::failed("No info pages unlocked"));
        }
        Ok(
            Step::Perform(
                Request::Select {
                    title: String::from_str("Select an info page"),
                    choices: copy_list(unlocked_pages),
                },
                Pending::InfoPage,
            ),
        )
    }

    /// Handles a [`Log`](RuntimeCommand::Log) command: asks for one of the
    /// pages of the log.
    pub fn log(log: &Vec<String>) -> (result: Result<Step, CommandError>)
        ensures
            outcome_of(result) == log_outcome(log.deep_view()),
    {
        if log.len() == 0 {
            return Err(CommandError::failed("No log entries to display"));
        }
        Ok(
            Step::Perform(
                Request::RawSelect {
                    title: String::from_str("Log page"),
                    choices: page_labels(log),
                },
                Pending::LogPage,
            ),
        )
    }

    /// Handles a [`Sound`](RuntimeCommand::Sound) command: asks which
    /// channels to keep on.
    pub fn sound(session: &Session, audio: &Option<Vec<String>>) -> (result: Result<
        Step,
        CommandError,
    >)
        ensures
            outcome_of(result) == sound_outcome(session@.channels, audio.deep_view()),
    {
        match audio {
            None => Err(CommandError::failed("No sound channels loaded")),
            Some(known) => Ok(
                Step::Perform(
                    Request::MultiSelect {
                        title: String::from_str("Select sound channels"),
                        boxes: tick_boxes(known, &session.channels),
                    },
                    Pending::Channels,
                ),
            ),
        }
    }

    /// Handles a [`Prompt`](RuntimeCommand::Prompt) command: asks for one of
    /// the prompt files.
    pub fn prompt(prompts: &Vec<(String, Vec<String>)>) -> (result: Result<Step, CommandError>)
        ensures
            outcome_of(result) == prompt_outcome(prompts.deep_view()),
    {
        let mut names: Vec<String> = Vec::new();
        let mut i: usize = 0;
        while i < prompts.len()
            invariant
                i <= prompts.len(),
                names.len() == i,
                names.deep_view() == file_names(prompts.deep_view()).take(i as int),
            decreases prompts.len() - i,
        {
            let ghost before = names;
            names.push(prompts[i].0.clone());
            proof {
                lemma_pushed(before, names, prompts[i as int].0);
                assert(names.deep_view() =~= file_names(prompts.deep_view()).take(i + 1));
            }
            i = i + 1;
        }
        assert(file_names(prompts.deep_view()).take(i as int) =~= file_names(prompts.deep_view()));
        Ok(
            Step::Perform(
                Request::Select { title: String::from_str("Prompt file"), choices: names },
                Pending::PromptFile,
            ),
        )
    }

    /// Handles a [`Notes`](RuntimeCommand::Notes) command.
    pub fn notes(session: &Session) -> (result: Result<CommandResult, CommandError>)
        ensures
            result_of(result) == notes_result(session@.notes),
    {
        if session.notes.len() == 0 {
            return Err(CommandError::failed("No notes applied"));
        }
        Ok(CommandResult::Output(comma_list(&session.notes)))
    }

    /// Handles a [`Variables`](RuntimeCommand::Variables) command.
    pub fn variables(session: &Session) -> (result: Result<CommandResult, CommandError>)
        ensures
            result_of(result) == variables_result(session@.variables),
    {
        if session.variables.len() == 0 {
            return Err(CommandError::failed("No variables applied"));
        }
        let mut lines: Vec<String> = Vec::new();
        let mut i: usize = 0;
        while i < session.variables.len()
            invariant
                i <= session.variables.len(),
                lines.len() == i,
                lines.deep_view() == variable_lines(session@.variables).take(i as int),
            decreases session.variables.len() - i,
        {
            let ghost before = lines;
            let mut line = session.variables[i].0.clone();
            line.append(": ");
            line.append(session.variables[i].1.as_str());
            lines.push(line);
            proof {
                lemma_pushed(before, lines, line);
                assert(lines.deep_view() =~= variable_lines(session@.variables).take(i + 1));
            }
            i = i + 1;
        }
        assert(variable_lines(session@.variables).take(i as int) =~= variable_lines(
            session@.variables,
        ));
        assert(lines.deep_view().subrange(0, lines.len() as int) =~= lines.deep_view());
        let mut text = String::from_str("\n");
        text.append(join_range(&lines, 0, lines.len(), "\n").as_str());
        Ok(CommandResult::Output(text))
    }

    /// Executes a runtime command if the player has permission to do so.
    ///
    /// Returns the command's result, or the request that the caller has to
    /// carry out before the command can go on. On an error the caller shows
    /// the message and asks the player again.
    pub fn run(&self, config: &Manifest, session: &mut Session, resources: &Resources) -> (result:
        Result<Step, CommandError>)
        ensures
            outcome_of(result) == self.began(
                config.settings.debug,
                old(session)@,
                resources@,
            ).outcome,
            final(session)@ == self.began(config.settings.debug, old(session)@, resources@).session,
            old(session)@.wf() ==> final(session)@.wf(),
    {
        if !self.is_normal() && !config.settings.debug {
            return Err(CommandError::PermissionDenied);
        }
        match self {
            RuntimeCommand::Back => {
                let done = RuntimeCommand::back(session)?;
                Ok(Step::Finished(done))
            },
            RuntimeCommand::Lang => RuntimeCommand::lang(&resources.translations),
            RuntimeCommand::Info => RuntimeCommand::info(&session.info_pages),
            RuntimeCommand::Log => RuntimeCommand::log(&session.log),
            RuntimeCommand::Sound => RuntimeCommand::sound(session, &resources.audio),
            RuntimeCommand::Save => Ok(
                Step::Perform(Request::Save { slot: None, silent: false }, Pending::Saving),
            ),
            RuntimeCommand::Quit => Ok(
                Step::Finished(CommandResult::Submit(GameLoopResult::Shutdown(false))),
            ),
            RuntimeCommand::Prompt => RuntimeCommand::prompt(&resources.prompts),
            RuntimeCommand::Notes => {
                let done = RuntimeCommand::notes(session)?;
                Ok(Step::Finished(done))
            },
            RuntimeCommand::Variables => {
                let done = RuntimeCommand::variables(session)?;
                Ok(Step::Finished(done))
            },
        }
    }
}


/// Whether `given` is `word`, letter for letter.
fn spells(given: &String, word: &str) -> (same: bool)
    ensures
        same == (given@ == word@),
{
    *given == String::from_str(word)
}

/// The failure of a reply that does not answer what was asked.
fn unexpected() -> (result: Result<Step, CommandError>)
    ensures
        outcome_of(result) == failure("Unexpected reply"@),
{
    Err(CommandError::failed("Unexpected reply"))
}

/// The command's end after which the player is asked again.
fn ask_again() -> (result: Result<Step, CommandError>)
    ensures
        outcome_of(result) == Ok::<StepView, CommandErrorView>(StepView::Finished(retry())),
{
    Ok(Step::Finished(CommandResult::retry()))
}

/// Makes the language at position `index` the session's language.
pub fn set_language(session: &mut Session, resources: &Resources, index: usize) -> (result: Result<
    Step,
    CommandError,
>)
    ensures
        outcome_of(result) == language_turn(index as nat, old(session)@, resources@).outcome,
        final(session)@ == language_turn(index as nat, old(session)@, resources@).session,
        old(session)@.wf() ==> final(session)@.wf(),
{
    if index >= resources.translations.len() {
        return unexpected();
    }
    session.lang = resources.translations[index].clone();
    ask_again()
}

/// The text of the first page among `pages` whose identifier is `id`.
pub fn find_page(pages: &Vec<(String, String)>, id: &String) -> (content: Option<String>)
    ensures
        content.deep_view() == content_from(pages.deep_view(), id@, 0),
{
    let mut i: usize = 0;
    while i < pages.len()
        invariant
            i <= pages.len(),
            content_from(pages.deep_view(), id@, 0) == content_from(
                pages.deep_view(),
                id@,
                i as int,
            ),
        decreases pages.len() - i,
    {
        if pages[i].0 == *id {
            return Some(pages[i].1.clone());
        }
        i = i + 1;
    }
    None
}

/// Has the unlocked page at position `index` shown.
pub fn open_page(unlocked_pages: &Vec<String>, pages: &Vec<(String, String)>, index: usize) -> (result:
    Result<Step, CommandError>)
    ensures
        outcome_of(result) == page_outcome(
            index as nat,
            unlocked_pages.deep_view(),
            pages.deep_view(),
        ),
{
    if index >= unlocked_pages.len() {
        return unexpected();
    }
    match find_page(pages, &unlocked_pages[index]) {
        Some(content) => Ok(Step::Perform(Request::Render { content }, Pending::Rendering)),
        None => Err(CommandError::failed("Info page not found")),
    }
}

/// Gives out the page of the log at position `index`.
pub fn open_log(log: &Vec<String>, index: usize) -> (result: Result<Step, CommandError>)
    ensures
        outcome_of(result) == log_page_outcome(index as nat, log.deep_view()),
{
    match read_page(log, index) {
        Some(text) => Ok(Step::Finished(CommandResult::Output(text))),
        None => unexpected(),
    }
}

/// Switches the known channels from position `from` on, up to the first
/// that was on and is switched off, whose player has to be stopped.
pub fn switch_channels(
    session: &mut Session,
    resources: &Resources,
    ticked: Vec<String>,
    from: usize,
) -> (result: Result<Step, CommandError>)
    ensures
        outcome_of(result) == walk_turn(
            ticked.deep_view(),
            from as nat,
            old(session)@,
            resources@,
        ).outcome,
        final(session)@ == walk_turn(
            ticked.deep_view(),
            from as nat,
            old(session)@,
            resources@,
        ).session,
        old(session)@.wf() ==> final(session)@.wf(),
{
    match &resources.audio {
        None => Err(CommandError::failed("No sound channels loaded")),
        Some(known) => {
            if from > known.len() {
                return unexpected();
            }
            let halt: usize = walk(&mut session.channels, known, &ticked, from);
            if halt < known.len() {
                Ok(
                    Step::Perform(
                        Request::StopChannel { channel: known[halt].clone() },
                        Pending::Stopping { ticked, next: halt + 1 },
                    ),
                )
            } else {
                ask_again()
            }
        },
    }
}

/// Asks for one of the prompts of the file at position `index`.
pub fn open_file(prompts: &Vec<(String, Vec<String>)>, index: usize) -> (result: Result<
    Step,
    CommandError,
>)
    ensures
        outcome_of(result) == file_outcome(index as nat, prompts.deep_view()),
{
    if index >= prompts.len() {
        return unexpected();
    }
    let mut title = String::from_str("Prompt in '");
    title.append(prompts[index].0.as_str());
    title.append("'");
    Ok(
        Step::Perform(
            Request::Select { title, choices: copy_list(&prompts[index].1) },
            Pending::PromptName { file: index },
        ),
    )
}

/// Has the prompt at position `index` of the file at position `file`
/// described.
pub fn open_prompt(prompts: &Vec<(String, Vec<String>)>, file: usize, index: usize) -> (result:
    Result<Step, CommandError>)
    ensures
        outcome_of(result) == name_outcome(file as nat, index as nat, prompts.deep_view()),
{
    if file >= prompts.len() {
        return unexpected();
    }
    if index >= prompts[file].1.len() {
        return unexpected();
    }
    Ok(
        Step::Perform(
            Request::DescribePrompt {
                file: prompts[file].0.clone(),
                prompt: prompts[file].1[index].clone(),
            },
            Pending::Describing,
        ),
    )
}

impl Pending {
    /// Takes the command up again with the caller's reply.
    ///
    /// Returns the command's result, or the next request. On an error the
    /// command is over; what it had changed in the session before stays
    /// changed.
    pub fn resume(self, reply: Reply, session: &mut Session, resources: &Resources) -> (result:
        Result<Step, CommandError>)
        ensures
            outcome_of(result) == resumed(self@, reply@, old(session)@, resources@).outcome,
            final(session)@ == resumed(self@, reply@, old(session)@, resources@).session,
            old(session)@.wf() ==> final(session)@.wf(),
    {
        match (self, reply) {
            (_, Reply::Failed(message)) => Err(CommandError::CommandFailed(message)),
            (Pending::Language, Reply::Picked(index)) => set_language(session, resources, index),
            (Pending::InfoPage, Reply::Picked(index)) => open_page(
                &session.info_pages,
                &resources.info_pages,
                index,
            ),
            (Pending::Rendering, Reply::Done) => ask_again(),
            (Pending::LogPage, Reply::Picked(index)) => open_log(&session.log, index),
            (Pending::Channels, Reply::PickedMany(ticked)) => switch_channels(
                session,
                resources,
                ticked,
                0,
            ),
            (Pending::Stopping { ticked, next }, Reply::Done) => switch_channels(
                session,
                resources,
                ticked,
                next,
            ),
            (Pending::Saving, Reply::Done) => Ok(
                Step::Finished(CommandResult::Output(String::from_str("Saving... "))),
            ),
            (Pending::PromptFile, Reply::Picked(index)) => open_file(&resources.prompts, index),
            (Pending::PromptName { file }, Reply::Picked(index)) => open_prompt(
                &resources.prompts,
                file,
                index,
            ),
            (Pending::Describing, Reply::Text(text)) => Ok(
                Step::Finished(CommandResult::Output(text)),
            ),
            _ => unexpected(),
        }
    }
}

} // verus!
