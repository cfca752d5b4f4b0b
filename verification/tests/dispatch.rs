use runtime_commands::exchange::{Pending, Reply, Request, Step};
use runtime_commands::outcome::{CommandError, CommandResult, GameLoopResult};
use runtime_commands::runtime::RuntimeCommand;
use runtime_commands::session::{Manifest, Resources, Session, Settings};

fn manifest(debug: bool) -> Manifest {
    Manifest { settings: Settings { debug } }
}

fn strings(items: &[&str]) -> Vec<String> {
    items.iter().map(|s| s.to_string()).collect()
}

fn empty_resources() -> Resources {
    Resources { translations: vec![], info_pages: vec![], audio: None, prompts: vec![] }
}

fn busy_session() -> Session {
    Session {
        history: strings(&["start", "left", "door"]),
        lang: "en".to_string(),
        info_pages: strings(&["map", "bestiary"]),
        log: strings(&["You wake up.", "You go left."]),
        channels: strings(&["music"]),
        notes: strings(&["omen"]),
        variables: vec![("gold".to_string(), "12".to_string())],
    }
}

fn failed(message: &str) -> CommandError {
    CommandError::CommandFailed(message.to_string())
}

const ALL: [RuntimeCommand; 10] = [
    RuntimeCommand::Back,
    RuntimeCommand::Lang,
    RuntimeCommand::Info,
    RuntimeCommand::Log,
    RuntimeCommand::Sound,
    RuntimeCommand::Save,
    RuntimeCommand::Quit,
    RuntimeCommand::Prompt,
    RuntimeCommand::Notes,
    RuntimeCommand::Variables,
];

#[test]
fn seven_commands_are_normal_and_three_are_not() {
    let normal: Vec<bool> = ALL.iter().map(|c| c.is_normal()).collect();
    assert_eq!(normal, vec![true, true, true, true, true, true, true, false, false, false]);
}

#[test]
fn retry_asks_the_player_again() {
    assert_eq!(CommandResult::retry(), CommandResult::Submit(GameLoopResult::Retry(true)));
}

#[test]
fn debug_commands_are_refused_outside_debug_mode() {
    for command in [RuntimeCommand::Prompt, RuntimeCommand::Notes, RuntimeCommand::Variables] {
        let mut session = busy_session();
        let resources = empty_resources();
        let result = command.run(&manifest(false), &mut session, &resources);
        assert_eq!(result, Err(CommandError::PermissionDenied));
        assert_eq!(session, busy_session());
        assert_eq!(resources, empty_resources());
    }
}

#[test]
fn permission_denied_has_its_own_message() {
    assert_eq!(CommandError::PermissionDenied.message(), "Unable to access debug commands");
    assert_eq!(failed("No notes applied").message(), "No notes applied");
    assert_eq!(CommandError::failed("x"), failed("x"));
}

#[test]
fn normal_commands_do_not_need_debug_mode() {
    let mut session = busy_session();
    let result = RuntimeCommand::Quit.run(&manifest(false), &mut session, &empty_resources());
    assert!(result.is_ok());
    let result = RuntimeCommand::Back.run(&manifest(false), &mut session, &empty_resources());
    assert!(result.is_ok());
}

#[test]
fn back_fails_on_a_history_of_one() {
    let mut session = busy_session();
    session.history = strings(&["start"]);
    let before = session.clone();
    let result = RuntimeCommand::Back.run(&manifest(false), &mut session, &empty_resources());
    assert_eq!(result, Err(failed("Can't go back right now!")));
    assert_eq!(session, before);
}

#[test]
fn back_fails_on_an_empty_history() {
    let mut session = Session::new("en".to_string());
    let result = RuntimeCommand::back(&mut session);
    assert_eq!(result, Err(failed("Can't go back right now!")));
    assert!(session.history.is_empty());
}

#[test]
fn back_pops_exactly_one_entry() {
    let mut session = busy_session();
    let result = RuntimeCommand::Back.run(&manifest(false), &mut session, &empty_resources());
    assert_eq!(result, Ok(Step::Finished(CommandResult::Submit(GameLoopResult::Continue))));
    assert_eq!(session.history, strings(&["start", "left"]));
    let mut expected = busy_session();
    expected.history.pop();
    assert_eq!(session, expected);

    let result = RuntimeCommand::Back.run(&manifest(true), &mut session, &empty_resources());
    assert_eq!(result, Ok(Step::Finished(CommandResult::Submit(GameLoopResult::Continue))));
    assert_eq!(session.history, strings(&["start"]));
}

#[test]
fn quit_shuts_down_whatever_the_session_holds() {
    for debug in [false, true] {
        let mut session = busy_session();
        let result = RuntimeCommand::Quit.run(&manifest(debug), &mut session, &empty_resources());
        assert_eq!(result, Ok(Step::Finished(CommandResult::Submit(GameLoopResult::Shutdown(false)))));
        assert_eq!(session, busy_session());

        let mut blank = Session::new(String::new());
        let result = RuntimeCommand::Quit.run(&manifest(debug), &mut blank, &empty_resources());
        assert_eq!(result, Ok(Step::Finished(CommandResult::Submit(GameLoopResult::Shutdown(false)))));
        assert_eq!(blank, Session::new(String::new()));
    }
}

#[test]
fn save_asks_for_a_loud_save_into_the_own_slot() {
    for debug in [false, true] {
        let mut session = busy_session();
        let result = RuntimeCommand::Save.run(&manifest(debug), &mut session, &empty_resources());
        assert_eq!(
            result,
            Ok(Step::Perform(Request::Save { slot: None, silent: false }, Pending::Saving))
        );
        assert_eq!(session, busy_session());
    }
}

#[test]
fn save_reports_once_the_session_is_written() {
    let mut session = busy_session();
    let result = Pending::Saving.resume(Reply::Done, &mut session, &empty_resources());
    assert_eq!(result, Ok(Step::Finished(CommandResult::Output("Saving... ".to_string()))));
    assert_eq!(session, busy_session());
}

#[test]
fn save_fails_with_the_save_managers_message() {
    let mut session = busy_session();
    let result =
        Pending::Saving.resume(Reply::Failed("disk full".to_string()), &mut session, &empty_resources());
    assert_eq!(result, Err(failed("disk full")));
    assert_eq!(session, busy_session());
}

#[test]
fn notes_with_empty_set_fail() {
    let mut session = busy_session();
    session.notes.clear();
    let result = RuntimeCommand::Notes.run(&manifest(true), &mut session, &empty_resources());
    assert_eq!(result, Err(failed("No notes applied")));
}

#[test]
fn notes_are_joined_with_comma_and_space() {
    let mut session = busy_session();
    session.notes = strings(&["a", "b"]);
    let result = RuntimeCommand::Notes.run(&manifest(true), &mut session, &empty_resources());
    assert_eq!(result, Ok(Step::Finished(CommandResult::Output("a, b".to_string()))));
    session.notes = strings(&["x", "yy", "zzz"]);
    assert_eq!(RuntimeCommand::notes(&session), Ok(CommandResult::Output("x, yy, zzz".to_string())));
}

#[test]
fn notes_end_to_end() {
    let mut session = Session::new("en".to_string());
    session.notes = strings(&["omen"]);
    let before = session.clone();
    let denied = RuntimeCommand::Notes.run(&manifest(false), &mut session, &empty_resources());
    assert_eq!(denied, Err(CommandError::PermissionDenied));
    assert_eq!(session, before);
    let shown = RuntimeCommand::Notes.run(&manifest(true), &mut session, &empty_resources());
    assert_eq!(shown, Ok(Step::Finished(CommandResult::Output("omen".to_string()))));
    assert_eq!(session, before);
}

#[test]
fn variables_with_empty_map_fail() {
    let mut session = Session::new("en".to_string());
    let result = RuntimeCommand::Variables.run(&manifest(true), &mut session, &empty_resources());
    assert_eq!(result, Err(failed("No variables applied")));
}

#[test]
fn variables_are_listed_one_per_line_after_a_blank_line() {
    let mut session = Session::new("en".to_string());
    session.variables = vec![("x".to_string(), "1".to_string())];
    let result = RuntimeCommand::Variables.run(&manifest(true), &mut session, &empty_resources());
    assert_eq!(result, Ok(Step::Finished(CommandResult::Output("\nx: 1".to_string()))));

    session.variables.push(("name".to_string(), "Ada Lovelace".to_string()));
    session.variables.push(("empty".to_string(), String::new()));
    assert_eq!(
        RuntimeCommand::variables(&session),
        Ok(CommandResult::Output("\nx: 1\nname: Ada Lovelace\nempty: ".to_string()))
    );
}

#[test]
fn lang_without_translations_fails() {
    let mut session = busy_session();
    let result = RuntimeCommand::Lang.run(&manifest(false), &mut session, &empty_resources());
    assert_eq!(result, Err(failed("No display languages loaded")));
    assert_eq!(session, busy_session());
}

#[test]
fn lang_asks_and_then_sets_the_language() {
    let mut session = busy_session();
    let mut resources = empty_resources();
    resources.translations = strings(&["de", "en", "fr"]);
    let result = RuntimeCommand::Lang.run(&manifest(false), &mut session, &resources);
    assert_eq!(
        result,
        Ok(Step::Perform(
            Request::Select {
                title: "Select a language".to_string(),
                choices: strings(&["de", "en", "fr"]),
            },
            Pending::Language,
        ))
    );
    assert_eq!(session, busy_session());

    let result = Pending::Language.resume(Reply::Picked(2), &mut session, &resources);
    assert_eq!(result, Ok(Step::Finished(CommandResult::Submit(GameLoopResult::Retry(true)))));
    let mut expected = busy_session();
    expected.lang = "fr".to_string();
    assert_eq!(session, expected);
}

#[test]
fn lang_rejects_a_pick_outside_the_choices() {
    let mut session = busy_session();
    let mut resources = empty_resources();
    resources.translations = strings(&["de", "en"]);
    let result = Pending::Language.resume(Reply::Picked(2), &mut session, &resources);
    assert_eq!(result, Err(failed("Unexpected reply")));
    assert_eq!(session, busy_session());
}

#[test]
fn info_without_unlocked_pages_fails() {
    let mut session = busy_session();
    session.info_pages.clear();
    let mut resources = empty_resources();
    resources.info_pages = vec![("map".to_string(), "# Map".to_string())];
    let result = RuntimeCommand::Info.run(&manifest(false), &mut session, &resources);
    assert_eq!(result, Err(failed("No info pages unlocked")));
}

#[test]
fn info_asks_among_unlocked_pages_and_renders_the_pick() {
    let mut session = busy_session();
    let mut resources = empty_resources();
    resources.info_pages = vec![
        ("bestiary".to_string(), "# Beasts\n*none yet*".to_string()),
        ("secret".to_string(), "hidden".to_string()),
        ("map".to_string(), "# Map".to_string()),
    ];
    let result = RuntimeCommand::Info.run(&manifest(false), &mut session, &resources);
    assert_eq!(
        result,
        Ok(Step::Perform(
            Request::Select {
                title: "Select an info page".to_string(),
                choices: strings(&["map", "bestiary"]),
            },
            Pending::InfoPage,
        ))
    );
    let result = Pending::InfoPage.resume(Reply::Picked(1), &mut session, &resources);
    assert_eq!(
        result,
        Ok(Step::Perform(
            Request::Render { content: "# Beasts\n*none yet*".to_string() },
            Pending::Rendering,
        ))
    );
    let result = Pending::InfoPage.resume(Reply::Picked(0), &mut session, &resources);
    assert_eq!(
        result,
        Ok(Step::Perform(Request::Render { content: "# Map".to_string() }, Pending::Rendering))
    );
    let result = Pending::Rendering.resume(Reply::Done, &mut session, &resources);
    assert_eq!(result, Ok(Step::Finished(CommandResult::retry())));
    assert_eq!(session, busy_session());
}

#[test]
fn info_fails_on_a_page_that_was_never_loaded() {
    let mut session = busy_session();
    let mut resources = empty_resources();
    resources.info_pages = vec![("map".to_string(), "# Map".to_string())];
    let result = Pending::InfoPage.resume(Reply::Picked(1), &mut session, &resources);
    assert_eq!(result, Err(failed("Info page not found")));
    let result = Pending::InfoPage.resume(Reply::Picked(2), &mut session, &resources);
    assert_eq!(result, Err(failed("Unexpected reply")));
}

#[test]
fn log_with_an_empty_log_fails() {
    let mut session = busy_session();
    session.log.clear();
    let result = RuntimeCommand::Log.run(&manifest(false), &mut session, &empty_resources());
    assert_eq!(result, Err(failed("No log entries to display")));
}

fn numbered_log(entries: usize) -> Vec<String> {
    (0..entries).map(|i| format!("entry number {i}")).collect()
}

#[test]
fn log_offers_one_label_for_every_five_entries() {
    for (entries, pages) in [(1, 1), (4, 1), (5, 1), (6, 2), (10, 2), (11, 3), (23, 5)] {
        let mut session = busy_session();
        session.log = numbered_log(entries);
        let result = RuntimeCommand::Log.run(&manifest(false), &mut session, &empty_resources());
        match result {
            Ok(Step::Perform(Request::RawSelect { title, choices }, Pending::LogPage)) => {
                assert_eq!(title, "Log page");
                assert_eq!(choices.len(), pages);
                for (k, label) in choices.iter().enumerate() {
                    assert_eq!(*label, format!("entry number {}...", 5 * k));
                }
            }
            other => panic!("unexpected {other:?}"),
        }
    }
}

#[test]
fn log_label_shows_at_most_twenty_five_characters() {
    let mut session = busy_session();
    session.log = strings(&[
        "abcdefghijklmnopqrstuvwxyz0123456789",
        "b",
        "c",
        "d",
        "e",
        "exactly twenty-five chars",
        "g",
        "h",
        "i",
        "j",
        "äöü äöü äöü äöü äöü äöü äöü äöü",
    ]);
    let result = RuntimeCommand::log(&session.log);
    assert_eq!(
        result,
        Ok(Step::Perform(
            Request::RawSelect {
                title: "Log page".to_string(),
                choices: strings(&[
                    "abcdefghijklmnopqrstuvwxy...",
                    "exactly twenty-five chars...",
                    "äöü äöü äöü äöü äöü äöü ä...",
                ]),
            },
            Pending::LogPage,
        ))
    );
}

#[test]
fn log_page_joins_its_entries_with_a_blank_line() {
    let mut session = busy_session();
    session.log = numbered_log(12);
    let resources = empty_resources();
    let first = Pending::LogPage.resume(Reply::Picked(0), &mut session, &resources);
    assert_eq!(
        first,
        Ok(Step::Finished(CommandResult::Output(
            "entry number 0\n\nentry number 1\n\nentry number 2\n\nentry number 3\n\nentry number 4"
                .to_string()
        )))
    );
    let second = Pending::LogPage.resume(Reply::Picked(1), &mut session, &resources);
    assert_eq!(
        second,
        Ok(Step::Finished(CommandResult::Output(
            "entry number 5\n\nentry number 6\n\nentry number 7\n\nentry number 8\n\nentry number 9"
                .to_string()
        )))
    );
    let last = Pending::LogPage.resume(Reply::Picked(2), &mut session, &resources);
    assert_eq!(
        last,
        Ok(Step::Finished(CommandResult::Output("entry number 10\n\nentry number 11".to_string())))
    );
    let beyond = Pending::LogPage.resume(Reply::Picked(3), &mut session, &resources);
    assert_eq!(beyond, Err(failed("Unexpected reply")));
    assert_eq!(session.log, numbered_log(12));
}

#[test]
fn log_page_of_a_single_entry_is_that_entry() {
    let mut session = busy_session();
    session.log = strings(&["alone"]);
    let result = Pending::LogPage.resume(Reply::Picked(0), &mut session, &empty_resources());
    assert_eq!(result, Ok(Step::Finished(CommandResult::Output("alone".to_string()))));
    let result = Pending::LogPage.resume(Reply::Picked(usize::MAX), &mut session, &empty_resources());
    assert_eq!(result, Err(failed("Unexpected reply")));
}

#[test]
fn prompt_asks_for_a_file_then_a_prompt_then_a_description() {
    let mut session = busy_session();
    let mut resources = empty_resources();
    resources.prompts = vec![
        ("intro".to_string(), strings(&["wake", "look"])),
        ("cave".to_string(), strings(&["enter"])),
    ];
    let result = RuntimeCommand::Prompt.run(&manifest(true), &mut session, &resources);
    assert_eq!(
        result,
        Ok(Step::Perform(
            Request::Select { title: "Prompt file".to_string(), choices: strings(&["intro", "cave"]) },
            Pending::PromptFile,
        ))
    );
    let result = Pending::PromptFile.resume(Reply::Picked(0), &mut session, &resources);
    assert_eq!(
        result,
        Ok(Step::Perform(
            Request::Select {
                title: "Prompt in 'intro'".to_string(),
                choices: strings(&["wake", "look"]),
            },
            Pending::PromptName { file: 0 },
        ))
    );
    let result = Pending::PromptName { file: 0 }.resume(Reply::Picked(1), &mut session, &resources);
    assert_eq!(
        result,
        Ok(Step::Perform(
            Request::DescribePrompt { file: "intro".to_string(), prompt: "look".to_string() },
            Pending::Describing,
        ))
    );
    let result =
        Pending::Describing.resume(Reply::Text("look: 2 choices".to_string()), &mut session, &resources);
    assert_eq!(result, Ok(Step::Finished(CommandResult::Output("look: 2 choices".to_string()))));
    assert_eq!(session, busy_session());
}

#[test]
fn prompt_rejects_picks_outside_the_choices() {
    let mut session = busy_session();
    let mut resources = empty_resources();
    resources.prompts = vec![("intro".to_string(), strings(&["wake"]))];
    let result = Pending::PromptFile.resume(Reply::Picked(1), &mut session, &resources);
    assert_eq!(result, Err(failed("Unexpected reply")));
    let result = Pending::PromptName { file: 0 }.resume(Reply::Picked(1), &mut session, &resources);
    assert_eq!(result, Err(failed("Unexpected reply")));
    let result = Pending::PromptName { file: 1 }.resume(Reply::Picked(0), &mut session, &resources);
    assert_eq!(result, Err(failed("Unexpected reply")));
    let result = Pending::Describing.resume(
        Reply::Failed("Prompt 'wake' not found".to_string()),
        &mut session,
        &resources,
    );
    assert_eq!(result, Err(failed("Prompt 'wake' not found")));
}

#[test]
fn prompt_with_no_files_still_asks() {
    let mut session = busy_session();
    let result = RuntimeCommand::Prompt.run(&manifest(true), &mut session, &empty_resources());
    assert_eq!(
        result,
        Ok(Step::Perform(
            Request::Select { title: "Prompt file".to_string(), choices: vec![] },
            Pending::PromptFile,
        ))
    );
}

#[test]
fn a_reply_of_the_wrong_kind_is_unexpected() {
    let resources = empty_resources();
    let waiting = [
        Pending::Language,
        Pending::InfoPage,
        Pending::LogPage,
        Pending::PromptFile,
        Pending::PromptName { file: 0 },
        Pending::Channels,
        Pending::Describing,
    ];
    for pending in waiting {
        let mut session = busy_session();
        let result = pending.resume(Reply::Done, &mut session, &resources);
        assert_eq!(result, Err(failed("Unexpected reply")));
        assert_eq!(session, busy_session());
    }
    for pending in [Pending::Rendering, Pending::Saving] {
        let mut session = busy_session();
        let result = pending.resume(Reply::Picked(0), &mut session, &resources);
        assert_eq!(result, Err(failed("Unexpected reply")));
        assert_eq!(session, busy_session());
    }
}

#[test]
fn a_failed_reply_fails_the_command_with_its_message() {
    let resources = empty_resources();
    let waiting = [
        Pending::Language,
        Pending::InfoPage,
        Pending::Rendering,
        Pending::LogPage,
        Pending::Channels,
        Pending::Stopping { ticked: vec![], next: 0 },
        Pending::Saving,
        Pending::PromptFile,
        Pending::PromptName { file: 0 },
        Pending::Describing,
    ];
    for pending in waiting {
        let mut session = busy_session();
        let result = pending.resume(Reply::Failed("interrupted".to_string()), &mut session, &resources);
        assert_eq!(result, Err(failed("interrupted")));
        assert_eq!(session, busy_session());
    }
}

#[test]
fn every_command_has_its_word() {
    let words: Vec<&str> = ALL.iter().map(|c| c.name()).collect();
    assert_eq!(
        words,
        vec!["back", "lang", "info", "log", "sound", "save", "quit", "prompt", "notes", "variables"]
    );
    for command in ALL {
        assert_eq!(RuntimeCommand::from_word(command.name()), Some(command));
    }
}

#[test]
fn words_are_matched_letter_for_letter() {
    for word in ["", "Back", "BACK", "back ", " back", "bac", "language", "exit", "variable"] {
        assert_eq!(RuntimeCommand::from_word(word), None);
    }
}
