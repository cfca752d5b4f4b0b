use runtime_commands::channels::{disable, enable, tick_boxes, walk};
use runtime_commands::exchange::{Pending, Reply, Request, Step};
use runtime_commands::outcome::{CommandError, CommandResult};
use runtime_commands::runtime::RuntimeCommand;
use runtime_commands::session::{Manifest, Resources, Session, Settings};

fn strings(items: &[&str]) -> Vec<String> {
    items.iter().map(|s| s.to_string()).collect()
}

fn resources(audio: Option<&[&str]>) -> Resources {
    Resources {
        translations: vec![],
        info_pages: vec![],
        audio: audio.map(strings),
        prompts: vec![],
    }
}

fn session(channels: &[&str]) -> Session {
    let mut session = Session::new("en".to_string());
    session.channels = strings(channels);
    session
}

fn config() -> Manifest {
    Manifest { settings: Settings { debug: false } }
}

/// Runs the sound command to its end with a caller that ticks `ticked` and
/// stops every channel it is asked to, except `broken`, for which it fails.
fn drive(
    session: &mut Session,
    resources: &Resources,
    ticked: &[&str],
    broken: Option<&str>,
) -> (Result<CommandResult, CommandError>, Vec<String>) {
    let mut stopped = Vec::new();
    let mut step = RuntimeCommand::Sound.run(&config(), session, resources);
    loop {
        match step {
            Err(error) => return (Err(error), stopped),
            Ok(Step::Finished(result)) => return (Ok(result), stopped),
            Ok(Step::Perform(request, pending)) => {
                let reply = match request {
                    Request::MultiSelect { .. } => Reply::PickedMany(strings(ticked)),
                    Request::StopChannel { channel } => {
                        if Some(channel.as_str()) == broken {
                            Reply::Failed(format!("No player for channel '{channel}'"))
                        } else {
                            stopped.push(channel);
                            Reply::Done
                        }
                    }
                    other => panic!("unexpected request {other:?}"),
                };
                step = pending.resume(reply, session, resources);
            }
        }
    }
}

#[test]
fn sound_without_audio_fails() {
    let mut session = session(&["music"]);
    let result = RuntimeCommand::Sound.run(&config(), &mut session, &resources(None));
    assert_eq!(result, Err(CommandError::CommandFailed("No sound channels loaded".to_string())));
    assert_eq!(session.channels, strings(&["music"]));
    let result = Pending::Channels.resume(Reply::PickedMany(vec![]), &mut session, &resources(None));
    assert_eq!(result, Err(CommandError::CommandFailed("No sound channels loaded".to_string())));
}

#[test]
fn sound_asks_with_the_enabled_channels_ticked() {
    let mut session = session(&["music", "voice"]);
    let resources = resources(Some(&["ambient", "music", "sfx", "voice"]));
    let result = RuntimeCommand::Sound.run(&config(), &mut session, &resources);
    assert_eq!(
        result,
        Ok(Step::Perform(
            Request::MultiSelect {
                title: "Select sound channels".to_string(),
                boxes: vec![
                    ("ambient".to_string(), false),
                    ("music".to_string(), true),
                    ("sfx".to_string(), false),
                    ("voice".to_string(), true),
                ],
            },
            Pending::Channels,
        ))
    );
    assert_eq!(session.channels, strings(&["music", "voice"]));
}

#[test]
fn sound_leaves_exactly_the_ticked_channels_on() {
    let mut session = session(&["music", "voice"]);
    let resources = resources(Some(&["ambient", "music", "sfx", "voice"]));
    let (result, stopped) = drive(&mut session, &resources, &["ambient", "voice"], None);
    assert_eq!(result, Ok(CommandResult::retry()));
    assert_eq!(session.channels, strings(&["voice", "ambient"]));
    assert_eq!(stopped, strings(&["music"]));
}

#[test]
fn sound_with_everything_ticked_stops_nothing() {
    let mut session = session(&[]);
    let resources = resources(Some(&["a", "b", "c"]));
    let (result, stopped) = drive(&mut session, &resources, &["c", "b", "a"], None);
    assert_eq!(result, Ok(CommandResult::retry()));
    assert_eq!(session.channels, strings(&["a", "b", "c"]));
    assert!(stopped.is_empty());
}

#[test]
fn sound_with_nothing_ticked_stops_every_channel_that_was_on_once() {
    let mut session = session(&["b", "elsewhere", "a"]);
    let resources = resources(Some(&["a", "b", "c"]));
    let (result, stopped) = drive(&mut session, &resources, &[], None);
    assert_eq!(result, Ok(CommandResult::retry()));
    assert_eq!(session.channels, strings(&["elsewhere"]));
    assert_eq!(stopped, strings(&["a", "b"]));
}

#[test]
fn sound_stops_a_channel_once_even_if_it_is_known_twice() {
    let mut session = session(&["a", "b"]);
    let resources = resources(Some(&["a", "b", "a"]));
    let (result, stopped) = drive(&mut session, &resources, &["b"], None);
    assert_eq!(result, Ok(CommandResult::retry()));
    assert_eq!(session.channels, strings(&["b"]));
    assert_eq!(stopped, strings(&["a"]));
}

#[test]
fn sound_leaves_a_channel_alone_that_is_neither_on_nor_ticked() {
    let mut session = session(&[]);
    let resources = resources(Some(&["sfx"]));
    let result = Pending::Channels.resume(Reply::PickedMany(vec![]), &mut session, &resources);
    assert_eq!(result, Ok(Step::Finished(CommandResult::retry())));
    assert!(session.channels.is_empty());
}

#[test]
fn sound_cannot_fail_on_a_channel_that_is_neither_on_nor_ticked() {
    let mut session = session(&["music"]);
    let resources = resources(Some(&["ambient", "music", "sfx"]));
    let (result, stopped) = drive(&mut session, &resources, &["music"], Some("sfx"));
    assert_eq!(result, Ok(CommandResult::retry()));
    assert_eq!(session.channels, strings(&["music"]));
    assert!(stopped.is_empty());
    let (result, stopped) = drive(&mut session, &resources, &[], Some("ambient"));
    assert_eq!(result, Ok(CommandResult::retry()));
    assert!(session.channels.is_empty());
    assert_eq!(stopped, strings(&["music"]));
}

#[test]
fn sound_ignores_ticks_that_name_no_known_channel() {
    let mut session = session(&[]);
    let resources = resources(Some(&["a"]));
    let (result, stopped) = drive(&mut session, &resources, &["ghost"], None);
    assert_eq!(result, Ok(CommandResult::retry()));
    assert!(session.channels.is_empty());
    assert!(stopped.is_empty());

    session.channels = strings(&["a"]);
    let (result, stopped) = drive(&mut session, &resources, &["ghost"], None);
    assert_eq!(result, Ok(CommandResult::retry()));
    assert!(session.channels.is_empty());
    assert_eq!(stopped, strings(&["a"]));
}

#[test]
fn sound_with_no_known_channels_changes_nothing() {
    let mut session = session(&["music"]);
    let resources = resources(Some(&[]));
    let (result, stopped) = drive(&mut session, &resources, &["music"], None);
    assert_eq!(result, Ok(CommandResult::retry()));
    assert_eq!(session.channels, strings(&["music"]));
    assert!(stopped.is_empty());
}

#[test]
fn sound_keeps_earlier_changes_when_a_stop_fails() {
    let mut session = session(&["b", "c", "d"]);
    let resources = resources(Some(&["a", "b", "c", "d"]));
    let (result, stopped) = drive(&mut session, &resources, &["a"], Some("c"));
    assert_eq!(result, Err(CommandError::CommandFailed("No player for channel 'c'".to_string())));
    assert_eq!(stopped, strings(&["b"]));
    assert_eq!(session.channels, strings(&["d", "a"]));
}

#[test]
fn sound_walks_halt_at_each_channel_that_is_switched_off() {
    let mut session = session(&["b"]);
    let resources = resources(Some(&["a", "b", "c"]));
    let ticked = strings(&["a", "c"]);
    let first = Pending::Channels.resume(Reply::PickedMany(ticked.clone()), &mut session, &resources);
    assert_eq!(
        first,
        Ok(Step::Perform(
            Request::StopChannel { channel: "b".to_string() },
            Pending::Stopping { ticked: ticked.clone(), next: 2 },
        ))
    );
    assert_eq!(session.channels, strings(&["a"]));
    let second =
        Pending::Stopping { ticked: ticked.clone(), next: 2 }.resume(Reply::Done, &mut session, &resources);
    assert_eq!(second, Ok(Step::Finished(CommandResult::retry())));
    assert_eq!(session.channels, strings(&["a", "c"]));
    let beyond = Pending::Stopping { ticked, next: 4 }.resume(Reply::Done, &mut session, &resources);
    assert_eq!(beyond, Err(CommandError::CommandFailed("Unexpected reply".to_string())));
    assert_eq!(session.channels, strings(&["a", "c"]));
}

#[test]
fn enable_adds_a_channel_once() {
    let mut channels = strings(&["a"]);
    enable(&mut channels, &"b".to_string());
    assert_eq!(channels, strings(&["a", "b"]));
    enable(&mut channels, &"a".to_string());
    assert_eq!(channels, strings(&["a", "b"]));
}

#[test]
fn disable_takes_every_occurrence_out() {
    let mut channels = strings(&["a", "b", "a", "c"]);
    disable(&mut channels, &"a".to_string());
    assert_eq!(channels, strings(&["b", "c"]));
    disable(&mut channels, &"z".to_string());
    assert_eq!(channels, strings(&["b", "c"]));
}

#[test]
fn walk_returns_where_it_halted() {
    let known = strings(&["a", "b", "c", "d"]);
    let ticked = strings(&["a", "b", "d"]);
    let mut channels = strings(&["c"]);
    assert_eq!(walk(&mut channels, &known, &ticked, 0), 2);
    assert_eq!(channels, strings(&["a", "b"]));
    assert_eq!(walk(&mut channels, &known, &ticked, 3), 4);
    assert_eq!(channels, strings(&["a", "b", "d"]));
    assert_eq!(walk(&mut channels, &known, &ticked, 4), 4);
    assert_eq!(channels, strings(&["a", "b", "d"]));
}

#[test]
fn walk_passes_over_channels_that_are_off_and_unticked() {
    let known = strings(&["a", "b", "c", "d"]);
    let ticked = strings(&["c"]);
    let mut channels = strings(&["d", "x"]);
    assert_eq!(walk(&mut channels, &known, &ticked, 0), 3);
    assert_eq!(channels, strings(&["x", "c"]));
    let mut channels = strings(&["x"]);
    assert_eq!(walk(&mut channels, &known, &strings(&[]), 0), 4);
    assert_eq!(channels, strings(&["x"]));
}

#[test]
fn tick_boxes_follow_the_known_channels() {
    let boxes = tick_boxes(&strings(&["x", "y"]), &strings(&["y", "z"]));
    assert_eq!(boxes, vec![("x".to_string(), false), ("y".to_string(), true)]);
}
