//! What holds of the dispatcher whatever the session and the resources are.
//!
//! Each law is stated over [`RuntimeCommand::began`] and [`resumed`], which
//! say what [`RuntimeCommand::run`] and [`Pending::resume`] return and leave
//! behind.
//!
//! [`Pending::resume`]: crate::exchange::Pending::resume

use vstd::prelude::*;
use crate::channels::{
    boxes, lemma_next_stop, lemma_stops_in_order, lemma_stops_members, lemma_stops_once,
    lemma_switched_membership, lemma_switched_no_duplicates, lemma_walked_contains,
    lemma_walked_out, next_stop, stops, walk_end, walked_out,
};
use crate::exchange::{PendingView, ReplyView, RequestView, StepView};
use crate::outcome::{CommandErrorView, CommandResultView, GameLoopResult};
use crate::paging::{labels, lemma_page_count, page_count};
use crate::runtime::{
    content_from, finished, resumed, retry, waiting, walk_turn, Access, RuntimeCommand, Turn,
};
use crate::session::{page_ids, ResourcesView, SessionView};
use crate::text::joined;

verus! {

/// No two commands are given by the same word.
pub proof fn lemma_words_differ(one: RuntimeCommand, other: RuntimeCommand)
    requires
        one != other,
    ensures
        one.word() != other.word(),
{
    reveal_strlit("back");
    reveal_strlit("lang");
    reveal_strlit("info");
    reveal_strlit("log");
    reveal_strlit("sound");
    reveal_strlit("save");
    reveal_strlit("quit");
    reveal_strlit("prompt");
    reveal_strlit("notes");
    reveal_strlit("variables");
    if one.word().len() == other.word().len() {
        assert(one.word()[0] != other.word()[0]);
    }
}

/// A command for debugging, given outside debug mode, is refused with
/// `PermissionDenied`, and the session stays as it was.
pub proof fn lemma_debug_only_refused(
    command: RuntimeCommand,
    session: SessionView,
    resources: ResourcesView,
)
    requires
        command.access() == Access::DebugOnly,
    ensures
        command.began(false, session, resources) == (Turn {
            outcome: Err(CommandErrorView::PermissionDenied),
            session,
        }),
{
}

/// A normal command does the same in and outside debug mode, and is never
/// refused for want of permission.
pub proof fn lemma_normal_allowed(
    command: RuntimeCommand,
    session: SessionView,
    resources: ResourcesView,
)
    requires
        command.access() == Access::Normal,
    ensures
        command.began(false, session, resources) == command.began(true, session, resources),
        command.began(false, session, resources).outcome != Err::<StepView, CommandErrorView>(
            CommandErrorView::PermissionDenied,
        ),
{
}

/// Only going back changes the session when a command begins.
pub proof fn lemma_only_back_changes_session(
    command: RuntimeCommand,
    debug: bool,
    session: SessionView,
    resources: ResourcesView,
)
    requires
        command != RuntimeCommand::Back,
    ensures
        command.began(debug, session, resources).session == session,
{
}

/// Whatever a command does, at its beginning or when it is resumed, a
/// session in which no page, channel, note or variable occurs twice stays
/// such a session.
pub proof fn lemma_session_stays_wf(
    command: RuntimeCommand,
    debug: bool,
    pending: PendingView,
    reply: ReplyView,
    session: SessionView,
    resources: ResourcesView,
)
    requires
        session.wf(),
    ensures
        command.began(debug, session, resources).session.wf(),
        resumed(pending, reply, session, resources).session.wf(),
{
    if let Some(known) = resources.audio {
        match (pending, reply) {
            (PendingView::Channels, ReplyView::PickedMany(ticked)) => {
                lemma_switched_no_duplicates(
                    session.channels,
                    known,
                    ticked,
                    0,
                    walk_end(session.channels, known, ticked, 0),
                );
            },
            (PendingView::Stopping { ticked, next }, ReplyView::Done) => {
                lemma_switched_no_duplicates(
                    session.channels,
                    known,
                    ticked,
                    next as int,
                    walk_end(session.channels, known, ticked, next as int),
                );
            },
            _ => {},
        }
    }
}

/// Going back with a history of at most one choice fails and changes
/// nothing; with two or more it takes exactly the latest choice off, leaves
/// the rest of the session alone and lets the story go on.
pub proof fn lemma_back(debug: bool, session: SessionView, resources: ResourcesView)
    ensures
        session.history.len() <= 1 ==> RuntimeCommand::Back.began(debug, session, resources) == (
        Turn {
            outcome: Err(CommandErrorView::CommandFailed("Can't go back right now!"@)),
            session,
        }),
        session.history.len() >= 2 ==> {
            let turn = RuntimeCommand::Back.began(debug, session, resources);
            &&& turn.outcome == Ok::<StepView, CommandErrorView>(
                StepView::Finished(CommandResultView::Submit(GameLoopResult::Continue)),
            )
            &&& turn.session.history.len() == session.history.len() - 1
            &&& turn.session.history == session.history.take(session.history.len() - 1)
            &&& turn.session == (SessionView { history: turn.session.history, ..session })
        },
{
}

/// The log command on a log of `n > 0` entries offers `ceil(n / 5)` pages,
/// and on the pick of page `k` gives out the entries from `5k` up to, not
/// including, `min(n, 5k + 5)`, with a blank line between neighbours. On an
/// empty log it fails.
pub proof fn lemma_log_pages(debug: bool, session: SessionView, resources: ResourcesView, k: nat)
    ensures
        session.log.len() == 0 ==> RuntimeCommand::Log.began(debug, session, resources) == (Turn {
            outcome: Err(CommandErrorView::CommandFailed("No log entries to display"@)),
            session,
        }),
        session.log.len() > 0 ==> RuntimeCommand::Log.began(debug, session, resources) == waiting(
            RequestView::RawSelect { title: "Log page"@, choices: labels(session.log) },
            PendingView::LogPage,
            session,
        ),
        labels(session.log).len() == page_count(session.log.len()),
        5 * page_count(session.log.len()) >= session.log.len(),
        session.log.len() > 0 ==> 5 * (page_count(session.log.len()) - 1) < session.log.len(),
        k < page_count(session.log.len()) ==> resumed(
            PendingView::LogPage,
            ReplyView::Picked(k),
            session,
            resources,
        ) == finished(
            CommandResultView::Output(
                joined(
                    session.log.subrange(
                        5 * (k as int),
                        if session.log.len() <= 5 * k + 5 {
                            session.log.len() as int
                        } else {
                            5 * (k as int) + 5
                        },
                    ),
                    "\n\n"@,
                ),
            ),
            session,
        ),
{
    lemma_page_count(session.log.len());
}

/// Quitting shuts the game down, not silently, whatever the mode, the
/// session and the resources are, and leaves the session as it was.
pub proof fn lemma_quit(debug: bool, session: SessionView, resources: ResourcesView)
    ensures
        RuntimeCommand::Quit.began(debug, session, resources) == finished(
            CommandResultView::Submit(GameLoopResult::Shutdown(false)),
            session,
        ),
{
}

/// Saving asks the caller to write the session into its own slot and not
/// silently, whatever the mode, the session and the resources are; once
/// that is done the command gives out "Saving... ". The session stays as
/// it was throughout.
pub proof fn lemma_save(debug: bool, session: SessionView, resources: ResourcesView)
    ensures
        RuntimeCommand::Save.began(debug, session, resources) == waiting(
            RequestView::Save { slot: None, silent: false },
            PendingView::Saving,
            session,
        ),
        resumed(PendingView::Saving, ReplyView::Done, session, resources) == finished(
            CommandResultView::Output("Saving... "@),
            session,
        ),
{
}

/// A failure of the caller's work ends the command with the same message,
/// wherever the command was waiting, and changes nothing.
pub proof fn lemma_failure_passes_through(
    pending: PendingView,
    message: Seq<char>,
    session: SessionView,
    resources: ResourcesView,
)
    ensures
        resumed(pending, ReplyView::Failed(message), session, resources) == (Turn {
            outcome: Err(CommandErrorView::CommandFailed(message)),
            session,
        }),
{
}

/// The turn in which a command ends up when the caller carries out up to
/// `rounds` requests, one after the other, and each time comes back with
/// `Done`.
pub open spec fn carried_on(turn: Turn, resources: ResourcesView, rounds: nat) -> Turn
    decreases rounds,
{
    match turn.outcome {
        Ok(StepView::Perform(_, pending)) => if rounds == 0 {
            turn
        } else {
            carried_on(
                resumed(pending, ReplyView::Done, turn.session, resources),
                resources,
                (rounds - 1) as nat,
            )
        },
        _ => turn,
    }
}

/// The requests that the caller carries out on the way to
/// [`carried_on`], in order.
pub open spec fn asked(turn: Turn, resources: ResourcesView, rounds: nat) -> Seq<RequestView>
    decreases rounds,
{
    match turn.outcome {
        Ok(StepView::Perform(request, pending)) => if rounds == 0 {
            Seq::empty()
        } else {
            seq![request] + asked(
                resumed(pending, ReplyView::Done, turn.session, resources),
                resources,
                (rounds - 1) as nat,
            )
        },
        _ => Seq::empty(),
    }
}

/// The requests to stop the players of `names`, in order.
pub open spec fn stop_requests(names: Seq<Seq<char>>) -> Seq<RequestView> {
    Seq::new(names.len(), |i: int| RequestView::StopChannel { channel: names[i] })
}

/// One walk over the sound channels either ends the command or halts at a
/// known channel that is on and not ticked, switches it off and asks for
/// its player to be stopped. Either way it changes nothing but the
/// channels of the session.
pub proof fn lemma_walk_advances(
    ticked: Seq<Seq<char>>,
    from: nat,
    session: SessionView,
    resources: ResourcesView,
)
    requires
        resources.audio is Some,
        from <= resources.audio->0.len(),
    ensures
        ({
            let known = resources.audio->0;
            let turn = walk_turn(ticked, from, session, resources);
            let halt = next_stop(session.channels, known, ticked, from as int);
            &&& turn.session == (SessionView { channels: turn.session.channels, ..session })
            &&& halt < known.len() ==> {
                &&& !ticked.contains(known[halt])
                &&& session.channels.contains(known[halt])
                &&& !turn.session.channels.contains(known[halt])
                &&& turn.outcome == Ok::<StepView, CommandErrorView>(
                    StepView::Perform(
                        RequestView::StopChannel { channel: known[halt] },
                        PendingView::Stopping { ticked, next: (halt + 1) as nat },
                    ),
                )
                &&& from < halt + 1 <= known.len()
            }
            &&& halt >= known.len() ==> turn.outcome == Ok::<StepView, CommandErrorView>(
                StepView::Finished(retry()),
            )
        }),
{
    let known = resources.audio->0;
    lemma_next_stop(session.channels, known, ticked, from as int);
    let halt = next_stop(session.channels, known, ticked, from as int);
    if halt < known.len() {
        lemma_walked_contains(session.channels, known, ticked, from as int, known[halt]);
    }
}

/// The sound command, resumed from position `from` and carried on with
/// `Done` for every channel that it asks to stop, ends by asking the player
/// again. It then leaves `walked_out(..)` as the channels that are on, has
/// changed nothing else in the session, and has asked for exactly
/// `stops(..)` to be stopped, in that order, and for nothing else.
pub proof fn lemma_sound_runs_out(
    ticked: Seq<Seq<char>>,
    from: nat,
    session: SessionView,
    resources: ResourcesView,
    rounds: nat,
)
    requires
        resources.audio is Some,
        from <= resources.audio->0.len(),
        rounds >= resources.audio->0.len() - from,
    ensures
        carried_on(walk_turn(ticked, from, session, resources), resources, rounds) == finished(
            retry(),
            SessionView {
                channels: walked_out(session.channels, resources.audio->0, ticked, from as int),
                ..session
            },
        ),
        asked(walk_turn(ticked, from, session, resources), resources, rounds) == stop_requests(
            stops(session.channels, resources.audio->0, ticked, from as int),
        ),
    decreases resources.audio->0.len() - from,
{
    let known = resources.audio->0;
    let turn = walk_turn(ticked, from, session, resources);
    lemma_walk_advances(ticked, from, session, resources);
    let halt = next_stop(session.channels, known, ticked, from as int);
    if halt < known.len() {
        let next = (halt + 1) as nat;
        lemma_sound_runs_out(ticked, next, turn.session, resources, (rounds - 1) as nat);
        let rest = stops(turn.session.channels, known, ticked, halt + 1);
        assert(stop_requests(seq![known[halt]] + rest) =~= seq![
            RequestView::StopChannel { channel: known[halt] },
        ] + stop_requests(rest));
    } else {
        assert(stop_requests(Seq::<Seq<char>>::empty()) =~= Seq::<RequestView>::empty());
    }
}

/// The sound command as a whole: once the player has ticked channels and
/// every stop that is asked for is done, the command ends by asking the
/// player again, with `walked_out(..)` on and exactly `stops(..)` stopped.
pub proof fn lemma_sound_command(
    ticked: Seq<Seq<char>>,
    session: SessionView,
    resources: ResourcesView,
    rounds: nat,
)
    requires
        resources.audio is Some,
        rounds >= resources.audio->0.len(),
    ensures
        ({
            let begun = resumed(
                PendingView::Channels,
                ReplyView::PickedMany(ticked),
                session,
                resources,
            );
            &&& carried_on(begun, resources, rounds) == finished(
                retry(),
                SessionView {
                    channels: walked_out(session.channels, resources.audio->0, ticked, 0),
                    ..session
                },
            )
            &&& asked(begun, resources, rounds) == stop_requests(
                stops(session.channels, resources.audio->0, ticked, 0),
            )
        }),
{
    lemma_sound_runs_out(ticked, 0, session, resources, rounds);
}

/// Once the sound command has run to its end, a channel that the audio
/// subsystem knows is on exactly if the player ticked it, and any other
/// channel is on exactly if it was on before.
pub proof fn lemma_channels_follow_ticks(
    channels: Seq<Seq<char>>,
    known: Seq<Seq<char>>,
    ticked: Seq<Seq<char>>,
    name: Seq<char>,
)
    ensures
        known.contains(name) ==> (walked_out(channels, known, ticked, 0).contains(name)
            <==> ticked.contains(name)),
        !known.contains(name) ==> (walked_out(channels, known, ticked, 0).contains(name)
            <==> channels.contains(name)),
{
    lemma_walked_out(channels, known, ticked, 0);
    lemma_switched_membership(channels, known, ticked, name);
}

/// While the sound command runs to its end, the player of a channel is
/// stopped exactly once if the channel is known, was on and was not ticked,
/// that is if the command took it out of the channels that are on, and
/// never otherwise.
pub proof fn lemma_stopped_exactly_once(
    channels: Seq<Seq<char>>,
    known: Seq<Seq<char>>,
    ticked: Seq<Seq<char>>,
    name: Seq<char>,
)
    ensures
        stops(channels, known, ticked, 0).no_duplicates(),
        stops(channels, known, ticked, 0).contains(name) <==> known.contains(name)
            && channels.contains(name) && !ticked.contains(name),
{
    lemma_stops_once(channels, known, ticked, 0);
    lemma_stops_members(channels, known, ticked, 0, name);
}

/// A channel that was not on and is not ticked is left untouched by the
/// sound command: it is not on afterwards, and no request names it, so
/// that nothing done for it can make the command fail.
pub proof fn lemma_off_and_unticked_untouched(
    ticked: Seq<Seq<char>>,
    session: SessionView,
    resources: ResourcesView,
    rounds: nat,
    name: Seq<char>,
)
    requires
        resources.audio is Some,
        !session.channels.contains(name),
        !ticked.contains(name),
    ensures
        !walked_out(session.channels, resources.audio->0, ticked, 0).contains(name),
        !stops(session.channels, resources.audio->0, ticked, 0).contains(name),
        !asked(
            resumed(PendingView::Channels, ReplyView::PickedMany(ticked), session, resources),
            resources,
            rounds,
        ).contains(RequestView::StopChannel { channel: name }),
{
    let known = resources.audio->0;
    lemma_channels_follow_ticks(session.channels, known, ticked, name);
    lemma_stops_members(session.channels, known, ticked, 0, name);
    lemma_asked_stops(ticked, 0, session, resources, rounds, name);
}

/// Whatever the number of rounds, the sound command asks to stop only
/// channels among `stops(..)`.
pub proof fn lemma_asked_stops(
    ticked: Seq<Seq<char>>,
    from: nat,
    session: SessionView,
    resources: ResourcesView,
    rounds: nat,
    name: Seq<char>,
)
    requires
        resources.audio is Some,
        from <= resources.audio->0.len(),
    ensures
        asked(walk_turn(ticked, from, session, resources), resources, rounds).contains(
            RequestView::StopChannel { channel: name },
        ) ==> stops(session.channels, resources.audio->0, ticked, from as int).contains(name),
    decreases rounds,
{
    let known = resources.audio->0;
    let turn = walk_turn(ticked, from, session, resources);
    lemma_walk_advances(ticked, from, session, resources);
    let halt = next_stop(session.channels, known, ticked, from as int);
    let wanted = RequestView::StopChannel { channel: name };
    if halt < known.len() && rounds > 0 {
        let next = (halt + 1) as nat;
        lemma_asked_stops(ticked, next, turn.session, resources, (rounds - 1) as nat, name);
        let later = asked(walk_turn(ticked, next, turn.session, resources), resources, (rounds - 1) as nat);
        let all = seq![RequestView::StopChannel { channel: known[halt] }] + later;
        let rest = stops(turn.session.channels, known, ticked, halt + 1);
        let named = seq![known[halt]] + rest;
        assert(named[0] == known[halt]);
        if all.contains(wanted) {
            let i = choose|i: int| 0 <= i < all.len() && all[i] == wanted;
            if i > 0 {
                assert(later[i - 1] == wanted);
                let j = choose|j: int| 0 <= j < rest.len() && rest[j] == name;
                assert(named[j + 1] == name);
            }
        }
    }
}

/// Where the audio subsystem knows no channel twice, the sound command
/// stops the players in the order in which the channels are known: those
/// of the known channels that were on and are not ticked.
pub proof fn lemma_stopped_in_known_order(
    ticked: Seq<Seq<char>>,
    session: SessionView,
    resources: ResourcesView,
)
    requires
        resources.wf(),
        resources.audio is Some,
    ensures
        stops(session.channels, resources.audio->0, ticked, 0) == resources.audio->0.filter(
            |name: Seq<char>| !ticked.contains(name) && session.channels.contains(name),
        ),
{
    let known = resources.audio->0;
    lemma_stops_in_order(session.channels, known, ticked, 0);
    assert(known.skip(0) =~= known);
}

/// Where no info page is loaded twice, every loaded page is found under its
/// identifier: picking it among the unlocked pages has its own text shown.
pub proof fn lemma_every_page_is_found(
    session: SessionView,
    resources: ResourcesView,
    picked: nat,
    loaded: int,
)
    requires
        resources.wf(),
        picked < session.info_pages.len(),
        0 <= loaded < resources.info_pages.len(),
        session.info_pages[picked as int] == resources.info_pages[loaded].0,
    ensures
        content_from(resources.info_pages, resources.info_pages[loaded].0, 0) == Some(
            resources.info_pages[loaded].1,
        ),
        resumed(PendingView::InfoPage, ReplyView::Picked(picked), session, resources) == waiting(
            RequestView::Render { content: resources.info_pages[loaded].1 },
            PendingView::Rendering,
            session,
        ),
{
    lemma_found_from(resources.info_pages, loaded, 0);
}

/// Where no page is listed twice, the search for the identifier of the page
/// at position `at`, begun at or before `at`, ends at that page.
proof fn lemma_found_from(pages: Seq<(Seq<char>, Seq<char>)>, at: int, from: int)
    requires
        page_ids(pages).no_duplicates(),
        0 <= from <= at < pages.len(),
    ensures
        content_from(pages, pages[at].0, from) == Some(pages[at].1),
    decreases at - from,
{
    if from < at {
        assert(page_ids(pages)[from] != page_ids(pages)[at]);
        lemma_found_from(pages, at, from + 1);
    }
}

/// Whether a question, if the outcome is one, offers each of its choices
/// once. The pages of the log are left out: two of them may begin alike.
pub open spec fn offers_each_once(turn: Turn) -> bool {
    match turn.outcome {
        Ok(StepView::Perform(RequestView::Select { choices, .. }, _)) => choices.no_duplicates(),
        Ok(StepView::Perform(RequestView::MultiSelect { boxes, .. }, _)) => Seq::new(
            boxes.len(),
            |i: int| boxes[i].0,
        ).no_duplicates(),
        _ => true,
    }
}

/// Where neither the session nor the resources list a name twice, no
/// question offers a choice twice.
pub proof fn lemma_choices_offered_once(
    command: RuntimeCommand,
    debug: bool,
    pending: PendingView,
    reply: ReplyView,
    session: SessionView,
    resources: ResourcesView,
)
    requires
        session.wf(),
        resources.wf(),
    ensures
        offers_each_once(command.began(debug, session, resources)),
        offers_each_once(resumed(pending, reply, session, resources)),
{
    if let Some(known) = resources.audio {
        let offered = boxes(known, session.channels);
        assert(Seq::new(offered.len(), |i: int| offered[i].0) =~= known);
    }
    if let (PendingView::PromptFile, ReplyView::Picked(index)) = (pending, reply) {
        if index < resources.prompts.len() {
            assert(resources.prompts[index as int].1.no_duplicates());
        }
    }
}

} // verus!
