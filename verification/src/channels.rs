//! Switching sound channels on and off after the player has ticked the ones
//! to keep.
//!
//! The channels that the audio subsystem knows are gone through in order. A
//! ticked channel is switched on. A channel that is on and was left unticked
//! is switched off, and its player has to be stopped, which only the caller
//! can do: the walk halts there and goes on once the caller is back. A
//! channel that is neither on nor ticked is passed over: nothing is changed
//! for it and nothing is asked of the caller.

use vstd::prelude::*;
use crate::text::{contains, lemma_pushed};

verus! {

/// `channels` with `name` switched on: added at the end if it was missing.
pub open spec fn enabled(channels: Seq<Seq<char>>, name: Seq<char>) -> Seq<Seq<char>> {
    if channels.contains(name) {
        channels
    } else {
        channels.push(name)
    }
}

/// `channels` with `name` switched off: every occurrence taken out, the rest
/// in their order.
pub open spec fn disabled(channels: Seq<Seq<char>>, name: Seq<char>) -> Seq<Seq<char>> {
    channels.filter(|other: Seq<char>| other != name)
}

/// `channels` after the known channels at positions `from..to` have been
/// switched, each on if it is ticked and off if it is not.
pub open spec fn switched(
    channels: Seq<Seq<char>>,
    known: Seq<Seq<char>>,
    ticked: Seq<Seq<char>>,
    from: int,
    to: int,
) -> Seq<Seq<char>>
    decreases to - from,
{
    if to <= from {
        channels
    } else if ticked.contains(known[to - 1]) {
        enabled(switched(channels, known, ticked, from, to - 1), known[to - 1])
    } else {
        disabled(switched(channels, known, ticked, from, to - 1), known[to - 1])
    }
}

/// The position at which a walk over `known` that starts at `from` with
/// `channels` on halts: that of the first known channel at or after `from`
/// that is on and not ticked, or the number of known channels if there is
/// none.
pub open spec fn next_stop(
    channels: Seq<Seq<char>>,
    known: Seq<Seq<char>>,
    ticked: Seq<Seq<char>>,
    from: int,
) -> int
    decreases known.len() - from,
{
    if from >= known.len() {
        known.len() as int
    } else if from >= 0 && !ticked.contains(known[from]) && channels.contains(known[from]) {
        from
    } else {
        next_stop(channels, known, ticked, from + 1)
    }
}

/// The position up to which a walk that starts at `from` switches channels
/// before it halts: just past the channel to stop, or the end.
pub open spec fn walk_end(
    channels: Seq<Seq<char>>,
    known: Seq<Seq<char>>,
    ticked: Seq<Seq<char>>,
    from: int,
) -> int {
    if next_stop(channels, known, ticked, from) < known.len() {
        next_stop(channels, known, ticked, from) + 1
    } else {
        known.len() as int
    }
}

/// The channels that are on after one walk that starts at `from` with
/// `channels` on.
pub open spec fn walked(
    channels: Seq<Seq<char>>,
    known: Seq<Seq<char>>,
    ticked: Seq<Seq<char>>,
    from: int,
) -> Seq<Seq<char>> {
    switched(channels, known, ticked, from, walk_end(channels, known, ticked, from))
}

/// The channels whose players are stopped, in order, by the walks that
/// start at `from` with `channels` on and go on until the known channels are
/// used up.
pub open spec fn stops(
    channels: Seq<Seq<char>>,
    known: Seq<Seq<char>>,
    ticked: Seq<Seq<char>>,
    from: int,
) -> Seq<Seq<char>>
    decreases known.len() - from,
{
    let halt = next_stop(channels, known, ticked, from);
    if 0 <= from <= halt < known.len() {
        seq![known[halt]] + stops(walked(channels, known, ticked, from), known, ticked, halt + 1)
    } else {
        Seq::empty()
    }
}

/// The channels that are on once the walks that start at `from` with
/// `channels` on have all been made, one after the other, until the known
/// channels are used up.
pub open spec fn walked_out(
    channels: Seq<Seq<char>>,
    known: Seq<Seq<char>>,
    ticked: Seq<Seq<char>>,
    from: int,
) -> Seq<Seq<char>>
    decreases known.len() - from,
{
    let halt = next_stop(channels, known, ticked, from);
    if 0 <= from <= halt < known.len() {
        walked_out(walked(channels, known, ticked, from), known, ticked, halt + 1)
    } else {
        walked(channels, known, ticked, from)
    }
}

/// The boxes of the channel question: every known channel, ticked if it is
/// switched on.
pub open spec fn boxes(known: Seq<Seq<char>>, channels: Seq<Seq<char>>) -> Seq<(Seq<char>, bool)> {
    Seq::new(known.len(), |i: int| (known[i], channels.contains(known[i])))
}

/// The boxes of the channel question: every known channel, ticked if it is
/// switched on.
pub fn tick_boxes(known: &Vec<String>, channels: &Vec<String>) -> (out: Vec<(String, bool)>)
    ensures
        out.deep_view() == boxes(known.deep_view(), channels.deep_view()),
{
    let mut out: Vec<(String, bool)> = Vec::new();
    let mut i: usize = 0;
    while i < known.len()
        invariant
            i <= known.len(),
            out.len() == i,
            out.deep_view() == boxes(known.deep_view(), channels.deep_view()).take(i as int),
        decreases known.len() - i,
    {
        let ghost before = out;
        let on = contains(channels, &known[i]);
        out.push((known[i].clone(), on));
        proof {
            lemma_pushed(before, out, (known[i as int], on));
            assert(out.deep_view() =~= boxes(known.deep_view(), channels.deep_view()).take(i + 1));
        }
        i = i + 1;
    }
    assert(boxes(known.deep_view(), channels.deep_view()).take(i as int) =~= boxes(
        known.deep_view(),
        channels.deep_view(),
    ));
    out
}

/// Switches `name` on.
pub fn enable(channels: &mut Vec<String>, name: &String)
    ensures
        final(channels).deep_view() == enabled(old(channels).deep_view(), name@),
        old(channels).deep_view().no_duplicates() ==> final(channels).deep_view().no_duplicates(),
{
    if !contains(channels, name) {
        channels.push(name.clone());
        proof {
            lemma_pushed(*old(channels), *channels, *name);
        }
    }
}

/// Switches `name` off.
pub fn disable(channels: &mut Vec<String>, name: &String)
    ensures
        final(channels).deep_view() == disabled(old(channels).deep_view(), name@),
        old(channels).deep_view().no_duplicates() ==> final(channels).deep_view().no_duplicates(),
{
    proof {
        if channels.deep_view().no_duplicates() {
            lemma_disabled_no_duplicates(channels.deep_view(), name@);
        }
    }
    let mut kept: Vec<String> = Vec::new();
    let mut i: usize = 0;
    proof {
        lemma_disabled_empty(name@);
        assert(channels.deep_view().take(0) =~= Seq::empty());
    }
    while i < channels.len()
        invariant
            i <= channels.len(),
            kept.deep_view() == disabled(channels.deep_view().take(i as int), name@),
        decreases channels.len() - i,
    {
        let ghost before = kept;
        let ghost upto = channels.deep_view().take(i + 1);
        proof {
            assert(upto.drop_last() =~= channels.deep_view().take(i as int));
            lemma_disabled_last(upto, name@);
        }
        if channels[i] != *name {
            kept.push(channels[i].clone());
            proof {
                lemma_pushed(before, kept, channels[i as int]);
            }
        }
        i = i + 1;
    }
    assert(channels.deep_view().take(channels.len() as int) =~= channels.deep_view());
    *channels = kept;
}

/// Walks the known channels from position `from`. A ticked channel is
/// switched on. A channel that is neither on nor ticked is passed over. At
/// the first channel that is on and not ticked the walk switches it off and
/// halts. Returns the position of that channel, whose player is to be
/// stopped, or the number of known channels if the walk reached the end.
pub fn walk(channels: &mut Vec<String>, known: &Vec<String>, ticked: &Vec<String>, from: usize) -> (halt:
    usize)
    requires
        from <= known.len(),
    ensures
        halt == next_stop(
            old(channels).deep_view(),
            known.deep_view(),
            ticked.deep_view(),
            from as int,
        ),
        from <= halt <= known.len(),
        final(channels).deep_view() == walked(
            old(channels).deep_view(),
            known.deep_view(),
            ticked.deep_view(),
            from as int,
        ),
        old(channels).deep_view().no_duplicates() ==> final(channels).deep_view().no_duplicates(),
{
    let mut i: usize = from;
    while i < known.len()
        invariant
            from <= i <= known.len(),
            next_stop(old(channels).deep_view(), known.deep_view(), ticked.deep_view(), from as int)
                == next_stop(
                old(channels).deep_view(),
                known.deep_view(),
                ticked.deep_view(),
                i as int,
            ),
            channels.deep_view() == switched(
                old(channels).deep_view(),
                known.deep_view(),
                ticked.deep_view(),
                from as int,
                i as int,
            ),
            old(channels).deep_view().no_duplicates() ==> channels.deep_view().no_duplicates(),
        decreases known.len() - i,
    {
        if contains(ticked, &known[i]) {
            enable(channels, &known[i]);
        } else {
            proof {
                lemma_next_stop(
                    old(channels).deep_view(),
                    known.deep_view(),
                    ticked.deep_view(),
                    i as int,
                );
                lemma_passed_over(
                    old(channels).deep_view(),
                    known.deep_view(),
                    ticked.deep_view(),
                    from as int,
                    i as int,
                    known[i as int]@,
                );
            }
            if contains(channels, &known[i]) {
                disable(channels, &known[i]);
                return i;
            }
            proof {
                lemma_disabled_absent(channels.deep_view(), known[i as int]@);
            }
        }
        i = i + 1;
    }
    i
}

/// Switching a channel off goes through the channels from first to last:
/// what holds of all but the last carries over.
proof fn lemma_disabled_last(channels: Seq<Seq<char>>, name: Seq<char>)
    requires
        channels.len() > 0,
    ensures
        disabled(channels, name) == if channels.last() == name {
            disabled(channels.drop_last(), name)
        } else {
            disabled(channels.drop_last(), name).push(channels.last())
        },
{
    reveal(Seq::filter);
}

/// Switching a channel off in an empty list leaves it empty.
proof fn lemma_disabled_empty(name: Seq<char>)
    ensures
        disabled(Seq::empty(), name) == Seq::<Seq<char>>::empty(),
{
    reveal(Seq::filter);
}

/// A channel is among `disabled(channels, name)` exactly if it is among
/// `channels` and is not `name`.
pub proof fn lemma_disabled_contains(channels: Seq<Seq<char>>, name: Seq<char>, other: Seq<char>)
    ensures
        disabled(channels, name).contains(other) <==> channels.contains(other) && other != name,
    decreases channels.len(),
{
    if channels.len() == 0 {
        assert(channels =~= Seq::empty());
        lemma_disabled_empty(name);
    } else {
        lemma_disabled_last(channels, name);
        let front = channels.drop_last();
        lemma_disabled_contains(front, name, other);
        let rest = disabled(front, name);
        if channels.contains(other) {
            let i = choose|i: int| 0 <= i < channels.len() && channels[i] == other;
            if i < channels.len() - 1 {
                assert(front[i] == other);
            }
        }
        if front.contains(other) {
            let i = choose|i: int| 0 <= i < front.len() && front[i] == other;
            assert(channels[i] == other);
        }
        if channels.last() != name {
            let out = rest.push(channels.last());
            assert(out.last() == channels.last());
            if rest.contains(other) {
                let i = choose|i: int| 0 <= i < rest.len() && rest[i] == other;
                assert(out[i] == other);
            }
            if out.contains(other) {
                let i = choose|i: int| 0 <= i < out.len() && out[i] == other;
                if i < rest.len() {
                    assert(rest[i] == other);
                }
            }
        }
    }
}

/// Switching a channel off leaves a list without repetitions without
/// repetitions.
pub proof fn lemma_disabled_no_duplicates(channels: Seq<Seq<char>>, name: Seq<char>)
    requires
        channels.no_duplicates(),
    ensures
        disabled(channels, name).no_duplicates(),
    decreases channels.len(),
{
    if channels.len() == 0 {
        assert(channels =~= Seq::empty());
        lemma_disabled_empty(name);
    } else {
        lemma_disabled_last(channels, name);
        let front = channels.drop_last();
        lemma_disabled_no_duplicates(front, name);
        if channels.last() != name {
            let rest = disabled(front, name);
            lemma_disabled_contains(front, name, channels.last());
            if front.contains(channels.last()) {
                let i = choose|i: int| 0 <= i < front.len() && front[i] == channels.last();
                assert(channels[i] == channels[channels.len() - 1]);
            }
            assert(!rest.contains(channels.last()));
        }
    }
}

/// A channel is among `enabled(channels, name)` exactly if it is among
/// `channels` or is `name`.
pub proof fn lemma_enabled_contains(channels: Seq<Seq<char>>, name: Seq<char>, other: Seq<char>)
    ensures
        enabled(channels, name).contains(other) <==> channels.contains(other) || other == name,
{
    if !channels.contains(name) {
        let out = channels.push(name);
        assert(out.last() == name);
        if channels.contains(other) {
            let i = choose|i: int| 0 <= i < channels.len() && channels[i] == other;
            assert(out[i] == other);
        }
        if out.contains(other) {
            let i = choose|i: int| 0 <= i < out.len() && out[i] == other;
            if i < channels.len() {
                assert(channels[i] == other);
            }
        }
    }
}

/// Switching the channels at `from..to` leaves a list without repetitions
/// without repetitions.
pub proof fn lemma_switched_no_duplicates(
    channels: Seq<Seq<char>>,
    known: Seq<Seq<char>>,
    ticked: Seq<Seq<char>>,
    from: int,
    to: int,
)
    requires
        channels.no_duplicates(),
    ensures
        switched(channels, known, ticked, from, to).no_duplicates(),
    decreases to - from,
{
    if to > from {
        lemma_switched_no_duplicates(channels, known, ticked, from, to - 1);
        let before = switched(channels, known, ticked, from, to - 1);
        if ticked.contains(known[to - 1]) {
            if !before.contains(known[to - 1]) {
                assert(before.push(known[to - 1]).no_duplicates());
            }
        } else {
            lemma_disabled_no_duplicates(before, known[to - 1]);
        }
    }
}

/// Two walks, the second starting where the first ended, switch what one
/// walk over both stretches switches.
pub proof fn lemma_switched_twice(
    channels: Seq<Seq<char>>,
    known: Seq<Seq<char>>,
    ticked: Seq<Seq<char>>,
    from: int,
    mid: int,
    to: int,
)
    requires
        from <= mid <= to,
    ensures
        switched(switched(channels, known, ticked, from, mid), known, ticked, mid, to) == switched(
            channels,
            known,
            ticked,
            from,
            to,
        ),
    decreases to - mid,
{
    if to > mid {
        lemma_switched_twice(channels, known, ticked, from, mid, to - 1);
    }
}

/// After all known channels have been switched, a known channel is on
/// exactly if it was ticked, and any other channel is on exactly if it was
/// on before.
pub proof fn lemma_switched_membership(
    channels: Seq<Seq<char>>,
    known: Seq<Seq<char>>,
    ticked: Seq<Seq<char>>,
    name: Seq<char>,
)
    ensures
        known.contains(name) ==> (switched(channels, known, ticked, 0, known.len() as int).contains(
            name,
        ) <==> ticked.contains(name)),
        !known.contains(name) ==> (switched(
            channels,
            known,
            ticked,
            0,
            known.len() as int,
        ).contains(name) <==> channels.contains(name)),
{
    lemma_switched_prefix(channels, known, ticked, known.len() as int, name);
    assert(known.take(known.len() as int) =~= known);
}

/// After the first `to` known channels have been switched, one of them is on
/// exactly if it was ticked, and any other channel is on exactly if it was
/// on before.
pub proof fn lemma_switched_prefix(
    channels: Seq<Seq<char>>,
    known: Seq<Seq<char>>,
    ticked: Seq<Seq<char>>,
    to: int,
    name: Seq<char>,
)
    requires
        0 <= to <= known.len(),
    ensures
        known.take(to).contains(name) ==> (switched(channels, known, ticked, 0, to).contains(name)
            <==> ticked.contains(name)),
        !known.take(to).contains(name) ==> (switched(channels, known, ticked, 0, to).contains(name)
            <==> channels.contains(name)),
    decreases to,
{
    if to > 0 {
        lemma_switched_prefix(channels, known, ticked, to - 1, name);
        let before = switched(channels, known, ticked, 0, to - 1);
        let last = known[to - 1];
        lemma_enabled_contains(before, last, name);
        lemma_disabled_contains(before, last, name);
        let front = known.take(to - 1);
        let upto = known.take(to);
        assert(upto.last() == last);
        if front.contains(name) {
            let i = choose|i: int| 0 <= i < front.len() && front[i] == name;
            assert(upto[i] == name);
        }
        if upto.contains(name) && name != last {
            let i = choose|i: int| 0 <= i < upto.len() && upto[i] == name;
            assert(front[i] == name);
        }
    }
}

/// Switching a channel off that is not on changes nothing.
pub proof fn lemma_disabled_absent(channels: Seq<Seq<char>>, name: Seq<char>)
    requires
        !channels.contains(name),
    ensures
        disabled(channels, name) == channels,
    decreases channels.len(),
{
    if channels.len() == 0 {
        assert(channels =~= Seq::empty());
        lemma_disabled_empty(name);
    } else {
        lemma_disabled_last(channels, name);
        let front = channels.drop_last();
        if front.contains(name) {
            let i = choose|i: int| 0 <= i < front.len() && front[i] == name;
            assert(channels[i] == name);
        }
        assert(channels.last() == channels[channels.len() - 1]);
        lemma_disabled_absent(front, name);
        assert(front.push(channels.last()) =~= channels);
    }
}

/// Where a walk halts, a channel is on and not ticked, and every channel
/// that the walk passed before is ticked or was not on.
pub proof fn lemma_next_stop(
    channels: Seq<Seq<char>>,
    known: Seq<Seq<char>>,
    ticked: Seq<Seq<char>>,
    from: int,
)
    requires
        0 <= from <= known.len(),
    ensures
        from <= next_stop(channels, known, ticked, from) <= known.len(),
        next_stop(channels, known, ticked, from) < known.len() ==> {
            &&& !ticked.contains(known[next_stop(channels, known, ticked, from)])
            &&& channels.contains(known[next_stop(channels, known, ticked, from)])
        },
        forall|i: int|
            from <= i < next_stop(channels, known, ticked, from) ==> ticked.contains(known[i])
                || !channels.contains(#[trigger] known[i]),
    decreases known.len() - from,
{
    if from < known.len() && !(!ticked.contains(known[from]) && channels.contains(known[from])) {
        lemma_next_stop(channels, known, ticked, from + 1);
    }
}

/// Up to where a walk halts, it changes nothing for a channel that is not
/// ticked: such a channel is on at every point of the walk exactly if it
/// was on when the walk began.
pub proof fn lemma_passed_over(
    channels: Seq<Seq<char>>,
    known: Seq<Seq<char>>,
    ticked: Seq<Seq<char>>,
    from: int,
    to: int,
    name: Seq<char>,
)
    requires
        0 <= from <= to <= next_stop(channels, known, ticked, from),
        !ticked.contains(name),
    ensures
        switched(channels, known, ticked, from, to).contains(name) <==> channels.contains(name),
    decreases to - from,
{
    if to > from {
        lemma_next_stop(channels, known, ticked, from);
        let before = switched(channels, known, ticked, from, to - 1);
        let last = known[to - 1];
        lemma_passed_over(channels, known, ticked, from, to - 1, name);
        if !ticked.contains(last) {
            lemma_passed_over(channels, known, ticked, from, to - 1, last);
        }
        lemma_enabled_contains(before, last, name);
        lemma_disabled_contains(before, last, name);
    }
}

/// The walks from `from` on, made one after the other, switch every known
/// channel from `from` to the end, each once and in order.
pub proof fn lemma_walked_out(
    channels: Seq<Seq<char>>,
    known: Seq<Seq<char>>,
    ticked: Seq<Seq<char>>,
    from: int,
)
    requires
        0 <= from <= known.len(),
    ensures
        walked_out(channels, known, ticked, from) == switched(
            channels,
            known,
            ticked,
            from,
            known.len() as int,
        ),
    decreases known.len() - from,
{
    lemma_next_stop(channels, known, ticked, from);
    let halt = next_stop(channels, known, ticked, from);
    if halt < known.len() {
        lemma_walked_out(walked(channels, known, ticked, from), known, ticked, halt + 1);
        lemma_switched_twice(channels, known, ticked, from, halt + 1, known.len() as int);
    }
}

/// A channel that is not ticked is on after a walk exactly if it was on
/// before and is not the channel at which the walk halted.
pub proof fn lemma_walked_contains(
    channels: Seq<Seq<char>>,
    known: Seq<Seq<char>>,
    ticked: Seq<Seq<char>>,
    from: int,
    name: Seq<char>,
)
    requires
        0 <= from <= known.len(),
        !ticked.contains(name),
    ensures
        walked(channels, known, ticked, from).contains(name) <==> channels.contains(name) && !(
        next_stop(channels, known, ticked, from) < known.len() && known[next_stop(
            channels,
            known,
            ticked,
            from,
        )] == name),
{
    lemma_next_stop(channels, known, ticked, from);
    let halt = next_stop(channels, known, ticked, from);
    lemma_passed_over(channels, known, ticked, from, halt, name);
    if halt < known.len() {
        lemma_disabled_contains(switched(channels, known, ticked, from, halt), known[halt], name);
    }
}

/// A channel's player is stopped by the walks from `from` on exactly if the
/// channel is known at or after `from`, was on when they began and is not
/// ticked.
pub proof fn lemma_stops_members(
    channels: Seq<Seq<char>>,
    known: Seq<Seq<char>>,
    ticked: Seq<Seq<char>>,
    from: int,
    name: Seq<char>,
)
    requires
        0 <= from <= known.len(),
    ensures
        stops(channels, known, ticked, from).contains(name) <==> !ticked.contains(name)
            && channels.contains(name) && exists|j: int|
            from <= j < known.len() && known[j] == name,
    decreases known.len() - from,
{
    lemma_next_stop(channels, known, ticked, from);
    let halt = next_stop(channels, known, ticked, from);
    if halt < known.len() {
        let after = walked(channels, known, ticked, from);
        lemma_stops_members(after, known, ticked, halt + 1, name);
        let rest = stops(after, known, ticked, halt + 1);
        let all = seq![known[halt]] + rest;
        assert(all[0] == known[halt]);
        if !ticked.contains(name) {
            lemma_walked_contains(channels, known, ticked, from, name);
        }
        if rest.contains(name) {
            let i = choose|i: int| 0 <= i < rest.len() && rest[i] == name;
            assert(all[i + 1] == name);
        }
        if all.contains(name) {
            let i = choose|i: int| 0 <= i < all.len() && all[i] == name;
            if i > 0 {
                assert(rest[i - 1] == name);
            }
        }
        if !ticked.contains(name) && channels.contains(name) && name != known[halt] && exists|j: int|
            from <= j < known.len() && known[j] == name {
            let j = choose|j: int| from <= j < known.len() && known[j] == name;
            assert(j > halt);
        }
    }
}

/// No channel's player is stopped twice.
pub proof fn lemma_stops_once(
    channels: Seq<Seq<char>>,
    known: Seq<Seq<char>>,
    ticked: Seq<Seq<char>>,
    from: int,
)
    requires
        0 <= from <= known.len(),
    ensures
        stops(channels, known, ticked, from).no_duplicates(),
    decreases known.len() - from,
{
    lemma_next_stop(channels, known, ticked, from);
    let halt = next_stop(channels, known, ticked, from);
    if halt < known.len() {
        let after = walked(channels, known, ticked, from);
        lemma_stops_once(after, known, ticked, halt + 1);
        lemma_stops_members(after, known, ticked, halt + 1, known[halt]);
        lemma_walked_contains(channels, known, ticked, from, known[halt]);
        let rest = stops(after, known, ticked, halt + 1);
        let all = seq![known[halt]] + rest;
        assert forall|i: int, j: int| 0 <= i < all.len() && 0 <= j < all.len() && i != j implies all[i]
            != all[j] by {
            if i > 0 && j > 0 {
                assert(rest[i - 1] != rest[j - 1]);
            } else if i > 0 {
                assert(rest.contains(rest[i - 1]));
            } else {
                assert(rest.contains(rest[j - 1]));
            }
        }
    }
}

/// Two tests that agree on every item of a list keep the same items of it.
proof fn lemma_filter_agrees(
    list: Seq<Seq<char>>,
    one: spec_fn(Seq<char>) -> bool,
    other: spec_fn(Seq<char>) -> bool,
)
    requires
        forall|i: int| 0 <= i < list.len() ==> one(#[trigger] list[i]) == other(list[i]),
    ensures
        list.filter(one) == list.filter(other),
    decreases list.len(),
{
    reveal(Seq::filter);
    if list.len() > 0 {
        let front = list.drop_last();
        assert forall|i: int| 0 <= i < front.len() implies one(#[trigger] front[i]) == other(
            front[i],
        ) by {
            assert(front[i] == list[i]);
        }
        lemma_filter_agrees(front, one, other);
        assert(one(list[list.len() - 1]) == other(list[list.len() - 1]));
    }
}

/// Leaving out a stretch at the front of which a test keeps nothing
/// changes nothing in what the test keeps.
proof fn lemma_filter_skips(
    known: Seq<Seq<char>>,
    keep: spec_fn(Seq<char>) -> bool,
    from: int,
    to: int,
)
    requires
        0 <= from <= to <= known.len(),
        forall|i: int| from <= i < to ==> !keep(#[trigger] known[i]),
    ensures
        known.skip(from).filter(keep) == known.skip(to).filter(keep),
    decreases to - from,
{
    if from < to {
        lemma_filter_skips(known, keep, from + 1, to);
        let tail = known.skip(from);
        assert(tail.skip(1) =~= known.skip(from + 1));
        assert(tail =~= seq![known[from]] + tail.skip(1));
        Seq::filter_distributes_over_add(seq![known[from]], tail.skip(1), keep);
        assert(seq![known[from]].filter(keep) =~= Seq::<Seq<char>>::empty()) by {
            reveal_with_fuel(Seq::filter, 2);
        }
    }
}

/// Where no channel is known twice, the players are stopped in the order
/// in which the channels are known: those of the known channels from `from`
/// on that were on and are not ticked, and no other.
pub proof fn lemma_stops_in_order(
    channels: Seq<Seq<char>>,
    known: Seq<Seq<char>>,
    ticked: Seq<Seq<char>>,
    from: int,
)
    requires
        0 <= from <= known.len(),
        known.no_duplicates(),
    ensures
        stops(channels, known, ticked, from) == known.skip(from).filter(
            |name: Seq<char>| !ticked.contains(name) && channels.contains(name),
        ),
    decreases known.len() - from,
{
    let keep = |name: Seq<char>| !ticked.contains(name) && channels.contains(name);
    lemma_next_stop(channels, known, ticked, from);
    let halt = next_stop(channels, known, ticked, from);
    lemma_filter_skips(known, keep, from, halt);
    if halt < known.len() {
        let after = walked(channels, known, ticked, from);
        let keep_after = |name: Seq<char>| !ticked.contains(name) && after.contains(name);
        lemma_stops_in_order(after, known, ticked, halt + 1);
        let tail = known.skip(halt);
        let later = known.skip(halt + 1);
        assert(tail.skip(1) =~= later);
        assert(tail =~= seq![known[halt]] + later);
        Seq::filter_distributes_over_add(seq![known[halt]], later, keep);
        assert(seq![known[halt]].filter(keep) =~= seq![known[halt]]) by {
            reveal_with_fuel(Seq::filter, 2);
        }
        assert forall|i: int| 0 <= i < later.len() implies keep_after(#[trigger] later[i]) == keep(
            later[i],
        ) by {
            assert(later[i] == known[halt + 1 + i]);
            if !ticked.contains(later[i]) {
                lemma_walked_contains(channels, known, ticked, from, later[i]);
            }
        }
        lemma_filter_agrees(later, keep_after, keep);
    } else {
        assert(known.skip(halt).len() == 0);
        known.skip(halt).lemma_filter_len(keep);
        assert(known.skip(halt).filter(keep) =~= Seq::<Seq<char>>::empty());
    }
}

} // verus!
