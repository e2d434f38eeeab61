//! One poll cycle: the line that shows all batteries, and the pause before
//! the next cycle.

use vstd::prelude::*;
use crate::battery::{BatteryView, PolybarBat};
use crate::blink::{alarmed, blinking};
use crate::reading::Reading;

verus! {

/// Pause, in milliseconds, while some battery blinks: short enough for the
/// alternation to read as blinking.
pub const BLINK_SLEEP_MS: u64 = 500;

/// Pause, in milliseconds, while no battery blinks.
pub const IDLE_SLEEP_MS: u64 = 2000;

/// What one poll cycle hands to the caller.
#[derive(Debug)]
pub struct Cycle {
    /// The line to write, without a line end.
    pub line: String,
    /// How long to sleep before the next cycle, in milliseconds.
    pub sleep_ms: u64,
}

/// The batteries of a row as plain values.
pub open spec fn views(bats: Seq<PolybarBat>) -> Seq<BatteryView> {
    Seq::new(bats.len(), |i: int| bats[i]@)
}

/// The outcome for the battery at position `i`: the one given, or a failed
/// read where none is given.
pub open spec fn outcome_at(outcomes: Seq<Option<Reading>>, i: int) -> Option<Reading> {
    if 0 <= i < outcomes.len() {
        outcomes[i]
    } else {
        None
    }
}

/// The row after each battery took in its outcome.
pub open spec fn refreshed(bats: Seq<BatteryView>, outcomes: Seq<Option<Reading>>) -> Seq<
    BatteryView,
> {
    Seq::new(bats.len(), |i: int| bats[i].refreshed(outcome_at(outcomes, i)))
}

/// The row after each battery rendered its fragment.
pub open spec fn rendered(bats: Seq<BatteryView>) -> Seq<BatteryView> {
    Seq::new(bats.len(), |i: int| bats[i].rendered())
}

/// What stands before the fragment at position `i` of a line: nothing
/// before the first, one space before each other.
pub open spec fn separator(i: int) -> Seq<char> {
    if i <= 0 {
        Seq::<char>::empty()
    } else {
        seq![' ']
    }
}

/// The line of a row of batteries: their fragments in order, one space
/// between neighbours, and nothing at all for an empty row.
pub open spec fn line_of(bats: Seq<BatteryView>) -> Seq<char>
    decreases bats.len(),
{
    if bats.len() == 0 {
        Seq::<char>::empty()
    } else {
        line_of(bats.drop_last()) + separator(bats.len() - 1) + bats.last().fragment()
    }
}

/// Whether some battery of the row is blinking.
pub open spec fn any_blinking(bats: Seq<BatteryView>) -> bool {
    exists|i: int| 0 <= i < bats.len() && blinking(#[trigger] bats[i].blink)
}

/// The pause before the next cycle, in milliseconds.
pub open spec fn sleep_for(blinking: bool) -> u64 {
    if blinking {
        BLINK_SLEEP_MS
    } else {
        IDLE_SLEEP_MS
    }
}

/// The pause before the next cycle, in milliseconds: the short one when
/// some battery blinks, the long one otherwise.
pub fn sleep_millis(blinking: bool) -> (ms: u64)
    ensures
        ms == sleep_for(blinking),
{
    if blinking {
        BLINK_SLEEP_MS
    } else {
        IDLE_SLEEP_MS
    }
}

/// Runs one poll cycle.
///
/// `outcomes` holds, battery by battery, what reading it anew gave: the new
/// reading, or `None` where the read failed. A battery without an outcome
/// counts as one whose read failed, and outcomes beyond the last battery
/// are passed over.
///
/// Each battery takes in its outcome, renders its fragment and moves its
/// blink phase on, in order. The fragments make up the line. The pause is
/// the short one exactly when some battery blinks after this cycle.
pub fn poll_cycle(bats: &mut Vec<PolybarBat>, outcomes: &Vec<Option<Reading>>) -> (out: Cycle)
    ensures
        views(final(bats)@) == rendered(refreshed(views(old(bats)@), outcomes@)),
        out.line@ == line_of(refreshed(views(old(bats)@), outcomes@)),
        out.sleep_ms == sleep_for(any_blinking(views(final(bats)@))),
{
    let ghost before = views(bats@);
    let ghost fresh = refreshed(before, outcomes@);
    let mut line = String::new();
    let mut any = false;
    let mut i: usize = 0;
    while i < bats.len()
        invariant
            i <= bats.len(),
            bats@.len() == before.len(),
            fresh == refreshed(before, outcomes@),
            forall|j: int| 0 <= j < i ==> (#[trigger] bats@[j])@ == fresh[j].rendered(),
            forall|j: int| i <= j < bats@.len() ==> (#[trigger] bats@[j])@ == before[j],
            line@ == line_of(fresh.take(i as int)),
            any == any_blinking(rendered(fresh.take(i as int))),
        decreases bats.len() - i,
    {
        if i > 0 {
            line.append(" ");
        }
        let outcome = if i < outcomes.len() {
            outcomes[i]
        } else {
            None
        };
        bats[i].refresh(outcome);
        let fragment = bats[i].render();
        line.append(fragment.as_str());
        let lit = bats[i].blink_enabled();
        proof {
            reveal_strlit(" ");
            let done = fresh.take(i as int);
            assert(fresh.take(i as int + 1) =~= done.push(fresh[i as int]));
            lemma_line_push(done, fresh[i as int]);
            lemma_any_blinking_push(rendered(done), fresh[i as int].rendered());
            assert(rendered(done.push(fresh[i as int])) =~= rendered(done).push(
                fresh[i as int].rendered(),
            ));
        }
        any = any || lit;
        i += 1;
    }
    proof {
        assert(fresh.take(i as int) =~= fresh);
        assert(views(bats@) =~= rendered(fresh));
    }
    Cycle { line, sleep_ms: sleep_millis(any) }
}

/// One more battery at the end of a row: some battery blinks exactly when
/// one did before or the new one does.
pub proof fn lemma_any_blinking_push(bats: Seq<BatteryView>, bat: BatteryView)
    ensures
        any_blinking(bats.push(bat)) <==> any_blinking(bats) || blinking(bat.blink),
{
    let longer = bats.push(bat);
    if any_blinking(bats) {
        let k = choose|k: int| 0 <= k < bats.len() && blinking(#[trigger] bats[k].blink);
        assert(blinking(longer[k].blink));
    }
    if blinking(bat.blink) {
        assert(blinking(longer[bats.len() as int].blink));
    }
    if any_blinking(longer) {
        let k = choose|k: int| 0 <= k < longer.len() && blinking(#[trigger] longer[k].blink);
        if k < bats.len() {
            assert(blinking(bats[k].blink));
        }
    }
}

/// The pause depends on nothing but whether some battery blinks: with none
/// blinking it is the long one, with one or more the short one, however
/// many batteries the row has.
pub proof fn lemma_sleep_selection(bats: Seq<BatteryView>)
    ensures
        (forall|i: int| 0 <= i < bats.len() ==> !blinking(#[trigger] bats[i].blink)) ==> sleep_for(
            any_blinking(bats),
        ) == 2000,
        (exists|i: int| 0 <= i < bats.len() && blinking(#[trigger] bats[i].blink)) ==> sleep_for(
            any_blinking(bats),
        ) == 500,
        bats.len() == 0 ==> sleep_for(any_blinking(bats)) == 2000,
{
}

/// After a cycle some battery blinks exactly when some battery of the row
/// is critically low and not charging.
pub proof fn lemma_blinking_after_cycle(bats: Seq<BatteryView>)
    ensures
        any_blinking(rendered(bats)) <==> exists|i: int|
            0 <= i < bats.len() && alarmed(
                (#[trigger] bats[i]).percent,
                bats[i].state.is_charging(),
            ),
{
    if any_blinking(rendered(bats)) {
        let k = choose|k: int|
            0 <= k < rendered(bats).len() && blinking(#[trigger] rendered(bats)[k].blink);
        assert(alarmed(bats[k].percent, bats[k].state.is_charging()));
    }
    if exists|i: int|
        0 <= i < bats.len() && alarmed((#[trigger] bats[i]).percent, bats[i].state.is_charging()) {
        let k = choose|k: int|
            0 <= k < bats.len() && alarmed((#[trigger] bats[k]).percent, bats[k].state.is_charging());
        assert(blinking(rendered(bats)[k].blink));
    }
}

/// Failed reads change nothing: where no battery of the row gets a new
/// reading, the row is shown as it stood.
pub proof fn lemma_failed_reads_keep_row(bats: Seq<BatteryView>, outcomes: Seq<Option<Reading>>)
    requires
        forall|i: int| 0 <= i < bats.len() ==> outcome_at(outcomes, i) is None,
    ensures
        refreshed(bats, outcomes) == bats,
        line_of(refreshed(bats, outcomes)) == line_of(bats),
{
    assert(refreshed(bats, outcomes) =~= bats);
}

/// A line grows at its end: one more battery adds a separator, unless it
/// is the first, and its fragment.
pub proof fn lemma_line_push(bats: Seq<BatteryView>, bat: BatteryView)
    ensures
        line_of(bats.push(bat)) == line_of(bats) + separator(bats.len() as int) + bat.fragment(),
        line_of(Seq::<BatteryView>::empty()) == Seq::<char>::empty(),
        line_of(seq![bat]) == bat.fragment(),
{
    reveal_with_fuel(line_of, 2);
    assert(bats.push(bat).drop_last() =~= bats);
    assert(seq![bat].drop_last() =~= Seq::<BatteryView>::empty());
    assert(line_of(seq![bat]) =~= bat.fragment());
}

} // verus!
