//! The program as a whole: its course together with the wallpaper.
//!
//! The course of the program (`run`) and the wallpaper (`wallpaper`) meet in three
//! places: events of the compositor reach the wallpaper while they are dispatched,
//! the player's signal is handed on to it, and its wish to end is asked for once in
//! every round of the main loop.

use vstd::prelude::*;

use crate::run::{Reply, RunStep};
use crate::wallpaper::{Event, Murale, MuraleView};

verus! {

/// Something to do when the player has signalled an update.
#[derive(Debug, Clone, Copy, PartialEq, Eq, Structural)]
pub enum WakeupStep {
    /// Read the wakeup descriptor, whatever comes of it.
    ReadDescriptor,
    /// Hand an event to the wallpaper.
    Handle(Event),
}

/// How an update of the player is handled: its descriptor is read once, before
/// anything else and whether or not there is a player to ask, and then the wallpaper
/// is told.
pub fn wakeup_steps() -> (steps: Vec<WakeupStep>)
    ensures
        steps@ == seq![WakeupStep::ReadDescriptor, WakeupStep::Handle(Event::MpvWakeup)],
{
    vec![WakeupStep::ReadDescriptor, WakeupStep::Handle(Event::MpvWakeup)]
}

/// The reply to `RunStep::CheckExit`: the wallpaper's own wish to end.
pub fn exit_reply(wallpaper: &Murale) -> (reply: Reply<String>)
    ensures
        reply@ == Reply::<Seq<char>>::Answer(wallpaper@.exit),
{
    Reply::Answer(wallpaper.exit)
}

/// Where the program is, and the wallpaper with it. There is no wallpaper to speak of
/// before `RunStep::CreateWakeupFd` is done.
pub struct Program {
    pub step: RunStep,
    pub wallpaper: MuraleView,
}

impl Program {
    /// Whether the step can go that way.
    pub open spec fn takes(self, reply: Reply<Seq<char>>) -> bool {
        &&& crate::run::fits(self.step, reply)
        &&& self.step is CheckExit ==> reply == Reply::<Seq<char>>::Answer(self.wallpaper.exit)
    }

    /// Whether the events can come to the wallpaper during the step: any that it
    /// accepts while the compositor's events are dispatched, and the player's signal
    /// with what follows from it when that is handled. At the end of it the wallpaper
    /// waits for the next report.
    pub open spec fn meets(self, events: Seq<Event>) -> bool {
        match self.step {
            RunStep::Roundtrip | RunStep::Dispatch { .. } => self.wallpaper.accepts_all(events)
                && self.wallpaper.after(events).phase is Idle,
            RunStep::HandleWakeup => events.len() > 0 && events[0] == Event::MpvWakeup
                && self.wallpaper.accepts_all(events) && self.wallpaper.after(events).phase is Idle,
            _ => events.len() == 0,
        }
    }

    /// The program after the step went that way and the events have come, or what the
    /// user is told.
    pub open spec fn next(self, reply: Reply<Seq<char>>, events: Seq<Event>) -> Result<
        Program,
        Seq<char>,
    > {
        let wallpaper = if self.step is CreateLayer {
            self.wallpaper.layer_created()
        } else {
            self.wallpaper.after(events)
        };
        match crate::run::run_next(self.step, reply) {
            Ok(step) => Ok(Program { step, wallpaper }),
            Err(told) => Err(told),
        }
    }
}

/// Whether an event ends the wallpaper: the compositor has closed the layer surface,
/// or the surface or the player could not be had.
pub open spec fn ends(event: Event) -> bool {
    ||| event is Closed
    ||| event == Event::SurfaceCreated(false)
    ||| event == Event::PlayerStarted(false)
}

/// The wallpaper wants to end exactly from the first event on that ends it.
pub proof fn only_these_events_end_the_wallpaper(wallpaper: MuraleView, events: Seq<Event>)
    requires
        wallpaper.accepts_all(events),
    ensures
        wallpaper.after(events).exit <==> wallpaper.exit || exists|i: int|
            0 <= i < events.len() && ends(#[trigger] events[i]),
    decreases events.len(),
{
    if events.len() > 0 {
        let next = wallpaper.step(events[0]).0;
        let rest = events.skip(1);
        only_these_events_end_the_wallpaper(next, rest);
        assert(next.exit <==> wallpaper.exit || ends(events[0]));
        assert(forall|i: int| 0 <= i < rest.len() ==> #[trigger] rest[i] == events[i + 1]);
        if exists|i: int| 0 <= i < events.len() && ends(#[trigger] events[i]) {
            let i = choose|i: int| 0 <= i < events.len() && ends(#[trigger] events[i]);
            if i > 0 {
                assert(rest[i - 1] == events[i]);
            }
        }
    }
}

/// What ends the wallpaper ends the main loop in the same round: when the compositor
/// closes the layer surface, or the set-up fails, while events are dispatched, then no
/// round is begun any more. An update of the player that was signalled in that round
/// is still handled before.
pub proof fn the_loop_ends_in_the_round_in_which_the_wallpaper_does(
    wallpaper: MuraleView,
    wakeup: bool,
    events: Seq<Event>,
    i: int,
    update: Seq<Event>,
    reply: Reply<Seq<char>>,
)
    requires
        (Program { step: RunStep::Dispatch { wakeup }, wallpaper }).meets(events),
        0 <= i < events.len(),
        ends(events[i]),
        wakeup ==> (Program {
            step: RunStep::HandleWakeup,
            wallpaper: wallpaper.after(events),
        }).meets(update),
        !wakeup ==> update.len() == 0,
        (Program {
            step: RunStep::CheckExit,
            wallpaper: wallpaper.after(events).after(update),
        }).takes(reply),
    ensures
        ({
            let dispatching = Program { step: RunStep::Dispatch { wakeup }, wallpaper };
            let handling = Program {
                step: RunStep::HandleWakeup,
                wallpaper: wallpaper.after(events),
            };
            let asking = Program {
                step: RunStep::CheckExit,
                wallpaper: wallpaper.after(events).after(update),
            };
            &&& dispatching.next(Reply::Done, events) == Ok::<Program, Seq<char>>(
                if wakeup {
                    handling
                } else {
                    asking
                },
            )
            &&& wakeup ==> handling.next(Reply::Done, update) == Ok::<Program, Seq<char>>(asking)
            &&& asking.next(reply, Seq::empty()) == Ok::<Program, Seq<char>>(
                Program { step: RunStep::ReleaseRenderContext, ..asking },
            )
        }),
{
    only_these_events_end_the_wallpaper(wallpaper, events);
    if wakeup {
        only_these_events_end_the_wallpaper(wallpaper.after(events), update);
    } else {
        assert(wallpaper.after(events).after(update) == wallpaper.after(events));
    }
}

/// Otherwise the main loop goes on: as long as nothing has ended the wallpaper, the
/// next round begins with a look at the shutdown flag.
pub proof fn the_loop_goes_on_while_the_wallpaper_does(
    program: Program,
    reply: Reply<Seq<char>>,
)
    requires
        program.step is CheckExit,
        program.takes(reply),
    ensures
        program.next(reply, Seq::empty()) == Ok::<Program, Seq<char>>(
            Program {
                step: if program.wallpaper.exit {
                    RunStep::ReleaseRenderContext
                } else {
                    RunStep::CheckShutdown
                },
                ..program
            },
        ),
{
}

/// Whatever happens in a step, the wallpaper stays well-formed.
pub proof fn every_step_keeps_the_wallpaper_well_formed(
    program: Program,
    reply: Reply<Seq<char>>,
    events: Seq<Event>,
)
    requires
        program.wallpaper.wf(),
        program.takes(reply),
        program.meets(events),
    ensures
        program.next(reply, events) matches Ok(next) ==> next.wallpaper.wf(),
{
    if events.len() > 0 {
        crate::wallpaper::events_keep_states_well_formed(program.wallpaper, events);
    }
}

/// Without a player to ask, a signal leaves the wallpaper as it was, and the program
/// goes on.
pub proof fn updates_without_a_player_change_nothing(wallpaper: MuraleView)
    requires
        wallpaper.phase is Idle,
        !wallpaper.render_ctx,
    ensures
        (Program { step: RunStep::HandleWakeup, wallpaper }).meets(seq![Event::MpvWakeup]),
        (Program { step: RunStep::HandleWakeup, wallpaper }).next(
            Reply::Done,
            seq![Event::MpvWakeup],
        ) == Ok::<Program, Seq<char>>(Program { step: RunStep::CheckExit, wallpaper }),
{
    reveal_with_fuel(MuraleView::accepts_all, 2);
    reveal_with_fuel(MuraleView::after, 2);
}

} // verus!
