//! The course of the program: from connecting to the compositor, over the main
//! loop, to the orderly end.
//!
//! `run` says what comes next; the caller does it, and reports how it went.

use vstd::prelude::*;

use crate::text::join;

verus! {

/// How long the main loop waits for something to happen, in milliseconds.
pub const POLL_TIMEOUT_MS: u16 = 16;

/// Something for the caller to do.
#[derive(Debug, Clone, Copy, PartialEq, Eq, Structural)]
pub enum RunStep {
    /// Have SIGINT and SIGTERM set the shutdown flag.
    InstallSignals,
    /// Connect to the compositor.
    Connect,
    /// List what the compositor offers.
    InitRegistry,
    /// Bind the compositor's surfaces.
    BindCompositor,
    /// Bind its layer shell.
    BindLayerShell,
    /// Bind its displays.
    BindOutputs,
    /// Load EGL.
    LoadEgl,
    /// Set EGL's display up.
    InitDisplay,
    /// Create the descriptor on which the player signals updates.
    CreateWakeupFd,
    /// Let the compositor describe its displays.
    Roundtrip,
    /// Find the display that the user asked for.
    SelectOutput,
    /// Create the layer surface on it, by the steps of `layer_steps`.
    CreateLayer,
    /// Look at the shutdown flag.
    CheckShutdown,
    /// Ask whether the connection may be read from: it may not while events are
    /// still queued.
    PrepareRead,
    /// Send what was written to the connection.
    Flush { may_read: bool },
    /// Wait for the connection or the player, `POLL_TIMEOUT_MS` at most.
    Poll,
    /// Read events from the connection.
    ReadEvents { wakeup: bool },
    /// Take a signal of the player off its descriptor, if there is one.
    TakeWakeup,
    /// Dispatch the queued events of the compositor.
    Dispatch { wakeup: bool },
    /// Handle the player's update, by the steps of `program::wakeup_steps`.
    HandleWakeup,
    /// Look at the wallpaper's own wish to end, which is `program::exit_reply`.
    CheckExit,
    /// Release the player's render context.
    ReleaseRenderContext,
    /// Release the player.
    ReleasePlayer,
    /// Release the surface.
    ReleaseSurface,
    /// The program has ended.
    Finished,
}

/// How a step went.
#[derive(Debug)]
pub enum Reply<S> {
    /// It was done.
    Done,
    /// It failed.
    Failed(S),
    /// The answer to a question.
    Answer(bool),
    /// The wait was cut short by a signal.
    Interrupted,
    /// The wait is over. For the connection and for the player's descriptor:
    /// whether anything happened there, if that can be told.
    Polled { display: Option<bool>, wakeup: Option<bool> },
}

impl View for Reply<String> {
    type V = Reply<Seq<char>>;

    open spec fn view(&self) -> Reply<Seq<char>> {
        match self {
            Reply::Done => Reply::Done,
            Reply::Failed(cause) => Reply::Failed(cause@),
            Reply::Answer(answer) => Reply::Answer(*answer),
            Reply::Interrupted => Reply::Interrupted,
            Reply::Polled { display, wakeup } => Reply::Polled {
                display: *display,
                wakeup: *wakeup,
            },
        }
    }
}

/// The name under which the compositor knows the layer surface.
pub const NAMESPACE: &'static str = "murale";

/// Something to do on the way to the layer surface.
#[derive(Debug, Clone, Copy, PartialEq, Eq)]
pub enum LayerStep {
    /// Create a surface, and a layer surface on it in the background layer, below
    /// all windows: with a namespace, and on the display with the given index, or
    /// on one that the compositor picks.
    CreateInBackground { namespace: &'static str, output: Option<usize> },
    /// Anchor it to edges of the display.
    SetAnchor { top: bool, bottom: bool, left: bool, right: bool },
    /// Set the space that other surfaces leave free for it; -1 is to stretch below
    /// all of them.
    SetExclusiveZone(i32),
    /// Let it have no keyboard focus.
    RefuseKeyboard,
    /// Ask for a size; 0 is to leave it to the compositor.
    SetSize { width: u32, height: u32 },
    /// Commit what was set.
    Commit,
}

/// The layer surface fills the display, in the background and without keyboard
/// focus. All of it is committed at once, at the end.
pub fn layer_steps(output: Option<usize>) -> (steps: Vec<LayerStep>)
    ensures
        steps@ == seq![
            LayerStep::CreateInBackground { namespace: NAMESPACE, output },
            LayerStep::SetAnchor { top: true, bottom: true, left: true, right: true },
            LayerStep::SetExclusiveZone(-1 as i32),
            LayerStep::RefuseKeyboard,
            LayerStep::SetSize { width: 0, height: 0 },
            LayerStep::Commit,
        ],
{
    vec![
        LayerStep::CreateInBackground { namespace: NAMESPACE, output },
        LayerStep::SetAnchor { top: true, bottom: true, left: true, right: true },
        LayerStep::SetExclusiveZone(-1),
        LayerStep::RefuseKeyboard,
        LayerStep::SetSize { width: 0, height: 0 },
        LayerStep::Commit,
    ]
}

/// Whether a step is a question.
pub open spec fn asks(step: RunStep) -> bool {
    ||| step is CheckShutdown
    ||| step is PrepareRead
    ||| step is TakeWakeup
    ||| step is CheckExit
}

/// Whether a step can fail.
pub open spec fn can_fail(step: RunStep) -> bool {
    ||| step is Connect
    ||| step is InitRegistry
    ||| step is BindCompositor
    ||| step is BindLayerShell
    ||| step is LoadEgl
    ||| step is InitDisplay
    ||| step is CreateWakeupFd
    ||| step is Roundtrip
    ||| step is Flush
    ||| step is Poll
    ||| step is ReadEvents
    ||| step is Dispatch
}

/// Whether a step can go that way.
pub open spec fn fits<S>(step: RunStep, reply: Reply<S>) -> bool {
    match reply {
        Reply::Done => !asks(step) && !(step is Poll) && !(step is Finished),
        Reply::Failed(_) => can_fail(step),
        Reply::Answer(_) => asks(step),
        Reply::Interrupted => step is Poll,
        Reply::Polled { .. } => step is Poll,
    }
}

/// What the user is told when a step fails.
pub open spec fn failure(step: RunStep, cause: Seq<char>) -> Seq<char> {
    match step {
        RunStep::Connect =>
        "could not connect to Wayland compositor (is a Wayland session running?): "@ + cause,
        RunStep::InitRegistry => "Wayland registry init failed: "@ + cause,
        RunStep::BindCompositor => "compositor does not support wl_compositor: "@ + cause,
        RunStep::BindLayerShell =>
        "compositor does not support wlr-layer-shell (required for wallpaper surfaces): "@ + cause,
        RunStep::Poll => "poll failed: "@ + cause,
        _ => cause,
    }
}

/// An optional answer, of which none counts as no.
pub open spec fn or_no(answer: Option<bool>) -> bool {
    answer == Some(true)
}

/// What follows when it is known whether the player has signalled: if not, its
/// descriptor is looked at once more.
pub open spec fn once_polled(wakeup: bool) -> RunStep {
    if wakeup {
        RunStep::Dispatch { wakeup: true }
    } else {
        RunStep::TakeWakeup
    }
}

/// What follows a step: the next step, or what the user is told.
pub open spec fn run_next(step: RunStep, reply: Reply<Seq<char>>) -> Result<RunStep, Seq<char>> {
    match reply {
        Reply::Failed(cause) => Err(failure(step, cause)),
        Reply::Interrupted => Ok(RunStep::CheckShutdown),
        Reply::Polled { display, wakeup } => if or_no(display) {
            Ok(RunStep::ReadEvents { wakeup: or_no(wakeup) })
        } else {
            Ok(once_polled(or_no(wakeup)))
        },
        Reply::Answer(answer) => Ok(
            match step {
                RunStep::CheckShutdown => if answer {
                    RunStep::ReleaseRenderContext
                } else {
                    RunStep::PrepareRead
                },
                RunStep::PrepareRead => RunStep::Flush { may_read: answer },
                RunStep::TakeWakeup => RunStep::Dispatch { wakeup: answer },
                _ => if answer {
                    RunStep::ReleaseRenderContext
                } else {
                    RunStep::CheckShutdown
                },
            },
        ),
        Reply::Done => Ok(
            match step {
                RunStep::InstallSignals => RunStep::Connect,
                RunStep::Connect => RunStep::InitRegistry,
                RunStep::InitRegistry => RunStep::BindCompositor,
                RunStep::BindCompositor => RunStep::BindLayerShell,
                RunStep::BindLayerShell => RunStep::BindOutputs,
                RunStep::BindOutputs => RunStep::LoadEgl,
                RunStep::LoadEgl => RunStep::InitDisplay,
                RunStep::InitDisplay => RunStep::CreateWakeupFd,
                RunStep::CreateWakeupFd => RunStep::Roundtrip,
                RunStep::Roundtrip => RunStep::SelectOutput,
                RunStep::SelectOutput => RunStep::CreateLayer,
                RunStep::CreateLayer => RunStep::CheckShutdown,
                RunStep::Flush { may_read } => if may_read {
                    RunStep::Poll
                } else {
                    RunStep::TakeWakeup
                },
                RunStep::ReadEvents { wakeup } => once_polled(wakeup),
                RunStep::Dispatch { wakeup } => if wakeup {
                    RunStep::HandleWakeup
                } else {
                    RunStep::CheckExit
                },
                RunStep::HandleWakeup => RunStep::CheckExit,
                RunStep::ReleaseRenderContext => RunStep::ReleasePlayer,
                RunStep::ReleasePlayer => RunStep::ReleaseSurface,
                _ => RunStep::Finished,
            },
        ),
    }
}

/// Whether a step can go that way.
pub fn reply_fits(step: RunStep, reply: &Reply<String>) -> (yes: bool)
    ensures
        yes == fits(step, reply@),
{
    let question: bool = match step {
        RunStep::CheckShutdown | RunStep::PrepareRead | RunStep::TakeWakeup | RunStep::CheckExit
        => true,
        _ => false,
    };
    let polling: bool = match step {
        RunStep::Poll => true,
        _ => false,
    };
    match reply {
        Reply::Done => match step {
            RunStep::Finished => false,
            _ => !question && !polling,
        },
        Reply::Failed(_) => match step {
            RunStep::Connect
            | RunStep::InitRegistry
            | RunStep::BindCompositor
            | RunStep::BindLayerShell
            | RunStep::LoadEgl
            | RunStep::InitDisplay
            | RunStep::CreateWakeupFd
            | RunStep::Roundtrip
            | RunStep::Flush { .. }
            | RunStep::Poll
            | RunStep::ReadEvents { .. }
            | RunStep::Dispatch { .. } => true,
            _ => false,
        },
        Reply::Answer(_) => question,
        Reply::Interrupted => polling,
        Reply::Polled { .. } => polling,
    }
}

/// What the user is told when a step fails.
fn failure_text(step: RunStep, cause: String) -> (told: String)
    ensures
        told@ == failure(step, cause@),
{
    match step {
        RunStep::Connect => join(
            "could not connect to Wayland compositor (is a Wayland session running?): ",
            cause.as_str(),
        ),
        RunStep::InitRegistry => join("Wayland registry init failed: ", cause.as_str()),
        RunStep::BindCompositor => join(
            "compositor does not support wl_compositor: ",
            cause.as_str(),
        ),
        RunStep::BindLayerShell => join(
            "compositor does not support wlr-layer-shell (required for wallpaper surfaces): ",
            cause.as_str(),
        ),
        RunStep::Poll => join("poll failed: ", cause.as_str()),
        _ => cause,
    }
}

/// What follows when it is known whether the player has signalled.
fn polled(wakeup: bool) -> (next: RunStep)
    ensures
        next == once_polled(wakeup),
{
    if wakeup {
        RunStep::Dispatch { wakeup: true }
    } else {
        RunStep::TakeWakeup
    }
}

/// An optional answer, of which none counts as no.
fn answer_or_no(answer: Option<bool>) -> (yes: bool)
    ensures
        yes == or_no(answer),
{
    match answer {
        Some(given) => given,
        None => false,
    }
}

/// Goes on with the program after a step: the next step, or what the user is told
/// when the program ends in a failure.
pub fn run(step: RunStep, reply: Reply<String>) -> (next: Result<RunStep, String>)
    requires
        fits(step, reply@),
    ensures
        match (next, run_next(step, reply@)) {
            (Ok(taken), Ok(expected)) => taken == expected,
            (Err(told), Err(expected)) => told@ == expected,
            _ => false,
        },
{
    let answer: bool = match reply {
        Reply::Failed(cause) => {
            return Err(failure_text(step, cause));
        },
        Reply::Interrupted => {
            return Ok(RunStep::CheckShutdown);
        },
        Reply::Polled { display, wakeup } => {
            let signalled: bool = answer_or_no(wakeup);
            return if answer_or_no(display) {
                Ok(RunStep::ReadEvents { wakeup: signalled })
            } else {
                Ok(polled(signalled))
            };
        },
        Reply::Answer(answer) => answer,
        Reply::Done => false,
    };
    Ok(
        match step {
            RunStep::InstallSignals => RunStep::Connect,
            RunStep::Connect => RunStep::InitRegistry,
            RunStep::InitRegistry => RunStep::BindCompositor,
            RunStep::BindCompositor => RunStep::BindLayerShell,
            RunStep::BindLayerShell => RunStep::BindOutputs,
            RunStep::BindOutputs => RunStep::LoadEgl,
            RunStep::LoadEgl => RunStep::InitDisplay,
            RunStep::InitDisplay => RunStep::CreateWakeupFd,
            RunStep::CreateWakeupFd => RunStep::Roundtrip,
            RunStep::Roundtrip => RunStep::SelectOutput,
            RunStep::SelectOutput => RunStep::CreateLayer,
            RunStep::CreateLayer => RunStep::CheckShutdown,
            RunStep::CheckShutdown => if answer {
                RunStep::ReleaseRenderContext
            } else {
                RunStep::PrepareRead
            },
            RunStep::PrepareRead => RunStep::Flush { may_read: answer },
            RunStep::Flush { may_read } => if may_read {
                RunStep::Poll
            } else {
                RunStep::TakeWakeup
            },
            RunStep::ReadEvents { wakeup } => polled(wakeup),
            RunStep::TakeWakeup => RunStep::Dispatch { wakeup: answer },
            RunStep::Dispatch { wakeup } => if wakeup {
                RunStep::HandleWakeup
            } else {
                RunStep::CheckExit
            },
            RunStep::HandleWakeup => RunStep::CheckExit,
            RunStep::CheckExit => if answer {
                RunStep::ReleaseRenderContext
            } else {
                RunStep::CheckShutdown
            },
            RunStep::ReleaseRenderContext => RunStep::ReleasePlayer,
            RunStep::ReleasePlayer => RunStep::ReleaseSurface,
            RunStep::ReleaseSurface | RunStep::Poll | RunStep::Finished => RunStep::Finished,
        },
    )
}

/// Where the program is after all of the replies, or what the user is told.
pub open spec fn run_after(step: RunStep, replies: Seq<Reply<Seq<char>>>) -> Result<
    RunStep,
    Seq<char>,
>
    decreases replies.len(),
{
    if replies.len() == 0 {
        Ok(step)
    } else {
        match run_next(step, replies[0]) {
            Ok(next) => run_after(next, replies.skip(1)),
            Err(told) => Err(told),
        }
    }
}

/// How many steps are left at most until the shutdown flag is looked at, or the
/// program has ended.
pub open spec fn steps_left(step: RunStep) -> int {
    match step {
        RunStep::InstallSignals => 12,
        RunStep::Connect => 11,
        RunStep::InitRegistry => 10,
        RunStep::BindCompositor => 9,
        RunStep::BindLayerShell => 8,
        RunStep::BindOutputs => 7,
        RunStep::LoadEgl => 6,
        RunStep::InitDisplay => 5,
        RunStep::CreateWakeupFd => 4,
        RunStep::Roundtrip => 3,
        RunStep::SelectOutput => 2,
        RunStep::CreateLayer => 1,
        RunStep::CheckShutdown => 0,
        RunStep::PrepareRead => 11,
        RunStep::Flush { .. } => 10,
        RunStep::Poll => 9,
        RunStep::ReadEvents { .. } => 8,
        RunStep::TakeWakeup => 7,
        RunStep::Dispatch { .. } => 6,
        RunStep::HandleWakeup => 5,
        RunStep::CheckExit => 4,
        RunStep::ReleaseRenderContext => 3,
        RunStep::ReleasePlayer => 2,
        RunStep::ReleaseSurface => 1,
        RunStep::Finished => 0,
    }
}

/// The shutdown flag is looked at again and again: no step of the program, however
/// it goes, puts that off for good.
pub proof fn the_shutdown_flag_is_always_looked_at(step: RunStep, reply: Reply<Seq<char>>)
    requires
        fits(step, reply),
        !(step is CheckShutdown),
    ensures
        0 < steps_left(step) <= 12,
        run_next(step, reply) matches Ok(next) ==> 0 <= steps_left(next) < steps_left(step),
{
}

/// A wait that a signal cuts short leads straight to the shutdown flag.
pub proof fn interrupted_waits_look_at_the_flag(step: RunStep)
    ensures
        run_next(step, Reply::Interrupted) == Ok::<RunStep, Seq<char>>(RunStep::CheckShutdown),
{
}

/// The main loop ends in two ways only: the shutdown flag is set, or the wallpaper
/// wants to end.
pub proof fn the_loop_ends_when_asked_to(step: RunStep, reply: Reply<Seq<char>>)
    requires
        fits(step, reply),
    ensures
        run_next(step, reply) == Ok::<RunStep, Seq<char>>(RunStep::ReleaseRenderContext) <==> (
        step is CheckShutdown || step is CheckExit) && reply == Reply::<Seq<char>>::Answer(true),
{
}

/// The end is orderly: the render context is released, then the player that it
/// lives on, then the surface; and each only right behind the one before.
pub proof fn the_render_context_is_released_before_its_player(
    step: RunStep,
    reply: Reply<Seq<char>>,
)
    requires
        fits(step, reply),
    ensures
        run_after(RunStep::ReleaseRenderContext, seq![Reply::Done, Reply::Done, Reply::Done]) == Ok::<
            RunStep,
            Seq<char>,
        >(RunStep::Finished),
        run_next(step, reply) == Ok::<RunStep, Seq<char>>(RunStep::ReleasePlayer) <==> step
            is ReleaseRenderContext,
        run_next(step, reply) == Ok::<RunStep, Seq<char>>(RunStep::ReleaseSurface) <==> step
            is ReleasePlayer,
        run_next(step, reply) == Ok::<RunStep, Seq<char>>(RunStep::Finished) <==> step
            is ReleaseSurface,
{
    reveal_with_fuel(run_after, 4);
}

/// The program fails exactly if a step does, and the user is told of the cause.
pub proof fn failures_name_their_cause(step: RunStep, reply: Reply<Seq<char>>)
    requires
        fits(step, reply),
    ensures
        run_next(step, reply) is Err <==> reply is Failed,
        reply matches Reply::Failed(cause) ==> cause.is_suffix_of(run_next(step, reply)->Err_0),
{
    if let Reply::Failed(cause) = reply {
        let told = failure(step, cause);
        assert(told.subrange(told.len() - cause.len(), told.len() as int) == cause);
    }
}

/// No update of the player is lost. With the wait: it is handled in the same round
/// of the main loop if the wait saw it, or if it is there when its descriptor is
/// looked at.
pub proof fn updates_seen_by_the_wait_are_handled(
    display: Option<bool>,
    wakeup: Option<bool>,
    taken: bool,
)
    ensures
        ({
            let waited = seq![Reply::<Seq<char>>::Polled { display, wakeup }];
            let read = if or_no(display) {
                seq![Reply::<Seq<char>>::Done]
            } else {
                Seq::empty()
            };
            let looked = if or_no(wakeup) {
                Seq::empty()
            } else {
                seq![Reply::<Seq<char>>::Answer(taken)]
            };
            let dispatched = seq![Reply::<Seq<char>>::Done];
            run_after(RunStep::Poll, waited + read + looked + dispatched) == Ok::<
                RunStep,
                Seq<char>,
            >(
                if or_no(wakeup) || taken {
                    RunStep::HandleWakeup
                } else {
                    RunStep::CheckExit
                },
            )
        }),
{
    reveal_with_fuel(run_after, 5);
    let waited = seq![Reply::<Seq<char>>::Polled { display, wakeup }];
    let read = if or_no(display) {
        seq![Reply::<Seq<char>>::Done]
    } else {
        Seq::empty()
    };
    let looked = if or_no(wakeup) {
        Seq::empty()
    } else {
        seq![Reply::<Seq<char>>::Answer(taken)]
    };
    let dispatched = seq![Reply::<Seq<char>>::Done];
    let replies = waited + read + looked + dispatched;
    if or_no(display) && !or_no(wakeup) {
        assert(replies == seq![waited[0], read[0], looked[0], dispatched[0]]);
    } else if or_no(display) {
        assert(replies == seq![waited[0], read[0], dispatched[0]]);
    } else if !or_no(wakeup) {
        assert(replies == seq![waited[0], looked[0], dispatched[0]]);
    } else {
        assert(replies == seq![waited[0], dispatched[0]]);
    }
}

/// Nor is an update lost when queued events keep the program from waiting: the
/// descriptor is looked at all the same.
pub proof fn updates_are_handled_without_a_wait(taken: bool)
    ensures
        run_after(
            RunStep::Flush { may_read: false },
            seq![Reply::Done, Reply::Answer(taken), Reply::Done],
        ) == Ok::<RunStep, Seq<char>>(
            if taken {
                RunStep::HandleWakeup
            } else {
                RunStep::CheckExit
            },
        ),
{
    reveal_with_fuel(run_after, 4);
}

/// The program waits, and reads from the connection, only when it may.
pub proof fn reading_needs_permission(step: RunStep, reply: Reply<Seq<char>>)
    requires
        fits(step, reply),
    ensures
        run_next(step, reply) == Ok::<RunStep, Seq<char>>(RunStep::Poll) ==> step == (
        RunStep::Flush { may_read: true }),
        (run_next(step, reply) matches Ok(next) && next is ReadEvents) ==> step is Poll,
{
}

/// Each round of the main loop dispatches the compositor's events, and handles the
/// player's update behind them.
pub proof fn every_round_dispatches(step: RunStep, reply: Reply<Seq<char>>)
    requires
        fits(step, reply),
    ensures
        run_next(step, reply) == Ok::<RunStep, Seq<char>>(RunStep::CheckExit) ==> step
            is HandleWakeup || step == (RunStep::Dispatch { wakeup: false }),
        run_next(step, reply) == Ok::<RunStep, Seq<char>>(RunStep::HandleWakeup) ==> step == (
        RunStep::Dispatch { wakeup: true }),
        (run_next(step, reply) matches Ok(next) && next is CheckShutdown) ==> step is CheckExit
            || step is CreateLayer || reply is Interrupted,
{
}

/// What the user is told is a text that depends on the step alone, and then the cause in
/// full, whatever it is.
pub proof fn causes_are_told_in_full(step: RunStep, cause: Seq<char>)
    ensures
        failure(step, cause) == failure(step, Seq::empty()) + cause,
        run_next(step, Reply::Failed(cause)) == Err::<RunStep, Seq<char>>(failure(step, cause)),
{
}

/// Events are read exactly if the wait saw the connection, and the player's signal is
/// believed exactly if the wait saw it; what cannot be told counts as not seen.
pub proof fn the_wait_decides_by_what_it_saw(display: Option<bool>, wakeup: Option<bool>)
    ensures
        ({
            let next = run_next(RunStep::Poll, Reply::Polled { display, wakeup })->Ok_0;
            &&& run_next(RunStep::Poll, Reply::Polled { display, wakeup }) is Ok
            &&& next is ReadEvents <==> display == Some(true)
            &&& next matches RunStep::ReadEvents { wakeup: seen } ==> (seen <==> wakeup == Some(
                true,
            ))
            &&& display != Some(true) && wakeup == Some(true) ==> next == (RunStep::Dispatch {
                wakeup: true,
            })
            &&& display != Some(true) && wakeup != Some(true) ==> next == RunStep::TakeWakeup
        }),
{
}

/// What the wait saw of the player is not forgotten while events are read.
pub proof fn reading_keeps_the_signal(wakeup: bool)
    ensures
        run_after(RunStep::ReadEvents { wakeup: true }, seq![Reply::Done, Reply::Done]) == Ok::<
            RunStep,
            Seq<char>,
        >(RunStep::HandleWakeup),
        run_after(
            RunStep::ReadEvents { wakeup: false },
            seq![Reply::Done, Reply::Answer(wakeup), Reply::Done],
        ) == Ok::<RunStep, Seq<char>>(
            if wakeup {
                RunStep::HandleWakeup
            } else {
                RunStep::CheckExit
            },
        ),
{
    reveal_with_fuel(run_after, 4);
}

/// A round of the main loop begins only after a look at the flag that found it unset, and
/// it waits exactly if the connection may be read from.
pub proof fn a_round_waits_if_it_may(may_read: bool)
    ensures
        run_after(
            RunStep::CheckShutdown,
            seq![Reply::Answer(false), Reply::Answer(may_read), Reply::Done],
        ) == Ok::<RunStep, Seq<char>>(
            if may_read {
                RunStep::Poll
            } else {
                RunStep::TakeWakeup
            },
        ),
{
    reveal_with_fuel(run_after, 4);
}

/// Each step has the replies that it can be given: questions are answered, the wait is
/// over or interrupted, and everything else is done. Whatever reaches outside may fail,
/// with any cause.
pub proof fn every_step_has_its_replies(
    step: RunStep,
    answer: bool,
    cause: Seq<char>,
    display: Option<bool>,
    wakeup: Option<bool>,
)
    ensures
        ({
            let question = step is CheckShutdown || step is PrepareRead || step is TakeWakeup
                || step is CheckExit;
            let certain = step is InstallSignals || step is BindOutputs || step is SelectOutput
                || step is CreateLayer || step is HandleWakeup || step is ReleaseRenderContext
                || step is ReleasePlayer || step is ReleaseSurface || step is Finished;
            &&& fits(step, Reply::<Seq<char>>::Answer(answer)) <==> question
            &&& fits(step, Reply::<Seq<char>>::Interrupted) <==> step is Poll
            &&& fits(step, Reply::<Seq<char>>::Polled { display, wakeup }) <==> step is Poll
            &&& fits(step, Reply::<Seq<char>>::Done) <==> !question && !(step is Poll) && !(
            step is Finished)
            &&& fits(step, Reply::Failed(cause)) <==> !question && !certain
        }),
{
}

/// The view of a reply shows each of its fields as it is.
pub proof fn the_view_shows_the_reply(reply: Reply<String>)
    ensures
        reply is Done <==> reply@ is Done,
        reply is Interrupted <==> reply@ is Interrupted,
        reply matches Reply::Failed(cause) ==> reply@ == Reply::Failed(cause@),
        reply matches Reply::Answer(answer) ==> reply@ == Reply::<Seq<char>>::Answer(answer),
        reply matches Reply::Polled { display, wakeup } ==> reply@ == (Reply::<
            Seq<char>,
        >::Polled { display, wakeup }),
{
}

} // verus!
