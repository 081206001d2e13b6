use murale::run::{
    layer_steps, reply_fits, run, LayerStep, Reply, RunStep, NAMESPACE, POLL_TIMEOUT_MS,
};

fn next(step: RunStep, reply: Reply<String>) -> RunStep {
    assert!(reply_fits(step, &reply));
    run(step, reply).unwrap()
}

fn told(step: RunStep, cause: &str) -> String {
    let reply = Reply::Failed(cause.to_string());
    assert!(reply_fits(step, &reply));
    run(step, reply).unwrap_err()
}

fn follow(mut step: RunStep, replies: Vec<Reply<String>>) -> RunStep {
    for reply in replies {
        step = next(step, reply);
    }
    step
}

fn polled(display: bool, wakeup: bool) -> Reply<String> {
    Reply::Polled { display: Some(display), wakeup: Some(wakeup) }
}

#[test]
fn the_start_goes_in_order() {
    let mut step = RunStep::InstallSignals;
    let mut seen = Vec::new();
    while step != RunStep::CheckShutdown {
        seen.push(step);
        step = next(step, Reply::Done);
    }
    assert_eq!(
        seen,
        vec![
            RunStep::InstallSignals,
            RunStep::Connect,
            RunStep::InitRegistry,
            RunStep::BindCompositor,
            RunStep::BindLayerShell,
            RunStep::BindOutputs,
            RunStep::LoadEgl,
            RunStep::InitDisplay,
            RunStep::CreateWakeupFd,
            RunStep::Roundtrip,
            RunStep::SelectOutput,
            RunStep::CreateLayer,
        ]
    );
}

#[test]
fn each_failure_has_its_text() {
    assert_eq!(
        told(RunStep::Connect, "no socket"),
        "could not connect to Wayland compositor (is a Wayland session running?): no socket"
    );
    assert_eq!(told(RunStep::InitRegistry, "e"), "Wayland registry init failed: e");
    assert_eq!(
        told(RunStep::BindCompositor, "e"),
        "compositor does not support wl_compositor: e"
    );
    assert_eq!(
        told(RunStep::BindLayerShell, "e"),
        "compositor does not support wlr-layer-shell (required for wallpaper surfaces): e"
    );
    assert_eq!(told(RunStep::Poll, "EINVAL"), "poll failed: EINVAL");
    for step in [
        RunStep::LoadEgl,
        RunStep::InitDisplay,
        RunStep::CreateWakeupFd,
        RunStep::Roundtrip,
        RunStep::Flush { may_read: true },
        RunStep::ReadEvents { wakeup: false },
        RunStep::Dispatch { wakeup: true },
    ] {
        assert_eq!(told(step, "cause"), "cause");
    }
}

#[test]
fn a_set_flag_ends_the_program_in_order() {
    let mut step = next(RunStep::CheckShutdown, Reply::Answer(true));
    let mut seen = Vec::new();
    while step != RunStep::Finished {
        seen.push(step);
        step = next(step, Reply::Done);
    }
    assert_eq!(
        seen,
        vec![
            RunStep::ReleaseRenderContext,
            RunStep::ReleasePlayer,
            RunStep::ReleaseSurface,
        ]
    );
    assert_eq!(
        next(RunStep::CheckExit, Reply::Answer(true)),
        RunStep::ReleaseRenderContext
    );
}

#[test]
fn a_quiet_round_comes_back_to_the_flag() {
    let round = vec![
        Reply::Answer(false),
        Reply::Answer(true),
        Reply::Done,
        polled(false, false),
        Reply::Answer(false),
        Reply::Done,
        Reply::Answer(false),
    ];
    assert_eq!(follow(RunStep::CheckShutdown, round), RunStep::CheckShutdown);
}

#[test]
fn an_interrupted_wait_looks_at_the_flag() {
    assert_eq!(next(RunStep::Poll, Reply::Interrupted), RunStep::CheckShutdown);
}

#[test]
fn events_are_read_before_they_are_dispatched() {
    assert_eq!(
        next(RunStep::Poll, polled(true, true)),
        RunStep::ReadEvents { wakeup: true }
    );
    assert_eq!(
        follow(RunStep::Poll, vec![polled(true, true), Reply::Done]),
        RunStep::Dispatch { wakeup: true }
    );
    assert_eq!(
        follow(RunStep::Poll, vec![polled(true, false), Reply::Done]),
        RunStep::TakeWakeup
    );
}

#[test]
fn updates_are_handled_in_the_same_round() {
    assert_eq!(
        follow(RunStep::Poll, vec![polled(false, true), Reply::Done]),
        RunStep::HandleWakeup
    );
    assert_eq!(
        follow(RunStep::Poll, vec![polled(false, false), Reply::Answer(true), Reply::Done]),
        RunStep::HandleWakeup
    );
    assert_eq!(
        follow(RunStep::Poll, vec![polled(false, false), Reply::Answer(false), Reply::Done]),
        RunStep::CheckExit
    );
    assert_eq!(next(RunStep::HandleWakeup, Reply::Done), RunStep::CheckExit);
}

#[test]
fn updates_are_looked_for_without_a_wait() {
    let replies = |taken| vec![Reply::Answer(false), Reply::Done, Reply::Answer(taken), Reply::Done];
    assert_eq!(follow(RunStep::PrepareRead, replies(true)), RunStep::HandleWakeup);
    assert_eq!(follow(RunStep::PrepareRead, replies(false)), RunStep::CheckExit);
}

#[test]
fn an_unknown_result_of_the_wait_is_no() {
    let unknown = Reply::Polled { display: None, wakeup: None };
    assert_eq!(next(RunStep::Poll, unknown), RunStep::TakeWakeup);
}

#[test]
fn replies_have_to_fit() {
    assert!(!reply_fits(RunStep::Poll, &Reply::Done));
    assert!(!reply_fits(RunStep::CheckExit, &Reply::Done));
    assert!(!reply_fits(RunStep::Connect, &Reply::Answer(true)));
    assert!(!reply_fits(RunStep::Connect, &Reply::Interrupted));
    assert!(!reply_fits(RunStep::HandleWakeup, &Reply::Failed("e".to_string())));
    assert!(!reply_fits(RunStep::Finished, &Reply::Done));
}

#[test]
fn the_layer_surface_fills_the_display() {
    assert_eq!(
        layer_steps(None),
        vec![
            LayerStep::CreateInBackground { namespace: "murale", output: None },
            LayerStep::SetAnchor { top: true, bottom: true, left: true, right: true },
            LayerStep::SetExclusiveZone(-1),
            LayerStep::RefuseKeyboard,
            LayerStep::SetSize { width: 0, height: 0 },
            LayerStep::Commit,
        ]
    );
    assert_eq!(POLL_TIMEOUT_MS, 16);
}

#[test]
fn the_layer_surface_goes_to_the_chosen_display() {
    let steps = layer_steps(Some(3));
    assert_eq!(
        steps[0],
        LayerStep::CreateInBackground { namespace: NAMESPACE, output: Some(3) }
    );
    assert_eq!(steps[1..], layer_steps(None)[1..]);
    let commits = steps.iter().filter(|step| **step == LayerStep::Commit).count();
    assert_eq!(commits, 1);
}

#[test]
fn the_flag_is_never_out_of_sight() {
    let mut seed: u64 = 11;
    let mut number = move |bound: u64| {
        seed = seed.wrapping_mul(6364136223846793005).wrapping_add(1442695040888963407);
        (seed >> 33) % bound
    };
    let mut step = RunStep::InstallSignals;
    let mut since = 0;
    for _ in 0..10_000 {
        let replies = [
            Reply::Done,
            Reply::Answer(step != RunStep::CheckShutdown && step != RunStep::CheckExit),
            Reply::Answer(false),
            Reply::Interrupted,
            polled(true, true),
            polled(true, false),
            polled(false, true),
            polled(false, false),
        ];
        let mut fitting: Vec<Reply<String>> =
            replies.into_iter().filter(|reply| reply_fits(step, reply)).collect();
        let chosen = number(fitting.len() as u64) as usize;
        step = next(step, fitting.swap_remove(chosen));
        since = if step == RunStep::CheckShutdown { 0 } else { since + 1 };
        assert!(since <= 12);
    }
}
