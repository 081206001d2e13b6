use murale::program::{exit_reply, wakeup_steps, WakeupStep};
use murale::run::{run, Reply, RunStep};
use murale::wallpaper::{Event, Murale};

fn started() -> Murale {
    let mut murale = Murale::new("v".to_string(), None, false, 0);
    murale.layer_created();
    murale
}

/// Where a round of the main loop leads that ends with this wallpaper.
fn after_the_round(murale: &Murale) -> RunStep {
    let step = match run(RunStep::Dispatch { wakeup: false }, Reply::Done) {
        Ok(step) => step,
        Err(told) => panic!("{}", told),
    };
    assert_eq!(step, RunStep::CheckExit);
    match run(step, exit_reply(murale)) {
        Ok(next) => next,
        Err(told) => panic!("{}", told),
    }
}

#[test]
fn the_descriptor_is_read_before_the_update_is_handled() {
    assert_eq!(
        wakeup_steps(),
        vec![WakeupStep::ReadDescriptor, WakeupStep::Handle(Event::MpvWakeup)]
    );
}

#[test]
fn the_loop_goes_on_without_an_end() {
    assert_eq!(after_the_round(&started()), RunStep::CheckShutdown);
}

#[test]
fn a_close_ends_the_loop_in_the_same_round() {
    let mut murale = started();
    murale.step(Event::Closed);
    assert_eq!(after_the_round(&murale), RunStep::ReleaseRenderContext);
}

#[test]
fn a_failed_set_up_ends_the_loop_in_the_same_round() {
    let mut without_surface = started();
    without_surface.step(Event::Configure { width: 4, height: 3 });
    without_surface.step(Event::SurfaceCreated(false));
    assert_eq!(after_the_round(&without_surface), RunStep::ReleaseRenderContext);
    let mut without_player = started();
    without_player.step(Event::Configure { width: 4, height: 3 });
    without_player.step(Event::SurfaceCreated(true));
    without_player.step(Event::PlayerStarted(false));
    assert_eq!(after_the_round(&without_player), RunStep::ReleaseRenderContext);
}
