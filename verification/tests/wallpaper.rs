use murale::egl::EglState;
use murale::player::PlayerAction;
use murale::release::Release;
use murale::stats::{summarize, StatsFields};
use murale::wallpaper::{
    draw_steps, present_steps, Action, DrawStep, Event, FrameTimes, Murale, Phase, PresentStep,
};
use murale::wide::Wide;

const S: u64 = 1_000_000_000;

/// The clock, standing still.
fn at(now: u64) -> FrameTimes {
    FrameTimes { drawn: now, checked: now, reported: now }
}

fn started(stats: bool) -> Murale {
    let mut murale = Murale::new("/v/wall.mp4".to_string(), None, stats, 0);
    murale.layer_created();
    murale
}

/// A wallpaper of 1920x1080 that has shown its first frame.
fn playing(stats: bool) -> Murale {
    let mut murale = started(stats);
    murale.configure(1920, 1080);
    murale.surface_created(true);
    murale.player_started(true);
    murale.made_current(true);
    murale.drawn(0, at(S));
    murale.presented(true);
    murale
}

#[test]
fn the_set_up_leads_to_the_first_frame() {
    let mut murale = started(false);
    assert_eq!(
        murale.configure(1920, 1080),
        Action::CreateSurface { width: 1920, height: 1080 }
    );
    assert!(!murale.first_configure);
    assert_eq!(murale.surface_created(true), Action::StartPlayer);
    assert_eq!(murale.egl_state, Some(EglState { width: 1920, height: 1080 }));
    assert_eq!(murale.player_started(true), Action::MakeCurrent);
    assert!(murale.render_ctx && murale.mpv);
    assert_eq!(murale.made_current(true), Action::Draw { width: 1920, height: 1080 });
    assert_eq!(murale.drawn(0, at(5)), Action::Present { report: None });
    assert!(murale.frame_callback_pending);
    assert_eq!(murale.frame_count, 1);
    assert_eq!(murale.presented(true), Action::Nothing);
    assert!(murale.frame_callback_pending);
    assert_eq!(murale.phase, Phase::Idle);
    assert!(!murale.exit);
}

#[test]
fn a_size_without_area_is_passed_over() {
    let mut murale = started(false);
    assert_eq!(murale.configure(0, 1080), Action::Nothing);
    assert_eq!(murale.configure(1920, 0), Action::Nothing);
    assert!(murale.first_configure);
    assert_eq!((murale.width, murale.height), (0, 0));
}

#[test]
fn a_later_size_resizes_the_window() {
    let mut murale = playing(false);
    assert_eq!(murale.scale_factor_changed(2), Action::Nothing);
    assert_eq!(murale.egl_state, Some(EglState { width: 1920, height: 1080 }));
    assert_eq!(
        murale.configure(2560, 1440),
        Action::ResizeWindow { width: 5120, height: 2880 }
    );
    assert_eq!(murale.egl_state, Some(EglState { width: 5120, height: 2880 }));
}

#[test]
fn frames_are_drawn_at_the_scale_of_the_moment() {
    let mut murale = playing(false);
    murale.scale_factor_changed(3);
    murale.frame();
    murale.handle_mpv_wakeup();
    assert_eq!(murale.updated(Some(1)), Action::MakeCurrent);
    assert_eq!(murale.made_current(true), Action::Draw { width: 5760, height: 3240 });
}

#[test]
fn a_surface_that_cannot_be_had_ends_the_program() {
    let mut murale = started(false);
    murale.configure(10, 10);
    assert_eq!(murale.surface_created(false), Action::Nothing);
    assert!(murale.exit);
    assert_eq!(murale.egl_state, None);
    assert_eq!(murale.configure(20, 20), Action::Nothing);
    assert_eq!((murale.width, murale.height), (20, 20));
}

#[test]
fn a_player_that_cannot_be_had_ends_the_program() {
    let mut murale = started(false);
    murale.configure(10, 10);
    murale.surface_created(true);
    assert_eq!(murale.player_started(false), Action::Nothing);
    assert!(murale.exit);
    assert!(!murale.render_ctx);
}

#[test]
fn a_closed_layer_ends_the_program() {
    let mut murale = playing(false);
    assert_eq!(murale.closed(), Action::Nothing);
    assert!(murale.exit);
}

#[test]
fn a_new_frame_waits_for_the_callback() {
    let mut murale = playing(false);
    assert_eq!(murale.handle_mpv_wakeup(), Action::UpdatePlayer);
    assert_eq!(murale.updated(Some(1)), Action::Nothing);
    assert!(murale.redraw_needed);
    assert_eq!(murale.frame(), Action::MakeCurrent);
    assert_eq!(murale.made_current(true), Action::Draw { width: 1920, height: 1080 });
    assert_eq!(murale.drawn(0, at(2 * S)), Action::Present { report: None });
    assert!(!murale.redraw_needed);
    assert_eq!(murale.frame_count, 2);
}

#[test]
fn a_callback_without_a_frame_draws_nothing() {
    let mut murale = playing(false);
    assert_eq!(murale.frame(), Action::Nothing);
    assert!(!murale.frame_callback_pending);
    murale.handle_mpv_wakeup();
    assert_eq!(murale.updated(Some(1)), Action::MakeCurrent);
}

#[test]
fn updates_without_a_frame_draw_nothing() {
    let mut murale = playing(false);
    murale.frame();
    murale.handle_mpv_wakeup();
    assert_eq!(murale.updated(Some(2)), Action::Nothing);
    murale.handle_mpv_wakeup();
    assert_eq!(murale.updated(None), Action::Nothing);
    assert!(!murale.redraw_needed);
}

#[test]
fn updates_before_the_player_runs_are_passed_over() {
    let mut murale = started(false);
    assert_eq!(murale.handle_mpv_wakeup(), Action::Nothing);
    assert_eq!(murale.phase, Phase::Idle);
}

#[test]
fn a_failed_swap_does_not_wait_for_a_callback() {
    let mut murale = playing(false);
    murale.frame();
    murale.handle_mpv_wakeup();
    murale.updated(Some(1));
    murale.made_current(true);
    murale.drawn(0, at(2 * S));
    assert_eq!(murale.presented(false), Action::Nothing);
    assert!(!murale.frame_callback_pending);
    murale.handle_mpv_wakeup();
    assert_eq!(murale.updated(Some(1)), Action::MakeCurrent);
}

#[test]
fn a_failed_frame_changes_nothing() {
    let mut murale = playing(true);
    murale.handle_mpv_wakeup();
    murale.updated(Some(1));
    assert_eq!(murale.frame(), Action::MakeCurrent);
    assert_eq!(murale.made_current(false), Action::Nothing);
    assert!(murale.redraw_needed && !murale.frame_callback_pending);
    assert_eq!(murale.frame_count, 1);
    murale.handle_mpv_wakeup();
    murale.updated(Some(1));
    murale.made_current(true);
    assert_eq!(murale.drawn(-1, at(9 * S)), Action::Nothing);
    assert_eq!(murale.frame_count, 1);
    assert_eq!(murale.frame_stats.last_frame, Some(S));
    assert!(murale.redraw_needed && !murale.frame_callback_pending);
}

#[test]
fn the_back_buffer_is_chosen_before_a_frame_is_drawn() {
    assert_eq!(
        draw_steps(1920, 1080),
        vec![
            DrawStep::SelectBackBuffer,
            DrawStep::SetViewport { x: 0, y: 0, width: 1920, height: 1080 },
            DrawStep::Render { width: 1920, height: 1080 },
        ]
    );
}

#[test]
fn the_callback_is_asked_for_before_the_swap() {
    assert_eq!(
        present_steps(None),
        vec![PresentStep::RequestFrameCallback, PresentStep::SwapBuffers]
    );
    let report = summarize(&vec![16, 17]);
    assert_eq!(
        present_steps(Some(report)),
        vec![
            PresentStep::LogReport(report),
            PresentStep::RequestFrameCallback,
            PresentStep::SwapBuffers,
        ]
    );
}

#[test]
fn a_failure_gives_back_what_there_is() {
    let fresh = Murale::new("v".to_string(), None, false, 0);
    assert_eq!(fresh.give_back(), vec![]);
    assert_eq!(started(false).give_back(), vec![Release::LayerSurface]);
    let mut failed = started(false);
    failed.configure(10, 10);
    failed.surface_created(true);
    failed.player_started(false);
    assert_eq!(failed.give_back(), vec![Release::LayerSurface, Release::Surface]);
    assert_eq!(
        playing(false).give_back(),
        vec![
            Release::LayerSurface,
            Release::Surface,
            Release::RenderContext,
            Release::Player,
        ]
    );
}

#[test]
fn frames_are_reported_when_asked_for() {
    let mut murale = playing(true);
    let mut reports = Vec::new();
    for second in 2..=12u64 {
        murale.frame();
        murale.handle_mpv_wakeup();
        murale.updated(Some(1));
        murale.made_current(true);
        if let Action::Present { report: Some(report) } = murale.drawn(0, at(second * S)) {
            reports.push((second, report.count, report.total_ns, report.scatter));
        }
        murale.presented(true);
    }
    assert_eq!(
        reports,
        vec![(5, 4, 4 * S as u128, Wide::new(0)), (10, 5, 5 * S as u128, Wide::new(0))]
    );
}

#[test]
fn each_reading_of_the_clock_has_its_use() {
    let mut murale = playing(true);
    for second in [2, 3] {
        murale.frame();
        murale.handle_mpv_wakeup();
        murale.updated(Some(1));
        murale.made_current(true);
        murale.drawn(0, at(second * S));
        murale.presented(true);
    }
    murale.frame();
    murale.handle_mpv_wakeup();
    murale.updated(Some(1));
    murale.made_current(true);
    let times = FrameTimes { drawn: 5 * S - 9, checked: 5 * S, reported: 5 * S + 4 };
    match murale.drawn(0, times) {
        Action::Present { report: Some(report) } => {
            assert_eq!(report.count, 3);
            assert_eq!(report.total_ns, (4 * S - 9) as u128);
        }
        other => panic!("no report: {:?}", other),
    }
    assert_eq!(murale.frame_stats.last_frame, Some(5 * S - 9));
    assert_eq!(murale.frame_stats.last_report, 5 * S + 4);
}

#[test]
fn frames_are_not_timed_unless_asked_for() {
    let mut murale = playing(false);
    murale.frame();
    murale.handle_mpv_wakeup();
    murale.updated(Some(1));
    murale.made_current(true);
    assert_eq!(murale.drawn(0, at(100 * S)), Action::Present { report: None });
    assert_eq!(murale.frame_stats.last_frame, None);
    assert!(murale.frame_stats.intervals_ns.is_empty());
}

#[test]
fn events_have_to_be_waited_for() {
    let mut murale = playing(false);
    assert!(murale.accepts(Event::Frame));
    assert!(!murale.accepts(Event::Presented(true)));
    assert!(!murale.accepts(Event::SurfaceCreated(true)));
    murale.handle_mpv_wakeup();
    assert!(murale.accepts(Event::Updated(Some(1))));
    assert!(!murale.accepts(Event::Frame));
}

#[test]
fn sizes_that_do_not_fit_are_not_accepted() {
    let mut murale = playing(false);
    murale.scale_factor_changed(-1);
    assert_eq!(murale.scale, u32::MAX);
    assert!(!murale.accepts(Event::Configure { width: 2, height: 1 }));
    assert!(murale.accepts(Event::Configure { width: 0, height: 1 }));
    assert!(murale.accepts(Event::Configure { width: 1, height: 1 }));
    assert!(murale.accepts(Event::Frame));
    murale.frame();
    murale.handle_mpv_wakeup();
    assert!(!murale.accepts(Event::Updated(Some(1))));
    assert!(murale.accepts(Event::Updated(Some(0))));
}

#[test]
fn a_size_before_the_layer_is_not_accepted() {
    let murale = Murale::new("v".to_string(), None, false, 0);
    assert!(!murale.accepts(Event::Configure { width: 1, height: 1 }));
    assert!(murale.accepts(Event::Configure { width: 0, height: 0 }));
}

#[test]
fn the_player_gets_the_video_and_the_options() {
    let murale = Murale::new("a.mkv".to_string(), Some("mute=yes".to_string()), false, 0);
    let setup = murale.init_mpv();
    assert_eq!(
        setup.script[9],
        PlayerAction::SetOption {
            text: "mute=yes".to_string(),
            key: "mute".to_string(),
            value: "yes".to_string(),
        }
    );
    assert_eq!(
        setup.script[12],
        PlayerAction::LoadFile { path: "a.mkv".to_string() }
    );
}

#[test]
fn there_is_no_line_without_a_player() {
    let fields = StatsFields {
        fps: "1".to_string(),
        delayed: "2".to_string(),
        vo_drops: "3".to_string(),
        dec_drops: "4".to_string(),
        vsync_ratio: "5".to_string(),
        avg: "6".to_string(),
        min: "7".to_string(),
        max: "8".to_string(),
        jitter: "9".to_string(),
    };
    assert_eq!(started(true).log_combined_stats(&fields), None);
    assert_eq!(playing(true).log_combined_stats(&fields), Some(fields.write()));
}

/// Numbers that look random, the same in every run.
struct Numbers(u64);

impl Numbers {
    fn next(&mut self, bound: u64) -> u64 {
        self.0 = self.0.wrapping_mul(6364136223846793005).wrapping_add(1442695040888963407);
        (self.0 >> 33) % bound
    }
}

#[test]
fn whatever_happens_one_callback_is_owed_at_most() {
    let mut numbers = Numbers(7);
    let mut murale = started(true);
    let mut now = 0;
    let mut owed = false;
    let mut shown = 0;
    let mut surfaces = 0;
    for _ in 0..20_000 {
        now += numbers.next(S / 2);
        let lucky = numbers.next(8) != 0;
        let event = match murale.phase {
            Phase::CreatingSurface { .. } => Event::SurfaceCreated(true),
            Phase::StartingPlayer => Event::PlayerStarted(true),
            Phase::Updating => Event::Updated(if lucky { Some(numbers.next(4) as u32) } else { None }),
            Phase::MakingCurrent { .. } => Event::MadeCurrent(lucky),
            Phase::Drawing => Event::Drawn {
                error: if lucky { 0 } else { -3 },
                times: at(now),
            },
            Phase::Presenting => Event::Presented(lucky),
            Phase::Idle => match numbers.next(5) {
                0 => Event::ScaleFactorChanged(1 + numbers.next(3) as i32),
                1 => Event::Configure {
                    width: numbers.next(4000) as u32,
                    height: numbers.next(3000) as u32,
                },
                2 if owed => Event::Frame,
                _ => Event::MpvWakeup,
            },
        };
        assert!(murale.accepts(event));
        let waiting = murale.redraw_needed;
        let action = murale.step(event);
        match event {
            Event::Frame => {
                owed = false;
                assert_eq!(action == Action::MakeCurrent, waiting);
            }
            Event::Presented(false) => owed = false,
            Event::Configure { width, height } if width > 0 && height > 0 => {
                if let Action::ResizeWindow { width, height } = action {
                    assert_eq!(murale.egl_state, Some(EglState { width, height }));
                }
            }
            _ => {}
        }
        match action {
            Action::Present { .. } => {
                assert!(!owed);
                owed = true;
                shown += 1;
            }
            Action::CreateSurface { .. } => surfaces += 1,
            _ => {}
        }
        assert_eq!(murale.frame_callback_pending, owed);
        assert_eq!(murale.frame_count, shown);
        assert!(!murale.exit);
    }
    assert_eq!(surfaces, 1);
    assert!(shown > 1000);
}
