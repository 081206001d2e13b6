//! The wallpaper: what it does when the compositor or the player reports
//! something.
//!
//! Everything that reaches outside (EGL, the player, the compositor) is an
//! `Action` that the caller performs. How it went comes back as the next event.

use vstd::prelude::*;

use crate::egl::EglState;
use crate::player::PlayerSetup;
use crate::release::Release;
use crate::render::{has_frame, is_scalable, to_pixels};
use crate::stats::{FrameReport, FrameStats, StatsFields};

verus! {

/// What the wallpaper is waiting for.
#[derive(Debug, Clone, Copy, PartialEq, Eq, Structural)]
pub enum Phase {
    /// For the compositor or the player to report something.
    Idle,
    /// For a surface of this size.
    CreatingSurface { width: i32, height: i32 },
    /// For the player to start.
    StartingPlayer,
    /// For the player to say what there is to draw.
    Updating,
    /// For the surface to become current, to draw a frame of this size.
    MakingCurrent { width: i32, height: i32 },
    /// For the frame to be drawn.
    Drawing,
    /// For the frame to be shown.
    Presenting,
}

/// What is to be done next.
#[derive(Debug, Clone, Copy, PartialEq, Eq, Structural)]
pub enum Action {
    /// Wait for the next report.
    Nothing,
    /// Create the surface, with this size in pixels.
    CreateSurface { width: i32, height: i32 },
    /// Resize the surface's window to this size in pixels.
    ResizeWindow { width: i32, height: i32 },
    /// Start the player.
    StartPlayer,
    /// Ask the player's render context what there is to draw.
    UpdatePlayer,
    /// Make the surface current, to draw on and to read from.
    MakeCurrent,
    /// Draw a frame of this size, in pixels, by the steps of `draw_steps`.
    Draw { width: i32, height: i32 },
    /// Show the frame, by the steps of `present_steps`.
    Present { report: Option<FrameReport> },
}

/// Something to do on the way to a drawn frame.
#[derive(Debug, Clone, Copy, PartialEq, Eq, Structural)]
pub enum DrawStep {
    /// Choose the back buffer to draw to.
    SelectBackBuffer,
    /// Set the part of the surface that is drawn to.
    SetViewport { x: i32, y: i32, width: i32, height: i32 },
    /// Have the player draw, with the parameters of `render_nonblocking`.
    Render { width: i32, height: i32 },
}

/// Something to do on the way to a shown frame.
#[derive(Debug, Clone, Copy, PartialEq, Eq, Structural)]
pub enum PresentStep {
    /// Log a report.
    LogReport(FrameReport),
    /// Ask the compositor for a callback on the layer surface's own surface.
    RequestFrameCallback,
    /// Swap the buffers of the surface, which also commits it.
    SwapBuffers,
}

/// How a frame is drawn: the back buffer is chosen first, as some drivers leave
/// none chosen when a surface becomes current.
pub fn draw_steps(width: i32, height: i32) -> (steps: Vec<DrawStep>)
    ensures
        steps@ == seq![
            DrawStep::SelectBackBuffer,
            DrawStep::SetViewport { x: 0, y: 0, width, height },
            DrawStep::Render { width, height },
        ],
{
    vec![
        DrawStep::SelectBackBuffer,
        DrawStep::SetViewport { x: 0, y: 0, width, height },
        DrawStep::Render { width, height },
    ]
}

/// How a frame is shown: the callback is asked for before the swap, so that the
/// commit inside the swap carries it, and there is no other commit.
pub fn present_steps(report: Option<FrameReport>) -> (steps: Vec<PresentStep>)
    ensures
        steps@ == match report {
            Some(due) => seq![
                PresentStep::LogReport(due),
                PresentStep::RequestFrameCallback,
                PresentStep::SwapBuffers,
            ],
            None => seq![PresentStep::RequestFrameCallback, PresentStep::SwapBuffers],
        },
{
    match report {
        Some(due) => vec![
            PresentStep::LogReport(due),
            PresentStep::RequestFrameCallback,
            PresentStep::SwapBuffers,
        ],
        None => vec![PresentStep::RequestFrameCallback, PresentStep::SwapBuffers],
    }
}

/// The clock, read three times over one frame.
#[derive(Debug, Clone, Copy, PartialEq, Eq, Structural)]
pub struct FrameTimes {
    /// When the frame counts as drawn.
    pub drawn: u64,
    /// When it is seen whether a report is due.
    pub checked: u64,
    /// When the next period begins, if one is.
    pub reported: u64,
}

/// Something that happened.
#[derive(Debug, Clone, Copy, PartialEq, Eq, Structural)]
pub enum Event {
    /// The compositor changed the scale of the surface.
    ScaleFactorChanged(i32),
    /// The compositor is ready for another frame.
    Frame,
    /// The compositor closed the layer surface.
    Closed,
    /// The compositor gave the layer surface a size.
    Configure { width: u32, height: u32 },
    /// The player signalled an update.
    MpvWakeup,
    /// The surface was created, or not.
    SurfaceCreated(bool),
    /// The player was started, or not.
    PlayerStarted(bool),
    /// The flags that the player gave, or `None` where it gave none.
    Updated(Option<u32>),
    /// The surface became current, or not.
    MadeCurrent(bool),
    /// The player drew a frame, or gave a negative error code.
    Drawn { error: i32, times: FrameTimes },
    /// The buffers were swapped, or not.
    Presented(bool),
}

/// The wallpaper's state.
#[derive(Debug)]
pub struct Murale {
    /// Whether the layer surface exists.
    pub layer: bool,
    /// The surface to draw on, once there is one.
    pub egl_state: Option<EglState>,
    /// Whether the player's render context exists.
    pub render_ctx: bool,
    /// Whether the player exists.
    pub mpv: bool,
    /// Whether no size has come from the compositor yet.
    pub first_configure: bool,
    /// The width of the layer surface, in the compositor's units.
    pub width: u32,
    /// The height of the layer surface, in the compositor's units.
    pub height: u32,
    /// The number of pixels to one of the compositor's units.
    pub scale: u32,
    /// Whether the compositor still owes a frame callback.
    pub frame_callback_pending: bool,
    /// Whether the player had a new frame while a callback was pending.
    pub redraw_needed: bool,
    /// The number of frames drawn.
    pub frame_count: u64,
    /// Whether frames are timed.
    pub stats_enabled: bool,
    /// The timing of the frames.
    pub frame_stats: FrameStats,
    /// Whether the program is to end.
    pub exit: bool,
    /// The video.
    pub video_path: String,
    /// The player options of the user.
    pub mpv_options: Option<String>,
    /// What the wallpaper is waiting for.
    pub phase: Phase,
}

/// What a `Murale` holds.
pub struct MuraleView {
    pub layer: bool,
    pub egl_state: Option<EglState>,
    pub render_ctx: bool,
    pub mpv: bool,
    pub first_configure: bool,
    pub width: u32,
    pub height: u32,
    pub scale: u32,
    pub frame_callback_pending: bool,
    pub redraw_needed: bool,
    pub frame_count: u64,
    pub stats_enabled: bool,
    pub frame_stats: crate::stats::FrameStatsView,
    pub exit: bool,
    pub video_path: Seq<char>,
    pub mpv_options: Option<Seq<char>>,
    pub phase: Phase,
}

impl View for Murale {
    type V = MuraleView;

    open spec fn view(&self) -> MuraleView {
        MuraleView {
            layer: self.layer,
            egl_state: self.egl_state,
            render_ctx: self.render_ctx,
            mpv: self.mpv,
            first_configure: self.first_configure,
            width: self.width,
            height: self.height,
            scale: self.scale,
            frame_callback_pending: self.frame_callback_pending,
            redraw_needed: self.redraw_needed,
            frame_count: self.frame_count,
            stats_enabled: self.stats_enabled,
            frame_stats: self.frame_stats@,
            exit: self.exit,
            video_path: self.video_path@,
            mpv_options: crate::text::text_of(self.mpv_options),
            phase: self.phase,
        }
    }
}

/// A scale factor as the unsigned number with the same bits.
pub open spec fn scale_bits(factor: i32) -> u32 {
    if factor >= 0 {
        factor as u32
    } else {
        (factor + 0x1_0000_0000) as u32
    }
}

impl MuraleView {
    /// The state at the start.
    pub open spec fn initial(
        video_path: Seq<char>,
        mpv_options: Option<Seq<char>>,
        stats_enabled: bool,
        now: u64,
    ) -> MuraleView {
        MuraleView {
            layer: false,
            egl_state: None,
            render_ctx: false,
            mpv: false,
            first_configure: true,
            width: 0,
            height: 0,
            scale: 1,
            frame_callback_pending: false,
            redraw_needed: false,
            frame_count: 0,
            stats_enabled,
            frame_stats: crate::stats::FrameStatsView::fresh(now),
            exit: false,
            video_path,
            mpv_options,
            phase: Phase::Idle,
        }
    }

    /// The state with the layer surface.
    pub open spec fn layer_created(self) -> MuraleView {
        MuraleView { layer: true, ..self }
    }

    /// The same state, waiting for `phase`.
    pub open spec fn waiting_for(self, phase: Phase) -> MuraleView {
        MuraleView { phase, ..self }
    }

    /// Whether all that drawing takes is there.
    pub open spec fn can_draw(self) -> bool {
        self.egl_state is Some && self.render_ctx && self.layer
    }

    /// Whether the layer surface's size in pixels can be computed.
    pub open spec fn has_pixel_size(self) -> bool {
        crate::render::scalable(self.width, self.height, self.scale)
    }

    /// Starts to draw a frame, if all that it takes is there.
    pub open spec fn render_frame(self) -> (MuraleView, Action) {
        if self.can_draw() {
            let phase = Phase::MakingCurrent {
                width: crate::render::pixels(self.width, self.scale),
                height: crate::render::pixels(self.height, self.scale),
            };
            (self.waiting_for(phase), Action::MakeCurrent)
        } else {
            (self.waiting_for(Phase::Idle), Action::Nothing)
        }
    }

    /// The compositor changed the scale.
    pub open spec fn scale_factor_changed(self, factor: i32) -> (MuraleView, Action) {
        (MuraleView { scale: scale_bits(factor), ..self }, Action::Nothing)
    }

    /// The compositor is ready for another frame.
    pub open spec fn frame(self) -> (MuraleView, Action) {
        let called = MuraleView { frame_callback_pending: false, ..self };
        if self.redraw_needed {
            called.render_frame()
        } else {
            (called, Action::Nothing)
        }
    }

    /// The compositor closed the layer surface.
    pub open spec fn closed(self) -> (MuraleView, Action) {
        (MuraleView { exit: true, ..self }, Action::Nothing)
    }

    /// The compositor gave a size.
    pub open spec fn configure(self, width: u32, height: u32) -> (MuraleView, Action) {
        let w = crate::render::pixels(width, self.scale);
        let h = crate::render::pixels(height, self.scale);
        let sized = MuraleView { width, height, ..self };
        if width == 0 || height == 0 {
            (self, Action::Nothing)
        } else if self.first_configure {
            (
                MuraleView {
                    first_configure: false,
                    phase: Phase::CreatingSurface { width: w, height: h },
                    ..sized
                },
                Action::CreateSurface { width: w, height: h },
            )
        } else if self.egl_state is Some {
            (
                MuraleView { egl_state: Some(EglState { width: w, height: h }), ..sized },
                Action::ResizeWindow { width: w, height: h },
            )
        } else {
            (sized, Action::Nothing)
        }
    }

    /// The surface was created, or not.
    pub open spec fn surface_created(self, created: bool) -> (MuraleView, Action) {
        match self.phase {
            Phase::CreatingSurface { width, height } if created => (
                MuraleView {
                    egl_state: Some(EglState { width, height }),
                    phase: Phase::StartingPlayer,
                    ..self
                },
                Action::StartPlayer,
            ),
            _ => (MuraleView { exit: true, phase: Phase::Idle, ..self }, Action::Nothing),
        }
    }

    /// The player was started, or not.
    pub open spec fn player_started(self, started: bool) -> (MuraleView, Action) {
        if started {
            MuraleView { render_ctx: true, mpv: true, ..self }.render_frame()
        } else {
            (MuraleView { exit: true, phase: Phase::Idle, ..self }, Action::Nothing)
        }
    }

    /// The player signalled an update.
    pub open spec fn handle_mpv_wakeup(self) -> (MuraleView, Action) {
        if self.render_ctx {
            (self.waiting_for(Phase::Updating), Action::UpdatePlayer)
        } else {
            (self, Action::Nothing)
        }
    }

    /// The player said what there is to draw, or said nothing.
    pub open spec fn updated(self, flags: Option<u32>) -> (MuraleView, Action) {
        let idle = self.waiting_for(Phase::Idle);
        match flags {
            Some(flags) if crate::render::announces_frame(flags) => if self.frame_callback_pending {
                (MuraleView { redraw_needed: true, ..idle }, Action::Nothing)
            } else {
                idle.render_frame()
            },
            _ => (idle, Action::Nothing),
        }
    }

    /// The surface became current, or not.
    pub open spec fn made_current(self, current: bool) -> (MuraleView, Action) {
        match self.phase {
            Phase::MakingCurrent { width, height } if current => (
                self.waiting_for(Phase::Drawing),
                Action::Draw { width, height },
            ),
            _ => (self.waiting_for(Phase::Idle), Action::Nothing),
        }
    }

    /// The frame timing with one more frame, and the report that is due then.
    pub open spec fn timed(self, times: FrameTimes) -> (
        crate::stats::FrameStatsView,
        Option<FrameReport>,
    ) {
        let recorded = self.frame_stats.record(times.drawn);
        if !self.stats_enabled {
            (self.frame_stats, None)
        } else if recorded.should_report(times.checked) {
            (recorded.reported(times.reported), Some(crate::stats::report_on(recorded.intervals)))
        } else {
            (recorded, None)
        }
    }

    /// The frame was drawn, or not.
    pub open spec fn drawn(self, error: i32, times: FrameTimes) -> (MuraleView, Action) {
        let (frame_stats, report) = self.timed(times);
        if error < 0 {
            (self.waiting_for(Phase::Idle), Action::Nothing)
        } else {
            (
                MuraleView {
                    frame_count: (self.frame_count + 1) as u64,
                    frame_stats,
                    frame_callback_pending: true,
                    redraw_needed: false,
                    phase: Phase::Presenting,
                    ..self
                },
                Action::Present { report },
            )
        }
    }

    /// The frame was shown, or not.
    pub open spec fn presented(self, swapped: bool) -> (MuraleView, Action) {
        (
            MuraleView {
                frame_callback_pending: self.frame_callback_pending && swapped,
                phase: Phase::Idle,
                ..self
            },
            Action::Nothing,
        )
    }

    /// What there is to give back when the program ends in a failure, in the order
    /// in which that happens.
    pub open spec fn releases(self) -> Seq<Release> {
        (if self.layer {
            seq![Release::LayerSurface]
        } else {
            Seq::empty()
        }) + (if self.egl_state is Some {
            seq![Release::Surface]
        } else {
            Seq::empty()
        }) + (if self.render_ctx {
            seq![Release::RenderContext]
        } else {
            Seq::empty()
        }) + (if self.mpv {
            seq![Release::Player]
        } else {
            Seq::empty()
        })
    }

    /// What an event does: the next state, and what is to be done.
    pub open spec fn step(self, event: Event) -> (MuraleView, Action) {
        match event {
            Event::ScaleFactorChanged(factor) => self.scale_factor_changed(factor),
            Event::Frame => self.frame(),
            Event::Closed => self.closed(),
            Event::Configure { width, height } => self.configure(width, height),
            Event::MpvWakeup => self.handle_mpv_wakeup(),
            Event::SurfaceCreated(created) => self.surface_created(created),
            Event::PlayerStarted(started) => self.player_started(started),
            Event::Updated(flags) => self.updated(flags),
            Event::MadeCurrent(current) => self.made_current(current),
            Event::Drawn { error, times } => self.drawn(error, times),
            Event::Presented(swapped) => self.presented(swapped),
        }
    }

    /// Whether an event can be handled now: it is one that the wallpaper waits
    /// for, and the numbers that it leads to can be computed.
    pub open spec fn accepts(self, event: Event) -> bool {
        match event {
            Event::ScaleFactorChanged(_) => self.phase is Idle,
            Event::Frame => self.phase is Idle && (self.redraw_needed && self.can_draw()
                ==> self.has_pixel_size()),
            Event::Closed => self.phase is Idle,
            Event::Configure { width, height } => {
                &&& self.phase is Idle
                &&& width != 0 && height != 0 && self.first_configure ==> self.layer
                &&& width != 0 && height != 0 && (self.first_configure || self.egl_state is Some)
                    ==> crate::render::scalable(width, height, self.scale)
            },
            Event::MpvWakeup => self.phase is Idle,
            Event::SurfaceCreated(_) => self.phase is CreatingSurface,
            Event::PlayerStarted(_) => self.phase is StartingPlayer,
            Event::Updated(flags) => {
                &&& self.phase is Updating
                &&& (flags matches Some(given) && crate::render::announces_frame(given))
                    && !self.frame_callback_pending && self.can_draw() ==> self.has_pixel_size()
            },
            Event::MadeCurrent(_) => self.phase is MakingCurrent,
            Event::Drawn { error, .. } => self.phase is Drawing && (error >= 0 ==> self.frame_count
                < u64::MAX),
            Event::Presented(_) => self.phase is Presenting,
        }
    }

    /// What holds of the state at all times.
    pub open spec fn wf(self) -> bool {
        // The render context lives on the player, and both on the surface.
        &&& self.render_ctx == self.mpv
        &&& self.render_ctx ==> self.can_draw()
        // Nothing is set up before the compositor gives a size.
        &&& self.first_configure ==> self.egl_state is None && self.phase is Idle
        &&& !self.first_configure ==> self.layer && self.width > 0 && self.height > 0
        // A set-up that was begun goes on, or has succeeded, or ends the program.
        &&& !self.first_configure && !self.render_ctx && !(self.phase is CreatingSurface
            || self.phase is StartingPlayer) ==> self.exit
        // Frames are owed and asked for only while the player runs.
        &&& self.frame_callback_pending || self.redraw_needed ==> self.render_ctx
        &&& self.frame_callback_pending ==> self.frame_count > 0
        // Nothing is measured unless it is asked for.
        &&& !self.stats_enabled ==> self.frame_stats.intervals.len() == 0
            && self.frame_stats.last_frame is None
        &&& match self.phase {
            Phase::Idle => true,
            Phase::CreatingSurface { .. } => self.egl_state is None && self.has_pixel_size(),
            Phase::StartingPlayer => self.egl_state is Some && !self.render_ctx
                && self.has_pixel_size(),
            Phase::Updating => self.render_ctx,
            // A frame is drawn only when no callback is outstanding.
            Phase::MakingCurrent { .. } | Phase::Drawing => self.render_ctx
                && !self.frame_callback_pending,
            Phase::Presenting => self.render_ctx && self.frame_callback_pending
                && !self.redraw_needed,
        }
    }
}

impl Murale {
    /// The wallpaper at the start: no surface, no player, no size.
    pub fn new(
        video_path: String,
        mpv_options: Option<String>,
        stats_enabled: bool,
        now: u64,
    ) -> (murale: Murale)
        ensures
            murale@.wf(),
            murale@ == MuraleView::initial(
                video_path@,
                crate::text::text_of(mpv_options),
                stats_enabled,
                now,
            ),
    {
        Murale {
            layer: false,
            egl_state: None,
            render_ctx: false,
            mpv: false,
            first_configure: true,
            width: 0,
            height: 0,
            scale: 1,
            frame_callback_pending: false,
            redraw_needed: false,
            frame_count: 0,
            stats_enabled,
            frame_stats: FrameStats::new(now),
            exit: false,
            video_path,
            mpv_options,
            phase: Phase::Idle,
        }
    }

    /// The layer surface was created.
    pub fn layer_created(&mut self)
        requires
            old(self)@.wf(),
        ensures
            final(self)@.wf(),
            final(self)@ == old(self)@.layer_created(),
    {
        self.layer = true;
    }

    /// Whether an event can be handled now.
    pub fn accepts(&self, event: Event) -> (yes: bool)
        ensures
            yes == self@.accepts(event),
    {
        let idle: bool = match self.phase {
            Phase::Idle => true,
            _ => false,
        };
        match event {
            Event::ScaleFactorChanged(_) => idle,
            Event::Frame => idle && (!(self.redraw_needed && self.can_draw())
                || self.has_pixel_size()),
            Event::Closed => idle,
            Event::Configure { width, height } => {
                let sized: bool = width != 0 && height != 0;
                let first: bool = self.first_configure;
                idle && (!(sized && first) || self.layer) && (!(sized && (first
                    || self.egl_state.is_some())) || is_scalable(width, height, self.scale))
            },
            Event::MpvWakeup => idle,
            Event::SurfaceCreated(_) => match self.phase {
                Phase::CreatingSurface { .. } => true,
                _ => false,
            },
            Event::PlayerStarted(_) => match self.phase {
                Phase::StartingPlayer => true,
                _ => false,
            },
            Event::Updated(flags) => match self.phase {
                Phase::Updating => {
                    let drawing: bool = match flags {
                        Some(given) => has_frame(given) && !self.frame_callback_pending
                            && self.can_draw(),
                        None => false,
                    };
                    !drawing || self.has_pixel_size()
                },
                _ => false,
            },
            Event::MadeCurrent(_) => match self.phase {
                Phase::MakingCurrent { .. } => true,
                _ => false,
            },
            Event::Drawn { error, .. } => match self.phase {
                Phase::Drawing => error < 0 || self.frame_count < u64::MAX,
                _ => false,
            },
            Event::Presented(_) => match self.phase {
                Phase::Presenting => true,
                _ => false,
            },
        }
    }

    /// Handles an event.
    pub fn step(&mut self, event: Event) -> (action: Action)
        requires
            old(self)@.wf(),
            old(self)@.accepts(event),
        ensures
            final(self)@.wf(),
            (final(self)@, action) == old(self)@.step(event),
    {
        match event {
            Event::ScaleFactorChanged(factor) => self.scale_factor_changed(factor),
            Event::Frame => self.frame(),
            Event::Closed => self.closed(),
            Event::Configure { width, height } => self.configure(width, height),
            Event::MpvWakeup => self.handle_mpv_wakeup(),
            Event::SurfaceCreated(created) => self.surface_created(created),
            Event::PlayerStarted(started) => self.player_started(started),
            Event::Updated(flags) => self.updated(flags),
            Event::MadeCurrent(current) => self.made_current(current),
            Event::Drawn { error, times } => self.drawn(error, times),
            Event::Presented(swapped) => self.presented(swapped),
        }
    }

    /// Whether all that drawing takes is there.
    fn can_draw(&self) -> (yes: bool)
        ensures
            yes == self@.can_draw(),
    {
        self.egl_state.is_some() && self.render_ctx && self.layer
    }

    /// Whether the layer surface's size in pixels can be computed.
    fn has_pixel_size(&self) -> (yes: bool)
        ensures
            yes == self@.has_pixel_size(),
    {
        is_scalable(self.width, self.height, self.scale)
    }

    /// Starts to draw a frame. Without a surface, a render context or a layer
    /// surface, nothing is drawn.
    pub fn render_frame(&mut self) -> (action: Action)
        requires
            old(self)@.can_draw() ==> old(self)@.has_pixel_size(),
        ensures
            (final(self)@, action) == old(self)@.render_frame(),
    {
        if !self.can_draw() {
            self.phase = Phase::Idle;
            return Action::Nothing;
        }
        self.phase = Phase::MakingCurrent {
            width: to_pixels(self.width, self.scale),
            height: to_pixels(self.height, self.scale),
        };
        Action::MakeCurrent
    }

    /// The compositor changed the scale of the surface. The surface keeps its size
    /// until the compositor gives it one.
    pub fn scale_factor_changed(&mut self, new_factor: i32) -> (action: Action)
        requires
            old(self)@.wf(),
            old(self)@.accepts(Event::ScaleFactorChanged(new_factor)),
        ensures
            final(self)@.wf(),
            (final(self)@, action) == old(self)@.step(Event::ScaleFactorChanged(new_factor)),
    {
        assert(new_factor >= 0 ==> new_factor as u32 == new_factor) by (bit_vector);
        assert(new_factor < 0 ==> new_factor as u32 == new_factor + 0x1_0000_0000) by (bit_vector);
        self.scale = #[verifier::truncate] (new_factor as u32);
        Action::Nothing
    }

    /// The compositor is ready for another frame. It is drawn at once if the player
    /// had one in the meantime.
    pub fn frame(&mut self) -> (action: Action)
        requires
            old(self)@.wf(),
            old(self)@.accepts(Event::Frame),
        ensures
            final(self)@.wf(),
            (final(self)@, action) == old(self)@.step(Event::Frame),
    {
        self.frame_callback_pending = false;
        if self.redraw_needed {
            self.render_frame()
        } else {
            Action::Nothing
        }
    }

    /// The compositor closed the layer surface: the program ends.
    pub fn closed(&mut self) -> (action: Action)
        requires
            old(self)@.wf(),
            old(self)@.accepts(Event::Closed),
        ensures
            final(self)@.wf(),
            (final(self)@, action) == old(self)@.step(Event::Closed),
    {
        self.exit = true;
        Action::Nothing
    }

    /// The compositor gave the layer surface a size. The first one starts the set-up;
    /// a later one resizes the window. A size without an area is passed over.
    pub fn configure(&mut self, width: u32, height: u32) -> (action: Action)
        requires
            old(self)@.wf(),
            old(self)@.accepts(Event::Configure { width, height }),
        ensures
            final(self)@.wf(),
            (final(self)@, action) == old(self)@.step(Event::Configure { width, height }),
    {
        if width == 0 || height == 0 {
            return Action::Nothing;
        }
        self.width = width;
        self.height = height;
        if self.first_configure {
            self.first_configure = false;
            let width: i32 = to_pixels(width, self.scale);
            let height: i32 = to_pixels(height, self.scale);
            self.phase = Phase::CreatingSurface { width, height };
            Action::CreateSurface { width, height }
        } else if self.egl_state.is_some() {
            let width: i32 = to_pixels(width, self.scale);
            let height: i32 = to_pixels(height, self.scale);
            self.egl_state = Some(EglState { width, height });
            Action::ResizeWindow { width, height }
        } else {
            Action::Nothing
        }
    }

    /// The surface was created, and the player is next; or it was not, and the
    /// program ends.
    pub fn surface_created(&mut self, created: bool) -> (action: Action)
        requires
            old(self)@.wf(),
            old(self)@.accepts(Event::SurfaceCreated(created)),
        ensures
            final(self)@.wf(),
            (final(self)@, action) == old(self)@.step(Event::SurfaceCreated(created)),
    {
        match self.phase {
            Phase::CreatingSurface { width, height } if created => {
                self.egl_state = Some(EglState { width, height });
                self.phase = Phase::StartingPlayer;
                Action::StartPlayer
            },
            _ => {
                self.exit = true;
                self.phase = Phase::Idle;
                Action::Nothing
            },
        }
    }

    /// What it takes to start the player, from its creation to the loaded video.
    pub fn init_mpv(&self) -> (setup: PlayerSetup)
        ensures
            setup.wf(),
            setup.done == 0,
            crate::player::action_views(setup.script@) == crate::player::player_script(
                self@.mpv_options,
                self@.video_path,
            ),
    {
        PlayerSetup::new(&self.mpv_options, self.video_path.as_str())
    }

    /// The player was started, and the first frame is drawn; or it was not, and the
    /// program ends.
    pub fn player_started(&mut self, started: bool) -> (action: Action)
        requires
            old(self)@.wf(),
            old(self)@.accepts(Event::PlayerStarted(started)),
        ensures
            final(self)@.wf(),
            (final(self)@, action) == old(self)@.step(Event::PlayerStarted(started)),
    {
        if started {
            self.render_ctx = true;
            self.mpv = true;
            self.render_frame()
        } else {
            self.exit = true;
            self.phase = Phase::Idle;
            Action::Nothing
        }
    }

    /// The player signalled an update: it is asked what there is to draw.
    pub fn handle_mpv_wakeup(&mut self) -> (action: Action)
        requires
            old(self)@.wf(),
            old(self)@.accepts(Event::MpvWakeup),
        ensures
            final(self)@.wf(),
            (final(self)@, action) == old(self)@.step(Event::MpvWakeup),
    {
        if self.render_ctx {
            self.phase = Phase::Updating;
            Action::UpdatePlayer
        } else {
            Action::Nothing
        }
    }

    /// The player said what there is to draw. A new frame is drawn at once, unless
    /// the compositor still owes a callback: then it waits for that.
    pub fn updated(&mut self, flags: Option<u32>) -> (action: Action)
        requires
            old(self)@.wf(),
            old(self)@.accepts(Event::Updated(flags)),
        ensures
            final(self)@.wf(),
            (final(self)@, action) == old(self)@.step(Event::Updated(flags)),
    {
        self.phase = Phase::Idle;
        match flags {
            Some(given) => {
                if !has_frame(given) {
                    Action::Nothing
                } else if self.frame_callback_pending {
                    self.redraw_needed = true;
                    Action::Nothing
                } else {
                    self.render_frame()
                }
            },
            None => Action::Nothing,
        }
    }

    /// The surface became current, and the frame is drawn on it; or it did not, and
    /// the frame is given up.
    pub fn made_current(&mut self, current: bool) -> (action: Action)
        requires
            old(self)@.wf(),
            old(self)@.accepts(Event::MadeCurrent(current)),
        ensures
            final(self)@.wf(),
            (final(self)@, action) == old(self)@.step(Event::MadeCurrent(current)),
    {
        match self.phase {
            Phase::MakingCurrent { width, height } if current => {
                self.phase = Phase::Drawing;
                Action::Draw { width, height }
            },
            _ => {
                self.phase = Phase::Idle;
                Action::Nothing
            },
        }
    }

    /// The frame was drawn: it is counted, timed, and shown. With a negative
    /// error code it was not drawn, and is given up.
    pub fn drawn(&mut self, error: i32, times: FrameTimes) -> (action: Action)
        requires
            old(self)@.wf(),
            old(self)@.accepts(Event::Drawn { error, times }),
        ensures
            final(self)@.wf(),
            (final(self)@, action) == old(self)@.step(Event::Drawn { error, times }),
            action matches Action::Present { report: Some(report) } ==> report.describes(
                old(self)@.frame_stats.record(times.drawn).intervals,
            ),
    {
        if error < 0 {
            self.phase = Phase::Idle;
            return Action::Nothing;
        }
        self.frame_count = self.frame_count + 1;
        let mut report: Option<FrameReport> = None;
        if self.stats_enabled {
            self.frame_stats.record(times.drawn);
            if self.frame_stats.should_report(times.checked) {
                report = Some(self.frame_stats.take_stats(times.reported));
            }
        }
        self.frame_callback_pending = true;
        self.redraw_needed = false;
        self.phase = Phase::Presenting;
        Action::Present { report }
    }

    /// The line that reports on the frames and the playback, or `None` without a
    /// player to report on.
    pub fn log_combined_stats(&self, fields: &StatsFields) -> (line: Option<String>)
        ensures
            line is Some <==> self@.mpv,
            line matches Some(written) ==> written@ == fields.line(),
    {
        if self.mpv {
            Some(fields.write())
        } else {
            None
        }
    }

    /// The buffers were swapped; or they were not, and then no callback will come,
    /// so none is waited for.
    pub fn presented(&mut self, swapped: bool) -> (action: Action)
        requires
            old(self)@.wf(),
            old(self)@.accepts(Event::Presented(swapped)),
        ensures
            final(self)@.wf(),
            (final(self)@, action) == old(self)@.step(Event::Presented(swapped)),
    {
        if !swapped {
            self.frame_callback_pending = false;
        }
        self.phase = Phase::Idle;
        Action::Nothing
    }
}

impl Murale {
    /// What is given back when the program ends in a failure, in this order.
    pub fn give_back(&self) -> (releases: Vec<Release>)
        ensures
            releases@ == self@.releases(),
    {
        let mut releases: Vec<Release> = Vec::new();
        if self.layer {
            releases.push(Release::LayerSurface);
        }
        if self.egl_state.is_some() {
            releases.push(Release::Surface);
        }
        if self.render_ctx {
            releases.push(Release::RenderContext);
        }
        if self.mpv {
            releases.push(Release::Player);
        }
        releases
    }
}

impl MuraleView {
    /// Whether each of the events can be handled in its turn.
    pub open spec fn accepts_all(self, events: Seq<Event>) -> bool
        decreases events.len(),
    {
        events.len() > 0 ==> self.accepts(events[0]) && self.step(events[0]).0.accepts_all(
            events.skip(1),
        )
    }

    /// The state after all of the events.
    pub open spec fn after(self, events: Seq<Event>) -> MuraleView
        decreases events.len(),
    {
        if events.len() == 0 {
            self
        } else {
            self.step(events[0]).0.after(events.skip(1))
        }
    }
}

/// Every event that is accepted keeps the state well-formed.
pub proof fn events_keep_the_state_well_formed(state: MuraleView, event: Event)
    requires
        state.wf(),
        state.accepts(event),
    ensures
        state.step(event).0.wf(),
{
}

/// From the start on, whatever happens, the state is well-formed.
pub proof fn every_state_is_well_formed(
    video_path: Seq<char>,
    mpv_options: Option<Seq<char>>,
    stats_enabled: bool,
    now: u64,
    events: Seq<Event>,
)
    requires
        MuraleView::initial(
            video_path,
            mpv_options,
            stats_enabled,
            now,
        ).layer_created().accepts_all(events),
    ensures
        MuraleView::initial(video_path, mpv_options, stats_enabled, now).layer_created().after(
            events,
        ).wf(),
{
    events_keep_states_well_formed(
        MuraleView::initial(video_path, mpv_options, stats_enabled, now).layer_created(),
        events,
    );
}

/// So do any number of events, each accepted in its turn.
pub proof fn events_keep_states_well_formed(state: MuraleView, events: Seq<Event>)
    requires
        state.wf(),
        state.accepts_all(events),
    ensures
        state.after(events).wf(),
    decreases events.len(),
{
    if events.len() > 0 {
        events_keep_the_state_well_formed(state, events[0]);
        events_keep_states_well_formed(state.step(events[0]).0, events.skip(1));
    }
}

/// What happens from the player's signal to the shown frame, when all goes well. A
/// callback that the compositor owes comes before the drawing.
pub open spec fn frame_events(callback_owed: bool, flags: u32, times: FrameTimes) -> Seq<Event> {
    seq![Event::MpvWakeup, Event::Updated(Some(flags))] + (if callback_owed {
        seq![Event::Frame]
    } else {
        Seq::empty()
    }) + seq![Event::MadeCurrent(true), Event::Drawn { error: 0, times }, Event::Presented(true)]
}

/// What happens from the first size to the first shown frame, when all goes well.
pub open spec fn start_events(width: u32, height: u32, times: FrameTimes) -> Seq<Event> {
    seq![
        Event::Configure { width, height },
        Event::SurfaceCreated(true),
        Event::PlayerStarted(true),
        Event::MadeCurrent(true),
        Event::Drawn { error: 0, times },
        Event::Presented(true),
    ]
}

/// The wallpaper comes up: the first size with an area leads to the first frame,
/// without anything else to happen.
pub proof fn the_wallpaper_comes_up(
    state: MuraleView,
    width: u32,
    height: u32,
    times: FrameTimes,
)
    requires
        state.wf(),
        state.first_configure,
        state.layer,
        state.frame_count < u64::MAX,
        width > 0,
        height > 0,
        crate::render::scalable(width, height, state.scale),
    ensures
        state.accepts_all(start_events(width, height, times)),
        ({
            let shown = state.after(start_events(width, height, times));
            &&& shown.phase is Idle
            &&& shown.can_draw()
            &&& shown.frame_count == state.frame_count + 1
            &&& shown.frame_callback_pending
            &&& shown.exit == state.exit
        }),
{
    reveal_with_fuel(MuraleView::accepts_all, 7);
    reveal_with_fuel(MuraleView::after, 7);
}

/// A frame that the player announces is shown when nothing fails: at once, or after
/// the callback that the compositor still owes.
pub proof fn announced_frames_are_shown(state: MuraleView, flags: u32, times: FrameTimes)
    requires
        state.wf(),
        state.phase is Idle,
        state.render_ctx,
        state.has_pixel_size(),
        state.frame_count < u64::MAX,
        crate::render::announces_frame(flags),
    ensures
        state.accepts_all(frame_events(state.frame_callback_pending, flags, times)),
        ({
            let shown = state.after(frame_events(state.frame_callback_pending, flags, times));
            &&& shown.phase is Idle
            &&& shown.frame_count == state.frame_count + 1
            &&& shown.frame_callback_pending
            &&& !shown.redraw_needed
        }),
{
    reveal_with_fuel(MuraleView::accepts_all, 7);
    reveal_with_fuel(MuraleView::after, 7);
    let events = frame_events(state.frame_callback_pending, flags, times);
    let last = seq![
        Event::MadeCurrent(true),
        Event::Drawn { error: 0, times },
        Event::Presented(true),
    ];
    if state.frame_callback_pending {
        assert(events.skip(1).skip(1) == seq![Event::Frame] + last);
        assert((seq![Event::Frame] + last).skip(1) == last);
    } else {
        assert(events.skip(1).skip(1) == last);
    }
}

/// No frame of the player is lost: when it announces one, drawing starts at once,
/// or the frame is kept for the callback that the compositor still owes.
pub proof fn announced_frames_are_not_lost(state: MuraleView, flags: u32)
    requires
        state.wf(),
        state.accepts(Event::Updated(Some(flags))),
        crate::render::announces_frame(flags),
    ensures
        ({
            let (next, action) = state.step(Event::Updated(Some(flags)));
            ||| action == Action::MakeCurrent
            ||| next.redraw_needed && next.frame_callback_pending
        }),
{
}

/// A frame that was kept is drawn as soon as the compositor calls back.
pub proof fn kept_frames_are_drawn_on_the_callback(state: MuraleView)
    requires
        state.wf(),
        state.accepts(Event::Frame),
        state.redraw_needed,
    ensures
        state.step(Event::Frame).1 == Action::MakeCurrent,
{
}

/// A callback without a frame to draw only clears the way for the next one.
pub proof fn idle_callbacks_draw_nothing(state: MuraleView)
    requires
        state.wf(),
        !state.redraw_needed,
    ensures
        state.step(Event::Frame) == (
            (MuraleView { frame_callback_pending: false, ..state }),
            Action::Nothing,
        ),
{
}

/// A frame that could not be shown does not stop the wallpaper: no callback is
/// waited for, so the next frame that the player announces is drawn at once.
pub proof fn a_failed_swap_is_retried(state: MuraleView, flags: u32)
    requires
        state.wf(),
        state.accepts(Event::Presented(false)),
        state.has_pixel_size(),
        crate::render::announces_frame(flags),
    ensures
        ({
            let idle = state.step(Event::Presented(false)).0;
            let updating = idle.step(Event::MpvWakeup).0;
            &&& idle.accepts(Event::MpvWakeup)
            &&& idle.step(Event::MpvWakeup).1 == Action::UpdatePlayer
            &&& updating.accepts(Event::Updated(Some(flags)))
            &&& updating.step(Event::Updated(Some(flags))).1 == Action::MakeCurrent
        }),
{
}

/// A frame that could not be drawn leaves everything as it was.
pub proof fn failed_frames_change_nothing(state: MuraleView, error: i32, times: FrameTimes)
    requires
        error < 0,
    ensures
        state.step(Event::MadeCurrent(false)) == (state.waiting_for(Phase::Idle), Action::Nothing),
        state.step(Event::Drawn { error, times }) == (
            state.waiting_for(Phase::Idle),
            Action::Nothing,
        ),
{
}

/// The compositor never owes two callbacks: one is asked for only when none is
/// outstanding.
pub proof fn one_callback_at_a_time(state: MuraleView, event: Event)
    requires
        state.wf(),
        state.accepts(event),
        state.step(event).1 is Present,
    ensures
        !state.frame_callback_pending,
        state.step(event).0.frame_callback_pending,
{
}

/// Whenever the compositor gives a size and there is, or comes to be, a surface,
/// the surface has that size in pixels.
pub proof fn the_surface_follows_the_size(state: MuraleView, width: u32, height: u32)
    requires
        state.wf(),
        state.accepts(Event::Configure { width, height }),
        width > 0,
        height > 0,
    ensures
        ({
            let (next, action) = state.step(Event::Configure { width, height });
            let size = EglState {
                width: crate::render::pixels(width, state.scale),
                height: crate::render::pixels(height, state.scale),
            };
            &&& state.egl_state is Some ==> next.egl_state == Some(size) && action
                == Action::ResizeWindow { width: size.width, height: size.height }
            &&& state.first_configure ==> next.step(Event::SurfaceCreated(true)).0.egl_state
                == Some(size)
        }),
{
}

/// A frame has the size of the layer surface in pixels, at the scale of the moment
/// at which it was begun.
pub proof fn frames_fill_the_surface(state: MuraleView)
    requires
        state.can_draw(),
    ensures
        state.render_frame().0.step(Event::MadeCurrent(true)).1 == (Action::Draw {
            width: crate::render::pixels(state.width, state.scale),
            height: crate::render::pixels(state.height, state.scale),
        }),
{
}

/// The set-up happens once: what it begins with does not come back, nor is an end
/// of the program taken back, and frames are only ever added.
pub proof fn the_set_up_happens_once(state: MuraleView, event: Event)
    requires
        state.wf(),
        state.accepts(event),
    ensures
        state.step(event).1 is CreateSurface ==> state.first_configure && !state.step(
            event,
        ).0.first_configure,
        state.step(event).0.first_configure ==> state.first_configure,
        state.render_ctx ==> state.step(event).0.render_ctx && state.step(event).0.egl_state is Some
            && !(state.step(event).1 is StartPlayer),
        state.exit ==> state.step(event).0.exit,
        state.step(event).0.frame_count >= state.frame_count,
{
}

/// A surface or a player that cannot be had ends the program, as does the
/// compositor when it closes the layer surface.
pub proof fn failures_of_the_set_up_end_the_program(state: MuraleView)
    ensures
        state.step(Event::SurfaceCreated(false)).0.exit,
        state.step(Event::PlayerStarted(false)).0.exit,
        state.step(Event::Closed).0.exit,
{
}

/// A program that ends in a failure gives the render context back before the player
/// that it lives on.
pub proof fn a_failed_run_gives_the_context_back_before_its_player(state: MuraleView)
    ensures
        crate::release::context_before_player(state.releases()),
        state.releases().contains(Release::RenderContext) <==> state.render_ctx,
        state.releases().contains(Release::Player) <==> state.mpv,
{
    let releases = state.releases();
    let before = (if state.layer {
        1int
    } else {
        0int
    }) + (if state.egl_state is Some {
        1int
    } else {
        0int
    });
    if state.render_ctx {
        assert(releases[before] == Release::RenderContext);
    }
    if state.mpv {
        assert(releases[releases.len() - 1] == Release::Player);
    }
}

/// Only frames that were drawn are counted, and each once.
pub proof fn frames_are_counted_when_drawn(state: MuraleView, event: Event)
    requires
        state.wf(),
        state.accepts(event),
    ensures
        state.step(event).0.frame_count == state.frame_count + (if state.step(
            event,
        ).1 is Present {
            1int
        } else {
            0int
        }),
{
}

/// Without `--stats` nothing is measured and nothing is reported.
pub proof fn reports_have_to_be_asked_for(state: MuraleView, event: Event)
    requires
        !state.stats_enabled,
    ensures
        state.step(event).0.frame_stats == state.frame_stats,
        !state.step(event).0.stats_enabled,
        state.step(event).1 matches Action::Present { report } ==> report is None,
{
}

/// The view of a wallpaper shows each of its fields as it is.
pub proof fn the_view_shows_the_fields(murale: Murale)
    ensures
        murale@.layer == murale.layer,
        murale@.egl_state == murale.egl_state,
        murale@.render_ctx == murale.render_ctx,
        murale@.mpv == murale.mpv,
        murale@.first_configure == murale.first_configure,
        murale@.width == murale.width,
        murale@.height == murale.height,
        murale@.scale == murale.scale,
        murale@.frame_callback_pending == murale.frame_callback_pending,
        murale@.redraw_needed == murale.redraw_needed,
        murale@.frame_count == murale.frame_count,
        murale@.stats_enabled == murale.stats_enabled,
        murale@.frame_stats.intervals == murale.frame_stats.intervals_ns@,
        murale@.frame_stats.last_frame == murale.frame_stats.last_frame,
        murale@.frame_stats.last_report == murale.frame_stats.last_report,
        murale@.exit == murale.exit,
        murale@.video_path == murale.video_path@,
        murale@.mpv_options is Some <==> murale.mpv_options is Some,
        murale.mpv_options matches Some(text) ==> murale@.mpv_options == Some(text@),
        murale@.phase == murale.phase,
{
}

/// The wallpaper starts with what the user asked for and with nothing else: no layer
/// surface, no surface, no player and no size, at a scale of one, and with no frame
/// drawn or timed.
pub proof fn the_wallpaper_starts_with_the_wishes_of_the_user(
    video_path: Seq<char>,
    mpv_options: Option<Seq<char>>,
    stats_enabled: bool,
    now: u64,
)
    ensures
        ({
            let start = MuraleView::initial(video_path, mpv_options, stats_enabled, now);
            &&& start.video_path == video_path
            &&& start.mpv_options == mpv_options
            &&& start.stats_enabled == stats_enabled
            &&& !start.layer && start.egl_state is None && !start.render_ctx && !start.mpv
            &&& start.first_configure && start.width == 0 && start.height == 0 && start.scale == 1
            &&& !start.frame_callback_pending && !start.redraw_needed && start.frame_count == 0
            &&& start.frame_stats.intervals.len() == 0 && start.frame_stats.last_frame is None
            &&& start.frame_stats.last_report == now
            &&& !start.exit && start.phase is Idle
            &&& start.layer_created() == (MuraleView { layer: true, ..start })
        }),
{
}

/// The layer surface changes nothing else.
pub proof fn the_layer_surface_is_all_that_is_added(state: MuraleView)
    ensures
        state.layer_created() == (MuraleView { layer: true, ..state }),
{
}

/// What the user asked for is never changed, whatever happens: the video, its options
/// and the timing. Nor does the layer surface go.
pub proof fn the_wishes_of_the_user_stay(state: MuraleView, events: Seq<Event>)
    ensures
        state.after(events).video_path == state.video_path,
        state.after(events).mpv_options == state.mpv_options,
        state.after(events).stats_enabled == state.stats_enabled,
        state.after(events).layer == state.layer,
    decreases events.len(),
{
    if events.len() > 0 {
        the_wishes_of_the_user_stay(state.step(events[0]).0, events.skip(1));
    }
}

/// The scale is the last one that the compositor gave, whether it grew or shrank. What
/// was drawn or is to be drawn is not touched, nor is the window.
pub proof fn the_last_scale_counts(state: MuraleView, earlier: i32, factor: i32)
    ensures
        state.step(Event::ScaleFactorChanged(factor)).1 == Action::Nothing,
        state.step(Event::ScaleFactorChanged(factor)).0 == (MuraleView {
            scale: state.step(Event::ScaleFactorChanged(factor)).0.scale,
            ..state
        }),
        factor >= 0 ==> state.step(Event::ScaleFactorChanged(factor)).0.scale == factor,
        factor < 0 ==> state.step(Event::ScaleFactorChanged(factor)).0.scale == factor
            + 0x1_0000_0000,
        state.step(Event::ScaleFactorChanged(earlier)).0.step(Event::ScaleFactorChanged(factor))
            == state.step(Event::ScaleFactorChanged(factor)),
{
}

/// The size is the last one that the compositor gave, if it has an area; one without is
/// as if it had not come.
pub proof fn the_last_size_counts(state: MuraleView, width: u32, height: u32)
    ensures
        ({
            let (next, action) = state.step(Event::Configure { width, height });
            &&& width == 0 || height == 0 ==> next == state && action == Action::Nothing
            &&& width != 0 && height != 0 ==> {
                &&& next.width == width && next.height == height
                &&& !next.first_configure
                // Whatever is not about the size stays.
                &&& next == (MuraleView {
                    width,
                    height,
                    first_configure: false,
                    egl_state: next.egl_state,
                    phase: next.phase,
                    ..state
                })
                &&& next.egl_state is Some <==> state.egl_state is Some
                // A surface is asked for by the first size, and by no other.
                &&& action is CreateSurface <==> state.first_configure
                &&& next.phase == if state.first_configure {
                    Phase::CreatingSurface { width: action->CreateSurface_width, height:
                        action->CreateSurface_height }
                } else {
                    state.phase
                }
                // Where there is a surface, its window gets the new size; where there is
                // none any more, nothing is done.
                &&& action is ResizeWindow <==> !state.first_configure && state.egl_state is Some
                &&& action is Nothing <==> !state.first_configure && state.egl_state is None
                &&& state.first_configure ==> next.egl_state == state.egl_state
            }
        }),
{
}

/// The window has the size that the compositor gave, times the scale: what is asked for,
/// and what is kept.
pub proof fn the_window_has_the_size_in_pixels(state: MuraleView, width: u32, height: u32)
    requires
        width != 0,
        height != 0,
        width * state.scale <= i32::MAX,
        height * state.scale <= i32::MAX,
    ensures
        ({
            let (next, action) = state.step(Event::Configure { width, height });
            &&& action matches Action::CreateSurface { width: w, height: h } ==> w == width
                * state.scale && h == height * state.scale
            &&& action matches Action::ResizeWindow { width: w, height: h } ==> {
                &&& w == width * state.scale && h == height * state.scale
                &&& next.egl_state == Some(EglState { width: w, height: h })
            }
        }),
{
}

/// The first frame has the size of the surface that was created for it.
pub proof fn the_first_frame_fills_the_surface(state: MuraleView, width: u32, height: u32)
    requires
        state.wf(),
        state.first_configure,
        state.accepts(Event::Configure { width, height }),
        width != 0,
        height != 0,
    ensures
        ({
            let (creating, create) = state.step(Event::Configure { width, height });
            let (starting, start) = creating.step(Event::SurfaceCreated(true));
            let (current, make) = starting.step(Event::PlayerStarted(true));
            let (drawing, draw) = current.step(Event::MadeCurrent(true));
            &&& create is CreateSurface
            &&& start == Action::StartPlayer
            &&& make == Action::MakeCurrent
            &&& draw == (Action::Draw {
                width: create->CreateSurface_width,
                height: create->CreateSurface_height,
            })
        }),
{
}

/// A frame begun after a resize has the size of the resized window: whether the player
/// announces it afterwards, or it was kept for the callback that was owed.
pub proof fn frames_after_a_resize_fill_the_window(
    state: MuraleView,
    width: u32,
    height: u32,
    flags: u32,
)
    requires
        state.wf(),
        state.render_ctx,
        state.accepts(Event::Configure { width, height }),
        width != 0,
        height != 0,
        flags % 2 == 1,
    ensures
        ({
            let (sized, resize) = state.step(Event::Configure { width, height });
            let announced = sized.step(Event::MpvWakeup).0.step(Event::Updated(Some(flags)));
            let called = if sized.frame_callback_pending {
                announced.0.step(Event::Frame)
            } else {
                announced
            };
            &&& resize is ResizeWindow
            &&& called.1 == Action::MakeCurrent
            &&& called.0.step(Event::MadeCurrent(true)).1 == (Action::Draw {
                width: resize->ResizeWindow_width,
                height: resize->ResizeWindow_height,
            })
            &&& width * state.scale <= i32::MAX && height * state.scale <= i32::MAX
                ==> called.0.step(Event::MadeCurrent(true)).1 == (Action::Draw {
                width: (width * state.scale) as i32,
                height: (height * state.scale) as i32,
            })
        }),
{
}

/// An update without a new frame changes nothing, whether or not a callback is owed: no
/// old frame is drawn again for it.
pub proof fn updates_without_a_frame_change_nothing(state: MuraleView, flags: Option<u32>)
    requires
        flags matches Some(given) ==> given % 2 == 0,
    ensures
        state.step(Event::Updated(flags)) == (
            (MuraleView { phase: Phase::Idle, ..state }),
            Action::Nothing,
        ),
        !state.redraw_needed && state.phase is Updating ==> state.step(Event::Updated(flags)).0.step(
            Event::Frame,
        ).1 == Action::Nothing,
{
}

/// An update with a new frame, whatever else it says, does one of two things: while a
/// callback is owed it notes that there is something to draw, and otherwise it begins to
/// draw.
pub proof fn updates_with_a_frame_draw_or_wait(state: MuraleView, flags: u32)
    requires
        flags % 2 == 1,
    ensures
        state.frame_callback_pending ==> state.step(Event::Updated(Some(flags))) == (
            (MuraleView { redraw_needed: true, phase: Phase::Idle, ..state }),
            Action::Nothing,
        ),
        !state.frame_callback_pending ==> state.step(Event::Updated(Some(flags)))
            == state.render_frame(),
{
}

/// The flag of a new frame is the lowest bit, whatever the others are.
pub proof fn frames_are_announced_by_the_lowest_bit(state: MuraleView, flags: u32, others: u32)
    requires
        flags % 2 == others % 2,
    ensures
        state.step(Event::Updated(Some(flags))) == state.step(Event::Updated(Some(others))),
        state.accepts(Event::Updated(Some(flags))) == state.accepts(Event::Updated(Some(others))),
        crate::render::announces_frame(flags) <==> flags & 1 == 1,
{
    assert((flags & 1 == 1) == (flags % 2 == 1)) by (bit_vector);
}

/// Beginning a frame settles its size, and changes nothing else: it takes a surface, a
/// render context and a layer surface, and without one of them nothing is drawn.
pub proof fn beginning_a_frame_settles_its_size(state: MuraleView)
    ensures
        ({
            let (next, action) = state.render_frame();
            let complete = state.egl_state is Some && state.render_ctx && state.layer;
            &&& next == (MuraleView { phase: next.phase, ..state })
            &&& complete ==> next.phase is MakingCurrent && action == Action::MakeCurrent
            &&& !complete ==> next.phase is Idle && action == Action::Nothing
            &&& complete && state.width * state.scale <= i32::MAX && state.height * state.scale
                <= i32::MAX ==> next.phase == (Phase::MakingCurrent {
                width: (state.width * state.scale) as i32,
                height: (state.height * state.scale) as i32,
            })
            &&& complete ==> next.phase == (Phase::MakingCurrent {
                width: crate::render::pixels(state.width, state.scale),
                height: crate::render::pixels(state.height, state.scale),
            })
        }),
{
}

/// A frame is drawn in the size that was settled when it was begun.
pub proof fn frames_keep_the_size_they_were_begun_with(state: MuraleView, width: i32, height: i32)
    requires
        state.phase == (Phase::MakingCurrent { width, height }),
    ensures
        state.step(Event::MadeCurrent(true)) == (
            (MuraleView { phase: Phase::Drawing, ..state }),
            Action::Draw { width, height },
        ),
        state.step(Event::MadeCurrent(false)) == (
            (MuraleView { phase: Phase::Idle, ..state }),
            Action::Nothing,
        ),
{
}

/// A callback is owed no more once it has come, and a frame that was kept is begun with
/// it. That it was kept is forgotten only when it is drawn.
pub proof fn callbacks_begin_kept_frames(state: MuraleView)
    ensures
        ({
            let (next, action) = state.step(Event::Frame);
            let called = MuraleView { frame_callback_pending: false, ..state };
            &&& !state.redraw_needed ==> next == called && action == Action::Nothing
            &&& state.redraw_needed ==> (next, action) == called.render_frame()
            &&& !next.frame_callback_pending && next.redraw_needed == state.redraw_needed
        }),
{
}

/// The player is asked what there is to draw exactly if its render context is there, and
/// nothing else comes of its signal.
pub proof fn signals_ask_the_player(state: MuraleView)
    ensures
        state.render_ctx ==> state.step(Event::MpvWakeup) == (
            (MuraleView { phase: Phase::Updating, ..state }),
            Action::UpdatePlayer,
        ),
        !state.render_ctx ==> state.step(Event::MpvWakeup) == (state, Action::Nothing),
{
}

/// The compositor's close asks for the end of the program, and does nothing else.
pub proof fn a_close_only_asks_for_the_end(state: MuraleView)
    ensures
        state.step(Event::Closed) == ((MuraleView { exit: true, ..state }), Action::Nothing),
{
}

/// The surface that was asked for is the one that is kept, and the player is next. Where
/// it cannot be had, the program ends without one.
pub proof fn the_created_surface_is_kept(
    state: MuraleView,
    width: i32,
    height: i32,
)
    requires
        state.phase == (Phase::CreatingSurface { width, height }),
    ensures
        state.step(Event::SurfaceCreated(true)) == (
            (MuraleView {
                egl_state: Some(EglState { width, height }),
                phase: Phase::StartingPlayer,
                ..state
            }),
            Action::StartPlayer,
        ),
        state.step(Event::SurfaceCreated(false)) == (
            (MuraleView { exit: true, phase: Phase::Idle, ..state }),
            Action::Nothing,
        ),
{
}

/// The player comes with its render context, and the first frame is begun at once. Where
/// it cannot be had, there is neither, and the program ends.
pub proof fn the_player_comes_with_its_render_context(state: MuraleView)
    ensures
        ({
            let (next, action) = state.step(Event::PlayerStarted(true));
            &&& next == (MuraleView { render_ctx: true, mpv: true, phase: next.phase, ..state })
            &&& state.egl_state is Some && state.layer ==> action == Action::MakeCurrent
                && next.phase is MakingCurrent
            &&& next.phase == (MuraleView { render_ctx: true, mpv: true, ..state }).render_frame()
                .0.phase
        }),
        state.step(Event::PlayerStarted(false)) == (
            (MuraleView { exit: true, phase: Phase::Idle, ..state }),
            Action::Nothing,
        ),
{
}

/// A frame that was drawn is counted, a callback is owed for it, and nothing is left to
/// draw; the code that the player gave does not matter beyond its sign. Without
/// `--stats` that is all.
pub proof fn drawn_frames_are_shown(state: MuraleView, error: i32, times: FrameTimes)
    requires
        error >= 0,
        state.frame_count < u64::MAX,
    ensures
        ({
            let (next, action) = state.step(Event::Drawn { error, times });
            &&& next == (MuraleView {
                frame_count: (state.frame_count + 1) as u64,
                frame_stats: next.frame_stats,
                frame_callback_pending: true,
                redraw_needed: false,
                phase: Phase::Presenting,
                ..state
            })
            &&& next.frame_count == state.frame_count + 1
            &&& action is Present
            &&& !state.stats_enabled ==> next.frame_stats == state.frame_stats && action == (
            Action::Present { report: None })
            &&& state.step(Event::Drawn { error: 0, times }) == (next, action)
        }),
{
}

/// With `--stats` a drawn frame is timed by the first reading of the clock. A report is
/// made exactly if five seconds have passed by the second reading and there are two
/// intervals; it is on all of them, and the next period starts at the third reading.
pub proof fn drawn_frames_are_timed(state: MuraleView, error: i32, times: FrameTimes)
    requires
        error >= 0,
        state.stats_enabled,
        state.frame_stats.intervals.len() < usize::MAX,
    ensures
        ({
            let (next, action) = state.step(Event::Drawn { error, times });
            let before = state.frame_stats;
            let intervals = match before.last_frame {
                Some(last) => before.intervals.push(
                    if times.drawn >= last {
                        (times.drawn - last) as u64
                    } else {
                        0
                    },
                ),
                None => before.intervals,
            };
            let due = times.checked >= before.last_report + 5_000_000_000 && intervals.len() >= 2;
            &&& next.frame_stats.last_frame == Some(times.drawn)
            &&& due ==> {
                &&& next.frame_stats.intervals.len() == 0
                &&& next.frame_stats.last_report == times.reported
                &&& action matches Action::Present { report: Some(report) } && report.describes(
                    intervals,
                )
            }
            &&& !due ==> {
                &&& next.frame_stats.intervals == intervals
                &&& next.frame_stats.last_report == before.last_report
                &&& action == (Action::Present { report: None })
            }
        }),
{
    let before = state.frame_stats;
    let intervals = before.record(times.drawn).intervals;
    if intervals.len() >= 2 {
        crate::stats::every_sequence_has_its_report(intervals);
    }
}

/// After the swap the wallpaper waits: for the callback that is owed, or for nothing if
/// the swap failed.
pub proof fn the_callback_is_owed_if_the_swap_succeeded(state: MuraleView)
    ensures
        state.step(Event::Presented(true)) == (
            (MuraleView { phase: Phase::Idle, ..state }),
            Action::Nothing,
        ),
        state.step(Event::Presented(false)) == (
            (MuraleView { frame_callback_pending: false, phase: Phase::Idle, ..state }),
            Action::Nothing,
        ),
{
}

/// What the compositor and the player report is accepted whenever the wallpaper waits
/// for nothing else, but for sizes that cannot be computed, and for a size that comes
/// before the layer surface.
pub proof fn reports_are_accepted(state: MuraleView, factor: i32, width: u32, height: u32)
    requires
        state.phase is Idle,
    ensures
        state.accepts(Event::ScaleFactorChanged(factor)),
        state.accepts(Event::Closed),
        state.accepts(Event::MpvWakeup),
        state.width * state.scale <= u32::MAX && state.height * state.scale <= u32::MAX
            ==> state.accepts(Event::Frame),
        !state.redraw_needed ==> state.accepts(Event::Frame),
        state.layer && width * state.scale <= u32::MAX && height * state.scale <= u32::MAX
            ==> state.accepts(Event::Configure { width, height }),
        width == 0 || height == 0 ==> state.accepts(Event::Configure { width, height }),
        !state.first_configure && state.egl_state is None ==> state.accepts(
            Event::Configure { width, height },
        ),
{
}

/// What an action came to is accepted when the wallpaper waits for it, whatever it is,
/// but for a frame whose size cannot be computed and for one more than can be counted.
pub proof fn outcomes_are_accepted(
    state: MuraleView,
    good: bool,
    flags: Option<u32>,
    error: i32,
    times: FrameTimes,
)
    ensures
        state.accepts(Event::SurfaceCreated(good)) <==> state.phase is CreatingSurface,
        state.accepts(Event::PlayerStarted(good)) <==> state.phase is StartingPlayer,
        state.accepts(Event::MadeCurrent(good)) <==> state.phase is MakingCurrent,
        state.accepts(Event::Presented(good)) <==> state.phase is Presenting,
        state.accepts(Event::Drawn { error, times }) <==> state.phase is Drawing && (error < 0
            || state.frame_count < u64::MAX),
        state.accepts(Event::Updated(flags)) ==> state.phase is Updating,
        state.phase is Updating && state.width * state.scale <= u32::MAX && state.height
            * state.scale <= u32::MAX ==> state.accepts(Event::Updated(flags)),
        state.phase is Updating && (flags matches Some(given) ==> given % 2 == 0)
            ==> state.accepts(Event::Updated(flags)),
        state.phase is Updating && state.frame_callback_pending ==> state.accepts(
            Event::Updated(flags),
        ),
{
}

/// What is given back after a failure is what there is: each thing once, the layer
/// surface first and the surface behind it.
pub proof fn a_failed_run_gives_back_what_there_is(state: MuraleView)
    ensures
        ({
            let releases = state.releases();
            let layer = if state.layer {
                1int
            } else {
                0int
            };
            let surface = if state.egl_state is Some {
                1int
            } else {
                0int
            };
            let context = if state.render_ctx {
                1int
            } else {
                0int
            };
            let player = if state.mpv {
                1int
            } else {
                0int
            };
            &&& releases.len() == layer + surface + context + player
            &&& state.layer ==> releases[0] == Release::LayerSurface
            &&& state.egl_state is Some ==> releases[layer] == Release::Surface
            &&& state.render_ctx ==> releases[layer + surface] == Release::RenderContext
            &&& state.mpv ==> releases[layer + surface + context] == Release::Player
        }),
{
}

} // verus!
