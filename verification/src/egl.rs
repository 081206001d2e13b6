//! Bringing EGL up: loading it, choosing a configuration and an OpenGL context,
//! and making the surface that the video is drawn on.
//!
//! Each of the three is a sequence of calls into the driver. The functions here
//! say which call comes next, with which arguments, and what the failure of each
//! means. What the driver hands out (displays, contexts, surfaces) is passed on as
//! it is, so its types are type parameters.

use vstd::prelude::*;

use crate::error::MuraleError;
use crate::text::join;

verus! {

/// `EGL_SURFACE_TYPE`
pub const SURFACE_TYPE: i32 = 0x3033;

/// `EGL_WINDOW_BIT`
pub const WINDOW_BIT: i32 = 0x0004;

/// `EGL_RENDERABLE_TYPE`
pub const RENDERABLE_TYPE: i32 = 0x3040;

/// `EGL_OPENGL_BIT`
pub const OPENGL_BIT: i32 = 0x0008;

/// `EGL_RED_SIZE`
pub const RED_SIZE: i32 = 0x3024;

/// `EGL_GREEN_SIZE`
pub const GREEN_SIZE: i32 = 0x3023;

/// `EGL_BLUE_SIZE`
pub const BLUE_SIZE: i32 = 0x3022;

/// `EGL_ALPHA_SIZE`
pub const ALPHA_SIZE: i32 = 0x3021;

/// `EGL_NONE`, which ends a list of attributes.
pub const NONE: i32 = 0x3038;

/// `EGL_OPENGL_API`
pub const OPENGL_API: u32 = 0x30A2;

/// `EGL_CONTEXT_MAJOR_VERSION`
pub const CONTEXT_MAJOR_VERSION: i32 = 0x3098;

/// `EGL_CONTEXT_MINOR_VERSION`
pub const CONTEXT_MINOR_VERSION: i32 = 0x30FB;

/// The library that EGL is loaded from.
pub const LIBRARY: &'static str = "libEGL.so.1";

/// The number of OpenGL versions that are tried.
pub const VERSION_COUNT: usize = 11;

/// The swap interval of the surface: a swap does not wait for the display.
pub const SWAP_INTERVAL: i32 = 0;

/// The OpenGL versions that are tried, in order, each as its major and its minor
/// number.
pub open spec fn gl_versions() -> Seq<(i32, i32)> {
    seq![
        (4i32, 6i32),
        (4i32, 5i32),
        (4i32, 4i32),
        (4i32, 3i32),
        (4i32, 2i32),
        (4i32, 1i32),
        (4i32, 0i32),
        (3i32, 3i32),
        (3i32, 2i32),
        (3i32, 1i32),
        (3i32, 0i32),
    ]
}

/// The attributes of the configuration: a window that OpenGL can draw on, with
/// eight bits for each colour and for the transparency.
pub open spec fn config_attributes() -> Seq<i32> {
    seq![
        SURFACE_TYPE,
        WINDOW_BIT,
        RENDERABLE_TYPE,
        OPENGL_BIT,
        RED_SIZE,
        8i32,
        GREEN_SIZE,
        8i32,
        BLUE_SIZE,
        8i32,
        ALPHA_SIZE,
        8i32,
        NONE,
    ]
}

/// The attributes of a context of the given version.
pub open spec fn context_attributes(version: (i32, i32)) -> Seq<i32> {
    seq![CONTEXT_MAJOR_VERSION, version.0, CONTEXT_MINOR_VERSION, version.1, NONE]
}

/// The size of the surface that the video is drawn on, in pixels.
#[derive(Debug, Clone, Copy, PartialEq, Eq, Structural)]
pub struct EglState {
    pub width: i32,
    pub height: i32,
}

/// A step of loading EGL.
#[derive(Debug, Clone, Copy, PartialEq, Eq, Structural)]
pub enum LoadStep {
    /// Open the library `LIBRARY`.
    OpenLibrary,
    /// Look up the functions of EGL in it.
    ResolveFunctions,
    /// EGL can be called.
    Loaded,
}

/// What follows a step of loading EGL: the next step, or the text of the error.
pub open spec fn load_next(step: LoadStep, outcome: Result<(), Seq<char>>) -> Result<
    LoadStep,
    Seq<char>,
> {
    match (step, outcome) {
        (LoadStep::OpenLibrary, Ok(_)) => Ok(LoadStep::ResolveFunctions),
        (LoadStep::OpenLibrary, Err(cause)) => Err("failed to load libEGL.so.1: "@ + cause),
        (LoadStep::ResolveFunctions, Ok(_)) => Ok(LoadStep::Loaded),
        (LoadStep::ResolveFunctions, Err(cause)) => Err("failed to load EGL functions: "@ + cause),
        (LoadStep::Loaded, _) => Ok(LoadStep::Loaded),
    }
}

/// A step of setting the display up.
#[derive(Debug, Clone, Copy, PartialEq, Eq, Structural)]
pub enum DisplayStep {
    /// Ask for the display.
    GetDisplay,
    /// Initialize it.
    Initialize,
    /// Bind the API `OPENGL_API`.
    BindApi,
    /// Choose the first configuration with the attributes of `config_attribs`.
    ChooseConfig,
    /// Create a context with the attributes of `context_attribs(attempt)`.
    CreateContext { attempt: usize },
    /// Make the context current, without a surface.
    MakeCurrent,
    /// Look up the functions of OpenGL, each at `mpv_get_proc_address`.
    LoadFunctions,
    /// The display is set up.
    Ready,
}

/// A step of making the surface.
#[derive(Debug, Clone, Copy, PartialEq, Eq, Structural)]
pub enum SurfaceStep {
    /// Make the native window.
    CreateWindow,
    /// Make the surface on it.
    CreateWindowSurface,
    /// Make the context current, with the surface to draw on and to read from.
    MakeCurrent,
    /// Set the swap interval to `SWAP_INTERVAL`.
    SetSwapInterval,
    /// Draw to the back buffer, and clear to a transparent black, by the steps of
    /// `prepare_steps`.
    PrepareDrawing,
    /// The surface can be drawn on.
    Ready,
}

/// What a call into EGL came back with: `Ok(true)` where it succeeded, `Ok(false)`
/// where it had nothing to give, or the error code.
pub type EglOutcome = Result<bool, khronos_egl::Error>;

/// What follows a step of setting the display up: the next step, or the text of
/// the error.
///
/// A context is asked for in each of the versions until one is granted. Any other
/// failure is final.
pub open spec fn display_next(step: DisplayStep, outcome: EglOutcome) -> Result<
    DisplayStep,
    Seq<char>,
> {
    match (step, outcome) {
        (DisplayStep::Ready, _) => Ok(DisplayStep::Ready),
        (DisplayStep::LoadFunctions, _) => Ok(DisplayStep::Ready),
        (DisplayStep::CreateContext { .. }, Ok(_)) => Ok(DisplayStep::MakeCurrent),
        (DisplayStep::CreateContext { attempt }, Err(_)) => if attempt + 1 < VERSION_COUNT {
            Ok(DisplayStep::CreateContext { attempt: (attempt + 1) as usize })
        } else {
            Err("failed to create OpenGL context (tried 4.6 down to 3.0)"@)
        },
        (_, Err(e)) => Err(crate::error::egl_error_name(e)),
        (DisplayStep::GetDisplay, Ok(found)) => if found {
            Ok(DisplayStep::Initialize)
        } else {
            Err("eglGetDisplay returned EGL_NO_DISPLAY"@)
        },
        (DisplayStep::Initialize, Ok(_)) => Ok(DisplayStep::BindApi),
        (DisplayStep::BindApi, Ok(_)) => Ok(DisplayStep::ChooseConfig),
        (DisplayStep::ChooseConfig, Ok(found)) => if found {
            Ok(DisplayStep::CreateContext { attempt: 0 })
        } else {
            Err("no suitable EGL config found"@)
        },
        (DisplayStep::MakeCurrent, Ok(_)) => Ok(DisplayStep::LoadFunctions),
    }
}

/// What follows a step of making the surface: the next step, or the text of the
/// error.
pub open spec fn surface_next(step: SurfaceStep, outcome: EglOutcome) -> Result<
    SurfaceStep,
    Seq<char>,
> {
    match (step, outcome) {
        (SurfaceStep::Ready, _) => Ok(SurfaceStep::Ready),
        (SurfaceStep::PrepareDrawing, _) => Ok(SurfaceStep::Ready),
        (SurfaceStep::CreateWindow, Ok(true)) => Ok(SurfaceStep::CreateWindowSurface),
        (SurfaceStep::CreateWindow, _) => Err("failed to create wl_egl_window"@),
        (_, Err(e)) => Err(crate::error::egl_error_name(e)),
        (SurfaceStep::CreateWindowSurface, Ok(_)) => Ok(SurfaceStep::MakeCurrent),
        (SurfaceStep::MakeCurrent, Ok(_)) => Ok(SurfaceStep::SetSwapInterval),
        (SurfaceStep::SetSwapInterval, Ok(_)) => Ok(SurfaceStep::PrepareDrawing),
    }
}

/// Whether `result` is the step that was expected, or the EGL error with the text
/// that was expected.
pub open spec fn answers<T>(result: Result<T, MuraleError>, expected: Result<T, Seq<char>>) -> bool {
    match (result, expected) {
        (Ok(step), Ok(next)) => step == next,
        (Err(error), Err(text)) => error.is_egl(text),
        _ => false,
    }
}

/// The EGL error with the given text.
fn egl_error(text: &str) -> (error: MuraleError)
    ensures
        error.is_egl(text@),
{
    MuraleError::Egl(text.to_owned())
}

/// The OpenGL version of an attempt.
pub fn gl_version(attempt: usize) -> (version: (i32, i32))
    requires
        attempt < VERSION_COUNT,
    ensures
        version == gl_versions()[attempt as int],
{
    let versions: [(i32, i32); 11] = [
        (4, 6),
        (4, 5),
        (4, 4),
        (4, 3),
        (4, 2),
        (4, 1),
        (4, 0),
        (3, 3),
        (3, 2),
        (3, 1),
        (3, 0),
    ];
    versions[attempt]
}

/// The attributes of the configuration to choose.
pub fn config_attribs() -> (attributes: Vec<i32>)
    ensures
        attributes@ == config_attributes(),
{
    vec![
        SURFACE_TYPE,
        WINDOW_BIT,
        RENDERABLE_TYPE,
        OPENGL_BIT,
        RED_SIZE,
        8,
        GREEN_SIZE,
        8,
        BLUE_SIZE,
        8,
        ALPHA_SIZE,
        8,
        NONE,
    ]
}

/// The attributes of the context to create in an attempt.
pub fn context_attribs(attempt: usize) -> (attributes: Vec<i32>)
    requires
        attempt < VERSION_COUNT,
    ensures
        attributes@ == context_attributes(gl_versions()[attempt as int]),
{
    let (major, minor) = gl_version(attempt);
    vec![CONTEXT_MAJOR_VERSION, major, CONTEXT_MINOR_VERSION, minor, NONE]
}

/// Goes on with loading EGL after `step` was tried.
pub fn load_egl(step: LoadStep, outcome: Result<(), String>) -> (next: Result<
    LoadStep,
    MuraleError,
>)
    ensures
        answers(
            next,
            load_next(
                step,
                match outcome {
                    Ok(_) => Ok(()),
                    Err(cause) => Err(cause@),
                },
            ),
        ),
{
    match step {
        LoadStep::OpenLibrary => match outcome {
            Ok(()) => Ok(LoadStep::ResolveFunctions),
            Err(cause) => Err(
                MuraleError::Egl(join("failed to load libEGL.so.1: ", cause.as_str())),
            ),
        },
        LoadStep::ResolveFunctions => match outcome {
            Ok(()) => Ok(LoadStep::Loaded),
            Err(cause) => Err(
                MuraleError::Egl(join("failed to load EGL functions: ", cause.as_str())),
            ),
        },
        LoadStep::Loaded => Ok(LoadStep::Loaded),
    }
}

/// Goes on with setting the display up after `step` was tried.
pub fn init_display(step: DisplayStep, outcome: EglOutcome) -> (next: Result<
    DisplayStep,
    MuraleError,
>)
    ensures
        answers(next, display_next(step, outcome)),
        next matches Ok(DisplayStep::CreateContext { attempt }) ==> attempt < VERSION_COUNT,
{
    let found: bool = match outcome {
        Ok(found) => found,
        Err(e) => {
            return match step {
                DisplayStep::Ready | DisplayStep::LoadFunctions => Ok(DisplayStep::Ready),
                DisplayStep::CreateContext { attempt } => if attempt < VERSION_COUNT - 1 {
                    Ok(DisplayStep::CreateContext { attempt: attempt + 1 })
                } else {
                    Err(egl_error("failed to create OpenGL context (tried 4.6 down to 3.0)"))
                },
                _ => Err(MuraleError::from(e)),
            };
        },
    };
    match step {
        DisplayStep::GetDisplay => if found {
            Ok(DisplayStep::Initialize)
        } else {
            Err(egl_error("eglGetDisplay returned EGL_NO_DISPLAY"))
        },
        DisplayStep::Initialize => Ok(DisplayStep::BindApi),
        DisplayStep::BindApi => Ok(DisplayStep::ChooseConfig),
        DisplayStep::ChooseConfig => if found {
            Ok(DisplayStep::CreateContext { attempt: 0 })
        } else {
            Err(egl_error("no suitable EGL config found"))
        },
        DisplayStep::CreateContext { .. } => Ok(DisplayStep::MakeCurrent),
        DisplayStep::MakeCurrent => Ok(DisplayStep::LoadFunctions),
        DisplayStep::LoadFunctions => Ok(DisplayStep::Ready),
        DisplayStep::Ready => Ok(DisplayStep::Ready),
    }
}

/// Goes on with making the surface after `step` was tried.
pub fn create_surface(step: SurfaceStep, outcome: EglOutcome) -> (next: Result<
    SurfaceStep,
    MuraleError,
>)
    ensures
        answers(next, surface_next(step, outcome)),
{
    match step {
        SurfaceStep::Ready | SurfaceStep::PrepareDrawing => Ok(SurfaceStep::Ready),
        SurfaceStep::CreateWindow => match outcome {
            Ok(true) => Ok(SurfaceStep::CreateWindowSurface),
            _ => Err(egl_error("failed to create wl_egl_window")),
        },
        SurfaceStep::CreateWindowSurface => match outcome {
            Ok(_) => Ok(SurfaceStep::MakeCurrent),
            Err(e) => Err(MuraleError::from(e)),
        },
        SurfaceStep::MakeCurrent => match outcome {
            Ok(_) => Ok(SurfaceStep::SetSwapInterval),
            Err(e) => Err(MuraleError::from(e)),
        },
        SurfaceStep::SetSwapInterval => match outcome {
            Ok(_) => Ok(SurfaceStep::PrepareDrawing),
            Err(e) => Err(MuraleError::from(e)),
        },
    }
}

/// A call on the way to the display: into EGL, but for the last two.
#[derive(Debug, PartialEq, Eq)]
pub enum DisplayCall<N, D, C, X, S> {
    /// `eglGetDisplay`
    GetDisplay { native: N },
    /// `eglInitialize`
    Initialize { display: D },
    /// `eglBindAPI`
    BindApi { api: u32 },
    /// `eglChooseConfig`, for the first configuration with the attributes of
    /// `config_attribs`.
    ChooseFirstConfig { display: D },
    /// `eglCreateContext`, with the attributes of `context_attribs(attempt)`.
    CreateContext { display: D, config: C, share: Option<X>, attempt: usize },
    /// `eglMakeCurrent`
    MakeCurrent { display: D, draw: Option<S>, read: Option<S>, context: X },
    /// Look up the functions of OpenGL, each at `mpv_get_proc_address`.
    LoadFunctions,
    /// There is nothing left to call: this is what the set-up was for.
    Finished { display: D, config: C, context: X },
}

/// What a call on the way to the display came back with.
#[derive(Debug, PartialEq, Eq)]
pub enum DisplayReply<D, C, X> {
    /// It was done.
    Done,
    /// The display, or none.
    Display(Option<D>),
    /// The first configuration, or none.
    Config(Option<C>),
    /// A context.
    Context(X),
    /// It failed.
    Failed(khronos_egl::Error),
}

impl<D, C, X> DisplayReply<D, C, X> {
    /// What the reply means to the order of the steps.
    pub open spec fn outcome(self) -> EglOutcome {
        match self {
            DisplayReply::Failed(e) => Err(e),
            DisplayReply::Display(display) => Ok(display is Some),
            DisplayReply::Config(config) => Ok(config is Some),
            _ => Ok(true),
        }
    }

    /// Whether a step can go that way.
    pub open spec fn fits(self, step: DisplayStep) -> bool {
        match step {
            DisplayStep::GetDisplay => self is Display,
            DisplayStep::Initialize | DisplayStep::BindApi | DisplayStep::MakeCurrent => self is Done
                || self is Failed,
            DisplayStep::ChooseConfig => self is Config || self is Failed,
            DisplayStep::CreateContext { .. } => self is Context || self is Failed,
            DisplayStep::LoadFunctions => self is Done,
            DisplayStep::Ready => false,
        }
    }
}

/// The set-up of the display, as far as it has come, with all that the driver has
/// handed out.
#[derive(Debug, PartialEq, Eq)]
pub struct DisplaySetup<N, D, C, X> {
    pub step: DisplayStep,
    /// The compositor's display.
    pub native: N,
    pub display: Option<D>,
    pub config: Option<C>,
    pub context: Option<X>,
}

impl<N: Copy, D: Copy, C: Copy, X: Copy> DisplaySetup<N, D, C, X> {
    /// The set-up at its start.
    pub open spec fn fresh(native: N) -> DisplaySetup<N, D, C, X> {
        DisplaySetup {
            step: DisplayStep::GetDisplay,
            native,
            display: None,
            config: None,
            context: None,
        }
    }

    /// Whether all is there that the steps so far have to have given.
    pub open spec fn wf(self) -> bool {
        &&& !(self.step is GetDisplay) ==> self.display is Some
        &&& self.step is CreateContext || self.step is MakeCurrent || self.step is LoadFunctions
            || self.step is Ready ==> self.config is Some
        &&& self.step is MakeCurrent || self.step is LoadFunctions || self.step is Ready
            ==> self.context is Some
        &&& self.step matches DisplayStep::CreateContext { attempt } ==> attempt < VERSION_COUNT
    }

    /// The call to make now. Contexts are not shared, and the new one becomes current
    /// without a surface to draw on or to read from.
    pub open spec fn pending<S>(self) -> DisplayCall<N, D, C, X, S> {
        match self.step {
            DisplayStep::GetDisplay => DisplayCall::GetDisplay { native: self.native },
            DisplayStep::Initialize => DisplayCall::Initialize { display: self.display->0 },
            DisplayStep::BindApi => DisplayCall::BindApi { api: OPENGL_API },
            DisplayStep::ChooseConfig => DisplayCall::ChooseFirstConfig {
                display: self.display->0,
            },
            DisplayStep::CreateContext { attempt } => DisplayCall::CreateContext {
                display: self.display->0,
                config: self.config->0,
                share: None,
                attempt,
            },
            DisplayStep::MakeCurrent => DisplayCall::MakeCurrent {
                display: self.display->0,
                draw: None,
                read: None,
                context: self.context->0,
            },
            DisplayStep::LoadFunctions => DisplayCall::LoadFunctions,
            DisplayStep::Ready => DisplayCall::Finished {
                display: self.display->0,
                config: self.config->0,
                context: self.context->0,
            },
        }
    }

    /// The set-up after a reply, or the text of the error.
    pub open spec fn next(self, reply: DisplayReply<D, C, X>) -> Result<
        DisplaySetup<N, D, C, X>,
        Seq<char>,
    > {
        match display_next(self.step, reply.outcome()) {
            Ok(step) => Ok(
                DisplaySetup {
                    step,
                    native: self.native,
                    display: if reply is Display {
                        reply->Display_0
                    } else {
                        self.display
                    },
                    config: if reply is Config {
                        reply->Config_0
                    } else {
                        self.config
                    },
                    context: if reply is Context {
                        Some(reply->Context_0)
                    } else {
                        self.context
                    },
                },
            ),
            Err(text) => Err(text),
        }
    }

    /// The set-up after all of the replies, or the text of the error.
    pub open spec fn after(self, replies: Seq<DisplayReply<D, C, X>>) -> Result<
        DisplaySetup<N, D, C, X>,
        Seq<char>,
    >
        decreases replies.len(),
    {
        if replies.len() == 0 {
            Ok(self)
        } else {
            match self.next(replies[0]) {
                Ok(setup) => setup.after(replies.skip(1)),
                Err(text) => Err(text),
            }
        }
    }

    /// The set-up of the compositor's display.
    pub fn new(native: N) -> (setup: DisplaySetup<N, D, C, X>)
        ensures
            setup.wf(),
            setup == DisplaySetup::<N, D, C, X>::fresh(native),
    {
        DisplaySetup {
            step: DisplayStep::GetDisplay,
            native,
            display: None,
            config: None,
            context: None,
        }
    }

    /// The call to make now.
    pub fn call<S>(&self) -> (call: DisplayCall<N, D, C, X, S>)
        requires
            self.wf(),
        ensures
            call == self.pending::<S>(),
    {
        match self.step {
            DisplayStep::GetDisplay => DisplayCall::GetDisplay { native: self.native },
            DisplayStep::Initialize => DisplayCall::Initialize { display: self.display.unwrap() },
            DisplayStep::BindApi => DisplayCall::BindApi { api: OPENGL_API },
            DisplayStep::ChooseConfig => DisplayCall::ChooseFirstConfig {
                display: self.display.unwrap(),
            },
            DisplayStep::CreateContext { attempt } => DisplayCall::CreateContext {
                display: self.display.unwrap(),
                config: self.config.unwrap(),
                share: None,
                attempt,
            },
            DisplayStep::MakeCurrent => DisplayCall::MakeCurrent {
                display: self.display.unwrap(),
                draw: None,
                read: None,
                context: self.context.unwrap(),
            },
            DisplayStep::LoadFunctions => DisplayCall::LoadFunctions,
            DisplayStep::Ready => DisplayCall::Finished {
                display: self.display.unwrap(),
                config: self.config.unwrap(),
                context: self.context.unwrap(),
            },
        }
    }

    /// Whether the pending call can have come back with that.
    pub fn takes(&self, reply: &DisplayReply<D, C, X>) -> (yes: bool)
        ensures
            yes == reply.fits(self.step),
    {
        match self.step {
            DisplayStep::GetDisplay => matches!(reply, DisplayReply::Display(_)),
            DisplayStep::Initialize | DisplayStep::BindApi | DisplayStep::MakeCurrent => matches!(
                reply,
                DisplayReply::Done | DisplayReply::Failed(_)
            ),
            DisplayStep::ChooseConfig => matches!(
                reply,
                DisplayReply::Config(_) | DisplayReply::Failed(_)
            ),
            DisplayStep::CreateContext { .. } => matches!(
                reply,
                DisplayReply::Context(_) | DisplayReply::Failed(_)
            ),
            DisplayStep::LoadFunctions => matches!(reply, DisplayReply::Done),
            DisplayStep::Ready => false,
        }
    }

    /// Goes on after the pending call. What the driver handed out is kept.
    pub fn advance(&mut self, reply: DisplayReply<D, C, X>) -> (result: Result<(), MuraleError>)
        requires
            old(self).wf(),
            reply.fits(old(self).step),
        ensures
            final(self).wf(),
            match (result, old(self).next(reply)) {
                (Ok(_), Ok(expected)) => *final(self) == expected,
                (Err(error), Err(text)) => error.is_egl(text) && *final(self) == *old(self),
                _ => false,
            },
    {
        let outcome: EglOutcome = match reply {
            DisplayReply::Failed(e) => Err(e),
            DisplayReply::Display(display) => Ok(display.is_some()),
            DisplayReply::Config(config) => Ok(config.is_some()),
            DisplayReply::Done | DisplayReply::Context(_) => Ok(true),
        };
        match init_display(self.step, outcome) {
            Ok(step) => {
                self.step = step;
                match reply {
                    DisplayReply::Display(display) => {
                        self.display = display;
                    },
                    DisplayReply::Config(config) => {
                        self.config = config;
                    },
                    DisplayReply::Context(context) => {
                        self.context = Some(context);
                    },
                    DisplayReply::Done | DisplayReply::Failed(_) => {},
                }
                Ok(())
            },
            Err(error) => Err(error),
        }
    }
}

/// The address of an OpenGL function: where the driver has it, or null where the
/// driver does not know it.
pub fn mpv_get_proc_address(found: Option<usize>) -> (address: usize)
    ensures
        address == match found {
            Some(known) => known,
            None => 0,
        },
{
    match found {
        Some(known) => known,
        None => 0,
    }
}

/// A call on the way to the surface: into EGL, but for the first and the last two.
#[derive(Debug, PartialEq, Eq)]
pub enum SurfaceCall<L, D, C, X, W, S> {
    /// Make a native window of this size, in pixels, on the layer surface's own
    /// surface.
    CreateWindow { on: L, width: i32, height: i32 },
    /// `eglCreateWindowSurface`, without attributes.
    CreateWindowSurface { display: D, config: C, window: W },
    /// `eglMakeCurrent`
    MakeCurrent { display: D, draw: Option<S>, read: Option<S>, context: X },
    /// `eglSwapInterval`
    SetSwapInterval { display: D, interval: i32 },
    /// Prepare the drawing, by the steps of `prepare_steps`.
    PrepareDrawing,
    /// There is nothing left to call: this is what the set-up was for.
    Finished { window: W, surface: S },
}

/// What a call on the way to the surface came back with.
#[derive(Debug, PartialEq, Eq)]
pub enum SurfaceReply<W, S> {
    /// It was done.
    Done,
    /// The native window, or none.
    Window(Option<W>),
    /// A surface.
    Surface(S),
    /// It failed.
    Failed(khronos_egl::Error),
}

impl<W, S> SurfaceReply<W, S> {
    /// What the reply means to the order of the steps.
    pub open spec fn outcome(self) -> EglOutcome {
        match self {
            SurfaceReply::Failed(e) => Err(e),
            SurfaceReply::Window(window) => Ok(window is Some),
            _ => Ok(true),
        }
    }

    /// Whether a step can go that way.
    pub open spec fn fits(self, step: SurfaceStep) -> bool {
        match step {
            SurfaceStep::CreateWindow => self is Window,
            SurfaceStep::CreateWindowSurface => self is Surface || self is Failed,
            SurfaceStep::MakeCurrent | SurfaceStep::SetSwapInterval => self is Done
                || self is Failed,
            SurfaceStep::PrepareDrawing => self is Done,
            SurfaceStep::Ready => false,
        }
    }
}

/// The set-up of the surface, as far as it has come.
#[derive(Debug, PartialEq, Eq)]
pub struct SurfaceSetup<L, D, C, X, W, S> {
    pub step: SurfaceStep,
    /// The layer surface's own surface.
    pub on: L,
    pub display: D,
    pub config: C,
    pub context: X,
    /// The size of the window, in pixels.
    pub size: EglState,
    pub window: Option<W>,
    pub surface: Option<S>,
}

impl<L: Copy, D: Copy, C: Copy, X: Copy, W: Copy, S: Copy> SurfaceSetup<L, D, C, X, W, S> {
    /// Whether all is there that the steps so far have to have given.
    pub open spec fn wf(self) -> bool {
        &&& !(self.step is CreateWindow) ==> self.window is Some
        &&& !(self.step is CreateWindow || self.step is CreateWindowSurface) ==> self.surface is Some
    }

    /// The call to make now. The one surface is drawn on and read from.
    pub open spec fn pending(self) -> SurfaceCall<L, D, C, X, W, S> {
        match self.step {
            SurfaceStep::CreateWindow => SurfaceCall::CreateWindow {
                on: self.on,
                width: self.size.width,
                height: self.size.height,
            },
            SurfaceStep::CreateWindowSurface => SurfaceCall::CreateWindowSurface {
                display: self.display,
                config: self.config,
                window: self.window->0,
            },
            SurfaceStep::MakeCurrent => SurfaceCall::MakeCurrent {
                display: self.display,
                draw: self.surface,
                read: self.surface,
                context: self.context,
            },
            SurfaceStep::SetSwapInterval => SurfaceCall::SetSwapInterval {
                display: self.display,
                interval: SWAP_INTERVAL,
            },
            SurfaceStep::PrepareDrawing => SurfaceCall::PrepareDrawing,
            SurfaceStep::Ready => SurfaceCall::Finished {
                window: self.window->0,
                surface: self.surface->0,
            },
        }
    }

    /// The set-up after a reply, or the text of the error.
    pub open spec fn next(self, reply: SurfaceReply<W, S>) -> Result<
        SurfaceSetup<L, D, C, X, W, S>,
        Seq<char>,
    > {
        match surface_next(self.step, reply.outcome()) {
            Ok(step) => Ok(
                SurfaceSetup {
                    step,
                    window: if reply is Window {
                        reply->Window_0
                    } else {
                        self.window
                    },
                    surface: if reply is Surface {
                        Some(reply->Surface_0)
                    } else {
                        self.surface
                    },
                    ..self
                },
            ),
            Err(text) => Err(text),
        }
    }

    /// The set-up after all of the replies, or the text of the error.
    pub open spec fn after(self, replies: Seq<SurfaceReply<W, S>>) -> Result<
        SurfaceSetup<L, D, C, X, W, S>,
        Seq<char>,
    >
        decreases replies.len(),
    {
        if replies.len() == 0 {
            Ok(self)
        } else {
            match self.next(replies[0]) {
                Ok(setup) => setup.after(replies.skip(1)),
                Err(text) => Err(text),
            }
        }
    }

    /// The set-up of a surface with a size in pixels, on the layer surface's own
    /// surface.
    pub fn new(on: L, display: D, config: C, context: X, width: i32, height: i32) -> (setup:
        SurfaceSetup<L, D, C, X, W, S>)
        ensures
            setup.wf(),
            setup == (SurfaceSetup::<L, D, C, X, W, S> {
                step: SurfaceStep::CreateWindow,
                on,
                display,
                config,
                context,
                size: EglState { width, height },
                window: None,
                surface: None,
            }),
    {
        SurfaceSetup {
            step: SurfaceStep::CreateWindow,
            on,
            display,
            config,
            context,
            size: EglState { width, height },
            window: None,
            surface: None,
        }
    }

    /// The call to make now.
    pub fn call(&self) -> (call: SurfaceCall<L, D, C, X, W, S>)
        requires
            self.wf(),
        ensures
            call == self.pending(),
    {
        match self.step {
            SurfaceStep::CreateWindow => SurfaceCall::CreateWindow {
                on: self.on,
                width: self.size.width,
                height: self.size.height,
            },
            SurfaceStep::CreateWindowSurface => SurfaceCall::CreateWindowSurface {
                display: self.display,
                config: self.config,
                window: self.window.unwrap(),
            },
            SurfaceStep::MakeCurrent => SurfaceCall::MakeCurrent {
                display: self.display,
                draw: self.surface,
                read: self.surface,
                context: self.context,
            },
            SurfaceStep::SetSwapInterval => SurfaceCall::SetSwapInterval {
                display: self.display,
                interval: SWAP_INTERVAL,
            },
            SurfaceStep::PrepareDrawing => SurfaceCall::PrepareDrawing,
            SurfaceStep::Ready => SurfaceCall::Finished {
                window: self.window.unwrap(),
                surface: self.surface.unwrap(),
            },
        }
    }

    /// Whether the pending call can have come back with that.
    pub fn takes(&self, reply: &SurfaceReply<W, S>) -> (yes: bool)
        ensures
            yes == reply.fits(self.step),
    {
        match self.step {
            SurfaceStep::CreateWindow => matches!(reply, SurfaceReply::Window(_)),
            SurfaceStep::CreateWindowSurface => matches!(
                reply,
                SurfaceReply::Surface(_) | SurfaceReply::Failed(_)
            ),
            SurfaceStep::MakeCurrent | SurfaceStep::SetSwapInterval => matches!(
                reply,
                SurfaceReply::Done | SurfaceReply::Failed(_)
            ),
            SurfaceStep::PrepareDrawing => matches!(reply, SurfaceReply::Done),
            SurfaceStep::Ready => false,
        }
    }

    /// Goes on after the pending call. What it handed out is kept.
    pub fn advance(&mut self, reply: SurfaceReply<W, S>) -> (result: Result<(), MuraleError>)
        requires
            old(self).wf(),
            reply.fits(old(self).step),
        ensures
            final(self).wf(),
            match (result, old(self).next(reply)) {
                (Ok(_), Ok(expected)) => *final(self) == expected,
                (Err(error), Err(text)) => error.is_egl(text) && *final(self) == *old(self),
                _ => false,
            },
    {
        let outcome: EglOutcome = match reply {
            SurfaceReply::Failed(e) => Err(e),
            SurfaceReply::Window(window) => Ok(window.is_some()),
            SurfaceReply::Done | SurfaceReply::Surface(_) => Ok(true),
        };
        match create_surface(self.step, outcome) {
            Ok(step) => {
                self.step = step;
                match reply {
                    SurfaceReply::Window(window) => {
                        self.window = window;
                    },
                    SurfaceReply::Surface(surface) => {
                        self.surface = Some(surface);
                    },
                    SurfaceReply::Done | SurfaceReply::Failed(_) => {},
                }
                Ok(())
            },
            Err(error) => Err(error),
        }
    }
}

/// Something to do before the first frame is drawn.
#[derive(Debug, Clone, Copy, PartialEq, Eq, Structural)]
pub enum PrepareStep {
    /// Choose the back buffer to draw to.
    SelectBackBuffer,
    /// Set the colour to clear to. The components are whole here.
    SetClearColor { red: u8, green: u8, blue: u8, alpha: u8 },
}

/// How the drawing is prepared: the back buffer is chosen first, and it is cleared
/// to a transparent black.
pub fn prepare_steps() -> (steps: Vec<PrepareStep>)
    ensures
        steps@ == seq![
            PrepareStep::SelectBackBuffer,
            PrepareStep::SetClearColor { red: 0, green: 0, blue: 0, alpha: 0 },
        ],
{
    vec![
        PrepareStep::SelectBackBuffer,
        PrepareStep::SetClearColor { red: 0, green: 0, blue: 0, alpha: 0 },
    ]
}

/// A call that gives the surface back to EGL. Whether it succeeds does not matter.
#[derive(Debug, PartialEq, Eq)]
pub enum DropCall<D, X, S> {
    /// `eglMakeCurrent`
    MakeCurrent { display: D, draw: Option<S>, read: Option<S>, context: Option<X> },
    /// `eglDestroySurface`
    DestroySurface { display: D, surface: S },
}

/// How the surface is given back: it is destroyed once nothing is current any more.
pub fn drop_calls<D: Copy, X, S>(display: D, surface: S) -> (calls: Vec<DropCall<D, X, S>>)
    ensures
        calls@ == seq![
            DropCall::MakeCurrent { display, draw: None, read: None, context: None::<X> },
            DropCall::DestroySurface { display, surface },
        ],
{
    vec![
        DropCall::MakeCurrent { display, draw: None, read: None, context: None },
        DropCall::DestroySurface { display, surface },
    ]
}

/// Asks for contexts from `attempt` on, where `refusal` says of each attempt
/// whether the driver refuses it, and how. The result is the attempt that was
/// granted, or the text of the error.
pub open spec fn negotiate(
    refusal: spec_fn(usize) -> Option<khronos_egl::Error>,
    attempt: usize,
) -> Result<usize, Seq<char>>
    decreases VERSION_COUNT - attempt,
{
    let outcome: EglOutcome = match refusal(attempt) {
        Some(e) => Err(e),
        None => Ok(true),
    };
    match display_next(DisplayStep::CreateContext { attempt }, outcome) {
        Ok(DisplayStep::CreateContext { attempt: next }) => if attempt < next < VERSION_COUNT {
            negotiate(refusal, next)
        } else {
            Ok(next)
        },
        Ok(_) => Ok(attempt),
        Err(text) => Err(text),
    }
}

/// How many steps are left at most until the display is set up.
pub open spec fn steps_left(step: DisplayStep) -> int {
    match step {
        DisplayStep::GetDisplay => VERSION_COUNT + 6,
        DisplayStep::Initialize => VERSION_COUNT + 5,
        DisplayStep::BindApi => VERSION_COUNT + 4,
        DisplayStep::ChooseConfig => VERSION_COUNT + 3,
        DisplayStep::CreateContext { attempt } => VERSION_COUNT - attempt + 2,
        DisplayStep::MakeCurrent => 2,
        DisplayStep::LoadFunctions => 1,
        DisplayStep::Ready => 0,
    }
}

/// Newer versions are tried before older ones.
pub proof fn versions_descend(i: int, j: int)
    requires
        0 <= i < j < gl_versions().len(),
    ensures
        gl_versions().len() == VERSION_COUNT,
        gl_versions()[i].0 > gl_versions()[j].0 || (gl_versions()[i].0 == gl_versions()[j].0
            && gl_versions()[i].1 > gl_versions()[j].1),
{
}

/// The newest version that the driver grants is used; the set-up fails exactly if
/// the driver refuses them all.
pub proof fn newest_granted_version_is_used(refusal: spec_fn(usize) -> Option<khronos_egl::Error>)
    ensures
        forall|attempt: usize|
            negotiate(refusal, 0) == Ok::<usize, Seq<char>>(attempt) <==> attempt < VERSION_COUNT
                && refusal(attempt) is None && forall|earlier: usize|
                earlier < attempt ==> #[trigger] refusal(earlier) is Some,
        negotiate(refusal, 0) is Err <==> forall|attempt: usize|
            attempt < VERSION_COUNT ==> #[trigger] refusal(attempt) is Some,
        negotiate(refusal, 0) matches Err(text) ==> text
            == "failed to create OpenGL context (tried 4.6 down to 3.0)"@,
{
    lemma_negotiate(refusal, 0);
    let result = negotiate(refusal, 0);
    assert forall|attempt: usize|
        attempt < VERSION_COUNT && refusal(attempt) is None && (forall|earlier: usize|
            earlier < attempt ==> #[trigger] refusal(earlier) is Some) implies result == Ok::<
        usize,
        Seq<char>,
    >(attempt) by {
        if result is Ok {
            let granted = result->Ok_0;
            assert(!(granted < attempt));
            assert(!(attempt < granted));
        }
    }
}

proof fn lemma_negotiate(refusal: spec_fn(usize) -> Option<khronos_egl::Error>, attempt: usize)
    requires
        attempt < VERSION_COUNT,
    ensures
        match negotiate(refusal, attempt) {
            Ok(granted) => {
                &&& attempt <= granted < VERSION_COUNT
                &&& refusal(granted) is None
                &&& forall|earlier: usize|
                    attempt <= earlier < granted ==> #[trigger] refusal(earlier) is Some
            },
            Err(text) => {
                &&& text == "failed to create OpenGL context (tried 4.6 down to 3.0)"@
                &&& forall|any: usize|
                    attempt <= any < VERSION_COUNT ==> #[trigger] refusal(any) is Some
            },
        },
    decreases VERSION_COUNT - attempt,
{
    if refusal(attempt) is Some && attempt + 1 < VERSION_COUNT {
        lemma_negotiate(refusal, (attempt + 1) as usize);
    }
}

/// Setting the display up comes to an end: each step brings it nearer, whatever
/// the driver answers.
pub proof fn display_setup_ends(step: DisplayStep, outcome: EglOutcome)
    requires
        step !is Ready,
        step matches DisplayStep::CreateContext { attempt } ==> attempt < VERSION_COUNT,
    ensures
        0 < steps_left(step),
        display_next(step, outcome) matches Ok(next) ==> 0 <= steps_left(next) < steps_left(step),
{
}

/// What the driver answers when it refuses a context for each of `refusals` and
/// grants the next.
pub open spec fn granting<D, C, X>(
    display: D,
    config: C,
    refusals: Seq<khronos_egl::Error>,
    context: X,
) -> Seq<DisplayReply<D, C, X>> {
    seq![
        DisplayReply::Display(Some(display)),
        DisplayReply::Done,
        DisplayReply::Done,
        DisplayReply::Config(Some(config)),
    ] + refusals.map_values(|e: khronos_egl::Error| DisplayReply::<D, C, X>::Failed(e)) + seq![
        DisplayReply::Context(context),
        DisplayReply::Done,
        DisplayReply::Done,
    ]
}

/// A set-up that succeeds hands out the display that EGL gave for the compositor's,
/// the configuration that was chosen on it, and the first context that was granted.
pub proof fn the_display_setup_hands_out_what_it_was_given<N: Copy, D: Copy, C: Copy, X: Copy>(
    native: N,
    display: D,
    config: C,
    refusals: Seq<khronos_egl::Error>,
    context: X,
)
    requires
        refusals.len() < VERSION_COUNT,
    ensures
        DisplaySetup::<N, D, C, X>::fresh(native).after(
            granting(display, config, refusals, context),
        ) == Ok::<DisplaySetup<N, D, C, X>, Seq<char>>(
            DisplaySetup {
                step: DisplayStep::Ready,
                native,
                display: Some(display),
                config: Some(config),
                context: Some(context),
            },
        ),
{
    let refused = refusals.map_values(|e: khronos_egl::Error| DisplayReply::<D, C, X>::Failed(e));
    let last = seq![
        DisplayReply::<D, C, X>::Context(context),
        DisplayReply::Done,
        DisplayReply::Done,
    ];
    let replies = granting(display, config, refusals, context);
    reveal_with_fuel(DisplaySetup::after, 5);
    assert(replies.skip(1).skip(1).skip(1).skip(1) == refused + last);
    let asking = DisplaySetup::<N, D, C, X> {
        step: DisplayStep::CreateContext { attempt: 0 },
        native,
        display: Some(display),
        config: Some(config),
        context: None,
    };
    lemma_refusals_are_passed_over(asking, 0, refusals, context);
}

proof fn lemma_refusals_are_passed_over<N: Copy, D: Copy, C: Copy, X: Copy>(
    setup: DisplaySetup<N, D, C, X>,
    attempt: usize,
    refusals: Seq<khronos_egl::Error>,
    context: X,
)
    requires
        setup.step == (DisplayStep::CreateContext { attempt }),
        attempt + refusals.len() < VERSION_COUNT,
    ensures
        setup.after(
            refusals.map_values(|e: khronos_egl::Error| DisplayReply::<D, C, X>::Failed(e)) + seq![
                DisplayReply::Context(context),
                DisplayReply::Done,
                DisplayReply::Done,
            ],
        ) == Ok::<DisplaySetup<N, D, C, X>, Seq<char>>(
            DisplaySetup { step: DisplayStep::Ready, context: Some(context), ..setup },
        ),
    decreases refusals.len(),
{
    let refused = refusals.map_values(|e: khronos_egl::Error| DisplayReply::<D, C, X>::Failed(e));
    let last = seq![
        DisplayReply::<D, C, X>::Context(context),
        DisplayReply::Done,
        DisplayReply::Done,
    ];
    if refusals.len() == 0 {
        assert(refused + last == last);
        reveal_with_fuel(DisplaySetup::after, 4);
    } else {
        let rest = refusals.skip(1);
        let next = DisplaySetup::<N, D, C, X> {
            step: DisplayStep::CreateContext { attempt: (attempt + 1) as usize },
            ..setup
        };
        lemma_refusals_are_passed_over(next, (attempt + 1) as usize, rest, context);
        assert((refused + last).skip(1) == rest.map_values(
            |e: khronos_egl::Error| DisplayReply::<D, C, X>::Failed(e),
        ) + last);
        assert((refused + last)[0] == DisplayReply::<D, C, X>::Failed(refusals[0]));
        assert(setup.next((refused + last)[0]) == Ok::<DisplaySetup<N, D, C, X>, Seq<char>>(next));
    }
}

/// The context becomes current before the functions of OpenGL are looked up: it is
/// the one that was created on the display with the chosen configuration, it shares
/// nothing, and there is no surface with it.
pub proof fn the_context_is_current_before_functions_are_loaded<
    N: Copy,
    D: Copy,
    C: Copy,
    X: Copy,
    S,
>(setup: DisplaySetup<N, D, C, X>, reply: DisplayReply<D, C, X>)
    requires
        setup.wf(),
        reply.fits(setup.step),
        setup.next(reply) matches Ok(next) && next.step is LoadFunctions,
    ensures
        reply is Done,
        setup.pending::<S>() == (DisplayCall::<N, D, C, X, S>::MakeCurrent {
            display: setup.display->0,
            draw: None,
            read: None,
            context: setup.context->0,
        }),
{
}

/// What the driver has handed out stays: a display, a configuration and a context
/// come from the one call each that asks for them.
pub proof fn the_display_setup_keeps_its_handles<N: Copy, D: Copy, C: Copy, X: Copy>(
    setup: DisplaySetup<N, D, C, X>,
    reply: DisplayReply<D, C, X>,
)
    requires
        setup.wf(),
        reply.fits(setup.step),
    ensures
        setup.next(reply) matches Ok(next) ==> {
            &&& next.wf()
            &&& next.native == setup.native
            &&& !(setup.step is GetDisplay) ==> next.display == setup.display
            &&& !(setup.step is ChooseConfig) ==> next.config == setup.config
            &&& !(setup.step is CreateContext) ==> next.context == setup.context
        },
{
}

/// A surface that was made is one on the window that was made, and the same for
/// drawing and for reading.
pub proof fn the_surface_setup_hands_out_what_it_was_given<
    L: Copy,
    D: Copy,
    C: Copy,
    X: Copy,
    W: Copy,
    S: Copy,
>(setup: SurfaceSetup<L, D, C, X, W, S>, window: W, surface: S)
    requires
        setup.step is CreateWindow,
    ensures
        ({
            let windowed = SurfaceSetup {
                step: SurfaceStep::CreateWindowSurface,
                window: Some(window),
                ..setup
            };
            let made = SurfaceSetup {
                step: SurfaceStep::MakeCurrent,
                surface: Some(surface),
                ..windowed
            };
            &&& setup.next(SurfaceReply::Window(Some(window))) == Ok::<
                SurfaceSetup<L, D, C, X, W, S>,
                Seq<char>,
            >(windowed)
            &&& windowed.pending() == (SurfaceCall::<L, D, C, X, W, S>::CreateWindowSurface {
                display: setup.display,
                config: setup.config,
                window,
            })
            &&& windowed.next(SurfaceReply::Surface(surface)) == Ok::<
                SurfaceSetup<L, D, C, X, W, S>,
                Seq<char>,
            >(made)
            &&& made.pending() == (SurfaceCall::<L, D, C, X, W, S>::MakeCurrent {
                display: setup.display,
                draw: Some(surface),
                read: Some(surface),
                context: setup.context,
            })
            &&& made.after(seq![SurfaceReply::Done, SurfaceReply::Done, SurfaceReply::Done]) == Ok::<
                SurfaceSetup<L, D, C, X, W, S>,
                Seq<char>,
            >(SurfaceSetup { step: SurfaceStep::Ready, ..made })
        }),
{
    reveal_with_fuel(SurfaceSetup::after, 4);
}

/// A list of attributes is made of pairs and one terminator at its end: no name
/// in it is the terminator.
pub proof fn attribute_lists_are_terminated(version: (i32, i32))
    ensures
        config_attributes().last() == NONE,
        config_attributes().len() % 2 == 1,
        forall|i: int|
            0 <= i < config_attributes().len() - 1 && i % 2 == 0 ==> #[trigger] config_attributes()[i]
                != NONE,
        context_attributes(version).last() == NONE,
        context_attributes(version).len() % 2 == 1,
        forall|i: int|
            0 <= i < context_attributes(version).len() - 1 && i % 2 == 0
                ==> #[trigger] context_attributes(version)[i] != NONE,
{
}

/// The error code of the driver is what is told, at every step that has no text of its
/// own, whatever the code is.
pub proof fn error_codes_are_passed_on(
    display: DisplayStep,
    surface: SurfaceStep,
    e: khronos_egl::Error,
)
    ensures
        display is GetDisplay || display is Initialize || display is BindApi
            || display is ChooseConfig || display is MakeCurrent ==> display_next(display, Err(e))
            == Err::<DisplayStep, Seq<char>>(crate::error::egl_error_name(e)),
        surface is CreateWindowSurface || surface is MakeCurrent || surface is SetSwapInterval
            ==> surface_next(surface, Err(e)) == Err::<SurfaceStep, Seq<char>>(
            crate::error::egl_error_name(e),
        ),
{
}

/// A context that is refused, for whatever reason, is asked for again in the next
/// version, as long as there is one; and one that is granted is taken.
pub proof fn every_version_gets_its_attempt(attempt: usize, e: khronos_egl::Error, granted: bool)
    requires
        attempt < VERSION_COUNT,
    ensures
        VERSION_COUNT == 11,
        attempt < 10 ==> display_next(DisplayStep::CreateContext { attempt }, Err(e)) == Ok::<
            DisplayStep,
            Seq<char>,
        >(DisplayStep::CreateContext { attempt: (attempt + 1) as usize }),
        attempt == 10 ==> display_next(DisplayStep::CreateContext { attempt }, Err(e)) is Err,
        display_next(DisplayStep::CreateContext { attempt }, Ok(granted)) == Ok::<
            DisplayStep,
            Seq<char>,
        >(DisplayStep::MakeCurrent),
{
}

/// What keeps EGL from being loaded is told in full.
pub proof fn causes_are_told_in_full(cause: Seq<char>)
    ensures
        load_next(LoadStep::OpenLibrary, Err(cause)) == Err::<LoadStep, Seq<char>>(
            load_next(LoadStep::OpenLibrary, Err(Seq::empty()))->Err_0 + cause,
        ),
        load_next(LoadStep::ResolveFunctions, Err(cause)) == Err::<LoadStep, Seq<char>>(
            load_next(LoadStep::ResolveFunctions, Err(Seq::empty()))->Err_0 + cause,
        ),
        load_next(LoadStep::OpenLibrary, Ok(())) == Ok::<LoadStep, Seq<char>>(
            LoadStep::ResolveFunctions,
        ),
        load_next(LoadStep::ResolveFunctions, Ok(())) == Ok::<LoadStep, Seq<char>>(
            LoadStep::Loaded,
        ),
{
    let none = Seq::<char>::empty();
    assert("failed to load libEGL.so.1: "@ + none == "failed to load libEGL.so.1: "@);
    assert("failed to load EGL functions: "@ + none == "failed to load EGL functions: "@);
}

/// A context is asked for in the version of the attempt: its major number stands behind
/// the one name, and its minor number behind the other.
pub proof fn contexts_are_asked_for_by_version(version: (i32, i32))
    ensures
        context_attributes(version).len() == 5,
        context_attributes(version)[0] == 0x3098 && context_attributes(version)[1] == version.0,
        context_attributes(version)[2] == 0x30FB && context_attributes(version)[3] == version.1,
{
}

/// A context is asked for on the display and with the configuration that the driver gave,
/// in the version of the attempt, and shares nothing.
pub proof fn contexts_are_not_shared<N: Copy, D: Copy, C: Copy, X: Copy, S>(
    setup: DisplaySetup<N, D, C, X>,
    attempt: usize,
)
    requires
        setup.wf(),
        setup.step == (DisplayStep::CreateContext { attempt }),
    ensures
        setup.pending::<S>() == (DisplayCall::<N, D, C, X, S>::CreateContext {
            display: setup.display->0,
            config: setup.config->0,
            share: None,
            attempt,
        }),
{
}

/// The window is made on the layer surface's own surface, in the size that was asked for,
/// and swaps do not wait.
pub proof fn the_window_has_the_size_that_was_asked_for<
    L: Copy,
    D: Copy,
    C: Copy,
    X: Copy,
    W: Copy,
    S: Copy,
>(setup: SurfaceSetup<L, D, C, X, W, S>)
    ensures
        setup.step is CreateWindow ==> setup.pending() == (SurfaceCall::<
            L,
            D,
            C,
            X,
            W,
            S,
        >::CreateWindow { on: setup.on, width: setup.size.width, height: setup.size.height }),
        setup.step is SetSwapInterval ==> setup.pending() == (SurfaceCall::<
            L,
            D,
            C,
            X,
            W,
            S,
        >::SetSwapInterval { display: setup.display, interval: 0 }),
{
}

/// A result that answers what was expected is that step, or the error with that text.
pub proof fn answers_say_what_was_expected<T>(
    result: Result<T, MuraleError>,
    expected: Result<T, Seq<char>>,
)
    ensures
        answers(result, expected) ==> (result is Ok <==> expected is Ok),
        answers(result, expected) && result is Ok ==> result->Ok_0 == expected->Ok_0,
        answers(result, expected) && result is Err ==> (result->Err_0 matches MuraleError::Egl(text)
            && text@ == expected->Err_0),
{
}

/// A call that fails ends the set-up of the display with its error code, but for a
/// refused context; and none of what the driver has handed out is lost by a refusal.
pub proof fn failed_calls_end_the_display_setup<N: Copy, D: Copy, C: Copy, X: Copy>(
    setup: DisplaySetup<N, D, C, X>,
    e: khronos_egl::Error,
)
    ensures
        setup.step is Initialize || setup.step is BindApi || setup.step is ChooseConfig
            || setup.step is MakeCurrent ==> {
            &&& DisplayReply::<D, C, X>::Failed(e).fits(setup.step)
            &&& setup.next(DisplayReply::Failed(e)) == Err::<
                DisplaySetup<N, D, C, X>,
                Seq<char>,
            >(crate::error::egl_error_name(e))
        },
        setup.step matches DisplayStep::CreateContext { attempt } && attempt < 10 ==> {
            &&& DisplayReply::<D, C, X>::Failed(e).fits(setup.step)
            &&& setup.next(DisplayReply::Failed(e)) == Ok::<DisplaySetup<N, D, C, X>, Seq<char>>(
                DisplaySetup {
                    step: DisplayStep::CreateContext { attempt: (setup.step->attempt + 1) as usize },
                    ..setup
                },
            )
        },
        DisplayReply::<D, C, X>::Failed(e).fits(setup.step) ==> !(setup.step is GetDisplay
            || setup.step is LoadFunctions || setup.step is Ready),
{
}

/// What the driver hands out is taken at the call that asks for it, whatever it is, and
/// what it does not have ends the set-up.
pub proof fn handles_are_taken_where_they_are_asked_for<N: Copy, D: Copy, C: Copy, X: Copy>(
    setup: DisplaySetup<N, D, C, X>,
    display: D,
    config: C,
    context: X,
)
    ensures
        setup.step is GetDisplay ==> {
            &&& DisplayReply::<D, C, X>::Display(Some(display)).fits(setup.step)
            &&& DisplayReply::<D, C, X>::Display(None).fits(setup.step)
            &&& setup.next(DisplayReply::Display(Some(display))) == Ok::<
                DisplaySetup<N, D, C, X>,
                Seq<char>,
            >(DisplaySetup { step: DisplayStep::Initialize, display: Some(display), ..setup })
            &&& setup.next(DisplayReply::Display(None)) is Err
        },
        setup.step is ChooseConfig ==> {
            &&& DisplayReply::<D, C, X>::Config(Some(config)).fits(setup.step)
            &&& DisplayReply::<D, C, X>::Config(None).fits(setup.step)
            &&& setup.next(DisplayReply::Config(Some(config))) == Ok::<
                DisplaySetup<N, D, C, X>,
                Seq<char>,
            >(
                DisplaySetup {
                    step: DisplayStep::CreateContext { attempt: 0 },
                    config: Some(config),
                    ..setup
                },
            )
            &&& setup.next(DisplayReply::Config(None)) is Err
        },
        setup.step is CreateContext ==> {
            &&& DisplayReply::<D, C, X>::Context(context).fits(setup.step)
            &&& setup.next(DisplayReply::Context(context)) == Ok::<
                DisplaySetup<N, D, C, X>,
                Seq<char>,
            >(DisplaySetup { step: DisplayStep::MakeCurrent, context: Some(context), ..setup })
        },
        setup.step is Initialize || setup.step is BindApi || setup.step is MakeCurrent
            || setup.step is LoadFunctions ==> DisplayReply::<D, C, X>::Done.fits(setup.step),
{
}

/// A call that fails ends the set-up of the surface with its error code, as does a window
/// that cannot be had.
pub proof fn failed_calls_end_the_surface_setup<
    L: Copy,
    D: Copy,
    C: Copy,
    X: Copy,
    W: Copy,
    S: Copy,
>(setup: SurfaceSetup<L, D, C, X, W, S>, e: khronos_egl::Error, window: W, surface: S)
    ensures
        setup.step is CreateWindowSurface || setup.step is MakeCurrent
            || setup.step is SetSwapInterval ==> {
            &&& SurfaceReply::<W, S>::Failed(e).fits(setup.step)
            &&& setup.next(SurfaceReply::Failed(e)) == Err::<
                SurfaceSetup<L, D, C, X, W, S>,
                Seq<char>,
            >(crate::error::egl_error_name(e))
        },
        setup.step is CreateWindow ==> {
            &&& SurfaceReply::<W, S>::Window(Some(window)).fits(setup.step)
            &&& SurfaceReply::<W, S>::Window(None).fits(setup.step)
            &&& setup.next(SurfaceReply::Window(None)) is Err
        },
        setup.step is CreateWindowSurface ==> SurfaceReply::<W, S>::Surface(surface).fits(setup.step),
        setup.step is MakeCurrent || setup.step is SetSwapInterval || setup.step is PrepareDrawing
            ==> SurfaceReply::<W, S>::Done.fits(setup.step),
{
}

} // verus!
