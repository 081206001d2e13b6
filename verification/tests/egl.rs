use murale::egl::{
    config_attribs, context_attribs, create_surface, drop_calls, gl_version, init_display,
    load_egl, mpv_get_proc_address, prepare_steps, DisplayCall, DisplayReply, DisplaySetup,
    DisplayStep, DropCall, EglOutcome, LoadStep, PrepareStep, SurfaceCall, SurfaceReply,
    SurfaceSetup, SurfaceStep, LIBRARY, OPENGL_API, SWAP_INTERVAL, VERSION_COUNT,
};
use murale::error::MuraleError;

fn told<T>(result: Result<T, MuraleError>) -> String {
    match result {
        Ok(_) => panic!("no error"),
        Err(error) => error.message(),
    }
}

fn display(step: DisplayStep, outcome: EglOutcome) -> DisplayStep {
    match init_display(step, outcome) {
        Ok(next) => next,
        Err(error) => panic!("{:?}", error),
    }
}

#[test]
fn attributes_are_those_of_egl() {
    assert_eq!(
        config_attribs(),
        vec![
            khronos_egl::SURFACE_TYPE,
            khronos_egl::WINDOW_BIT,
            khronos_egl::RENDERABLE_TYPE,
            khronos_egl::OPENGL_BIT,
            khronos_egl::RED_SIZE,
            8,
            khronos_egl::GREEN_SIZE,
            8,
            khronos_egl::BLUE_SIZE,
            8,
            khronos_egl::ALPHA_SIZE,
            8,
            khronos_egl::NONE,
        ]
    );
    assert_eq!(
        context_attribs(7),
        vec![
            khronos_egl::CONTEXT_MAJOR_VERSION,
            3,
            khronos_egl::CONTEXT_MINOR_VERSION,
            3,
            khronos_egl::NONE,
        ]
    );
    assert!(khronos_egl::check_int_list(&config_attribs()).is_ok());
    assert!(khronos_egl::check_int_list(&context_attribs(0)).is_ok());
    assert_eq!(OPENGL_API, khronos_egl::OPENGL_API);
    assert_eq!(LIBRARY, "libEGL.so.1");
    assert_eq!(SWAP_INTERVAL, 0);
}

#[test]
fn versions_run_from_newest_to_oldest() {
    let versions: Vec<(i32, i32)> = (0..VERSION_COUNT).map(gl_version).collect();
    assert_eq!(
        versions,
        vec![
            (4, 6),
            (4, 5),
            (4, 4),
            (4, 3),
            (4, 2),
            (4, 1),
            (4, 0),
            (3, 3),
            (3, 2),
            (3, 1),
            (3, 0),
        ]
    );
    for pair in versions.windows(2) {
        assert!(pair[0] > pair[1]);
    }
}

#[test]
fn loading_goes_from_library_to_functions() {
    assert!(matches!(load_egl(LoadStep::OpenLibrary, Ok(())), Ok(LoadStep::ResolveFunctions)));
    assert!(matches!(load_egl(LoadStep::ResolveFunctions, Ok(())), Ok(LoadStep::Loaded)));
    assert_eq!(
        told(load_egl(LoadStep::OpenLibrary, Err("not found".to_string()))),
        "egl: failed to load libEGL.so.1: not found"
    );
    assert_eq!(
        told(load_egl(LoadStep::ResolveFunctions, Err("no symbol".to_string()))),
        "egl: failed to load EGL functions: no symbol"
    );
}

#[test]
fn a_display_that_grants_everything_is_ready_in_order() {
    let mut step = DisplayStep::GetDisplay;
    let mut seen = Vec::new();
    while step != DisplayStep::Ready {
        seen.push(step);
        step = display(step, Ok(true));
    }
    assert_eq!(
        seen,
        vec![
            DisplayStep::GetDisplay,
            DisplayStep::Initialize,
            DisplayStep::BindApi,
            DisplayStep::ChooseConfig,
            DisplayStep::CreateContext { attempt: 0 },
            DisplayStep::MakeCurrent,
            DisplayStep::LoadFunctions,
        ]
    );
}

#[test]
fn the_newest_granted_version_is_taken() {
    let mut step = DisplayStep::CreateContext { attempt: 0 };
    let mut asked = Vec::new();
    while let DisplayStep::CreateContext { attempt } = step {
        let version = gl_version(attempt);
        asked.push(version);
        let outcome = if version > (4, 3) {
            Err(khronos_egl::Error::BadMatch)
        } else {
            Ok(true)
        };
        step = display(step, outcome);
    }
    assert_eq!(step, DisplayStep::MakeCurrent);
    assert_eq!(asked, vec![(4, 6), (4, 5), (4, 4), (4, 3)]);
}

#[test]
fn a_display_without_any_version_fails() {
    let mut step = DisplayStep::CreateContext { attempt: 0 };
    let mut refused = 0;
    let error = loop {
        refused += 1;
        match init_display(step, Err(khronos_egl::Error::BadConfig)) {
            Ok(next) => step = next,
            Err(error) => break error,
        }
    };
    assert_eq!(refused, 11);
    assert_eq!(
        error.message(),
        "egl: failed to create OpenGL context (tried 4.6 down to 3.0)"
    );
}

#[test]
fn each_display_failure_has_its_text() {
    assert_eq!(
        told(init_display(DisplayStep::GetDisplay, Ok(false))),
        "egl: eglGetDisplay returned EGL_NO_DISPLAY"
    );
    assert_eq!(
        told(init_display(DisplayStep::ChooseConfig, Ok(false))),
        "egl: no suitable EGL config found"
    );
    assert_eq!(
        told(init_display(DisplayStep::Initialize, Err(khronos_egl::Error::NotInitialized))),
        "egl: NotInitialized"
    );
    assert_eq!(
        told(init_display(DisplayStep::BindApi, Err(khronos_egl::Error::BadParameter))),
        "egl: BadParameter"
    );
    assert_eq!(
        told(init_display(DisplayStep::ChooseConfig, Err(khronos_egl::Error::BadAttribute))),
        "egl: BadAttribute"
    );
    assert_eq!(
        told(init_display(DisplayStep::MakeCurrent, Err(khronos_egl::Error::BadAccess))),
        "egl: BadAccess"
    );
}

#[test]
fn a_surface_is_made_in_order() {
    let mut step = SurfaceStep::CreateWindow;
    let mut seen = Vec::new();
    while step != SurfaceStep::Ready {
        seen.push(step);
        step = match create_surface(step, Ok(true)) {
            Ok(next) => next,
            Err(error) => panic!("{:?}", error),
        };
    }
    assert_eq!(
        seen,
        vec![
            SurfaceStep::CreateWindow,
            SurfaceStep::CreateWindowSurface,
            SurfaceStep::MakeCurrent,
            SurfaceStep::SetSwapInterval,
            SurfaceStep::PrepareDrawing,
        ]
    );
}

#[test]
fn each_surface_failure_has_its_text() {
    assert_eq!(
        told(create_surface(SurfaceStep::CreateWindow, Ok(false))),
        "egl: failed to create wl_egl_window"
    );
    for step in [
        SurfaceStep::CreateWindowSurface,
        SurfaceStep::MakeCurrent,
        SurfaceStep::SetSwapInterval,
    ] {
        assert_eq!(
            told(create_surface(step, Err(khronos_egl::Error::BadNativeWindow))),
            "egl: BadNativeWindow"
        );
    }
}

type Display = DisplaySetup<&'static str, u8, u16, u32>;
type DisplayAnswer = DisplayReply<u8, u16, u32>;
type Surface = SurfaceSetup<&'static str, u8, u16, u32, u64, i8>;

#[test]
fn the_display_is_set_up_with_what_the_driver_gave() {
    let mut setup: Display = DisplaySetup::new("wayland");
    let refused = DisplayReply::Failed(khronos_egl::Error::BadMatch);
    let course: Vec<(DisplayCall<&str, u8, u16, u32, i8>, DisplayAnswer)> = vec![
        (DisplayCall::GetDisplay { native: "wayland" }, DisplayReply::Display(Some(3))),
        (DisplayCall::Initialize { display: 3 }, DisplayReply::Done),
        (DisplayCall::BindApi { api: 0x30A2 }, DisplayReply::Done),
        (DisplayCall::ChooseFirstConfig { display: 3 }, DisplayReply::Config(Some(4))),
        (
            DisplayCall::CreateContext { display: 3, config: 4, share: None, attempt: 0 },
            refused,
        ),
        (
            DisplayCall::CreateContext { display: 3, config: 4, share: None, attempt: 1 },
            DisplayReply::Context(5),
        ),
        (
            DisplayCall::MakeCurrent { display: 3, draw: None, read: None, context: 5 },
            DisplayReply::Done,
        ),
        (DisplayCall::LoadFunctions, DisplayReply::Done),
    ];
    for (call, reply) in course {
        assert_eq!(setup.call::<i8>(), call);
        assert!(setup.takes(&reply));
        assert!(setup.advance(reply).is_ok());
    }
    assert_eq!(
        setup.call::<i8>(),
        DisplayCall::Finished { display: 3, config: 4, context: 5 }
    );
    assert!(!setup.takes(&DisplayReply::Done));
}

#[test]
fn a_display_that_is_not_there_is_an_error() {
    let mut setup: Display = DisplaySetup::new("wayland");
    assert!(!setup.takes(&DisplayReply::Done));
    assert_eq!(
        told(setup.advance(DisplayReply::Display(None))),
        "egl: eglGetDisplay returned EGL_NO_DISPLAY"
    );
    assert_eq!(setup, DisplaySetup::new("wayland"));
    assert!(setup.advance(DisplayReply::Display(Some(1))).is_ok());
    assert_eq!(
        told(setup.advance(DisplayReply::Failed(khronos_egl::Error::NotInitialized))),
        "egl: NotInitialized"
    );
}

#[test]
fn unknown_functions_are_null() {
    assert_eq!(mpv_get_proc_address(None), 0);
    assert_eq!(mpv_get_proc_address(Some(4096)), 4096);
}

#[test]
fn the_surface_is_drawn_on_and_read_from() {
    let mut setup: Surface = SurfaceSetup::new("layer", 3, 4, 5, 800, 600);
    let course: Vec<(SurfaceCall<&str, u8, u16, u32, u64, i8>, SurfaceReply<u64, i8>)> = vec![
        (
            SurfaceCall::CreateWindow { on: "layer", width: 800, height: 600 },
            SurfaceReply::Window(Some(9)),
        ),
        (
            SurfaceCall::CreateWindowSurface { display: 3, config: 4, window: 9 },
            SurfaceReply::Surface(-2),
        ),
        (
            SurfaceCall::MakeCurrent { display: 3, draw: Some(-2), read: Some(-2), context: 5 },
            SurfaceReply::Done,
        ),
        (SurfaceCall::SetSwapInterval { display: 3, interval: 0 }, SurfaceReply::Done),
        (SurfaceCall::PrepareDrawing, SurfaceReply::Done),
    ];
    for (call, reply) in course {
        assert_eq!(setup.call(), call);
        assert!(setup.takes(&reply));
        assert!(setup.advance(reply).is_ok());
    }
    assert_eq!(setup.call(), SurfaceCall::Finished { window: 9, surface: -2 });
}

#[test]
fn a_window_that_is_not_there_is_an_error() {
    let mut setup: Surface = SurfaceSetup::new("layer", 3, 4, 5, 800, 600);
    assert_eq!(
        told(setup.advance(SurfaceReply::Window(None))),
        "egl: failed to create wl_egl_window"
    );
    assert!(setup.advance(SurfaceReply::Window(Some(1))).is_ok());
    assert!(!setup.takes(&SurfaceReply::Done));
    assert_eq!(
        told(setup.advance(SurfaceReply::Failed(khronos_egl::Error::BadAlloc))),
        "egl: BadAlloc"
    );
}

#[test]
fn drawing_is_prepared_and_the_surface_given_back_in_order() {
    assert_eq!(
        prepare_steps(),
        vec![
            PrepareStep::SelectBackBuffer,
            PrepareStep::SetClearColor { red: 0, green: 0, blue: 0, alpha: 0 },
        ]
    );
    assert_eq!(
        drop_calls::<u8, u32, i8>(3, -2),
        vec![
            DropCall::MakeCurrent { display: 3, draw: None, read: None, context: None },
            DropCall::DestroySurface { display: 3, surface: -2 },
        ]
    );
}
