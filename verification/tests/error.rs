use murale::error::MuraleError;

fn egl_text(error: MuraleError) -> String {
    match error {
        MuraleError::Egl(text) => text,
        other => panic!("not an EGL error: {:?}", other),
    }
}

#[test]
fn every_egl_code_keeps_its_name() {
    let codes = [
        (khronos_egl::Error::NotInitialized, "NotInitialized"),
        (khronos_egl::Error::BadAccess, "BadAccess"),
        (khronos_egl::Error::BadAlloc, "BadAlloc"),
        (khronos_egl::Error::BadAttribute, "BadAttribute"),
        (khronos_egl::Error::BadContext, "BadContext"),
        (khronos_egl::Error::BadConfig, "BadConfig"),
        (khronos_egl::Error::BadCurrentSurface, "BadCurrentSurface"),
        (khronos_egl::Error::BadDisplay, "BadDisplay"),
        (khronos_egl::Error::BadSurface, "BadSurface"),
        (khronos_egl::Error::BadMatch, "BadMatch"),
        (khronos_egl::Error::BadParameter, "BadParameter"),
        (khronos_egl::Error::BadNativePixmap, "BadNativePixmap"),
        (khronos_egl::Error::BadNativeWindow, "BadNativeWindow"),
        (khronos_egl::Error::ContextLost, "ContextLost"),
    ];
    for (code, name) in codes {
        assert_eq!(egl_text(MuraleError::from(code)), name);
        assert_eq!(format!("{:?}", code), name);
    }
}

#[test]
fn messages_say_what_failed() {
    assert_eq!(MuraleError::Egl("BadMatch".to_string()).message(), "egl: BadMatch");
    assert_eq!(MuraleError::Mpv("no file".to_string()).message(), "mpv: no file");
    assert_eq!(MuraleError::Io("closed".to_string()).message(), "io: closed");
    assert_eq!(MuraleError::from(khronos_egl::Error::ContextLost).message(), "egl: ContextLost");
}
