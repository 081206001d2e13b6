//! The error type of the wallpaper.

use vstd::prelude::*;

use crate::text::join;

verus! {

/// What can go wrong while the wallpaper is set up.
///
/// Each variant carries the text of its cause.
#[derive(Debug)]
pub enum MuraleError {
    /// An EGL call failed, or EGL could not be loaded.
    Egl(String),
    /// The player failed.
    Mpv(String),
    /// A system call failed.
    Io(String),
}

/// Declares the error codes of EGL to the verifier: an enum without fields.
#[verifier::external_type_specification]
pub struct ExEglError(khronos_egl::Error);

/// The name of an EGL error code.
pub open spec fn egl_error_name(e: khronos_egl::Error) -> Seq<char> {
    match e {
        khronos_egl::Error::NotInitialized => "NotInitialized"@,
        khronos_egl::Error::BadAccess => "BadAccess"@,
        khronos_egl::Error::BadAlloc => "BadAlloc"@,
        khronos_egl::Error::BadAttribute => "BadAttribute"@,
        khronos_egl::Error::BadContext => "BadContext"@,
        khronos_egl::Error::BadConfig => "BadConfig"@,
        khronos_egl::Error::BadCurrentSurface => "BadCurrentSurface"@,
        khronos_egl::Error::BadDisplay => "BadDisplay"@,
        khronos_egl::Error::BadSurface => "BadSurface"@,
        khronos_egl::Error::BadMatch => "BadMatch"@,
        khronos_egl::Error::BadParameter => "BadParameter"@,
        khronos_egl::Error::BadNativePixmap => "BadNativePixmap"@,
        khronos_egl::Error::BadNativeWindow => "BadNativeWindow"@,
        khronos_egl::Error::ContextLost => "ContextLost"@,
    }
}

/// Calls the `Debug` implementation of `khronos_egl::Error`.
///
/// That implementation is derived on an enum without fields, so what it writes
/// is the variant's own name; this is trusted here.
#[verifier::external_body]
fn egl_error_debug(e: khronos_egl::Error) -> (text: String)
    ensures
        text@ == egl_error_name(e),
{
    format!("{e:?}")
}

impl vstd::std_specs::convert::FromSpecImpl<khronos_egl::Error> for MuraleError {
    /// The result holds a `String`, of which only the text is specified: the
    /// contract stands on `from` itself.
    open spec fn obeys_from_spec() -> bool {
        false
    }

    open spec fn from_spec(e: khronos_egl::Error) -> MuraleError {
        arbitrary()
    }
}

impl From<khronos_egl::Error> for MuraleError {
    /// An EGL error code becomes `Egl` with the name of the code.
    fn from(e: khronos_egl::Error) -> (error: MuraleError)
        ensures
            error.is_egl(egl_error_name(e)),
    {
        MuraleError::Egl(egl_error_debug(e))
    }
}

impl MuraleError {
    /// Whether this is the EGL error with the given text.
    pub open spec fn is_egl(self, text: Seq<char>) -> bool {
        self matches MuraleError::Egl(held) && held@ == text
    }

    /// What `message` writes: the part that failed, a colon, and the cause.
    pub open spec fn text(self) -> Seq<char> {
        match self {
            MuraleError::Egl(cause) => "egl: "@ + cause@,
            MuraleError::Mpv(cause) => "mpv: "@ + cause@,
            MuraleError::Io(cause) => "io: "@ + cause@,
        }
    }

    /// The error as it is shown to the user.
    pub fn message(&self) -> (message: String)
        ensures
            message@ == self.text(),
    {
        match self {
            MuraleError::Egl(cause) => join("egl: ", cause.as_str()),
            MuraleError::Mpv(cause) => join("mpv: ", cause.as_str()),
            MuraleError::Io(cause) => join("io: ", cause.as_str()),
        }
    }
}

/// The message names the part that failed, and then the cause in full.
pub proof fn messages_hold_the_cause_in_full(error: MuraleError)
    ensures
        error matches MuraleError::Egl(cause) ==> error.text().take(5) == "egl: "@
            && error.text().skip(5) == cause@,
        error matches MuraleError::Mpv(cause) ==> error.text().take(5) == "mpv: "@
            && error.text().skip(5) == cause@,
        error matches MuraleError::Io(cause) ==> error.text().take(4) == "io: "@
            && error.text().skip(4) == cause@,
{
    reveal_strlit("egl: ");
    reveal_strlit("mpv: ");
    reveal_strlit("io: ");
    match error {
        MuraleError::Egl(cause) => {
            assert(error.text().take(5) =~= "egl: "@);
            assert(error.text().skip(5) =~= cause@);
        },
        MuraleError::Mpv(cause) => {
            assert(error.text().take(5) =~= "mpv: "@);
            assert(error.text().skip(5) =~= cause@);
        },
        MuraleError::Io(cause) => {
            assert(error.text().take(4) =~= "io: "@);
            assert(error.text().skip(4) =~= cause@);
        },
    }
}

} // verus!
