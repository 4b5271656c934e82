use vstd::prelude::*;

use crate::text::{chars_of, concat_text, contains, contains_chars, same_text, to_uppercase, uppercase};

verus! {

/// The environment variables that tell a remote desktop session apart, as
/// read at start-up (an unset variable reads as empty text).
#[derive(Debug, Clone)]
pub struct SessionEnv {
    /// `XDG_SESSION_TYPE`
    pub xdg_session_type: String,
    /// `SESSIONNAME`
    pub session_name: String,
    /// Whether `XRDP_SESSION` is set.
    pub xrdp_session: bool,
    /// Whether `VNCDESKTOP` is set.
    pub vnc_desktop: bool,
    /// Whether `X2GO_SESSION` is set.
    pub x2go_session: bool,
    /// Whether `REMOTEDESKTOP` is set.
    pub remote_desktop: bool,
    /// `DISPLAY`
    pub display: String,
}

/// A remote desktop session: the session type mentions `remote`, the session
/// name mentions `RDP` in any case, one of the remote desktop variables is
/// set, or an X11 session has no display.
pub open spec fn is_remote_session(env: SessionEnv) -> bool {
    ||| contains(env.xdg_session_type@, "remote"@)
    ||| contains(uppercase(env.session_name@), "RDP"@)
    ||| env.xrdp_session
    ||| env.vnc_desktop
    ||| env.x2go_session
    ||| env.remote_desktop
    ||| env.xdg_session_type@ == "x11"@ && env.display@.len() == 0
}

/// Each of the seven signs of a remote desktop session on its own makes the
/// session remote: a session type mentioning `remote`, a session name
/// mentioning `RDP` in any case, a set `XRDP_SESSION`, `VNCDESKTOP`,
/// `X2GO_SESSION` or `REMOTEDESKTOP`, or an X11 session without a display;
/// and a session without any of them is not remote.
pub proof fn lemma_remote_indicators(env: SessionEnv)
    ensures
        contains(env.xdg_session_type@, "remote"@) ==> is_remote_session(env),
        contains(uppercase(env.session_name@), "RDP"@) ==> is_remote_session(env),
        env.xrdp_session ==> is_remote_session(env),
        env.vnc_desktop ==> is_remote_session(env),
        env.x2go_session ==> is_remote_session(env),
        env.remote_desktop ==> is_remote_session(env),
        (env.xdg_session_type@ == "x11"@ && env.display@.len() == 0) ==> is_remote_session(env),
        is_remote_session(env) ==> (contains(env.xdg_session_type@, "remote"@) || contains(uppercase(env.session_name@), "RDP"@) || env.xrdp_session || env.vnc_desktop || env.x2go_session || env.remote_desktop || (env.xdg_session_type@ == "x11"@ && env.display@.len() == 0)),
{
}

/// Whether software rendering is needed because the launcher runs in a remote
/// desktop session.
pub fn is_remote_desktop(env: &SessionEnv) -> (r: bool)
    ensures
        r == is_remote_session(*env),
        contains(env.xdg_session_type@, "remote"@) ==> r,
        contains(uppercase(env.session_name@), "RDP"@) ==> r,
        env.xrdp_session ==> r,
        env.vnc_desktop ==> r,
        env.x2go_session ==> r,
        env.remote_desktop ==> r,
        (env.xdg_session_type@ == "x11"@ && env.display@.len() == 0) ==> r,
        r ==> (contains(env.xdg_session_type@, "remote"@) || contains(uppercase(env.session_name@), "RDP"@) || env.xrdp_session || env.vnc_desktop || env.x2go_session || env.remote_desktop || (env.xdg_session_type@ == "x11"@ && env.display@.len() == 0)),
{
    proof {
        lemma_remote_indicators(*env);
    }
    if contains_chars(&chars_of(env.xdg_session_type.as_str()), &chars_of("remote")) {
        return true;
    }
    let upper = to_uppercase(env.session_name.as_str());
    if contains_chars(&chars_of(upper.as_str()), &chars_of("RDP")) {
        return true;
    }
    if env.xrdp_session || env.vnc_desktop || env.x2go_session || env.remote_desktop {
        return true;
    }
    same_text(env.xdg_session_type.as_str(), "x11") && env.display.as_str().is_empty()
}

/// Whether file logging is on and whether Linux compatibility mode is on, from
/// the configuration read at start-up; without a readable configuration file
/// logging is off and compatibility mode on.
pub fn startup_flags(config: Option<(bool, bool)>) -> (r: (bool, bool))
    ensures
        r == (match config {
            Some(flags) => flags,
            None => (false, true),
        }),
{
    match config {
        Some(flags) => flags,
        None => (false, true),
    }
}

/// The name of the log file for a start-up at `timestamp`.
pub fn log_file_name(timestamp: &str) -> (r: String)
    ensures
        r@ == "llama_launcher_"@ + timestamp@ + ".log"@,
{
    let head = concat_text("llama_launcher_", timestamp);
    concat_text(head.as_str(), ".log")
}

/// One line of the log file: the time of the record in brackets, then the
/// message.
pub fn log_record_line(timestamp: &str, message: &str) -> (r: String)
    ensures
        r@ == "["@ + timestamp@ + "] "@ + message@,
{
    let open = concat_text("[", timestamp);
    let head = concat_text(open.as_str(), "] ");
    concat_text(head.as_str(), message)
}

} // verus!
