//! Where the sockets are.
//!
//! The paths hang on two values of the environment, which the caller reads:
//! the signature of the running window manager, and the user's runtime
//! directory.

use vstd::prelude::*;
use vstd::string::StringExecFns;
use crate::hyprland::utils::hyprland_socket_name;
use crate::hyprland::utils::HyprSocketType;

verus! {

/// The path of the daemon's socket for a given runtime directory.
pub open spec fn spec_socket_path(runtime_dir: Option<Seq<char>>) -> Seq<char> {
    match runtime_dir {
        Some(value) => value + "/hyprvisor.sock"@,
        None => "/tmp/hyprvisor.sock"@,
    }
}

/// The path of a socket of the window manager: below the runtime directory,
/// or below `/tmp` where there is none.
pub open spec fn spec_hyprland_socket(
    socket_type: HyprSocketType,
    instance_signature: Seq<char>,
    runtime_dir: Option<Seq<char>>,
) -> Seq<char> {
    match runtime_dir {
        Some(value) => value + "/hypr/"@ + instance_signature + "/"@ + hyprland_socket_name(
            socket_type,
        ),
        None => "/tmp/hypr/"@ + instance_signature + "/"@ + hyprland_socket_name(socket_type),
    }
}

/// Tells where the daemon's socket is. Without the signature of a running
/// window manager there is no daemon to speak of, and no path.
pub fn get_socket_path(instance_signature: Option<&str>, runtime_dir: Option<&str>) -> (path:
    Option<String>)
    ensures
        instance_signature is None ==> path is None,
        instance_signature is Some ==> path is Some && path.unwrap()@ == spec_socket_path(
            match runtime_dir {
                Some(value) => Some(value@),
                None => None,
            },
        ),
{
    match instance_signature {
        Some(_) => {},
        None => {
            return None;
        },
    }
    match runtime_dir {
        Some(value) => Some(String::from_str(value).concat("/hyprvisor.sock")),
        None => Some(String::from_str("/tmp/hyprvisor.sock")),
    }
}

/// Tells where a socket of the window manager is.
pub fn get_hyprland_socket(
    socket_type: &HyprSocketType,
    instance_signature: &str,
    runtime_dir: Option<&str>,
) -> (path: String)
    ensures
        path@ == spec_hyprland_socket(
            *socket_type,
            instance_signature@,
            match runtime_dir {
                Some(value) => Some(value@),
                None => None,
            },
        ),
{
    let root = match runtime_dir {
        Some(value) => String::from_str(value).concat("/hypr/"),
        None => String::from_str("/tmp/hypr/"),
    };
    root.concat(instance_signature).concat("/").concat(socket_type.socket_name())
}

} // verus!
