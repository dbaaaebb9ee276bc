//! Shared runtime values for connecting to `knotd`.
use vstd::prelude::*;
use vstd::string::*;
use crate::paths::{join, join_path};

verus! {

/// Directory under the runtime directory that holds the daemon socket.
pub const DEFAULT_RUNTIME_SUBDIR: &'static str = "knot";

/// File name of the daemon socket.
pub const DEFAULT_SOCKET_NAME: &'static str = "knotd.sock";

/// Where the socket lives under a given runtime directory.
pub open spec fn socket_under(runtime_dir: Seq<char>) -> Seq<char> {
    join_path(join_path(runtime_dir, "knot"@), "knotd.sock"@)
}

/// The default socket path, derived from the value of `XDG_RUNTIME_DIR`
/// (`None` when that variable is unset).
pub fn default_socket_path(xdg_runtime_dir: Option<&str>) -> (r: Option<String>)
    ensures
        match xdg_runtime_dir {
            None => r is None,
            Some(dir) => r matches Some(p) && p@ == socket_under(dir@),
        },
{
    match xdg_runtime_dir {
        None => None,
        Some(dir) => {
            let sub = join(dir, DEFAULT_RUNTIME_SUBDIR);
            Some(join(sub.as_str(), DEFAULT_SOCKET_NAME))
        },
    }
}

/// Help text naming where the default socket lives.
pub fn default_socket_help() -> (r: &'static str)
    ensures
        r@ == "$XDG_RUNTIME_DIR/knot/knotd.sock"@,
{
    "$XDG_RUNTIME_DIR/knot/knotd.sock"
}

/// The complaint given when no socket path can be determined.
pub open spec fn missing_socket_path_text() -> Seq<char> {
    "No socket path configured. Pass --socket, set KNOTD_SOCKET_PATH, or set XDG_RUNTIME_DIR so knot-gtk can use "@
        + "$XDG_RUNTIME_DIR/knot/knotd.sock"@
}

/// The complaint given when no socket path can be determined.
pub fn missing_socket_path_message() -> (r: String)
    ensures
        r@ == missing_socket_path_text(),
{
    let mut r = String::from_str(
        "No socket path configured. Pass --socket, set KNOTD_SOCKET_PATH, or set XDG_RUNTIME_DIR so knot-gtk can use ",
    );
    r.append(default_socket_help());
    r
}

} // verus!
