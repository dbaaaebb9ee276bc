//! Command line argument handling for knotty.
//!
//! The parser reads the argument list together with the values of the
//! environment variables that can name the socket, and says what the program
//! should do; printing and exiting are left to the caller.
use vstd::prelude::*;
use vstd::string::*;
use crate::runtime_contract::{missing_socket_path_message, missing_socket_path_text, socket_under};
use crate::text::str_eq;

verus! {

/// The settings the command line gives.
#[derive(Debug, Clone)]
pub struct CliArgs {
    pub socket_path: String,
    pub automation_enabled: bool,
    pub automation_token: Option<String>,
}

/// What the command line asks for.
#[derive(Debug, Clone)]
pub enum CliOutcome {
    /// Start the client with these settings.
    Run(CliArgs),
    /// Print the help text and exit successfully.
    ShowHelp,
    /// Print the version line and exit successfully.
    ShowVersion,
    /// Print `message` on standard error (followed by the help text when
    /// `with_help` holds) and exit with status 1.
    Fail { message: String, with_help: bool },
}

/// Where a scan of the option list ends.
pub enum CliScan {
    Done { socket: Option<Seq<char>>, automation: bool, token: Option<Seq<char>> },
    Help,
    Version,
    MissingSocketValue,
    MissingTokenValue,
    Unknown(Seq<char>),
}

/// The options `args[i..]`, read left to right with the settings gathered so far.
pub open spec fn scan(
    args: Seq<Seq<char>>,
    i: int,
    socket: Option<Seq<char>>,
    automation: bool,
    token: Option<Seq<char>>,
) -> CliScan
    decreases args.len() - i,
{
    if i < 0 || i >= args.len() {
        CliScan::Done { socket, automation, token }
    } else {
        let a = args[i];
        if a == "--socket"@ || a == "-s"@ {
            if i + 1 < args.len() {
                scan(args, i + 2, Some(args[i + 1]), automation, token)
            } else {
                CliScan::MissingSocketValue
            }
        } else if a == "--automation-token"@ {
            if i + 1 < args.len() {
                scan(args, i + 2, socket, automation, Some(args[i + 1]))
            } else {
                CliScan::MissingTokenValue
            }
        } else if a == "--enable-automation"@ {
            scan(args, i + 1, socket, true, token)
        } else if a == "--help"@ || a == "-h"@ {
            CliScan::Help
        } else if a == "--version"@ || a == "-V"@ {
            CliScan::Version
        } else {
            CliScan::Unknown(a)
        }
    }
}

/// The views of a list of strings.
pub open spec fn views(args: Seq<String>) -> Seq<Seq<char>> {
    args.map_values(|s: String| s@)
}

/// The socket to use: the one given on the command line, else
/// `KNOTD_SOCKET_PATH`, else the one under `XDG_RUNTIME_DIR`.
pub open spec fn chosen_socket(
    given: Option<Seq<char>>,
    knotd_socket_path: Option<Seq<char>>,
    xdg_runtime_dir: Option<Seq<char>>,
) -> Option<Seq<char>> {
    match given {
        Some(s) => Some(s),
        None => match knotd_socket_path {
            Some(s) => Some(s),
            None => match xdg_runtime_dir {
                Some(d) => Some(socket_under(d)),
                None => None,
            },
        },
    }
}

/// The view of an optional `&str`.
pub open spec fn opt_str(s: Option<&str>) -> Option<Seq<char>> {
    match s {
        Some(x) => Some(x@),
        None => None,
    }
}

/// The view of an optional `String`.
pub open spec fn opt_string(s: Option<String>) -> Option<Seq<char>> {
    match s {
        Some(x) => Some(x@),
        None => None,
    }
}

/// What the whole command line asks for, the program name at index 0 skipped.
pub open spec fn outcome_matches(
    r: CliOutcome,
    args: Seq<Seq<char>>,
    knotd_socket_path: Option<Seq<char>>,
    xdg_runtime_dir: Option<Seq<char>>,
) -> bool {
    match scan(args, 1, None, false, None) {
        CliScan::Done { socket, automation, token } => match chosen_socket(
            socket,
            knotd_socket_path,
            xdg_runtime_dir,
        ) {
            Some(path) => r matches CliOutcome::Run(a) && a.socket_path@ == path
                && a.automation_enabled == automation && opt_string(a.automation_token) == token,
            None => r matches CliOutcome::Fail { message, with_help } && !with_help && message@
                == "Error: "@ + missing_socket_path_text(),
        },
        CliScan::Help => r is ShowHelp,
        CliScan::Version => r is ShowVersion,
        CliScan::MissingSocketValue => r matches CliOutcome::Fail { message, with_help } && !with_help
            && message@ == "Error: --socket requires a path argument"@,
        CliScan::MissingTokenValue => r matches CliOutcome::Fail { message, with_help } && !with_help
            && message@ == "Error: --automation-token requires a token argument"@,
        CliScan::Unknown(a) => r matches CliOutcome::Fail { message, with_help } && with_help
            && message@ == "Unknown argument: "@ + a,
    }
}

/// The socket is chosen by a fixed priority: `--socket` first, then
/// `KNOTD_SOCKET_PATH`, then the socket under `XDG_RUNTIME_DIR`; when none of
/// them is there, no path is guessed.
pub proof fn law_socket_priority(
    given: Option<Seq<char>>,
    knotd_socket_path: Option<Seq<char>>,
    xdg_runtime_dir: Option<Seq<char>>,
)
    ensures
        given is Some ==> chosen_socket(given, knotd_socket_path, xdg_runtime_dir) == given,
        given is None && knotd_socket_path is Some ==> chosen_socket(given, knotd_socket_path, xdg_runtime_dir)
            == knotd_socket_path,
        given is None && knotd_socket_path is None ==> chosen_socket(given, knotd_socket_path, xdg_runtime_dir)
            == match xdg_runtime_dir {
            Some(d) => Some(socket_under(d)),
            None => None::<Seq<char>>,
        },
        chosen_socket(given, knotd_socket_path, xdg_runtime_dir) is None <==> (given is None
            && knotd_socket_path is None && xdg_runtime_dir is None),
{
}

/// How the options after index `k` are read does not depend on the
/// arguments before `k`.
proof fn lemma_scan_ignores_earlier(
    args: Seq<Seq<char>>,
    k: int,
    j: int,
    x: Seq<char>,
    socket: Option<Seq<char>>,
    automation: bool,
    token: Option<Seq<char>>,
)
    requires
        0 <= j < k,
        j < args.len(),
    ensures
        scan(args.update(j, x), k, socket, automation, token) == scan(args, k, socket, automation, token),
    decreases args.len() - k,
{
    let u = args.update(j, x);
    if k < args.len() {
        assert(u[k] == args[k]);
        if k + 1 < args.len() {
            assert(u[k + 1] == args[k + 1]);
        }
        lemma_scan_ignores_earlier(args, k + 1, j, x, socket, automation, token);
        lemma_scan_ignores_earlier(args, k + 1, j, x, socket, true, token);
        if k + 1 < args.len() {
            lemma_scan_ignores_earlier(args, k + 2, j, x, Some(args[k + 1]), automation, token);
            lemma_scan_ignores_earlier(args, k + 2, j, x, socket, automation, Some(args[k + 1]));
        }
    }
}

/// Each option's short and long spellings mean the same wherever an option
/// is read: `-V` and `--version` ask for the version and `-h` and `--help`
/// for the help, whatever follows them; `-s` and `--socket` both take the
/// next argument as the socket path (or fail the same way without one).
pub proof fn law_short_and_long_options_agree(
    args: Seq<Seq<char>>,
    i: int,
    socket: Option<Seq<char>>,
    automation: bool,
    token: Option<Seq<char>>,
)
    requires
        0 <= i < args.len(),
    ensures
        scan(args.update(i, "-V"@), i, socket, automation, token) == CliScan::Version,
        scan(args.update(i, "--version"@), i, socket, automation, token) == CliScan::Version,
        scan(args.update(i, "-h"@), i, socket, automation, token) == CliScan::Help,
        scan(args.update(i, "--help"@), i, socket, automation, token) == CliScan::Help,
        scan(args.update(i, "-s"@), i, socket, automation, token) == scan(
            args.update(i, "--socket"@),
            i,
            socket,
            automation,
            token,
        ),
        scan(args.update(i, "-s"@), i, socket, automation, token) == if i + 1 < args.len() {
            scan(args, i + 2, Some(args[i + 1]), automation, token)
        } else {
            CliScan::MissingSocketValue
        },
{
    reveal_strlit("-V");
    reveal_strlit("--version");
    reveal_strlit("-h");
    reveal_strlit("--help");
    reveal_strlit("-s");
    reveal_strlit("--socket");
    reveal_strlit("--automation-token");
    reveal_strlit("--enable-automation");
    assert("-V"@ != "-s"@) by { assert("-V"@[1] != "-s"@[1]); }
    assert("-h"@ != "-s"@) by { assert("-h"@[1] != "-s"@[1]); }
    assert("--help"@ != "--socket"@) by { assert("--help"@[2] != "--socket"@[2]); }
    assert("--version"@ != "--automation-token"@) by { assert("--version"@[2] != "--automation-token"@[2]); }
    assert("--version"@ != "--enable-automation"@) by { assert("--version"@[2] != "--enable-automation"@[2]); }
    assert("--help"@ != "--version"@) by { assert("--help"@[2] != "--version"@[2]); }
    assert("-h"@ != "-V"@) by { assert("-h"@[1] != "-V"@[1]); }
    assert(args.update(i, "-V"@)[i] == "-V"@);
    assert(args.update(i, "--version"@)[i] == "--version"@);
    assert(args.update(i, "-h"@)[i] == "-h"@);
    assert(args.update(i, "--help"@)[i] == "--help"@);
    assert(args.update(i, "-s"@)[i] == "-s"@);
    assert(args.update(i, "--socket"@)[i] == "--socket"@);
    assert(args.update(i, "-V"@).len() == args.len());
    if i + 1 < args.len() {
        lemma_scan_ignores_earlier(args, i + 2, i, "-s"@, Some(args[i + 1]), automation, token);
        lemma_scan_ignores_earlier(args, i + 2, i, "--socket"@, Some(args[i + 1]), automation, token);
        assert(args.update(i, "-s"@)[i + 1] == args[i + 1]);
        assert(args.update(i, "--socket"@)[i + 1] == args[i + 1]);
    }
}

impl CliArgs {
    /// Reads the command line `args` (program name first) given the values
    /// of `KNOTD_SOCKET_PATH` and `XDG_RUNTIME_DIR`.
    pub fn parse_from(
        args: &Vec<String>,
        knotd_socket_path: Option<&str>,
        xdg_runtime_dir: Option<&str>,
    ) -> (r: CliOutcome)
        ensures
            outcome_matches(r, views(args@), opt_str(knotd_socket_path), opt_str(xdg_runtime_dir)),
    {
        let ghost vs = views(args@);
        let mut socket_path: Option<String> = None;
        let mut automation_enabled = false;
        let mut automation_token: Option<String> = None;
        let mut i: usize = 1;
        while i < args.len()
            invariant
                vs == views(args@),
                1 <= i,
                scan(vs, i as int, opt_string(socket_path), automation_enabled, opt_string(automation_token))
                    == scan(vs, 1, None, false, None),
            decreases args.len() - i,
        {
            let a = args[i].as_str();
            assert(vs[i as int] == a@);
            if str_eq(a, "--socket") || str_eq(a, "-s") {
                if i + 1 < args.len() {
                    assert(vs[i + 1] == args@[i + 1]@);
                    socket_path = Some(args[i + 1].clone());
                    i = i + 2;
                } else {
                    return CliOutcome::Fail {
                        message: String::from_str("Error: --socket requires a path argument"),
                        with_help: false,
                    };
                }
            } else if str_eq(a, "--automation-token") {
                if i + 1 < args.len() {
                    assert(vs[i + 1] == args@[i + 1]@);
                    automation_token = Some(args[i + 1].clone());
                    i = i + 2;
                } else {
                    return CliOutcome::Fail {
                        message: String::from_str("Error: --automation-token requires a token argument"),
                        with_help: false,
                    };
                }
            } else if str_eq(a, "--enable-automation") {
                automation_enabled = true;
                i = i + 1;
            } else if str_eq(a, "--help") || str_eq(a, "-h") {
                return CliOutcome::ShowHelp;
            } else if str_eq(a, "--version") || str_eq(a, "-V") {
                return CliOutcome::ShowVersion;
            } else {
                let mut message = String::from_str("Unknown argument: ");
                message.append(a);
                return CliOutcome::Fail { message, with_help: true };
            }
        }
        let chosen = match socket_path {
            Some(p) => Some(p),
            None => match knotd_socket_path {
                Some(p) => Some(String::from_str(p)),
                None => Self::default_socket_path(xdg_runtime_dir),
            },
        };
        match chosen {
            Some(path) => CliOutcome::Run(
                CliArgs { socket_path: path, automation_enabled, automation_token },
            ),
            None => {
                let mut message = String::from_str("Error: ");
                let detail = missing_socket_path_message();
                message.append(detail.as_str());
                CliOutcome::Fail { message, with_help: false }
            },
        }
    }

    /// The socket below `XDG_RUNTIME_DIR`, given that variable's value.
    pub fn default_socket_path(xdg_runtime_dir: Option<&str>) -> (r: Option<String>)
        ensures
            opt_string(r) == match xdg_runtime_dir {
                Some(d) => Some(socket_under(d@)),
                None => None::<Seq<char>>,
            },
    {
        crate::runtime_contract::default_socket_path(xdg_runtime_dir)
    }
}

/// The package name the client is published under.
pub fn package_name() -> (r: &'static str)
    ensures
        r@ == "knotty"@,
{
    "knotty"
}

/// The line printed for `--version`, given the package version.
pub fn version_text(version: &str) -> (r: String)
    ensures
        r@ == "knotty "@ + version@,
{
    let mut r = String::from_str(package_name());
    r.append(" ");
    r.append(version);
    proof {
        reveal_strlit("knotty");
        reveal_strlit(" ");
        reveal_strlit("knotty ");
    }
    r
}

/// The help text, line by line.
pub open spec fn help_text() -> Seq<Seq<char>> {
    seq![
        "knotty - GTK4 frontend for Knot knowledge base"@,
        Seq::<char>::empty(),
        "Usage: knotty [OPTIONS]"@,
        Seq::<char>::empty(),
        "Options:"@,
        "  -s, --socket <PATH>    Path to knotd Unix socket"@,
        "      --enable-automation"@,
        "                         Allow GTK automation for this process"@,
        "      --automation-token <TOKEN>"@,
        "                         Runtime token for gated GTK automation"@,
        "                         [default: "@ + "$XDG_RUNTIME_DIR/knot/knotd.sock"@ + "]"@,
        "  -h, --help             Print this help message"@,
        "  -V, --version          Print version information"@,
        Seq::<char>::empty(),
        "Environment Variables:"@,
        "  KNOTD_SOCKET_PATH      Override default socket path"@,
        "  XDG_RUNTIME_DIR        Used to construct the default socket path ("@ + "$XDG_RUNTIME_DIR/knot/knotd.sock"@ + ")"@,
    ]
}

/// The help text, one entry per line.
pub fn help_lines() -> (r: Vec<String>)
    ensures
        views(r@) == help_text(),
{
    let help = crate::runtime_contract::default_socket_help();
    let mut r: Vec<String> = Vec::new();
    r.push(String::from_str("knotty - GTK4 frontend for Knot knowledge base"));
    r.push(String::new());
    r.push(String::from_str("Usage: knotty [OPTIONS]"));
    r.push(String::new());
    r.push(String::from_str("Options:"));
    r.push(String::from_str("  -s, --socket <PATH>    Path to knotd Unix socket"));
    r.push(String::from_str("      --enable-automation"));
    r.push(String::from_str("                         Allow GTK automation for this process"));
    r.push(String::from_str("      --automation-token <TOKEN>"));
    r.push(String::from_str("                         Runtime token for gated GTK automation"));
    let mut d = String::from_str("                         [default: ");
    d.append(help);
    d.append("]");
    r.push(d);
    r.push(String::from_str("  -h, --help             Print this help message"));
    r.push(String::from_str("  -V, --version          Print version information"));
    r.push(String::new());
    r.push(String::from_str("Environment Variables:"));
    r.push(String::from_str("  KNOTD_SOCKET_PATH      Override default socket path"));
    let mut x = String::from_str("  XDG_RUNTIME_DIR        Used to construct the default socket path (");
    x.append(help);
    x.append(")");
    r.push(x);
    assert(views(r@) =~= help_text());
    r
}

} // verus!
