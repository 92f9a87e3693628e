//! Engine access: how the container engine is reached, where the host's
//! trust-configuration document lives, and how the engine is restarted —
//! all as decisions over plain values; the unverified shell performs
//! them.

use vstd::prelude::*;
use vstd::string::StringExecFns;
use crate::errors::PipelineError;

verus! {

/// Seconds the pipeline waits after an engine restart before it relies
/// on the engine being ready.  A fixed delay is a known-fragile
/// placeholder for polling a liveness endpoint.
pub const ENGINE_READY_DELAY_SECS: u64 = 10;

/// How the engine is reached; chosen by configuration, never
/// auto-detected.
#[derive(Debug, Clone, Copy, PartialEq, Eq, Structural)]
pub enum EngineAccess {
    /// A local Unix domain socket.
    Unix,
    /// The platform-default local endpoint.
    Local,
    /// A plaintext HTTP endpoint.
    Http,
}

/// The endpoint the shell connects to: the access mode, and the
/// environment value the engine client reads for it, when one is set.
pub struct EngineEndpoint {
    /// The access mode.
    pub mode: EngineAccess,
    /// The value the `DOCKER_HOST` variable is set to first, if any.
    pub docker_host: Option<String>,
}

/// Maps the configured access-mode word to the endpoint.  Exactly the
/// three recognized words are accepted; anything else is a connection
/// error with this fixed message.
pub fn engine_endpoint(access: &String) -> (r: Result<EngineEndpoint, PipelineError>)
    ensures
        access@ == "unix"@ ==> (r matches Ok(e) && e.mode is Unix && (e.docker_host matches Some(h)
            && h@ == "unix:///var/run/docker.sock"@)),
        access@ == "local"@ ==> (r matches Ok(e) && e.mode is Local && e.docker_host is None),
        access@ == "http"@ ==> (r matches Ok(e) && e.mode is Http && (e.docker_host matches Some(h)
            && h@ == "tcp://localhost:2375"@)),
        access@ != "unix"@ && access@ != "local"@ && access@ != "http"@ ==> (r matches Err(e) && (e
            matches PipelineError::EngineConnection(m) && m@
            == "Invalid access method to the Docker Daemon"@)),
{
    proof {
        reveal_strlit("unix");
        reveal_strlit("local");
        reveal_strlit("http");
        assert("unix"@.len() == 4);
        assert("local"@.len() == 5);
        assert("http"@.len() == 4);
        assert("unix"@[0] != "http"@[0]);
    }
    let unix = String::from_str("unix");
    let local = String::from_str("local");
    let http = String::from_str("http");
    if access.eq(&unix) {
        Ok(EngineEndpoint {
            mode: EngineAccess::Unix,
            docker_host: Some(String::from_str("unix:///var/run/docker.sock")),
        })
    } else if access.eq(&local) {
        Ok(EngineEndpoint { mode: EngineAccess::Local, docker_host: None })
    } else if access.eq(&http) {
        Ok(EngineEndpoint {
            mode: EngineAccess::Http,
            docker_host: Some(String::from_str("tcp://localhost:2375")),
        })
    } else {
        Err(
            PipelineError::EngineConnection(
                String::from_str("Invalid access method to the Docker Daemon"),
            ),
        )
    }
}

/// The host platform, as far as the pipeline's decisions depend on it.
#[derive(Debug, Clone, Copy, PartialEq, Eq, Structural)]
pub enum HostOs {
    /// A Linux host.
    Linux,
    /// A macOS host.
    MacOs,
    /// A Windows host.
    Windows,
}

/// Where the engine's trust-configuration document lives on this
/// platform.  `base` is the OS-specific base directory (the home
/// directory on macOS, the program-data directory on Windows; unused on
/// Linux, whose path is fixed).
pub fn get_daemon_json_path(os: &HostOs, base: &String) -> (r: String)
    ensures
        os is Linux ==> r@ == "/etc/docker/daemon.json"@,
        os is MacOs ==> r@ == base@ + "/.docker/daemon.json"@,
        os is Windows ==> r@ == base@ + "\\Docker\\config\\daemon.json"@,
{
    match os {
        HostOs::Linux => String::from_str("/etc/docker/daemon.json"),
        HostOs::MacOs => base.clone().concat("/.docker/daemon.json"),
        HostOs::Windows => base.clone().concat("\\Docker\\config\\daemon.json"),
    }
}

/// One command the shell runs to restart the engine: the program and its
/// arguments.
pub struct RestartCommand {
    /// The program's name.
    pub program: String,
    /// Its arguments, in order.
    pub args: Vec<String>,
}

/// The commands restarting the engine on this platform, in order.
pub open spec fn restart_commands_spec(os: HostOs) -> Seq<(Seq<char>, Seq<Seq<char>>)> {
    match os {
        HostOs::Linux => seq![("sudo"@, seq!["systemctl"@, "restart"@, "docker"@])],
        HostOs::MacOs => seq![
            ("osascript"@, seq!["-e"@, "quit app \"Docker\""@]),
            ("open"@, seq!["-a"@, "Docker"@]),
        ],
        HostOs::Windows => seq![
            ("net"@, seq!["stop"@, "docker"@]),
            ("net"@, seq!["start"@, "docker"@]),
        ],
    }
}

/// The commands as the model sees them.
pub open spec fn restart_commands_view(cs: Seq<RestartCommand>) -> Seq<(Seq<char>, Seq<Seq<char>>)> {
    cs.map_values(|c: RestartCommand| (c.program@, c.args.deep_view()))
}

fn two_args(a: &str, b: &str) -> (r: Vec<String>)
    ensures
        r.deep_view() =~= seq![a@, b@],
{
    let mut v: Vec<String> = Vec::new();
    v.push(String::from_str(a));
    v.push(String::from_str(b));
    proof {
        assert(v.deep_view() =~= seq![a@, b@]);
    }
    v
}

fn three_args(a: &str, b: &str, c: &str) -> (r: Vec<String>)
    ensures
        r.deep_view() =~= seq![a@, b@, c@],
{
    let mut v: Vec<String> = Vec::new();
    v.push(String::from_str(a));
    v.push(String::from_str(b));
    v.push(String::from_str(c));
    proof {
        assert(v.deep_view() =~= seq![a@, b@, c@]);
    }
    v
}

/// Builds the restart command list for the platform.
pub fn restart_commands(os: &HostOs) -> (r: Vec<RestartCommand>)
    ensures
        restart_commands_view(r@) == restart_commands_spec(*os),
{
    let mut out: Vec<RestartCommand> = Vec::new();
    match os {
        HostOs::Linux => {
            out.push(
                RestartCommand {
                    program: String::from_str("sudo"),
                    args: three_args("systemctl", "restart", "docker"),
                },
            );
        },
        HostOs::MacOs => {
            out.push(
                RestartCommand {
                    program: String::from_str("osascript"),
                    args: two_args("-e", "quit app \"Docker\""),
                },
            );
            out.push(
                RestartCommand { program: String::from_str("open"), args: two_args("-a", "Docker") },
            );
        },
        HostOs::Windows => {
            out.push(
                RestartCommand { program: String::from_str("net"), args: two_args("stop", "docker") },
            );
            out.push(
                RestartCommand {
                    program: String::from_str("net"),
                    args: two_args("start", "docker"),
                },
            );
        },
    }
    proof {
        assert(restart_commands_view(out@) =~= restart_commands_spec(*os));
    }
    out
}

} // verus!
