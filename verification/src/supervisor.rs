//! Ownership of the backend process: whether to spawn it, how to launch it,
//! and the two-phase shutdown that first asks the backend to exit and then
//! kills any process this shell owns.

use vstd::prelude::*;
use vstd::string::*;
use crate::endpoint::exit_request_text;
use crate::endpoint::exit_request;
use crate::strutil::dec_digits;
use crate::strutil::push_decimal;

verus! {

/// Whether startup launches a backend of its own or leans on one that is
/// already listening.
#[derive(PartialEq, Eq, Structural, Debug)]
pub enum SpawnDecision {
    /// A listener is already there: supervise nothing, kill nothing on exit.
    UseExisting,
    /// No listener yet: spawn the backend and own its handle.
    SpawnNew,
}

/// Decides whether the backend must be spawned: only when nothing is
/// reachable at the configured endpoint yet.
pub fn decide_spawn(already_reachable: bool) -> (d: SpawnDecision)
    ensures
        d == (if already_reachable {
            SpawnDecision::UseExisting
        } else {
            SpawnDecision::SpawnNew
        }),
{
    if already_reachable {
        SpawnDecision::UseExisting
    } else {
        SpawnDecision::SpawnNew
    }
}

/// The command that launches the backend, fully decided: what to run, with
/// which arguments, and which environment values carry the endpoint.
pub struct SpawnPlan {
    /// True for the development command (interpreter plus entry script).
    pub dev_mode: bool,
    /// The interpreter in development, the bundled executable's logical name
    /// otherwise.
    pub program: String,
    /// The entry script in development, nothing otherwise.
    pub args: Vec<String>,
    /// Name of the environment variable that carries the bind host.
    pub env_host_var: String,
    /// The bind host handed to the backend.
    pub env_host_val: String,
    /// Name of the environment variable that carries the port.
    pub env_port_var: String,
    /// The port handed to the backend, in decimal.
    pub env_port_val: String,
    /// Whether the child's standard streams are redirected to a null sink,
    /// so a console-less launch cannot abort on a broken stream.
    pub redirect_stdio: bool,
}

/// Builds the launch command for the backend: in development an interpreter
/// (overridable through the environment) running the entry script with its
/// streams redirected away, in production the bundled companion executable;
/// either way the endpoint is injected as two environment variables.
pub fn spawn_plan(dev_mode: bool, interpreter: Option<String>, bind_host: &str, port: u16) -> (p:
    SpawnPlan)
    ensures
        p.dev_mode == dev_mode,
        dev_mode ==> p.program@ == (match interpreter {
            Some(i) => i@,
            None => "python"@,
        }),
        !dev_mode ==> p.program@ == "IdleNPUWaker"@,
        p.args@.len() == (if dev_mode {
            1int
        } else {
            0int
        }),
        dev_mode ==> p.args@[0]@ == "main.py"@,
        p.env_host_var@ == "IDLE_NPU_HOST"@,
        p.env_host_val@ == bind_host@,
        p.env_port_var@ == "IDLE_NPU_PORT"@,
        p.env_port_val@ == dec_digits(port as nat),
        p.redirect_stdio == dev_mode,
{
    let program = if dev_mode {
        match interpreter {
            Some(i) => i,
            None => String::from_str("python"),
        }
    } else {
        String::from_str("IdleNPUWaker")
    };
    let mut args: Vec<String> = Vec::new();
    if dev_mode {
        args.push(String::from_str("main.py"));
    }
    let mut port_text = String::new();
    push_decimal(&mut port_text, port as u64);
    proof {
        assert(port_text@ =~= dec_digits(port as nat));
    }
    SpawnPlan {
        dev_mode,
        program,
        args,
        env_host_var: String::from_str("IDLE_NPU_HOST"),
        env_host_val: String::from_str(bind_host),
        env_port_var: String::from_str("IDLE_NPU_PORT"),
        env_port_val: port_text,
        redirect_stdio: dev_mode,
    }
}

/// Owns the backend's process handle: empty until a spawn succeeds, empty
/// again once the process was killed or exited.
pub struct BackendSupervisor {
    child: Option<u64>,
}

/// Everything shutdown asks of the surrounding process machinery: write the
/// cooperative request to the endpoint best-effort, then kill the listed
/// handle, if any.
pub struct ShutdownPlan {
    /// The cooperative exit request, written once to the backend's port;
    /// any connection failure is ignored.
    pub cooperative_request: String,
    /// The handle to terminate forcefully, taken out of the supervisor.
    pub kill: Option<u64>,
}

impl BackendSupervisor {
    /// The handle of the owned backend process, if one is owned.
    pub closed spec fn owned(&self) -> Option<u64> {
        self.child
    }

    /// A supervisor that owns nothing yet.
    pub fn new() -> (s: BackendSupervisor)
        ensures
            s.owned() is None,
    {
        BackendSupervisor { child: None }
    }

    /// Takes ownership of a freshly spawned backend. The slot must be empty:
    /// at most one backend process is ever owned at a time.
    pub fn adopt(&mut self, handle: u64)
        requires
            old(self).owned() is None,
        ensures
            final(self).owned() == Some(handle),
    {
        self.child = Some(handle);
    }

    /// How one shutdown call relates the supervisor before it, the
    /// supervisor after it, and the handle it asks to have killed.
    pub open spec fn shutdown_step(pre: BackendSupervisor, post: BackendSupervisor, kill: Option<
        u64,
    >) -> bool {
        post.owned() is None && kill == pre.owned()
    }

    /// Shuts the backend down: always emits the cooperative exit request for
    /// the endpoint, and takes the owned handle out of the slot so it is
    /// killed exactly once. With no handle owned (an external backend, or a
    /// second call), nothing is killed.
    pub fn shutdown(&mut self, ui_host: &str, port: u16) -> (p: ShutdownPlan)
        ensures
            p.cooperative_request@ == exit_request_text(ui_host@, port),
            Self::shutdown_step(*old(self), *final(self), p.kill),
    {
        let request = exit_request(ui_host, port);
        let kill = self.child.take();
        ShutdownPlan { cooperative_request: request, kill }
    }
}

/// The quit path shared by the tray's quit entry and the UI's exit command:
/// records exit intent, then shuts the backend down. The caller performs
/// the returned plan and terminates the process with code zero.
pub fn exit_app(
    exit: &mut crate::exit_intent::ExitState,
    supervisor: &mut BackendSupervisor,
    ui_host: &str,
    port: u16,
) -> (p: ShutdownPlan)
    ensures
        final(exit).exit_requested(),
        p.cooperative_request@ == exit_request_text(ui_host@, port),
        BackendSupervisor::shutdown_step(*old(supervisor), *final(supervisor), p.kill),
{
    exit.request_exit();
    supervisor.shutdown(ui_host, port)
}

/// Shutdown is idempotent: a second shutdown right after a first finds the
/// slot empty, kills nothing, and in particular never asks to kill the same
/// handle twice.
pub proof fn lemma_shutdown_idempotent(
    s0: BackendSupervisor,
    s1: BackendSupervisor,
    k1: Option<u64>,
    s2: BackendSupervisor,
    k2: Option<u64>,
)
    requires
        BackendSupervisor::shutdown_step(s0, s1, k1),
        BackendSupervisor::shutdown_step(s1, s2, k2),
    ensures
        k2 is None,
        s2.owned() is None,
{
}

} // verus!
