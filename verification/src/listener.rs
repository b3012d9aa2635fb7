//! The listener: startup sequencing, the perpetual accept loop, and the
//! dispatch of accepted connections to independent handler tasks.
//!
//! The listener itself performs no socket I/O. It decides: given its
//! current phase and the outcome the environment reports, it names the
//! next phase and the operation to perform. The caller resolves, binds,
//! accepts and spawns; the transition table here fixes the policy —
//! startup failures are fatal, accept failures are absorbed, handler
//! outcomes are invisible.

use vstd::prelude::*;
use vstd::string::StringExecFns;

use crate::addr::{
    bind_addr_spec, check_host, decimal_value, format_bind_addr, host_of,
    lemma_bind_addr_round_trip, port_str_of, valid_bind_addr, valid_host,
};
use crate::config::ServerConfig;
use crate::keys::KeyManager;

verus! {

/// The fatal errors `start` can report. Failures after startup never
/// surface here: accept errors are absorbed by the loop, and handler
/// errors stay inside their task.
#[derive(Clone, Copy, PartialEq, Eq, Debug)]
pub enum StartError {
    /// The configured host and port do not form a resolvable address.
    InvalidAddress,
    /// The socket could not be bound to the resolved address.
    BindFailed,
}

impl StartError {
    /// The descriptive message reported for this failure at `addr`: it
    /// names the address that could not be resolved or bound.
    pub fn describe(&self, addr: &str) -> (msg: String)
        ensures
            *self == StartError::InvalidAddress ==> msg@ == addr@ + " is not a valid address"@,
            *self == StartError::BindFailed ==> msg@ == "Error binding to <"@ + addr@ + ">"@,
    {
        match self {
            StartError::InvalidAddress => addr.to_owned().concat(" is not a valid address"),
            StartError::BindFailed => {
                let msg = "Error binding to <".to_owned().concat(addr).concat(">");
                proof {
                    assert(msg@ =~= "Error binding to <"@ + addr@ + ">"@);
                }
                msg
            },
        }
    }
}

/// The phases of the listener's life. `Accepting` is the non-terminal
/// loop phase; only a startup failure reaches `Terminated`.
#[derive(Clone, Copy, PartialEq, Eq, Debug)]
pub enum ListenerPhase {
    Uninitialized,
    Resolving,
    Binding,
    Accepting,
    Terminated,
}

/// What the environment reports to the listener: the outcome of the
/// resolution, bind and accept operations it was asked to perform.
#[derive(Clone, Copy, PartialEq, Eq, Debug)]
pub enum ListenerEvent {
    StartRequested,
    ResolveSucceeded,
    ResolveFailed,
    BindSucceeded,
    BindFailed,
    AcceptSucceeded,
    AcceptFailed,
}

/// What the listener asks the environment to do next.
#[derive(Clone, Copy, PartialEq, Eq, Debug)]
pub enum ListenerAction {
    /// Resolve the configured address.
    Resolve,
    /// Bind the socket to the resolved address.
    Bind,
    /// Wait for the next connection.
    Accept,
    /// Hand the accepted connection to a new task, then wait again.
    Dispatch,
    /// Abort startup and report the fatal error to the caller.
    FailStartup(StartError),
    /// The event does not belong to the current phase; do nothing.
    Ignore,
}

/// The listener's transition table. Resolution and bind failures are
/// fatal and terminate the listener; every event that arrives while
/// accepting leaves the listener accepting.
pub open spec fn listener_step_spec(phase: ListenerPhase, event: ListenerEvent) -> (
    ListenerPhase,
    ListenerAction,
) {
    match (phase, event) {
        (ListenerPhase::Uninitialized, ListenerEvent::StartRequested) => (
            ListenerPhase::Resolving,
            ListenerAction::Resolve,
        ),
        (ListenerPhase::Resolving, ListenerEvent::ResolveSucceeded) => (
            ListenerPhase::Binding,
            ListenerAction::Bind,
        ),
        (ListenerPhase::Resolving, ListenerEvent::ResolveFailed) => (
            ListenerPhase::Terminated,
            ListenerAction::FailStartup(StartError::InvalidAddress),
        ),
        (ListenerPhase::Binding, ListenerEvent::BindSucceeded) => (
            ListenerPhase::Accepting,
            ListenerAction::Accept,
        ),
        (ListenerPhase::Binding, ListenerEvent::BindFailed) => (
            ListenerPhase::Terminated,
            ListenerAction::FailStartup(StartError::BindFailed),
        ),
        (ListenerPhase::Accepting, ListenerEvent::AcceptSucceeded) => (
            ListenerPhase::Accepting,
            ListenerAction::Dispatch,
        ),
        (ListenerPhase::Accepting, ListenerEvent::AcceptFailed) => (
            ListenerPhase::Accepting,
            ListenerAction::Accept,
        ),
        _ => (phase, ListenerAction::Ignore),
    }
}

/// One step of the listener: the current phase and the reported event
/// decide the next phase and the next operation, per the transition table.
pub fn listener_step(phase: ListenerPhase, event: ListenerEvent) -> (r: (
    ListenerPhase,
    ListenerAction,
))
    ensures
        r == listener_step_spec(phase, event),
{
    match (phase, event) {
        (ListenerPhase::Uninitialized, ListenerEvent::StartRequested) => (
            ListenerPhase::Resolving,
            ListenerAction::Resolve,
        ),
        (ListenerPhase::Resolving, ListenerEvent::ResolveSucceeded) => (
            ListenerPhase::Binding,
            ListenerAction::Bind,
        ),
        (ListenerPhase::Resolving, ListenerEvent::ResolveFailed) => (
            ListenerPhase::Terminated,
            ListenerAction::FailStartup(StartError::InvalidAddress),
        ),
        (ListenerPhase::Binding, ListenerEvent::BindSucceeded) => (
            ListenerPhase::Accepting,
            ListenerAction::Accept,
        ),
        (ListenerPhase::Binding, ListenerEvent::BindFailed) => (
            ListenerPhase::Terminated,
            ListenerAction::FailStartup(StartError::BindFailed),
        ),
        (ListenerPhase::Accepting, ListenerEvent::AcceptSucceeded) => (
            ListenerPhase::Accepting,
            ListenerAction::Dispatch,
        ),
        (ListenerPhase::Accepting, ListenerEvent::AcceptFailed) => (
            ListenerPhase::Accepting,
            ListenerAction::Accept,
        ),
        _ => (phase, ListenerAction::Ignore),
    }
}

/// The phase the listener is in after a sequence of events, starting
/// from `phase`.
pub open spec fn run_spec(phase: ListenerPhase, events: Seq<ListenerEvent>) -> ListenerPhase
    decreases events.len(),
{
    if events.len() == 0 {
        phase
    } else {
        run_spec(listener_step_spec(phase, events[0]).0, events.drop_first())
    }
}

/// A failed resolution or bind is fatal: the step on the failure event
/// terminates the listener and reports the matching startup error, and a
/// terminated listener never changes phase or acts again.
pub proof fn lemma_startup_failure_is_fatal()
    ensures
        listener_step_spec(ListenerPhase::Resolving, ListenerEvent::ResolveFailed) == (
            ListenerPhase::Terminated,
            ListenerAction::FailStartup(StartError::InvalidAddress),
        ),
        listener_step_spec(ListenerPhase::Binding, ListenerEvent::BindFailed) == (
            ListenerPhase::Terminated,
            ListenerAction::FailStartup(StartError::BindFailed),
        ),
        forall|e: ListenerEvent|
            #[trigger] listener_step_spec(ListenerPhase::Terminated, e) == (
                ListenerPhase::Terminated,
                ListenerAction::Ignore,
            ),
{
}

/// Once terminated, the listener stays terminated, whatever events
/// follow: startup failures are final.
pub proof fn lemma_terminated_is_final(events: Seq<ListenerEvent>)
    ensures
        run_spec(ListenerPhase::Terminated, events) == ListenerPhase::Terminated,
    decreases events.len(),
{
    if events.len() > 0 {
        lemma_terminated_is_final(events.drop_first());
    }
}

/// An accept failure never terminates the loop: the listener stays in
/// `Accepting` and asks for the next accept, and a subsequent successful
/// accept is dispatched exactly as if no failure had occurred.
pub proof fn lemma_accept_failure_is_transient()
    ensures
        listener_step_spec(ListenerPhase::Accepting, ListenerEvent::AcceptFailed) == (
            ListenerPhase::Accepting,
            ListenerAction::Accept,
        ),
        listener_step_spec(
            listener_step_spec(ListenerPhase::Accepting, ListenerEvent::AcceptFailed).0,
            ListenerEvent::AcceptSucceeded,
        ) == (ListenerPhase::Accepting, ListenerAction::Dispatch),
{
}

/// The accept loop is perpetual: no sequence of events moves the
/// listener out of `Accepting`. Only process exit ends it.
pub proof fn lemma_accept_loop_is_perpetual(events: Seq<ListenerEvent>)
    ensures
        run_spec(ListenerPhase::Accepting, events) == ListenerPhase::Accepting,
    decreases events.len(),
{
    if events.len() > 0 {
        lemma_accept_loop_is_perpetual(events.drop_first());
    }
}

/// The accept loop is never entered without a successful bind: every run
/// from a phase outside the loop that ends inside it contains a
/// `BindSucceeded` event. In particular, when the bind fails, the loop
/// is never entered.
pub proof fn lemma_accepting_needs_bind(phase: ListenerPhase, events: Seq<ListenerEvent>)
    requires
        phase != ListenerPhase::Accepting,
        run_spec(phase, events) == ListenerPhase::Accepting,
    ensures
        exists|i: int| 0 <= i < events.len() && events[i] == ListenerEvent::BindSucceeded,
    decreases events.len(),
{
    if events.len() > 0 {
        let next = listener_step_spec(phase, events[0]).0;
        if events[0] == ListenerEvent::BindSucceeded {
            assert(events[0] == ListenerEvent::BindSucceeded);
        } else {
            assert(next != ListenerPhase::Accepting);
            lemma_accepting_needs_bind(next, events.drop_first());
            let i = choose|i: int|
                0 <= i < events.drop_first().len() && events.drop_first()[i]
                    == ListenerEvent::BindSucceeded;
            assert(events[i + 1] == ListenerEvent::BindSucceeded);
        }
    }
}

/// The actions a run takes, one per event, starting from `phase`.
pub open spec fn run_actions_spec(phase: ListenerPhase, events: Seq<ListenerEvent>) -> Seq<
    ListenerAction,
>
    decreases events.len(),
{
    if events.len() == 0 {
        Seq::empty()
    } else {
        seq![listener_step_spec(phase, events[0]).1] + run_actions_spec(
            listener_step_spec(phase, events[0]).0,
            events.drop_first(),
        )
    }
}

/// How many of the actions hand a connection to a new task.
pub open spec fn count_dispatches(actions: Seq<ListenerAction>) -> nat
    decreases actions.len(),
{
    if actions.len() == 0 {
        0
    } else {
        (if actions[0] == ListenerAction::Dispatch {
            1nat
        } else {
            0nat
        }) + count_dispatches(actions.drop_first())
    }
}

/// How many of the events report a successfully accepted connection.
pub open spec fn count_accepts(events: Seq<ListenerEvent>) -> nat
    decreases events.len(),
{
    if events.len() == 0 {
        0
    } else {
        (if events[0] == ListenerEvent::AcceptSucceeded {
            1nat
        } else {
            0nat
        }) + count_accepts(events.drop_first())
    }
}

/// Accepted connections and handler invocations correspond one to one:
/// over any run of the accept loop, the listener dispatches exactly as
/// many tasks as connections were accepted — no accepted connection is
/// dropped and none is handled twice, whatever failures arrive between.
pub proof fn lemma_each_accept_dispatches(events: Seq<ListenerEvent>)
    ensures
        count_dispatches(run_actions_spec(ListenerPhase::Accepting, events)) == count_accepts(
            events,
        ),
    decreases events.len(),
{
    if events.len() > 0 {
        let act0 = listener_step_spec(ListenerPhase::Accepting, events[0]).1;
        let next = listener_step_spec(ListenerPhase::Accepting, events[0]).0;
        let rest = run_actions_spec(next, events.drop_first());
        assert(next == ListenerPhase::Accepting);
        assert(act0 == ListenerAction::Dispatch <==> events[0] == ListenerEvent::AcceptSucceeded);
        lemma_each_accept_dispatches(events.drop_first());
        assert((seq![act0] + rest).drop_first() =~= rest);
        assert((seq![act0] + rest)[0] == act0);
    }
}

/// The outcome of one connection-handler task, as the task observes it
/// from inside. The listener is never told.
#[derive(Clone, Copy, PartialEq, Eq, Debug)]
pub enum TaskOutcome {
    Completed,
    Failed,
    Panicked,
}

/// What a handler task's outcome does to the listener's phase: nothing.
pub open spec fn absorb_outcome_spec(phase: ListenerPhase, outcome: TaskOutcome) -> ListenerPhase {
    phase
}

/// Absorbs a handler task's outcome. A handler that completes, fails or
/// panics leaves the listener exactly where it was: one client's failure
/// is contained within its own task.
pub fn absorb_task_outcome(phase: ListenerPhase, outcome: TaskOutcome) -> (next: ListenerPhase)
    ensures
        next == phase,
        next == absorb_outcome_spec(phase, outcome),
{
    phase
}

/// A handler task's outcome — completion, failure or panic — never
/// changes the listener's phase: while it is accepting, it goes on
/// accepting, and a later successful accept is still dispatched. One
/// client's failure never affects the loop or another connection.
pub proof fn lemma_handler_isolation(phase: ListenerPhase, outcome: TaskOutcome)
    ensures
        absorb_outcome_spec(phase, outcome) == phase,
        listener_step_spec(
            absorb_outcome_spec(ListenerPhase::Accepting, outcome),
            ListenerEvent::AcceptSucceeded,
        ) == (ListenerPhase::Accepting, ListenerAction::Dispatch),
{
}

/// The login server: the configuration and key manager, constructed once
/// and shared, by clone, with every connection task.
pub struct LoginServer {
    config: ServerConfig,
    rsa_manager: KeyManager,
}

/// One accepted connection's task: it exclusively owns its connection
/// (named here by an identifier; the stream itself stays with the caller)
/// and holds its own clones of the shared configuration and key manager.
/// Its lifetime is independent of the listener and of every other task.
pub struct ConnectionTask {
    conn_id: u64,
    config: ServerConfig,
    rsa_manager: KeyManager,
}

impl ConnectionTask {
    /// The identifier of the connection the task owns.
    pub closed spec fn conn_id_spec(&self) -> u64 {
        self.conn_id
    }

    /// The configuration clone the task holds.
    pub closed spec fn config_spec(&self) -> ServerConfig {
        self.config
    }

    /// The key-manager clone the task holds.
    pub closed spec fn keys_spec(&self) -> KeyManager {
        self.rsa_manager
    }

    pub fn get_conn_id(&self) -> (id: u64)
        ensures
            id == self.conn_id_spec(),
    {
        self.conn_id
    }

    pub fn get_config(&self) -> (cfg: &ServerConfig)
        ensures
            *cfg == self.config_spec(),
    {
        &self.config
    }

    pub fn get_key_manager(&self) -> (mgr: &KeyManager)
        ensures
            *mgr == self.keys_spec(),
    {
        &self.rsa_manager
    }

    /// Consumes the task and hands its connection identifier and its own
    /// clones of the shared state to the handler that will run it.
    pub fn into_parts(self) -> (parts: (u64, ServerConfig, KeyManager))
        ensures
            parts.0 == self.conn_id_spec(),
            parts.1 == self.config_spec(),
            parts.2 == self.keys_spec(),
    {
        (self.conn_id, self.config, self.rsa_manager)
    }
}

impl LoginServer {
    /// The shared configuration.
    pub closed spec fn config_spec(&self) -> ServerConfig {
        self.config
    }

    /// The shared key-manager handle.
    pub closed spec fn keys_spec(&self) -> KeyManager {
        self.rsa_manager
    }

    pub fn new(config: ServerConfig, rsa_manager: KeyManager) -> (server: LoginServer)
        ensures
            server.config_spec() == config,
            server.keys_spec() == rsa_manager,
    {
        LoginServer { config, rsa_manager }
    }

    pub fn get_config(&self) -> (cfg: &ServerConfig)
        ensures
            *cfg == self.config_spec(),
    {
        &self.config
    }

    pub fn get_key_manager(&self) -> (mgr: &KeyManager)
        ensures
            *mgr == self.keys_spec(),
    {
        &self.rsa_manager
    }

    /// The resolution step of `start`: validates the configured host and
    /// forms the `host:port` specification the socket layer binds to.
    /// Fails exactly on an empty host — the one configuration the library
    /// can reject before any socket is touched (none is touched here at
    /// all: the caller binds, and reports every further resolution verdict
    /// as an event). A produced specification is always well formed and
    /// splits back into exactly the configured host and port.
    pub fn bind_target(&self) -> (r: Result<String, StartError>)
        ensures
            valid_host(self.config_spec().ip_spec()) ==> (r matches Ok(a) && a@ == bind_addr_spec(
                self.config_spec().ip_spec(),
                self.config_spec().port_spec(),
            )),
            !valid_host(self.config_spec().ip_spec()) ==> r matches Err(
                StartError::InvalidAddress
            ),
            r matches Ok(a) ==> ({
                &&& valid_bind_addr(a@)
                &&& host_of(a@) == self.config_spec().ip_spec()
                &&& decimal_value(port_str_of(a@)) == self.config_spec().port_spec() as nat
            }),
    {
        let host = self.config.get_server_ip();
        if !check_host(host.as_str()) {
            return Err(StartError::InvalidAddress);
        }
        let port = self.config.get_login_port();
        let addr = format_bind_addr(host.as_str(), port);
        proof {
            lemma_bind_addr_round_trip(self.config_spec().ip_spec(), port);
        }
        Ok(addr)
    }

    /// The dispatch step: for one accepted connection, clone the shared
    /// configuration and key-manager handle into a task of its own. The
    /// clones are value-equal to the originals; the task is not tracked
    /// further by the listener.
    pub fn dispatch(&self, conn_id: u64) -> (task: ConnectionTask)
        ensures
            task.conn_id_spec() == conn_id,
            task.config_spec().value_eq(self.config_spec()),
            task.keys_spec().value_eq(self.keys_spec()),
    {
        ConnectionTask {
            conn_id,
            config: self.config.clone(),
            rsa_manager: self.rsa_manager.clone(),
        }
    }
}

/// Dispatched tasks are independent yet share the same values: two tasks
/// whose clones are value-equal to the server's shared state — as
/// `dispatch` guarantees of every task it produces — hold configuration
/// and key material value-equal to each other as well as to the source,
/// while owning different connections.
pub proof fn lemma_tasks_share_values(
    server: &LoginServer,
    t1: &ConnectionTask,
    t2: &ConnectionTask,
)
    requires
        t1.config_spec().value_eq(server.config_spec()),
        t1.keys_spec().value_eq(server.keys_spec()),
        t2.config_spec().value_eq(server.config_spec()),
        t2.keys_spec().value_eq(server.keys_spec()),
        t1.conn_id_spec() != t2.conn_id_spec(),
    ensures
        t1.config_spec().value_eq(t2.config_spec()),
        t1.keys_spec().value_eq(t2.keys_spec()),
        t1 != t2,
{
    assert(t1.conn_id_spec() != t2.conn_id_spec());
}

} // verus!
