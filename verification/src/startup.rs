//! Bringing the service up.

use vstd::prelude::*;

verus! {

/// The name of the environment variable that holds the connection string.
pub const DATABASE_URL: &'static str = "DATABASE_URL";

/// An IPv4 address and a port.
#[derive(Clone, Copy, Debug, PartialEq, Eq)]
pub struct Endpoint {
    pub octets: [u8; 4],
    pub port: u16,
}

/// The mathematical value of an [`Endpoint`].
pub struct EndpointView {
    pub octets: Seq<u8>,
    pub port: u16,
}

impl View for Endpoint {
    type V = EndpointView;

    open spec fn view(&self) -> EndpointView {
        EndpointView { octets: self.octets@, port: self.port }
    }
}

/// Where the service listens: port 3000 of the loopback interface,
/// 127.0.0.1.
pub open spec fn listen_endpoint() -> EndpointView {
    EndpointView { octets: seq![127u8, 0u8, 0u8, 1u8], port: 3000 }
}

/// Where the start of the process stands.
#[derive(Clone, Copy, Debug, PartialEq, Eq, Structural)]
pub enum StartupState {
    /// Nothing has been done yet.
    Initial,
    /// The connection string has been asked of the environment.
    ReadingConfig,
    /// The pool is being established.
    Connecting,
    /// The listener has been asked to bind and serve.
    Serving,
    /// The process is to end.
    Stopped,
}

/// Why the process is to be ended at once.
#[derive(Clone, Copy, Debug, PartialEq, Eq, Structural)]
pub enum StartupFault {
    /// The connection string is missing from the environment, or is not
    /// valid text.
    MissingConfig,
    /// No pool could be established with the connection string.
    PoolUnavailable,
    /// The address could not be bound.
    BindFailed,
    /// Serving ended with an error.
    ServeFailed,
    /// The driver reported something that had not been asked for.
    OutOfTurn,
}

/// What the driver reports back while the process starts.
#[derive(Clone, Debug, PartialEq, Eq)]
pub enum StartupEvent {
    /// The process has begun.
    Launched,
    /// The value of the variable that was asked for; `None` if it is missing
    /// or not valid text.
    Config(Option<String>),
    /// The pool is established.
    Connected,
    /// The pool could not be established.
    ConnectFailed,
    /// The address could not be bound.
    BindFailed,
    /// Serving ended with an error.
    ServeFailed,
    /// Serving ended without one.
    ServeEnded,
}

/// What the driver is told to do next.
#[derive(Clone, Debug, PartialEq, Eq)]
pub enum StartupAction {
    /// Read the environment variable `variable`.
    ReadConfig { variable: &'static str },
    /// Establish the pool with the connection string `url`.
    Connect { url: String },
    /// Bind this endpoint, register the routes and serve until serving ends.
    Serve(Endpoint),
    /// End the process at once, as a failure.
    Abort(StartupFault),
    /// End the process normally.
    Exit,
}

/// The mathematical value of a [`StartupEvent`].
pub enum StartupEventView {
    Launched,
    Config(Option<Seq<char>>),
    Connected,
    ConnectFailed,
    BindFailed,
    ServeFailed,
    ServeEnded,
}

/// The mathematical value of a [`StartupAction`].
pub enum StartupActionView {
    ReadConfig { variable: Seq<char> },
    Connect { url: Seq<char> },
    Serve(EndpointView),
    Abort(StartupFault),
    Exit,
}

impl View for StartupEvent {
    type V = StartupEventView;

    open spec fn view(&self) -> StartupEventView {
        match *self {
            StartupEvent::Launched => StartupEventView::Launched,
            StartupEvent::Config(Some(value)) => StartupEventView::Config(Some(value@)),
            StartupEvent::Config(None) => StartupEventView::Config(None),
            StartupEvent::Connected => StartupEventView::Connected,
            StartupEvent::ConnectFailed => StartupEventView::ConnectFailed,
            StartupEvent::BindFailed => StartupEventView::BindFailed,
            StartupEvent::ServeFailed => StartupEventView::ServeFailed,
            StartupEvent::ServeEnded => StartupEventView::ServeEnded,
        }
    }
}

impl View for StartupAction {
    type V = StartupActionView;

    open spec fn view(&self) -> StartupActionView {
        match *self {
            StartupAction::ReadConfig { variable } => StartupActionView::ReadConfig {
                variable: variable@,
            },
            StartupAction::Connect { url } => StartupActionView::Connect { url: url@ },
            StartupAction::Serve(endpoint) => StartupActionView::Serve(endpoint@),
            StartupAction::Abort(fault) => StartupActionView::Abort(fault),
            StartupAction::Exit => StartupActionView::Exit,
        }
    }
}

/// The start of the process as a transition: from where it stands and what
/// the driver reports, to where it stands next and what is to be done.
///
/// The steps come in one order: read the connection string, establish the
/// pool, then bind and serve. Any failure ends the process at once; nothing
/// is tried again and nothing is skipped.
pub open spec fn startup_step(state: StartupState, event: StartupEventView) -> (
    StartupState,
    StartupActionView,
) {
    match (state, event) {
        (StartupState::Initial, StartupEventView::Launched) => (
            StartupState::ReadingConfig,
            StartupActionView::ReadConfig { variable: DATABASE_URL@ },
        ),
        (StartupState::ReadingConfig, StartupEventView::Config(Some(url))) => (
            StartupState::Connecting,
            StartupActionView::Connect { url },
        ),
        (StartupState::ReadingConfig, StartupEventView::Config(None)) => (
            StartupState::Stopped,
            StartupActionView::Abort(StartupFault::MissingConfig),
        ),
        (StartupState::Connecting, StartupEventView::Connected) => (
            StartupState::Serving,
            StartupActionView::Serve(listen_endpoint()),
        ),
        (StartupState::Connecting, StartupEventView::ConnectFailed) => (
            StartupState::Stopped,
            StartupActionView::Abort(StartupFault::PoolUnavailable),
        ),
        (StartupState::Serving, StartupEventView::BindFailed) => (
            StartupState::Stopped,
            StartupActionView::Abort(StartupFault::BindFailed),
        ),
        (StartupState::Serving, StartupEventView::ServeFailed) => (
            StartupState::Stopped,
            StartupActionView::Abort(StartupFault::ServeFailed),
        ),
        (StartupState::Serving, StartupEventView::ServeEnded) => (
            StartupState::Stopped,
            StartupActionView::Exit,
        ),
        _ => (StartupState::Stopped, StartupActionView::Abort(StartupFault::OutOfTurn)),
    }
}

/// One step of the start of the process.
pub fn startup(state: StartupState, event: StartupEvent) -> (next: (StartupState, StartupAction))
    ensures
        (next.0, next.1@) == startup_step(state, event@),
{
    match (state, event) {
        (StartupState::Initial, StartupEvent::Launched) => (
            StartupState::ReadingConfig,
            StartupAction::ReadConfig { variable: DATABASE_URL },
        ),
        (StartupState::ReadingConfig, StartupEvent::Config(Some(url))) => (
            StartupState::Connecting,
            StartupAction::Connect { url },
        ),
        (StartupState::ReadingConfig, StartupEvent::Config(None)) => (
            StartupState::Stopped,
            StartupAction::Abort(StartupFault::MissingConfig),
        ),
        (StartupState::Connecting, StartupEvent::Connected) => {
            let endpoint = Endpoint { octets: [127, 0, 0, 1], port: 3000 };
            assert(endpoint@.octets =~= listen_endpoint().octets);
            (StartupState::Serving, StartupAction::Serve(endpoint))
        },
        (StartupState::Connecting, StartupEvent::ConnectFailed) => (
            StartupState::Stopped,
            StartupAction::Abort(StartupFault::PoolUnavailable),
        ),
        (StartupState::Serving, StartupEvent::BindFailed) => (
            StartupState::Stopped,
            StartupAction::Abort(StartupFault::BindFailed),
        ),
        (StartupState::Serving, StartupEvent::ServeFailed) => (
            StartupState::Stopped,
            StartupAction::Abort(StartupFault::ServeFailed),
        ),
        (StartupState::Serving, StartupEvent::ServeEnded) => (
            StartupState::Stopped,
            StartupAction::Exit,
        ),
        _ => (StartupState::Stopped, StartupAction::Abort(StartupFault::OutOfTurn)),
    }
}

/// How far along the start is: the number of events after which it can
/// stand in `state`.
pub open spec fn stage(state: StartupState) -> nat {
    match state {
        StartupState::Initial => 0,
        StartupState::ReadingConfig => 1,
        StartupState::Connecting => 2,
        StartupState::Serving => 3,
        StartupState::Stopped => 4,
    }
}

/// Where the start stands after the first `n` of `events`, beginning from
/// [`StartupState::Initial`].
pub open spec fn startup_state_after(events: Seq<StartupEventView>, n: nat) -> StartupState
    recommends
        n <= events.len(),
    decreases n,
{
    if n == 0 {
        StartupState::Initial
    } else {
        startup_step(startup_state_after(events, (n - 1) as nat), events[n - 1]).0
    }
}

/// What the driver is told to do when it reports `events[i]`, after the
/// events before it.
pub open spec fn startup_action_at(events: Seq<StartupEventView>, i: nat) -> StartupActionView
    recommends
        i < events.len(),
{
    startup_step(startup_state_after(events, i), events[i as int]).1
}

/// What the process finds around it when it starts.
pub struct Surroundings {
    /// The value of the variable [`DATABASE_URL`]; `None` if it is missing
    /// or not valid text.
    pub database_url: Option<Seq<char>>,
    /// Whether a pool can be established with that value.
    pub pool_opens: bool,
    /// Whether the listening address can be bound.
    pub port_binds: bool,
    /// Whether serving, once begun, ends with an error.
    pub serving_fails: bool,
}

/// The event that a driver reports after it has carried out `action` in
/// `env`. Only the variable [`DATABASE_URL`] holds the connection string, and
/// only that string opens the pool.
pub open spec fn reported(env: Surroundings, action: StartupActionView) -> StartupEventView {
    match action {
        StartupActionView::ReadConfig { variable } => StartupEventView::Config(
            if variable == DATABASE_URL@ {
                env.database_url
            } else {
                None
            },
        ),
        StartupActionView::Connect { url } => if env.database_url == Some(url) && env.pool_opens {
            StartupEventView::Connected
        } else {
            StartupEventView::ConnectFailed
        },
        StartupActionView::Serve(endpoint) => if !env.port_binds {
            StartupEventView::BindFailed
        } else if env.serving_fails {
            StartupEventView::ServeFailed
        } else {
            StartupEventView::ServeEnded
        },
        _ => StartupEventView::Launched,
    }
}

/// Everything the driver is told to do, in order, when the start stands in
/// `state`, is given `event` and then runs in `env` for at most `fuel`
/// further steps, up to and including the order to end the process.
pub open spec fn launch(
    env: Surroundings,
    state: StartupState,
    event: StartupEventView,
    fuel: nat,
) -> Seq<StartupActionView>
    decreases fuel,
{
    let (next, action) = startup_step(state, event);
    if action is Abort || action is Exit || fuel == 0 {
        seq![action]
    } else {
        seq![action] + launch(env, next, reported(env, action), (fuel - 1) as nat)
    }
}

/// Everything the driver is told to do, in order, when the process starts in
/// `env`.
pub open spec fn launched(env: Surroundings) -> Seq<StartupActionView> {
    launch(env, StartupState::Initial, StartupEventView::Launched, 3)
}

/// Every step takes the start exactly one stage further, or ends the
/// process. Once the process is to end, any further report is out of turn.
pub proof fn law_startup_advances(state: StartupState, event: StartupEventView)
    ensures
        state != StartupState::Stopped ==> {
            let next = startup_step(state, event).0;
            next == StartupState::Stopped || stage(next) == stage(state) + 1
        },
        state == StartupState::Stopped ==> startup_step(state, event) == (
            StartupState::Stopped,
            StartupActionView::Abort(StartupFault::OutOfTurn),
        ),
        startup_step(state, event).1 is Abort || startup_step(state, event).1 is Exit
            <==> startup_step(state, event).0 == StartupState::Stopped,
{
}

/// After `n` events the start is either over or stands exactly `n` stages
/// along; after four it is over, whatever the events were.
pub proof fn law_stopped_within_four(events: Seq<StartupEventView>, n: nat)
    requires
        n <= events.len(),
    ensures
        startup_state_after(events, n) == StartupState::Stopped || stage(
            startup_state_after(events, n),
        ) == n,
        n >= 4 ==> startup_state_after(events, n) == StartupState::Stopped,
    decreases n,
{
    if n > 0 {
        law_stopped_within_four(events, (n - 1) as nat);
    }
}

/// Once the process is to end, it stays so.
pub proof fn law_stopped_is_final(events: Seq<StartupEventView>, m: nat, n: nat)
    requires
        m <= n <= events.len(),
        startup_state_after(events, m) == StartupState::Stopped,
    ensures
        startup_state_after(events, n) == StartupState::Stopped,
    decreases n,
{
    if m < n {
        law_stopped_is_final(events, m, (n - 1) as nat);
    }
}

/// Whatever the driver reports, in whatever order: the variable that is read
/// is [`DATABASE_URL`], and it is read first; the pool is established only
/// with the value that was read; the listener is bound only third, only at
/// [`listen_endpoint`], and only after the connection string was there and
/// the pool was established with it. After the order to end the process no
/// further work is asked for.
pub proof fn law_no_listener_without_pool(events: Seq<StartupEventView>, i: nat, j: nat)
    requires
        i < events.len(),
        j < events.len(),
    ensures
        startup_action_at(events, i) is ReadConfig ==> i == 0 && startup_action_at(events, i) == (
            StartupActionView::ReadConfig { variable: DATABASE_URL@ }
        ),
        startup_action_at(events, i) is Connect ==> i == 1 && events[1] == StartupEventView::Config(
            Some(startup_action_at(events, i)->url),
        ),
        startup_action_at(events, i) is Serve ==> i == 2 && events[0] is Launched
            && events[1] is Config && events[1]->Config_0 is Some && events[2] is Connected
            && startup_action_at(events, i) == StartupActionView::Serve(listen_endpoint()),
        (startup_action_at(events, i) is Abort || startup_action_at(events, i) is Exit) && i < j
            ==> startup_action_at(events, j) == StartupActionView::Abort(StartupFault::OutOfTurn),
{
    law_stopped_within_four(events, i);
    if startup_action_at(events, i) is Serve {
        assert(startup_state_after(events, 0) == StartupState::Initial);
        assert(startup_state_after(events, 1) == startup_step(StartupState::Initial, events[0]).0);
        assert(startup_state_after(events, 2) == startup_step(
            startup_state_after(events, 1),
            events[1],
        ).0);
    }
    if (startup_action_at(events, i) is Abort || startup_action_at(events, i) is Exit) && i < j {
        assert(startup_state_after(events, i + 1) == StartupState::Stopped);
        law_stopped_is_final(events, i + 1, j);
    }
}

/// A process that starts without a usable connection string, or with one
/// that opens no pool, is told to end at once, as a failure, and is never
/// told to bind the listener.
pub proof fn law_startup_fails_fast(env: Surroundings)
    requires
        env.database_url is None || !env.pool_opens,
    ensures
        env.database_url is None ==> launched(env) == seq![
            StartupActionView::ReadConfig { variable: DATABASE_URL@ },
            StartupActionView::Abort(StartupFault::MissingConfig),
        ],
        env.database_url is Some ==> launched(env) == seq![
            StartupActionView::ReadConfig { variable: DATABASE_URL@ },
            StartupActionView::Connect { url: env.database_url->0 },
            StartupActionView::Abort(StartupFault::PoolUnavailable),
        ],
        forall|i: int| 0 <= i < launched(env).len() ==> !(#[trigger] launched(env)[i] is Serve),
        launched(env).last() is Abort,
{
    reveal_with_fuel(launch, 4);
    if env.database_url is None {
        assert(launched(env) =~= seq![
            StartupActionView::ReadConfig { variable: DATABASE_URL@ },
            StartupActionView::Abort(StartupFault::MissingConfig),
        ]);
    } else {
        assert(launched(env) =~= seq![
            StartupActionView::ReadConfig { variable: DATABASE_URL@ },
            StartupActionView::Connect { url: env.database_url->0 },
            StartupActionView::Abort(StartupFault::PoolUnavailable),
        ]);
    }
}

/// A process that finds its connection string and opens its pool is told to
/// bind [`listen_endpoint`] and serve, and then to end: as a failure if the
/// address could not be bound or serving ended with an error, normally
/// otherwise.
pub proof fn law_startup_serves(env: Surroundings)
    requires
        env.database_url is Some,
        env.pool_opens,
    ensures
        launched(env) == seq![
            StartupActionView::ReadConfig { variable: DATABASE_URL@ },
            StartupActionView::Connect { url: env.database_url->0 },
            StartupActionView::Serve(listen_endpoint()),
            if !env.port_binds {
                StartupActionView::Abort(StartupFault::BindFailed)
            } else if env.serving_fails {
                StartupActionView::Abort(StartupFault::ServeFailed)
            } else {
                StartupActionView::Exit
            },
        ],
{
    reveal_with_fuel(launch, 4);
    assert(launched(env) =~= seq![
        StartupActionView::ReadConfig { variable: DATABASE_URL@ },
        StartupActionView::Connect { url: env.database_url->0 },
        StartupActionView::Serve(listen_endpoint()),
        if !env.port_binds {
            StartupActionView::Abort(StartupFault::BindFailed)
        } else if env.serving_fails {
            StartupActionView::Abort(StartupFault::ServeFailed)
        } else {
            StartupActionView::Exit
        },
    ]);
}

} // verus!
