use vstd::prelude::*;
use crate::config::ConnectionEndpoint;
use crate::discovery::{
    DiscoveryMessage, DiscoveryResponse, RESPONSE_CAPACITY, SOCKET_BUFFER_LEN, TOKEN_LEN, kept,
    wire_request,
};
use crate::retry::{RetryPolicy, bump, bumped};

verus! {

/// The stages of the discovery exchange, in the order they are passed.
#[derive(Clone, Copy, Debug, PartialEq, Eq, Structural)]
pub enum ConnectionState {
    Idle,
    Connecting,
    Connected,
    Writing,
    Written,
    Reading,
    Done,
    /// The retry policy ran out before the exchange was done.
    Abandoned,
}

/// The outcome of the operation that the last action asked for.
#[derive(Debug)]
pub enum ConnectionEvent {
    /// Whether the connection was made.
    ConnectResult(bool),
    /// How many bytes the write sent, or `None` where it failed.
    WriteResult(Option<usize>),
    /// What the read delivered, or `None` where it failed.
    ReadResult(Option<Vec<u8>>),
}

/// The operation that the caller is to perform next.
#[derive(Debug)]
pub enum ConnectionAction {
    Connect(ConnectionEndpoint),
    Write(Vec<u8>),
    /// Read once, at most this many bytes.
    Read(usize),
    /// The exchange is done; the response is in the manager.
    Finished,
    GiveUp,
}

pub open spec fn connect_ok(e: ConnectionEvent) -> bool {
    e matches ConnectionEvent::ConnectResult(true)
}

/// A write succeeds only where the whole message went out.
pub open spec fn write_ok(e: ConnectionEvent) -> bool {
    e matches ConnectionEvent::WriteResult(Some(n)) && n == TOKEN_LEN
}

pub open spec fn read_ok(e: ConnectionEvent) -> bool {
    e matches ConnectionEvent::ReadResult(Some(_))
}

/// The position of a stage in the exchange; an abandoned exchange has none.
pub open spec fn rank(s: ConnectionState) -> int {
    match s {
        ConnectionState::Idle => 0,
        ConnectionState::Connecting => 1,
        ConnectionState::Connected => 2,
        ConnectionState::Writing => 3,
        ConnectionState::Written => 4,
        ConnectionState::Reading => 5,
        ConnectionState::Done => 6,
        ConnectionState::Abandoned => -1,
    }
}

/// The decision-making part of a connection manager.
#[derive(Clone, Copy, Debug, PartialEq, Eq, Structural)]
pub struct ConnectionControl {
    pub state: ConnectionState,
    /// Failed attempts of the current stage (stops at the largest `u64`).
    pub failures: u64,
    pub policy: RetryPolicy,
}

impl ConnectionControl {
    pub open spec fn wf(self) -> bool {
        &&& (self.state is Connecting || self.state is Writing || self.state is Reading)
            ==> self.policy.allows_spec(self.failures)
        &&& self.state is Abandoned ==> !self.policy.allows_spec(self.failures)
    }

    /// Leaving a stage that has just succeeded for the next operation.
    pub open spec fn advanced(self) -> Self {
        match self.state {
            ConnectionState::Idle => ConnectionControl {
                state: ConnectionState::Connecting,
                failures: 0,
                ..self
            },
            ConnectionState::Connected => ConnectionControl {
                state: ConnectionState::Writing,
                failures: 0,
                ..self
            },
            ConnectionState::Written => ConnectionControl {
                state: ConnectionState::Reading,
                failures: 0,
                ..self
            },
            _ => self,
        }
    }

    /// One more failure of the current stage.
    pub open spec fn failed(self) -> Self {
        if self.policy.allows_spec(bumped(self.failures)) {
            ConnectionControl { failures: bumped(self.failures), ..self }
        } else {
            ConnectionControl {
                state: ConnectionState::Abandoned,
                failures: bumped(self.failures),
                ..self
            }
        }
    }

    /// The effect of an event; one that does not answer the current
    /// stage's operation changes nothing.
    pub open spec fn recorded(self, e: ConnectionEvent) -> Self {
        match self.state {
            ConnectionState::Connecting => match e {
                ConnectionEvent::ConnectResult(true) => ConnectionControl {
                    state: ConnectionState::Connected,
                    ..self
                },
                ConnectionEvent::ConnectResult(false) => self.failed(),
                _ => self,
            },
            ConnectionState::Writing => match e {
                ConnectionEvent::WriteResult(_) => if write_ok(e) {
                    ConnectionControl { state: ConnectionState::Written, ..self }
                } else {
                    self.failed()
                },
                _ => self,
            },
            ConnectionState::Reading => match e {
                ConnectionEvent::ReadResult(Some(_)) => ConnectionControl {
                    state: ConnectionState::Done,
                    ..self
                },
                ConnectionEvent::ReadResult(None) => self.failed(),
                _ => self,
            },
            _ => self,
        }
    }
}

/// The control after each event of `events` has been answered in turn:
/// before each event the next operation is asked for.
pub open spec fn run(c: ConnectionControl, events: Seq<ConnectionEvent>) -> ConnectionControl
    decreases events.len(),
{
    if events.len() == 0 {
        c
    } else {
        run(c, events.drop_last()).advanced().recorded(events.last())
    }
}

/// Whatever the events and however many retries each stage took, the
/// exchange passes `Connected` only after a successful connect, `Written`
/// only after a later full write, and reaches `Done` only after a read that
/// came later still.
pub proof fn lemma_stages_in_order(c: ConnectionControl, events: Seq<ConnectionEvent>)
    requires
        c.state is Idle,
    ensures
        rank(run(c, events).state) >= 2 ==> exists|i: int|
            0 <= i < events.len() && #[trigger] connect_ok(events[i]),
        rank(run(c, events).state) >= 4 ==> exists|i: int, j: int|
            0 <= i < j < events.len() && #[trigger] connect_ok(events[i]) && #[trigger] write_ok(
                events[j],
            ),
        run(c, events).state is Done ==> exists|i: int, j: int, k: int|
            0 <= i < j < k < events.len() && #[trigger] connect_ok(events[i])
                && #[trigger] write_ok(events[j]) && #[trigger] read_ok(events[k]),
    decreases events.len(),
{
    if events.len() > 0 {
        let pre = events.drop_last();
        let n = events.len() - 1;
        lemma_stages_in_order(c, pre);
        let p = run(c, pre);
        let r = run(c, events);
        assert(events[n] == events.last());
        if rank(r.state) >= 2 {
            if rank(p.state) >= 2 {
                let i = choose|i: int| 0 <= i < pre.len() && #[trigger] connect_ok(pre[i]);
                assert(pre[i] == events[i]);
            } else {
                assert(connect_ok(events[n]));
            }
        }
        if rank(r.state) >= 4 {
            if rank(p.state) >= 4 {
                let (i, j) = choose|i: int, j: int|
                    0 <= i < j < pre.len() && #[trigger] connect_ok(pre[i]) && #[trigger] write_ok(
                        pre[j],
                    );
                assert(pre[i] == events[i] && pre[j] == events[j]);
            } else {
                assert(write_ok(events[n]));
                let i = choose|i: int| 0 <= i < pre.len() && #[trigger] connect_ok(pre[i]);
                assert(pre[i] == events[i]);
                assert(connect_ok(events[i]) && write_ok(events[n]));
            }
        }
        if r.state is Done {
            if p.state is Done {
                let (i, j, k) = choose|i: int, j: int, k: int|
                    0 <= i < j < k < pre.len() && #[trigger] connect_ok(pre[i])
                        && #[trigger] write_ok(pre[j]) && #[trigger] read_ok(pre[k]);
                assert(pre[i] == events[i] && pre[j] == events[j] && pre[k] == events[k]);
            } else {
                assert(read_ok(events[n]));
                let (i, j) = choose|i: int, j: int|
                    0 <= i < j < pre.len() && #[trigger] connect_ok(pre[i]) && #[trigger] write_ok(
                        pre[j],
                    );
                assert(pre[i] == events[i] && pre[j] == events[j]);
                assert(connect_ok(events[i]) && write_ok(events[j]) && read_ok(events[n]));
            }
        }
    }
}

/// Two managers whose messages hold the same token ask, in their writing
/// stage, for the same bytes on the wire: the request depends on the token
/// alone, not on the run that led there.
pub proof fn lemma_same_token_same_request(
    a: ConnectionManager,
    b: ConnectionManager,
    wa: ConnectionAction,
    wb: ConnectionAction,
)
    requires
        a.message.bytes@ == b.message.bytes@,
        a.control.state is Writing,
        b.control.state is Writing,
        a.asks(wa),
        b.asks(wb),
    ensures
        wa matches ConnectionAction::Write(x) && wb matches ConnectionAction::Write(y) && x@ == y@
            && x@ == wire_request(a.message.bytes@),
{
}

/// Connects to a fixed endpoint, writes the discovery message and reads the
/// answer, each stage retried as the policy allows and begun only once the
/// one before it has succeeded.
#[derive(Debug)]
pub struct ConnectionManager {
    pub control: ConnectionControl,
    pub endpoint: ConnectionEndpoint,
    pub message: DiscoveryMessage,
    pub response: DiscoveryResponse,
}

impl ConnectionManager {
    pub open spec fn wf(&self) -> bool {
        &&& self.control.wf()
        &&& self.message.wf()
        &&& self.response.wf()
        &&& self.response.capacity == RESPONSE_CAPACITY
    }

    /// Whether `a` is what the current stage asks of the caller.
    pub open spec fn asks(&self, a: ConnectionAction) -> bool {
        match self.control.state {
            ConnectionState::Connecting => a matches ConnectionAction::Connect(ep) && ep
                == self.endpoint,
            ConnectionState::Writing => a matches ConnectionAction::Write(b) && b@ == wire_request(
                self.message.bytes@,
            ),
            ConnectionState::Reading => a matches ConnectionAction::Read(n) && n
                == self.response.capacity,
            ConnectionState::Done => a is Finished,
            ConnectionState::Abandoned => a is GiveUp,
            _ => false,
        }
    }

    /// A manager in `Idle`, with an empty response buffer.
    pub fn new(endpoint: ConnectionEndpoint, message: DiscoveryMessage, policy: RetryPolicy) -> (r:
        Self)
        requires
            message.wf(),
        ensures
            r.control.state is Idle,
            r.control.failures == 0,
            r.control.policy == policy,
            r.endpoint == endpoint,
            r.message == message,
            r.response.data@.len() == 0,
            r.wf(),
    {
        ConnectionManager {
            control: ConnectionControl { state: ConnectionState::Idle, failures: 0, policy },
            endpoint,
            message,
            response: DiscoveryResponse::with_capacity(RESPONSE_CAPACITY),
        }
    }

    /// Moves on past a stage that has succeeded and says what to do next.
    pub fn next_action(&mut self) -> (r: ConnectionAction)
        requires
            old(self).wf(),
        ensures
            final(self).control == old(self).control.advanced(),
            final(self).endpoint == old(self).endpoint,
            final(self).message == old(self).message,
            final(self).response == old(self).response,
            final(self).wf(),
            final(self).asks(r),
            r matches ConnectionAction::Write(b) ==> b@.len() == TOKEN_LEN && TOKEN_LEN
                <= SOCKET_BUFFER_LEN,
    {
        match self.control.state {
            ConnectionState::Idle => {
                self.control.state = ConnectionState::Connecting;
                self.control.failures = 0;
            },
            ConnectionState::Connected => {
                self.control.state = ConnectionState::Writing;
                self.control.failures = 0;
            },
            ConnectionState::Written => {
                self.control.state = ConnectionState::Reading;
                self.control.failures = 0;
            },
            _ => {},
        }
        match self.control.state {
            ConnectionState::Connecting => ConnectionAction::Connect(self.endpoint),
            ConnectionState::Writing => ConnectionAction::Write(self.message.request()),
            ConnectionState::Reading => ConnectionAction::Read(self.response.capacity),
            ConnectionState::Done => ConnectionAction::Finished,
            _ => ConnectionAction::GiveUp,
        }
    }

    fn fail(&mut self)
        requires
            old(self).wf(),
            old(self).control.state is Connecting || old(self).control.state is Writing
                || old(self).control.state is Reading,
        ensures
            final(self).control == old(self).control.failed(),
            final(self).endpoint == old(self).endpoint,
            final(self).message == old(self).message,
            final(self).response == old(self).response,
            final(self).wf(),
    {
        self.control.failures = bump(self.control.failures);
        if !self.control.policy.allows(self.control.failures) {
            self.control.state = ConnectionState::Abandoned;
        }
    }

    /// Takes in the outcome of the operation last asked for.
    pub fn on_event(&mut self, e: ConnectionEvent)
        requires
            old(self).wf(),
        ensures
            final(self).control == old(self).control.recorded(e),
            final(self).endpoint == old(self).endpoint,
            final(self).message == old(self).message,
            final(self).response.capacity == old(self).response.capacity,
            old(self).control.state is Reading ==> (e matches ConnectionEvent::ReadResult(Some(b))
                ==> final(self).response.data@ == kept(b@, old(self).response.capacity as nat)),
            !(old(self).control.state is Reading && read_ok(e)) ==> final(self).response
                == old(self).response,
            final(self).wf(),
    {
        match self.control.state {
            ConnectionState::Connecting => match e {
                ConnectionEvent::ConnectResult(true) => {
                    self.control.state = ConnectionState::Connected;
                },
                ConnectionEvent::ConnectResult(false) => self.fail(),
                _ => {},
            },
            ConnectionState::Writing => match e {
                ConnectionEvent::WriteResult(Some(n)) => {
                    if n == TOKEN_LEN {
                        self.control.state = ConnectionState::Written;
                    } else {
                        self.fail();
                    }
                },
                ConnectionEvent::WriteResult(None) => self.fail(),
                _ => {},
            },
            ConnectionState::Reading => match e {
                ConnectionEvent::ReadResult(Some(b)) => {
                    self.response.receive(b.as_slice());
                    self.control.state = ConnectionState::Done;
                },
                ConnectionEvent::ReadResult(None) => self.fail(),
                _ => {},
            },
            _ => {},
        }
    }

    /// The state of the exchange.
    pub fn state(&self) -> (r: ConnectionState)
        ensures
            r == self.control.state,
    {
        self.control.state
    }

    /// Failed attempts of the current stage.
    pub fn failures(&self) -> (r: u64)
        ensures
            r == self.control.failures,
    {
        self.control.failures
    }

    /// The answer received so far.
    pub fn response(&self) -> (r: &DiscoveryResponse)
        ensures
            r == &self.response,
    {
        &self.response
    }
}

} // verus!
