use crate::outcome::InvocationResult;
use crate::router::{router_wf, FileSystem};
use crate::session::{step_state, ClientMessage, Session, SessionAction, SessionState};
use vstd::prelude::*;

verus! {

/// The process-wide cancellation signal and the per-session signals derived
/// from it. Firing is monotonic: no operation ever clears a flag, and a
/// child counts as fired whenever its parent is.
#[derive(Debug)]
pub struct CancelSignal {
    pub root: bool,
    pub children: Vec<bool>,
}

impl CancelSignal {
    /// A child signal observes its parent's firing and its own.
    pub open spec fn child_fired(self, i: int) -> bool {
        self.root || self.children@[i]
    }

    pub fn new() -> (s: Self)
        ensures
            !s.root,
            s.children@ =~= Seq::<bool>::empty(),
    {
        CancelSignal { root: false, children: Vec::new() }
    }

    /// Fires the signal; idempotent, and it never goes out again.
    pub fn fire(&mut self)
        ensures
            final(self).root,
            final(self).children@ == old(self).children@,
    {
        self.root = true;
    }

    pub fn is_fired(&self) -> (b: bool)
        ensures
            b == self.root,
    {
        self.root
    }

    /// Derives a child signal, initially following only its parent.
    pub fn derive_child(&mut self) -> (i: usize)
        ensures
            final(self).root == old(self).root,
            final(self).children@ == old(self).children@.push(false),
            i as int == old(self).children@.len(),
    {
        let i = self.children.len();
        self.children.push(false);
        i
    }

    /// Fires one child independently of its parent.
    pub fn fire_child(&mut self, i: usize)
        requires
            i < old(self).children@.len(),
        ensures
            final(self).root == old(self).root,
            final(self).children@ == old(self).children@.update(i as int, true),
    {
        self.children.set(i, true);
    }

    pub fn is_child_fired(&self, i: usize) -> (b: bool)
        requires
            i < self.children@.len(),
        ensures
            b == self.child_fired(i as int),
    {
        self.root || self.children[i]
    }
}

/// The duplex transport's bookkeeping: the shutdown signal tree and the
/// sessions it owns, keyed by the stream identity the subscribe path
/// assigned. A closed or torn-down stream keeps its slot as `None`.
#[derive(Debug)]
pub struct Transport {
    pub shutdown: CancelSignal,
    pub sessions: Vec<Option<Session>>,
}

/// One shutdown child signal exists per accepted stream.
pub open spec fn transport_wf(t: Transport) -> bool {
    t.shutdown.children@.len() == t.sessions@.len()
}

/// The stream `id` is open: it exists and its session is not closed.
pub open spec fn stream_open(t: Transport, id: int) -> bool {
    &&& 0 <= id < t.sessions@.len()
    &&& match t.sessions@[id] {
        Option::Some(s) => s.state != SessionState::Closed,
        Option::None => false,
    }
}

/// The handshake state of the session bound to `id`; a missing session
/// counts as closed.
pub open spec fn session_state_at(t: Transport, id: int) -> SessionState {
    match t.sessions@[id] {
        Option::Some(s) => s.state,
        Option::None => SessionState::Closed,
    }
}

/// The dispatch `a` is the right action for a session in `state` given
/// `msg`, as `Session::handle_message` promises.
pub open spec fn session_action_ok(
    a: SessionAction,
    state: SessionState,
    fs: &FileSystem,
    msg: ClientMessage,
) -> bool {
    &&& state == SessionState::Uninitialized && !(msg is Initialize)
        ==> crate::session::action_tool_failure(
        a,
        crate::outcome::FailureKind::ProtocolError,
        "not_initialized"@,
        Seq::empty(),
    )
    &&& state == SessionState::Uninitialized && msg is Initialize ==> (match a {
        SessionAction::Respond(crate::session::ServerResponse::Initialized(info)) => crate
            ::router::server_info_ok(info),
        _ => false,
    })
    &&& state == SessionState::Ready && msg is Initialize
        ==> crate::session::action_tool_failure(
        a,
        crate::outcome::FailureKind::ProtocolError,
        "already_initialized"@,
        Seq::empty(),
    )
    &&& state == SessionState::Ready && msg is ListTools ==> (match a {
        SessionAction::Respond(crate::session::ServerResponse::ToolList(ts)) => {
            &&& ts@.len() == fs.tool_router.tools@.len()
            &&& forall|i: int|
                0 <= i < ts@.len() ==> crate::router::descriptor_view(#[trigger] ts@[i])
                    == crate::router::descriptor_view(fs.tool_router.tools@[i])
        },
        _ => false,
    })
    &&& state == SessionState::Ready ==> (msg matches ClientMessage::CallTool { name, args }
        ==> crate::session::call_tool_action_ok(a, fs.tool_router.tools@, name@, args@))
}

impl Transport {
    pub fn new() -> (t: Self)
        ensures
            transport_wf(t),
            !t.shutdown.root,
            t.sessions@.len() == 0,
    {
        Transport { shutdown: CancelSignal::new(), sessions: Vec::new() }
    }

    /// Accepts one subscribe connection: binds a fresh uninitialized
    /// session and derives its shutdown signal. After the shutdown signal
    /// has fired, no new connection is accepted and nothing changes.
    pub fn accept(&mut self) -> (r: Option<usize>)
        requires
            transport_wf(*old(self)),
        ensures
            transport_wf(*final(self)),
            old(self).shutdown.root ==> r is None && *final(self) == *old(self),
            !old(self).shutdown.root ==> ({
                &&& match r {
                    Option::Some(id) => id as int == old(self).sessions@.len(),
                    Option::None => false,
                }
                &&& final(self).sessions@.len() == old(self).sessions@.len() + 1
                &&& session_state_at(*final(self), old(self).sessions@.len() as int)
                    == SessionState::Uninitialized
                &&& forall|j: int|
                    0 <= j < old(self).sessions@.len() ==> final(self).sessions@[j] == old(
                        self,
                    ).sessions@[j]
                &&& !final(self).shutdown.root
                &&& final(self).shutdown.children@ == old(self).shutdown.children@.push(false)
            }),
    {
        if self.shutdown.is_fired() {
            return Option::None;
        }
        let id = self.shutdown.derive_child();
        self.sessions.push(Option::Some(Session::new()));
        Option::Some(id)
    }

    /// Correlates one submitted message to its stream and dispatches it.
    /// An unknown or closed stream yields nothing; a stream whose shutdown
    /// signal has fired is closed without processing the message, so no new
    /// call starts after shutdown.
    pub fn submit(&mut self, fs: &FileSystem, id: usize, msg: &ClientMessage) -> (r: Option<
        SessionAction,
    >)
        requires
            transport_wf(*old(self)),
            router_wf(fs.tool_router),
        ensures
            transport_wf(*final(self)),
            final(self).shutdown == old(self).shutdown,
            final(self).sessions@.len() == old(self).sessions@.len(),
            forall|j: int|
                0 <= j < old(self).sessions@.len() && j != id as int ==> final(self).sessions@[j]
                    == old(self).sessions@[j],
            !stream_open(*old(self), id as int) ==> r is None && final(self).sessions@ == old(
                self,
            ).sessions@,
            stream_open(*old(self), id as int) && old(self).shutdown.child_fired(id as int) ==> r
                is None && session_state_at(*final(self), id as int) == SessionState::Closed,
            stream_open(*old(self), id as int) && !old(self).shutdown.child_fired(id as int) ==> ({
                &&& session_state_at(*final(self), id as int) == step_state(
                    session_state_at(*old(self), id as int),
                    *msg,
                )
                &&& match r {
                    Option::Some(a) => session_action_ok(
                        a,
                        session_state_at(*old(self), id as int),
                        fs,
                        *msg,
                    ),
                    Option::None => false,
                }
            }),
    {
        if id >= self.sessions.len() {
            return Option::None;
        }
        let fired = self.shutdown.is_child_fired(id);
        let slot = self.sessions[id];
        match slot {
            Option::None => Option::None,
            Option::Some(mut sess) => {
                if sess.state == SessionState::Closed {
                    return Option::None;
                }
                if fired {
                    sess.close();
                    self.sessions.set(id, Option::Some(sess));
                    return Option::None;
                }
                let a = sess.handle_message(fs, msg);
                self.sessions.set(id, Option::Some(sess));
                Option::Some(a)
            },
        }
    }

    /// Delivers one finished result over the stream it belongs to. Whether
    /// it is delivered depends only on the stream still being open — never
    /// on the shutdown signal, so an in-flight call that finishes after
    /// shutdown still reaches its client.
    pub fn deliver_result(&self, id: usize, result: &InvocationResult) -> (delivered: bool)
        ensures
            delivered == stream_open(*self, id as int),
    {
        if id >= self.sessions.len() {
            return false;
        }
        match &self.sessions[id] {
            Option::None => false,
            Option::Some(sess) => sess.state != SessionState::Closed,
        }
    }

    /// Removes a closed or disconnected stream's session; its slot stays.
    pub fn drop_session(&mut self, id: usize)
        requires
            transport_wf(*old(self)),
            id < old(self).sessions@.len(),
        ensures
            transport_wf(*final(self)),
            final(self).shutdown == old(self).shutdown,
            final(self).sessions@ == old(self).sessions@.update(id as int, Option::None),
    {
        self.sessions.set(id, Option::None);
    }

    /// Fires the process-wide signal and every derived per-session signal,
    /// in that order: the transport stops accepting new streams first, then
    /// each session is told to wind down. Sessions are not torn down here:
    /// an in-flight dispatch finishes and its result is still delivered.
    pub fn fire_shutdown(&mut self)
        requires
            transport_wf(*old(self)),
        ensures
            transport_wf(*final(self)),
            final(self).shutdown.root,
            final(self).shutdown.children@.len() == old(self).shutdown.children@.len(),
            forall|j: int|
                0 <= j < final(self).shutdown.children@.len() ==> final(self).shutdown.child_fired(
                    j,
                ),
            final(self).sessions@ == old(self).sessions@,
    {
        self.shutdown.fire();
        let n = self.shutdown.children.len();
        let mut i: usize = 0;
        while i < n
            invariant
                i <= n,
                n == self.shutdown.children@.len(),
                self.shutdown.root,
                self.sessions@ == old(self).sessions@,
                self.shutdown.children@.len() == old(self).shutdown.children@.len(),
            decreases n - i,
        {
            self.shutdown.fire_child(i);
            i = i + 1;
        }
    }
}

} // verus!
