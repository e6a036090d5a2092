use crate::args::PayloadEntry;
use crate::outcome::{is_failure, FailureKind, InvocationResult};
use crate::router::{
    descriptor_view, find_tool, req_args, req_kind, resolved_args, router_wf, server_info_ok,
    FileSystem, Prepared, ServerInfo, ToolDescriptor, ToolKind, ToolRequest,
};
use crate::schema::{all_fields_ok, first_bad};
use vstd::prelude::*;
use vstd::string::*;

verus! {

/// The handshake states of one protocol session.
#[derive(Clone, Copy, PartialEq, Eq, Structural, Debug)]
pub enum SessionState {
    Uninitialized,
    Ready,
    Closed,
}

/// One inbound protocol message.
pub enum ClientMessage {
    Initialize,
    ListTools,
    CallTool { name: String, args: Vec<PayloadEntry> },
}

/// One outbound reply.
pub enum ServerResponse {
    Initialized(ServerInfo),
    ToolList(Vec<ToolDescriptor>),
    ToolResult(InvocationResult),
}

/// What the session decides for one inbound message: answer at once, run a
/// validated tool request whose result will be delivered when it finishes,
/// or drop the message because the session is closed.
pub enum SessionAction {
    Respond(ServerResponse),
    RunTool(ToolRequest),
    Ignore,
}

/// The per-connection protocol state, bound to one push stream.
#[derive(Clone, Copy, Debug)]
pub struct Session {
    pub state: SessionState,
}

/// The handshake transition: only `initialize` advances the state, only
/// from `Uninitialized`, and a closed session never moves again.
pub open spec fn step_state(s: SessionState, m: ClientMessage) -> SessionState {
    match s {
        SessionState::Uninitialized => match m {
            ClientMessage::Initialize => SessionState::Ready,
            _ => SessionState::Uninitialized,
        },
        SessionState::Ready => SessionState::Ready,
        SessionState::Closed => SessionState::Closed,
    }
}

/// The action answers the tool call with exactly this failure.
pub open spec fn action_tool_failure(
    a: SessionAction,
    kind: FailureKind,
    message: Seq<char>,
    detail: Seq<(Seq<char>, Seq<char>)>,
) -> bool {
    match a {
        SessionAction::Respond(ServerResponse::ToolResult(res)) => is_failure(
            res,
            kind,
            message,
            detail,
        ),
        _ => false,
    }
}

/// The action runs the handler of `kind` on exactly these argument values.
pub open spec fn action_runs(a: SessionAction, kind: ToolKind, args: Seq<crate::args::ArgView>) -> bool {
    match a {
        SessionAction::RunTool(req) => req_kind(req) == kind && req_args(req) == args,
        _ => false,
    }
}

/// The action a ready session takes for `call_tool` on `name` with `args`:
/// reject an unknown name or an invalid payload with the exact failure, or
/// run the validated request.
pub open spec fn call_tool_action_ok(
    a: SessionAction,
    tools: Seq<ToolDescriptor>,
    name: Seq<char>,
    args: Seq<PayloadEntry>,
) -> bool {
    &&& find_tool(tools, name) is None ==> action_tool_failure(
        a,
        FailureKind::UnknownTool,
        "unknown_tool"@,
        seq![("tool"@, name)],
    )
    &&& find_tool(tools, name) matches Some(ti) ==> ({
        let fields = tools[ti].schema.fields@;
        let j = first_bad(fields, args);
        &&& all_fields_ok(fields, args) ==> action_runs(
            a,
            tools[ti].kind,
            resolved_args(fields, args),
        )
        &&& !all_fields_ok(fields, args) ==> action_tool_failure(
            a,
            FailureKind::ValidationError,
            "invalid_parameters"@,
            seq![
                ("field"@, fields[j].name@),
                ("expected"@, crate::router::type_text(fields[j].ty)),
                ("found"@, crate::router::found_text(crate::schema::found_type(fields[j], args))),
            ],
        )
    })
}

impl Session {
    /// A session starts uninitialized: no tool call is accepted before the
    /// handshake.
    pub fn new() -> (s: Self)
        ensures
            s.state == SessionState::Uninitialized,
    {
        Session { state: SessionState::Uninitialized }
    }

    /// Closes the session; terminal.
    pub fn close(&mut self)
        ensures
            final(self).state == SessionState::Closed,
    {
        self.state = SessionState::Closed;
    }

    /// Dispatches one inbound message. A message out of sequence relative
    /// to the handshake is answered with a `ProtocolError` failure and the
    /// state does not move, so a later `initialize` is still accepted.
    pub fn handle_message(&mut self, fs: &FileSystem, msg: &ClientMessage) -> (a: SessionAction)
        requires
            router_wf(fs.tool_router),
        ensures
            final(self).state == step_state(old(self).state, *msg),
            old(self).state == SessionState::Closed ==> a is Ignore,
            old(self).state == SessionState::Uninitialized && !(msg is Initialize)
                ==> action_tool_failure(
                a,
                FailureKind::ProtocolError,
                "not_initialized"@,
                Seq::empty(),
            ),
            old(self).state == SessionState::Uninitialized && msg is Initialize ==> (match a {
                SessionAction::Respond(ServerResponse::Initialized(info)) => server_info_ok(info),
                _ => false,
            }),
            old(self).state == SessionState::Ready && msg is Initialize ==> action_tool_failure(
                a,
                FailureKind::ProtocolError,
                "already_initialized"@,
                Seq::empty(),
            ),
            old(self).state == SessionState::Ready && msg is ListTools ==> (match a {
                SessionAction::Respond(ServerResponse::ToolList(ts)) => {
                    &&& ts@.len() == fs.tool_router.tools@.len()
                    &&& forall|i: int|
                        0 <= i < ts@.len() ==> descriptor_view(#[trigger] ts@[i])
                            == descriptor_view(fs.tool_router.tools@[i])
                },
                _ => false,
            }),
            old(self).state == SessionState::Ready ==> (msg matches ClientMessage::CallTool {
                name,
                args,
            } ==> call_tool_action_ok(a, fs.tool_router.tools@, name@, args@)),
    {
        match self.state {
            SessionState::Closed => SessionAction::Ignore,
            SessionState::Uninitialized => match msg {
                ClientMessage::Initialize => {
                    self.state = SessionState::Ready;
                    SessionAction::Respond(ServerResponse::Initialized(fs.initialize()))
                },
                _ => SessionAction::Respond(
                    ServerResponse::ToolResult(protocol_failure("not_initialized")),
                ),
            },
            SessionState::Ready => match msg {
                ClientMessage::Initialize => SessionAction::Respond(
                    ServerResponse::ToolResult(protocol_failure("already_initialized")),
                ),
                ClientMessage::ListTools => SessionAction::Respond(
                    ServerResponse::ToolList(fs.tool_router.list_tools()),
                ),
                ClientMessage::CallTool { name, args } => {
                    match fs.tool_router.prepare(name, args) {
                        Prepared::Run(req) => SessionAction::RunTool(req),
                        Prepared::Reject(res) => SessionAction::Respond(
                            ServerResponse::ToolResult(res),
                        ),
                    }
                },
            },
        }
    }
}

/// Builds the failure returned for a message out of handshake sequence.
fn protocol_failure(code: &str) -> (r: InvocationResult)
    ensures
        is_failure(r, FailureKind::ProtocolError, code@, Seq::empty()),
{
    let detail: Vec<crate::outcome::DetailEntry> = Vec::new();
    proof {
        assert(crate::outcome::detail_views(detail@) =~= Seq::<(Seq<char>, Seq<char>)>::empty());
    }
    InvocationResult::Failure {
        kind: FailureKind::ProtocolError,
        message: String::from_str(code),
        detail,
    }
}

/// An out-of-sequence message does not move the handshake: the session
/// still accepts a later `initialize`, which makes it ready.
pub proof fn lemma_protocol_error_recovery(s: SessionState, m: ClientMessage)
    requires
        s == SessionState::Uninitialized,
        !(m is Initialize),
    ensures
        step_state(s, m) == SessionState::Uninitialized,
        step_state(step_state(s, m), ClientMessage::Initialize) == SessionState::Ready,
{
}

} // verus!
