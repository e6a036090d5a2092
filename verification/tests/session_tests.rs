use mcp_server::args::{ArgValue, PayloadEntry};
use mcp_server::fsmodel::FileStore;
use mcp_server::handlers::{finish_list_files, finish_read_file, finish_write_file};
use mcp_server::outcome::{ContentBlock, FailureKind, InvocationResult};
use mcp_server::router::{FileSystem, ToolRequest};
use mcp_server::session::{ClientMessage, ServerResponse, Session, SessionAction, SessionState};
use mcp_server::transport::Transport;

fn text_entry(key: &str, value: &str) -> PayloadEntry {
    PayloadEntry { key: String::from(key), value: ArgValue::Text(String::from(value)) }
}

fn call(name: &str, args: Vec<PayloadEntry>) -> ClientMessage {
    ClientMessage::CallTool { name: String::from(name), args }
}

fn failure_kind(a: SessionAction) -> FailureKind {
    match a {
        SessionAction::Respond(ServerResponse::ToolResult(InvocationResult::Failure {
            kind,
            ..
        })) => kind,
        _ => panic!("expected a tool failure response"),
    }
}

fn success_text(r: InvocationResult) -> String {
    match r {
        InvocationResult::Success { content } => match content.into_iter().next().unwrap() {
            ContentBlock::Text(s) => s,
        },
        InvocationResult::Failure { message, .. } => {
            panic!("expected success, got failure: {}", message)
        },
    }
}

#[test]
fn message_before_initialize_is_a_protocol_error() {
    let fs = FileSystem::new();
    let mut session = Session::new();
    let a = session.handle_message(&fs, &ClientMessage::ListTools);
    assert_eq!(failure_kind(a), FailureKind::ProtocolError);
    assert_eq!(session.state, SessionState::Uninitialized);

    let a = session.handle_message(&fs, &call("read_file", vec![text_entry("path", "x")]));
    assert_eq!(failure_kind(a), FailureKind::ProtocolError);
    assert_eq!(session.state, SessionState::Uninitialized);

    // The session is still usable: a later initialize is accepted.
    let a = session.handle_message(&fs, &ClientMessage::Initialize);
    match a {
        SessionAction::Respond(ServerResponse::Initialized(info)) => {
            assert!(info.tools_enabled);
        },
        _ => panic!("initialize must be answered with the capability set"),
    }
    assert_eq!(session.state, SessionState::Ready);
}

#[test]
fn initialize_twice_is_a_protocol_error_but_session_stays_ready() {
    let fs = FileSystem::new();
    let mut session = Session::new();
    session.handle_message(&fs, &ClientMessage::Initialize);
    let a = session.handle_message(&fs, &ClientMessage::Initialize);
    assert_eq!(failure_kind(a), FailureKind::ProtocolError);
    assert_eq!(session.state, SessionState::Ready);
}

#[test]
fn closed_session_ignores_messages() {
    let fs = FileSystem::new();
    let mut session = Session::new();
    session.close();
    let a = session.handle_message(&fs, &ClientMessage::Initialize);
    assert!(matches!(a, SessionAction::Ignore));
    assert_eq!(session.state, SessionState::Closed);
}

#[test]
fn end_to_end_handshake_discovery_write_and_read() {
    let fs = FileSystem::new();
    let mut transport = Transport::new();
    let mut store = FileStore::new();

    let id = transport.accept().expect("the transport accepts before shutdown");

    // Handshake: the capability set names tool calling.
    match transport.submit(&fs, id, &ClientMessage::Initialize) {
        Some(SessionAction::Respond(ServerResponse::Initialized(info))) => {
            assert_eq!(info.protocol_version, "2024-11-05");
            assert!(info.tools_enabled);
        },
        _ => panic!("initialize must be answered"),
    }

    // Discovery: exactly the four tools, schemas as declared.
    match transport.submit(&fs, id, &ClientMessage::ListTools) {
        Some(SessionAction::Respond(ServerResponse::ToolList(tools))) => {
            let names: Vec<&str> = tools.iter().map(|t| t.name.as_str()).collect();
            assert_eq!(names, vec!["list_files", "read_file", "write_file", "get_file_info"]);
            assert!(!tools[0].schema.fields[0].required);
            assert!(tools[1].schema.fields[0].required);
            assert_eq!(tools[2].schema.fields.len(), 2);
        },
        _ => panic!("list_tools must be answered"),
    }

    // write_file t.txt <- "hi": success reporting 2 bytes.
    let msg = call("write_file", vec![text_entry("path", "t.txt"), text_entry("content", "hi")]);
    let result = match transport.submit(&fs, id, &msg) {
        Some(SessionAction::RunTool(ToolRequest::WriteFile(args))) => {
            store.write_file(&args.path, args.content.clone());
            finish_write_file(&args, Ok(()))
        },
        _ => panic!("a valid write_file call must run the handler"),
    };
    assert_eq!(success_text(result), "Successfully wrote 2 bytes to 't.txt'");

    // read_file t.txt: the content written comes back.
    let msg = call("read_file", vec![text_entry("path", "t.txt")]);
    let result = match transport.submit(&fs, id, &msg) {
        Some(SessionAction::RunTool(ToolRequest::ReadFile(args))) => {
            let content = store.read_file(&args.path).expect("t.txt was just written");
            finish_read_file(&args, Ok(content))
        },
        _ => panic!("a valid read_file call must run the handler"),
    };
    let text = success_text(result);
    assert!(text.contains("hi"));
    assert_eq!(text, "Content of 't.txt':\n\nhi");
}

#[test]
fn unknown_tool_through_the_session_is_not_a_transport_error() {
    let fs = FileSystem::new();
    let mut transport = Transport::new();
    let id = transport.accept().unwrap();
    transport.submit(&fs, id, &ClientMessage::Initialize);
    let a = transport
        .submit(&fs, id, &call("no_such_tool", Vec::new()))
        .expect("the stream is open, so the message is dispatched");
    match a {
        SessionAction::Respond(ServerResponse::ToolResult(InvocationResult::Failure {
            kind,
            ..
        })) => assert_eq!(kind, FailureKind::UnknownTool),
        _ => panic!("an unknown tool is answered in-band, never by dropping the stream"),
    }
}

#[test]
fn shutdown_lets_the_in_flight_call_finish_and_refuses_new_streams() {
    let fs = FileSystem::new();
    let mut transport = Transport::new();
    let id = transport.accept().unwrap();
    transport.submit(&fs, id, &ClientMessage::Initialize);

    // A list_files call is in flight when the shutdown signal fires.
    let msg = call("list_files", vec![text_entry("path", "big")]);
    let pending = match transport.submit(&fs, id, &msg) {
        Some(SessionAction::RunTool(ToolRequest::ListFiles(args))) => args,
        _ => panic!("a valid list_files call must run the handler"),
    };

    transport.fire_shutdown();

    // The in-flight call completes and its result is still delivered.
    let mut entries = Vec::new();
    for name in ["c", "a", "b"] {
        entries.push(mcp_server::args::DirEntry { name: String::from(name), is_dir: false });
    }
    let result = finish_list_files(&pending, Ok(entries));
    assert!(transport.deliver_result(id, &result));
    assert_eq!(
        success_text(result),
        "Contents of 'big':\n[FILE] a\n[FILE] b\n[FILE] c"
    );

    // No new subscribe connection is accepted after the signal fires.
    assert!(transport.accept().is_none());

    // The next message on the session closes it instead of starting work.
    assert!(transport.submit(&fs, id, &ClientMessage::ListTools).is_none());
    assert!(!transport.deliver_result(id, &InvocationResult::Success { content: Vec::new() }));
}

#[test]
fn signals_fire_monotonically_and_children_follow_the_parent() {
    let mut sig = mcp_server::transport::CancelSignal::new();
    assert!(!sig.is_fired());
    let a = sig.derive_child();
    let b = sig.derive_child();
    assert!(!sig.is_child_fired(a));
    sig.fire_child(b);
    assert!(!sig.is_child_fired(a));
    assert!(sig.is_child_fired(b));
    sig.fire();
    sig.fire();
    assert!(sig.is_fired());
    assert!(sig.is_child_fired(a));
    assert!(sig.is_child_fired(b));
}

#[test]
fn dropped_stream_never_delivers() {
    let fs = FileSystem::new();
    let mut transport = Transport::new();
    let id = transport.accept().unwrap();
    transport.submit(&fs, id, &ClientMessage::Initialize);
    transport.drop_session(id);
    let r = InvocationResult::Success { content: Vec::new() };
    assert!(!transport.deliver_result(id, &r));
    assert!(transport.submit(&fs, id, &ClientMessage::ListTools).is_none());
}
