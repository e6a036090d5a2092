use mcp_server::args::{ArgValue, FieldType, PayloadEntry};
use mcp_server::outcome::{FailureKind, InvocationResult};
use mcp_server::router::{FileSystem, Prepared, ToolKind, ToolRequest};
use mcp_server::schema::validate;

fn text_entry(key: &str, value: &str) -> PayloadEntry {
    PayloadEntry { key: String::from(key), value: ArgValue::Text(String::from(value)) }
}

#[test]
fn registry_holds_the_four_tools_in_order() {
    let fs = FileSystem::new();
    let tools = fs.tool_router.list_tools();
    let names: Vec<&str> = tools.iter().map(|t| t.name.as_str()).collect();
    assert_eq!(names, vec!["list_files", "read_file", "write_file", "get_file_info"]);
}

#[test]
fn schemas_match_the_declared_parameters() {
    let fs = FileSystem::new();
    let tools = fs.tool_router.list_tools();

    let lf = &tools[0].schema.fields;
    assert_eq!(lf.len(), 1);
    assert_eq!(lf[0].name, "path");
    assert_eq!(lf[0].ty, FieldType::Text);
    assert!(!lf[0].required);
    match &lf[0].default {
        Some(ArgValue::Text(s)) => assert_eq!(s, "."),
        _ => panic!("list_files path default must be \".\""),
    }

    let rf = &tools[1].schema.fields;
    assert_eq!(rf.len(), 1);
    assert_eq!(rf[0].name, "path");
    assert!(rf[0].required);
    assert!(rf[0].default.is_none());

    let wf = &tools[2].schema.fields;
    assert_eq!(wf.len(), 2);
    assert_eq!(wf[0].name, "path");
    assert!(wf[0].required);
    assert_eq!(wf[1].name, "content");
    assert!(wf[1].required);

    let gi = &tools[3].schema.fields;
    assert_eq!(gi.len(), 1);
    assert_eq!(gi[0].name, "path");
    assert!(gi[0].required);
}

#[test]
fn unknown_tool_is_rejected_as_unknown_tool() {
    let fs = FileSystem::new();
    let payload: Vec<PayloadEntry> = Vec::new();
    let name = String::from("delete_everything");
    match fs.tool_router.prepare(&name, &payload) {
        Prepared::Reject(InvocationResult::Failure { kind, message, detail }) => {
            assert_eq!(kind, FailureKind::UnknownTool);
            assert_eq!(message, "unknown_tool");
            assert_eq!(detail.len(), 1);
            assert_eq!(detail[0].key, "tool");
            assert_eq!(detail[0].value, "delete_everything");
        },
        _ => panic!("an unregistered name must be rejected"),
    }
}

#[test]
fn missing_required_argument_is_a_validation_error() {
    let fs = FileSystem::new();
    let payload = vec![text_entry("path", "t.txt")];
    let name = String::from("write_file");
    match fs.tool_router.prepare(&name, &payload) {
        Prepared::Reject(InvocationResult::Failure { kind, message, detail }) => {
            assert_eq!(kind, FailureKind::ValidationError);
            assert_eq!(message, "invalid_parameters");
            assert_eq!(detail[0].key, "field");
            assert_eq!(detail[0].value, "content");
            assert_eq!(detail[1].value, "string");
            assert_eq!(detail[2].value, "missing");
        },
        _ => panic!("a missing required argument must be rejected, not run"),
    }
}

#[test]
fn type_mismatch_is_a_validation_error() {
    let fs = FileSystem::new();
    let payload = vec![PayloadEntry {
        key: String::from("path"),
        value: ArgValue::Integer(3),
    }];
    let name = String::from("read_file");
    match fs.tool_router.prepare(&name, &payload) {
        Prepared::Reject(InvocationResult::Failure { kind, detail, .. }) => {
            assert_eq!(kind, FailureKind::ValidationError);
            assert_eq!(detail[0].value, "path");
            assert_eq!(detail[1].value, "string");
            assert_eq!(detail[2].value, "integer");
        },
        _ => panic!("a type mismatch must be rejected"),
    }
}

#[test]
fn list_files_default_path_is_applied() {
    let fs = FileSystem::new();
    let payload: Vec<PayloadEntry> = Vec::new();
    let name = String::from("list_files");
    match fs.tool_router.prepare(&name, &payload) {
        Prepared::Run(ToolRequest::ListFiles(args)) => assert_eq!(args.path, "."),
        _ => panic!("an omitted optional path must fall back to the default"),
    }
}

#[test]
fn write_file_arguments_are_bound_in_order() {
    let fs = FileSystem::new();
    let payload = vec![text_entry("content", "hello"), text_entry("path", "a.txt")];
    let name = String::from("write_file");
    match fs.tool_router.prepare(&name, &payload) {
        Prepared::Run(ToolRequest::WriteFile(args)) => {
            assert_eq!(args.path, "a.txt");
            assert_eq!(args.content, "hello");
        },
        _ => panic!("a complete payload must run the handler"),
    }
}

#[test]
fn validate_ignores_unknown_extra_fields() {
    let fs = FileSystem::new();
    let tools = fs.tool_router.list_tools();
    let payload = vec![text_entry("path", "x"), text_entry("mode", "fast")];
    match validate(&tools[1].schema, &payload) {
        Ok(out) => {
            assert_eq!(out.len(), 1);
            assert_eq!(out[0].key, "path");
        },
        Err(_) => panic!("extra fields are ignored, not rejected"),
    }
}

#[test]
fn first_occurrence_of_a_duplicated_key_wins() {
    let fs = FileSystem::new();
    let payload = vec![text_entry("path", "first.txt"), text_entry("path", "second.txt")];
    let name = String::from("read_file");
    match fs.tool_router.prepare(&name, &payload) {
        Prepared::Run(ToolRequest::ReadFile(args)) => assert_eq!(args.path, "first.txt"),
        _ => panic!("a valid payload must run the handler"),
    }
}

#[test]
fn optional_path_given_explicitly_is_used() {
    let fs = FileSystem::new();
    let payload = vec![text_entry("path", "/tmp")];
    let name = String::from("list_files");
    match fs.tool_router.prepare(&name, &payload) {
        Prepared::Run(ToolRequest::ListFiles(args)) => assert_eq!(args.path, "/tmp"),
        _ => panic!("a supplied optional field must be used, not the default"),
    }
}

#[test]
fn server_info_declares_tool_calling() {
    let fs = FileSystem::new();
    let info = fs.get_info();
    assert_eq!(info.protocol_version, "2024-11-05");
    assert!(info.tools_enabled);
    assert!(info.instructions.contains("list_files"));
    let init = fs.initialize();
    assert_eq!(init.protocol_version, "2024-11-05");
}
