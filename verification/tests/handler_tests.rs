use mcp_server::args::{DirEntry, FileInfoArgs, ListFilesArgs, ReadFileArgs, WriteFileArgs};
use mcp_server::fsmodel::FileStore;
use mcp_server::handlers::{
    finish_get_file_info, finish_list_files, finish_read_file, finish_write_file, FileMeta,
};
use mcp_server::outcome::{ContentBlock, FailureKind, InvocationResult};

fn success_text(r: InvocationResult) -> String {
    match r {
        InvocationResult::Success { content } => {
            assert_eq!(content.len(), 1);
            match content.into_iter().next().unwrap() {
                ContentBlock::Text(s) => s,
            }
        },
        InvocationResult::Failure { message, .. } => {
            panic!("expected success, got failure: {}", message)
        },
    }
}

fn entry(name: &str, is_dir: bool) -> DirEntry {
    DirEntry { name: String::from(name), is_dir }
}

#[test]
fn listing_is_sorted_and_tagged() {
    let args = ListFilesArgs { path: String::from("work") };
    let entries = vec![entry("zeta", false), entry("src", true), entry("alpha", false)];
    let text = success_text(finish_list_files(&args, Ok(entries)));
    assert_eq!(text, "Contents of 'work':\n[FILE] alpha\n[DIR] src\n[FILE] zeta");
}

#[test]
fn listing_sorts_by_name_not_by_tag() {
    let args = ListFilesArgs { path: String::from(".") };
    let entries = vec![entry("zzz", true), entry("aaa", false)];
    let text = success_text(finish_list_files(&args, Ok(entries)));
    assert_eq!(text, "Contents of '.':\n[FILE] aaa\n[DIR] zzz");
}

#[test]
fn empty_directory_has_its_own_text() {
    let args = ListFilesArgs { path: String::from("empty") };
    let text = success_text(finish_list_files(&args, Ok(Vec::new())));
    assert_eq!(text, "Directory is empty");
}

#[test]
fn listing_failure_carries_path_and_error() {
    let args = ListFilesArgs { path: String::from("/nope") };
    match finish_list_files(&args, Err(String::from("permission denied"))) {
        InvocationResult::Failure { kind, message, detail } => {
            assert_eq!(kind, FailureKind::HandlerError);
            assert_eq!(message, "failed_to_read_directory");
            assert_eq!(detail[0].key, "path");
            assert_eq!(detail[0].value, "/nope");
            assert_eq!(detail[1].key, "error");
            assert_eq!(detail[1].value, "permission denied");
        },
        _ => panic!("a handler error must be wrapped as a failure"),
    }
}

#[test]
fn read_renders_header_and_content() {
    let args = ReadFileArgs { path: String::from("notes.md") };
    let text = success_text(finish_read_file(&args, Ok(String::from("hello\nworld"))));
    assert_eq!(text, "Content of 'notes.md':\n\nhello\nworld");
}

#[test]
fn read_failure_is_a_handler_error() {
    let args = ReadFileArgs { path: String::from("gone.txt") };
    match finish_read_file(&args, Err(String::from("not found"))) {
        InvocationResult::Failure { kind, message, .. } => {
            assert_eq!(kind, FailureKind::HandlerError);
            assert_eq!(message, "failed_to_read_file");
        },
        _ => panic!("a read failure must be wrapped"),
    }
}

#[test]
fn write_reports_the_byte_length() {
    let args = WriteFileArgs { path: String::from("t.txt"), content: String::from("hi") };
    let text = success_text(finish_write_file(&args, Ok(())));
    assert_eq!(text, "Successfully wrote 2 bytes to 't.txt'");
}

#[test]
fn write_counts_bytes_not_characters() {
    let args = WriteFileArgs {
        path: String::from("u.txt"),
        content: String::from("\u{e9}\u{e9}"),
    };
    let text = success_text(finish_write_file(&args, Ok(())));
    assert_eq!(text, "Successfully wrote 4 bytes to 'u.txt'");
}

#[test]
fn write_failure_is_a_handler_error() {
    let args = WriteFileArgs { path: String::from("ro.txt"), content: String::from("x") };
    match finish_write_file(&args, Err(String::from("read-only"))) {
        InvocationResult::Failure { kind, message, detail } => {
            assert_eq!(kind, FailureKind::HandlerError);
            assert_eq!(message, "failed_to_write_file");
            assert_eq!(detail[1].value, "read-only");
        },
        _ => panic!("a write failure must be wrapped"),
    }
}

#[test]
fn file_info_renders_every_field() {
    let args = FileInfoArgs { path: String::from("a.bin") };
    let meta = FileMeta {
        size: 42,
        is_file: true,
        is_dir: false,
        modified_secs: Some(1700000000),
    };
    let text = success_text(finish_get_file_info(&args, Ok(meta)));
    assert_eq!(
        text,
        "File info for 'a.bin':\nSize: 42 bytes\nType: File\nModified: 1700000000 seconds since epoch"
    );
}

#[test]
fn file_info_for_a_directory_without_mtime() {
    let args = FileInfoArgs { path: String::from("d") };
    let meta = FileMeta { size: 0, is_file: false, is_dir: true, modified_secs: None };
    let text = success_text(finish_get_file_info(&args, Ok(meta)));
    assert_eq!(text, "File info for 'd':\nSize: 0 bytes\nType: Directory\nModified: unknown");
}

#[test]
fn file_info_failure_is_a_handler_error() {
    let args = FileInfoArgs { path: String::from("x") };
    match finish_get_file_info(&args, Err(String::from("io error"))) {
        InvocationResult::Failure { kind, message, .. } => {
            assert_eq!(kind, FailureKind::HandlerError);
            assert_eq!(message, "failed_to_get_file_info");
        },
        _ => panic!("a metadata failure must be wrapped"),
    }
}

#[test]
fn write_then_read_round_trip() {
    let mut store = FileStore::new();
    let path = String::from("t.txt");
    store.write_file(&path, String::from("first"));
    store.write_file(&path, String::from("second"));
    assert_eq!(store.read_file(&path), Some(String::from("second")));
}

#[test]
fn reads_of_other_paths_are_unaffected() {
    let mut store = FileStore::new();
    let a = String::from("a");
    let b = String::from("b");
    store.write_file(&a, String::from("1"));
    store.write_file(&b, String::from("2"));
    assert_eq!(store.read_file(&a), Some(String::from("1")));
    assert_eq!(store.read_file(&b), Some(String::from("2")));
    assert_eq!(store.read_file(&String::from("c")), None);
}
