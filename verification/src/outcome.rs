use vstd::prelude::*;
use vstd::string::*;

verus! {

/// The kinds of failure a tool invocation or protocol message can produce.
#[derive(Clone, Copy, PartialEq, Eq, Structural, Debug)]
pub enum FailureKind {
    UnknownTool,
    ValidationError,
    HandlerError,
    ProtocolError,
}

/// One block of result content; every block this server produces is text.
#[derive(Debug)]
pub enum ContentBlock {
    Text(String),
}

/// One key/value pair of the structured detail attached to a failure.
#[derive(Debug)]
pub struct DetailEntry {
    pub key: String,
    pub value: String,
}

/// The uniform envelope for every tool invocation outcome.
#[derive(Debug)]
pub enum InvocationResult {
    Success { content: Vec<ContentBlock> },
    Failure { kind: FailureKind, message: String, detail: Vec<DetailEntry> },
}

pub open spec fn detail_views(d: Seq<DetailEntry>) -> Seq<(Seq<char>, Seq<char>)> {
    d.map_values(|e: DetailEntry| (e.key@, e.value@))
}

/// `r` is a failure of kind `kind` with exactly this message and detail.
pub open spec fn is_failure(
    r: InvocationResult,
    kind: FailureKind,
    message: Seq<char>,
    detail: Seq<(Seq<char>, Seq<char>)>,
) -> bool {
    match r {
        InvocationResult::Failure { kind: k, message: m, detail: d } => {
            &&& k == kind
            &&& m@ == message
            &&& detail_views(d@) == detail
        },
        _ => false,
    }
}

/// `r` is a success carrying a single text block with exactly this text.
pub open spec fn is_text_success(r: InvocationResult, text: Seq<char>) -> bool {
    match r {
        InvocationResult::Success { content } => {
            &&& content@.len() == 1
            &&& match content@[0] {
                ContentBlock::Text(s) => s@ == text,
            }
        },
        _ => false,
    }
}

/// The kind of `r`, if `r` is a failure.
pub open spec fn failure_kind_of(r: InvocationResult) -> Option<FailureKind> {
    match r {
        InvocationResult::Failure { kind, .. } => Option::Some(kind),
        _ => Option::None,
    }
}

/// Builds a failure of kind `HandlerError` carrying the path operated on
/// and the underlying error text, as every filesystem handler reports it.
pub fn handler_failure(code: &str, path: &String, err: String) -> (r: InvocationResult)
    ensures
        is_failure(
            r,
            FailureKind::HandlerError,
            code@,
            seq![("path"@, path@), ("error"@, err@)],
        ),
{
    let mut detail: Vec<DetailEntry> = Vec::new();
    detail.push(DetailEntry { key: String::from_str("path"), value: path.clone() });
    detail.push(DetailEntry { key: String::from_str("error"), value: err });
    proof {
        assert(detail_views(detail@) =~= seq![("path"@, path@), ("error"@, err@)]);
    }
    InvocationResult::Failure {
        kind: FailureKind::HandlerError,
        message: String::from_str(code),
        detail,
    }
}

/// Builds a success envelope holding one text block.
pub fn text_success(text: String) -> (r: InvocationResult)
    ensures
        is_text_success(r, text@),
{
    let mut content: Vec<ContentBlock> = Vec::new();
    content.push(ContentBlock::Text(text));
    InvocationResult::Success { content }
}

} // verus!
