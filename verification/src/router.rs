use crate::args::{
    clone_arg, view_type, ArgValue, ArgView, FieldType, FileInfoArgs, ListFilesArgs, PayloadEntry,
    ReadFileArgs, WriteFileArgs,
};
use crate::outcome::{detail_views, is_failure, FailureKind, InvocationResult};
use crate::schema::{
    all_fields_ok, field_ok, field_wf, first_bad, found_type, resolved_value, schema_wf, validate,
    FieldSpec, ParamSchema, ValidationIssue,
};
use vstd::prelude::*;
use vstd::string::*;

verus! {

/// The four operations this server exposes.
#[derive(Clone, Copy, PartialEq, Eq, Structural, Debug)]
pub enum ToolKind {
    ListFiles,
    ReadFile,
    WriteFile,
    GetFileInfo,
}

/// One registered tool: its unique name, a human-readable description, its
/// parameter schema, and which handler it is bound to.
#[derive(Debug)]
pub struct ToolDescriptor {
    pub name: String,
    pub description: String,
    pub schema: ParamSchema,
    pub kind: ToolKind,
}

/// The registry mapping tool names to schemas and handlers; append-only,
/// built once at startup, read-only afterwards.
#[derive(Debug)]
pub struct ToolRouter {
    pub tools: Vec<ToolDescriptor>,
}

/// The abstract content of a schema field.
pub open spec fn field_view(f: FieldSpec) -> (Seq<char>, FieldType, bool, Option<ArgView>) {
    (
        f.name@,
        f.ty,
        f.required,
        match f.default {
            Option::Some(d) => Option::Some(d@),
            Option::None => Option::None,
        },
    )
}

pub open spec fn schema_view(s: ParamSchema) -> Seq<(Seq<char>, FieldType, bool, Option<ArgView>)> {
    s.fields@.map_values(|f: FieldSpec| field_view(f))
}

/// The abstract content of a tool descriptor.
pub open spec fn descriptor_view(t: ToolDescriptor) -> (
    Seq<char>,
    Seq<char>,
    Seq<(Seq<char>, FieldType, bool, Option<ArgView>)>,
    ToolKind,
) {
    (t.name@, t.description@, schema_view(t.schema), t.kind)
}

/// A single required field of string type.
pub open spec fn req_text_field(f: FieldSpec, name: Seq<char>) -> bool {
    &&& f.name@ == name
    &&& f.ty == FieldType::Text
    &&& f.required
    &&& f.default is None
}

/// A single optional field of string type with a string default.
pub open spec fn opt_text_field(f: FieldSpec, name: Seq<char>, dflt: Seq<char>) -> bool {
    &&& f.name@ == name
    &&& f.ty == FieldType::Text
    &&& !f.required
    &&& match f.default {
        Option::Some(d) => d@ == ArgView::Text(dflt),
        Option::None => false,
    }
}

pub open spec fn list_files_schema_ok(s: ParamSchema) -> bool {
    s.fields@.len() == 1 && opt_text_field(s.fields@[0], "path"@, "."@)
}

pub open spec fn read_file_schema_ok(s: ParamSchema) -> bool {
    s.fields@.len() == 1 && req_text_field(s.fields@[0], "path"@)
}

pub open spec fn write_file_schema_ok(s: ParamSchema) -> bool {
    s.fields@.len() == 2 && req_text_field(s.fields@[0], "path"@) && req_text_field(
        s.fields@[1],
        "content"@,
    )
}

pub open spec fn get_file_info_schema_ok(s: ParamSchema) -> bool {
    s.fields@.len() == 1 && req_text_field(s.fields@[0], "path"@)
}

/// The router holds exactly the four filesystem tools, in registration
/// order, each with the schema its tool declares.
pub open spec fn router_wf(r: ToolRouter) -> bool {
    &&& r.tools@.len() == 4
    &&& r.tools@[0].name@ == "list_files"@
    &&& r.tools@[0].description@ == "List files and directories in a given path"@
    &&& r.tools@[0].kind == ToolKind::ListFiles
    &&& list_files_schema_ok(r.tools@[0].schema)
    &&& r.tools@[1].name@ == "read_file"@
    &&& r.tools@[1].description@ == "Read the contents of a file"@
    &&& r.tools@[1].kind == ToolKind::ReadFile
    &&& read_file_schema_ok(r.tools@[1].schema)
    &&& r.tools@[2].name@ == "write_file"@
    &&& r.tools@[2].description@ == "Write content to a file"@
    &&& r.tools@[2].kind == ToolKind::WriteFile
    &&& write_file_schema_ok(r.tools@[2].schema)
    &&& r.tools@[3].name@ == "get_file_info"@
    &&& r.tools@[3].description@ == "Get information about a file or directory"@
    &&& r.tools@[3].kind == ToolKind::GetFileInfo
    &&& get_file_info_schema_ok(r.tools@[3].schema)
}

/// First-match lookup of a tool by name.
pub open spec fn find_tool(tools: Seq<ToolDescriptor>, name: Seq<char>) -> Option<int>
    decreases tools.len(),
{
    if tools.len() == 0 {
        Option::None
    } else if tools[0].name@ == name {
        Option::Some(0int)
    } else {
        match find_tool(tools.subrange(1, tools.len() as int), name) {
            Option::Some(i) => Option::Some(i + 1),
            Option::None => Option::None,
        }
    }
}

proof fn lemma_find_tool_hit(tools: Seq<ToolDescriptor>, name: Seq<char>, i: int)
    requires
        0 <= i < tools.len(),
        forall|j: int| 0 <= j < i ==> (#[trigger] tools[j]).name@ != name,
        tools[i].name@ == name,
    ensures
        find_tool(tools, name) == Option::Some(i),
    decreases i,
{
    if i == 0 {
    } else {
        let rest = tools.subrange(1, tools.len() as int);
        assert(forall|j: int| 0 <= j < i - 1 ==> #[trigger] rest[j] == tools[j + 1]);
        lemma_find_tool_hit(rest, name, i - 1);
    }
}

proof fn lemma_find_tool_miss(tools: Seq<ToolDescriptor>, name: Seq<char>)
    requires
        forall|j: int| 0 <= j < tools.len() ==> (#[trigger] tools[j]).name@ != name,
    ensures
        find_tool(tools, name) is None,
    decreases tools.len(),
{
    if tools.len() > 0 {
        let rest = tools.subrange(1, tools.len() as int);
        assert(forall|j: int| 0 <= j < rest.len() ==> #[trigger] rest[j] == tools[j + 1]);
        lemma_find_tool_miss(rest, name);
    }
}

/// A validated invocation, bound to the handler it will run.
pub enum ToolRequest {
    ListFiles(ListFilesArgs),
    ReadFile(ReadFileArgs),
    WriteFile(WriteFileArgs),
    GetFileInfo(FileInfoArgs),
}

pub open spec fn req_kind(r: ToolRequest) -> ToolKind {
    match r {
        ToolRequest::ListFiles(_) => ToolKind::ListFiles,
        ToolRequest::ReadFile(_) => ToolKind::ReadFile,
        ToolRequest::WriteFile(_) => ToolKind::WriteFile,
        ToolRequest::GetFileInfo(_) => ToolKind::GetFileInfo,
    }
}

/// The argument values a request carries, in schema field order.
pub open spec fn req_args(r: ToolRequest) -> Seq<ArgView> {
    match r {
        ToolRequest::ListFiles(a) => seq![ArgView::Text(a.path@)],
        ToolRequest::ReadFile(a) => seq![ArgView::Text(a.path@)],
        ToolRequest::WriteFile(a) => seq![ArgView::Text(a.path@), ArgView::Text(a.content@)],
        ToolRequest::GetFileInfo(a) => seq![ArgView::Text(a.path@)],
    }
}

/// The values validation resolves for `fields`, in field order.
pub open spec fn resolved_args(fields: Seq<FieldSpec>, p: Seq<PayloadEntry>) -> Seq<ArgView> {
    fields.map_values(|f: FieldSpec| resolved_value(f, p))
}

/// What the router decides for an invocation: run a validated request, or
/// reject it with the failure that will be returned unchanged.
pub enum Prepared {
    Run(ToolRequest),
    Reject(InvocationResult),
}

/// `r` rejects the invocation with exactly this failure.
pub open spec fn rejected_with(
    r: Prepared,
    kind: FailureKind,
    message: Seq<char>,
    detail: Seq<(Seq<char>, Seq<char>)>,
) -> bool {
    match r {
        Prepared::Reject(res) => is_failure(res, kind, message, detail),
        _ => false,
    }
}

/// `r` runs the handler of `kind` on exactly these argument values.
pub open spec fn runs_tool(r: Prepared, kind: ToolKind, a: Seq<ArgView>) -> bool {
    match r {
        Prepared::Run(req) => req_kind(req) == kind && req_args(req) == a,
        _ => false,
    }
}

/// The text naming a field type in a validation report.
pub open spec fn type_text(t: FieldType) -> Seq<char> {
    match t {
        FieldType::Text => "string"@,
        FieldType::Integer => "integer"@,
        FieldType::Flag => "boolean"@,
    }
}

pub open spec fn found_text(o: Option<FieldType>) -> Seq<char> {
    match o {
        Option::Some(t) => type_text(t),
        Option::None => "missing"@,
    }
}

fn type_label(t: FieldType) -> (s: &'static str)
    ensures
        s@ == type_text(t),
{
    match t {
        FieldType::Text => "string",
        FieldType::Integer => "integer",
        FieldType::Flag => "boolean",
    }
}

/// Builds the failure returned for an unregistered tool name.
pub fn unknown_tool_failure(name: &String) -> (r: InvocationResult)
    ensures
        is_failure(r, FailureKind::UnknownTool, "unknown_tool"@, seq![("tool"@, name@)]),
{
    let mut detail: Vec<crate::outcome::DetailEntry> = Vec::new();
    detail.push(
        crate::outcome::DetailEntry { key: String::from_str("tool"), value: name.clone() },
    );
    proof {
        assert(detail_views(detail@) =~= seq![("tool"@, name@)]);
    }
    InvocationResult::Failure {
        kind: FailureKind::UnknownTool,
        message: String::from_str("unknown_tool"),
        detail,
    }
}

/// Builds the failure returned for a rejected payload, naming the offending
/// field and the expected and found types.
pub fn validation_failure(issue: ValidationIssue) -> (r: InvocationResult)
    ensures
        is_failure(
            r,
            FailureKind::ValidationError,
            "invalid_parameters"@,
            seq![
                ("field"@, issue.field@),
                ("expected"@, type_text(issue.expected)),
                ("found"@, found_text(issue.found)),
            ],
        ),
{
    let mut detail: Vec<crate::outcome::DetailEntry> = Vec::new();
    let found = match issue.found {
        Option::Some(t) => String::from_str(type_label(t)),
        Option::None => String::from_str("missing"),
    };
    detail.push(
        crate::outcome::DetailEntry { key: String::from_str("field"), value: issue.field },
    );
    detail.push(
        crate::outcome::DetailEntry {
            key: String::from_str("expected"),
            value: String::from_str(type_label(issue.expected)),
        },
    );
    detail.push(crate::outcome::DetailEntry { key: String::from_str("found"), value: found });
    proof {
        assert(detail_views(detail@) =~= seq![
            ("field"@, issue.field@),
            ("expected"@, type_text(issue.expected)),
            ("found"@, found_text(issue.found)),
        ]);
    }
    InvocationResult::Failure {
        kind: FailureKind::ValidationError,
        message: String::from_str("invalid_parameters"),
        detail,
    }
}

fn take_text(v: ArgValue) -> (s: String)
    requires
        view_type(v@) == FieldType::Text,
    ensures
        v@ == ArgView::Text(s@),
{
    match v {
        ArgValue::Text(s) => s,
        ArgValue::Integer(_) => {
            proof {
                assert(false);
            }
            String::new()
        },
        ArgValue::Flag(_) => {
            proof {
                assert(false);
            }
            String::new()
        },
    }
}

proof fn lemma_resolved_type(f: FieldSpec, p: Seq<PayloadEntry>)
    requires
        field_wf(f),
        field_ok(f, p),
    ensures
        view_type(resolved_value(f, p)) == f.ty,
{
}

impl ToolRouter {
    /// Finds the tool registered under `name`, first match wins.
    pub fn lookup_tool(&self, name: &String) -> (r: Option<usize>)
        ensures
            match r {
                Option::Some(i) => find_tool(self.tools@, name@) == Option::Some(i as int) && i
                    < self.tools@.len(),
                Option::None => find_tool(self.tools@, name@) is None,
            },
    {
        let n = self.tools.len();
        let mut i: usize = 0;
        while i < n
            invariant
                i <= n,
                n == self.tools@.len(),
                forall|j: int| 0 <= j < i ==> (#[trigger] self.tools@[j]).name@ != name@,
            decreases n - i,
        {
            if self.tools[i].name == *name {
                proof {
                    lemma_find_tool_hit(self.tools@, name@, i as int);
                }
                return Option::Some(i);
            }
            i = i + 1;
        }
        proof {
            lemma_find_tool_miss(self.tools@, name@);
        }
        Option::None
    }

    /// Routes one invocation: looks the tool up, validates the payload, and
    /// either binds a validated request or rejects with `UnknownTool` or
    /// `ValidationError`. No handler runs for a rejected invocation.
    pub fn prepare(&self, name: &String, payload: &Vec<PayloadEntry>) -> (r: Prepared)
        requires
            router_wf(*self),
        ensures
            find_tool(self.tools@, name@) is None ==> rejected_with(
                r,
                FailureKind::UnknownTool,
                "unknown_tool"@,
                seq![("tool"@, name@)],
            ),
            find_tool(self.tools@, name@) matches Some(ti) ==> ({
                let fields = self.tools@[ti].schema.fields@;
                let j = first_bad(fields, payload@);
                &&& all_fields_ok(fields, payload@) ==> runs_tool(
                    r,
                    self.tools@[ti].kind,
                    resolved_args(fields, payload@),
                )
                &&& !all_fields_ok(fields, payload@) ==> rejected_with(
                    r,
                    FailureKind::ValidationError,
                    "invalid_parameters"@,
                    seq![
                        ("field"@, fields[j].name@),
                        ("expected"@, type_text(fields[j].ty)),
                        ("found"@, found_text(found_type(fields[j], payload@))),
                    ],
                )
            }),
    {
        match self.lookup_tool(name) {
            Option::None => Prepared::Reject(unknown_tool_failure(name)),
            Option::Some(i) => {
                let t = &self.tools[i];
                proof {
                    assert(i < 4);
                    assert(schema_wf(t.schema)) by {
                        assert(forall|k: int|
                            0 <= k < t.schema.fields@.len() ==> field_wf(
                                #[trigger] t.schema.fields@[k],
                            ));
                    }
                }
                match validate(&t.schema, payload) {
                    Result::Err(issue) => Prepared::Reject(validation_failure(issue)),
                    Result::Ok(out) => {
                        proof {
                            assert forall|k: int| 0 <= k < t.schema.fields@.len() implies view_type(
                                resolved_value(#[trigger] t.schema.fields@[k], payload@),
                            ) == t.schema.fields@[k].ty by {
                                lemma_resolved_type(t.schema.fields@[k], payload@);
                            }
                        }
                        let mut out = out;
                        match t.kind {
                            ToolKind::ListFiles => {
                                let e = out.remove(0);
                                let path = take_text(e.value);
                                let req = ToolRequest::ListFiles(ListFilesArgs { path });
                                proof {
                                    assert(req_args(req) =~= resolved_args(
                                        t.schema.fields@,
                                        payload@,
                                    ));
                                }
                                Prepared::Run(req)
                            },
                            ToolKind::ReadFile => {
                                let e = out.remove(0);
                                let path = take_text(e.value);
                                let req = ToolRequest::ReadFile(ReadFileArgs { path });
                                proof {
                                    assert(req_args(req) =~= resolved_args(
                                        t.schema.fields@,
                                        payload@,
                                    ));
                                }
                                Prepared::Run(req)
                            },
                            ToolKind::WriteFile => {
                                let e0 = out.remove(0);
                                let e1 = out.remove(0);
                                let path = take_text(e0.value);
                                let content = take_text(e1.value);
                                let req = ToolRequest::WriteFile(WriteFileArgs { path, content });
                                proof {
                                    assert(req_args(req) =~= resolved_args(
                                        t.schema.fields@,
                                        payload@,
                                    ));
                                }
                                Prepared::Run(req)
                            },
                            ToolKind::GetFileInfo => {
                                let e = out.remove(0);
                                let path = take_text(e.value);
                                let req = ToolRequest::GetFileInfo(FileInfoArgs { path });
                                proof {
                                    assert(req_args(req) =~= resolved_args(
                                        t.schema.fields@,
                                        payload@,
                                    ));
                                }
                                Prepared::Run(req)
                            },
                        }
                    },
                }
            },
        }
    }
}

fn clone_field(f: &FieldSpec) -> (r: FieldSpec)
    ensures
        field_view(r) == field_view(*f),
{
    FieldSpec {
        name: f.name.clone(),
        ty: f.ty,
        required: f.required,
        default: match &f.default {
            Option::Some(d) => Option::Some(clone_arg(d)),
            Option::None => Option::None,
        },
    }
}

fn clone_schema(s: &ParamSchema) -> (r: ParamSchema)
    ensures
        schema_view(r) == schema_view(*s),
{
    let n = s.fields.len();
    let mut fields: Vec<FieldSpec> = Vec::new();
    let mut i: usize = 0;
    while i < n
        invariant
            i <= n,
            n == s.fields@.len(),
            fields@.len() == i as int,
            forall|j: int|
                0 <= j < i ==> field_view(#[trigger] fields@[j]) == field_view(s.fields@[j]),
        decreases n - i,
    {
        let f = clone_field(&s.fields[i]);
        fields.push(f);
        i = i + 1;
    }
    let r = ParamSchema { fields };
    proof {
        assert(schema_view(r).len() == schema_view(*s).len());
        assert forall|j: int| 0 <= j < schema_view(r).len() implies schema_view(r)[j]
            == schema_view(*s)[j] by {
            assert(schema_view(r)[j] == field_view(r.fields@[j]));
            assert(schema_view(*s)[j] == field_view(s.fields@[j]));
        }
        assert(schema_view(r) =~= schema_view(*s));
    }
    r
}

fn clone_descriptor(t: &ToolDescriptor) -> (r: ToolDescriptor)
    ensures
        descriptor_view(r) == descriptor_view(*t),
{
    ToolDescriptor {
        name: t.name.clone(),
        description: t.description.clone(),
        schema: clone_schema(&t.schema),
        kind: t.kind,
    }
}

impl ToolRouter {
    /// The registered descriptors, in registration order, for discovery
    /// responses.
    pub fn list_tools(&self) -> (r: Vec<ToolDescriptor>)
        ensures
            r@.len() == self.tools@.len(),
            forall|i: int|
                0 <= i < r@.len() ==> descriptor_view(#[trigger] r@[i]) == descriptor_view(
                    self.tools@[i],
                ),
    {
        let n = self.tools.len();
        let mut r: Vec<ToolDescriptor> = Vec::new();
        let mut i: usize = 0;
        while i < n
            invariant
                i <= n,
                n == self.tools@.len(),
                r@.len() == i as int,
                forall|j: int|
                    0 <= j < i ==> descriptor_view(#[trigger] r@[j]) == descriptor_view(
                        self.tools@[j],
                    ),
            decreases n - i,
        {
            let d = clone_descriptor(&self.tools[i]);
            r.push(d);
            i = i + 1;
        }
        r
    }
}

/// What the server advertises on the handshake: its protocol version, that
/// tool calling is enabled, and its usage instructions.
#[derive(Debug)]
pub struct ServerInfo {
    pub protocol_version: String,
    pub tools_enabled: bool,
    pub instructions: String,
}

/// The capability set this server declares.
pub open spec fn server_info_ok(info: ServerInfo) -> bool {
    &&& info.protocol_version@ == "2024-11-05"@
    &&& info.tools_enabled
    &&& info.instructions@
        == "This server provides filesystem tools for basic file and directory operations. Tools: list_files (list directory contents), read_file (read file contents), write_file (write to file), get_file_info (get file metadata)."@
}

/// The filesystem tool server: its router, built once at startup.
#[derive(Debug)]
pub struct FileSystem {
    pub tool_router: ToolRouter,
}

impl FileSystem {
    /// Registers the four filesystem tools, in their fixed order.
    pub fn new() -> (s: Self)
        ensures
            router_wf(s.tool_router),
    {
        let mut tools: Vec<ToolDescriptor> = Vec::new();

        let mut fields: Vec<FieldSpec> = Vec::new();
        fields.push(
            FieldSpec {
                name: String::from_str("path"),
                ty: FieldType::Text,
                required: false,
                default: Option::Some(ArgValue::Text(String::from_str("."))),
            },
        );
        tools.push(
            ToolDescriptor {
                name: String::from_str("list_files"),
                description: String::from_str("List files and directories in a given path"),
                schema: ParamSchema { fields },
                kind: ToolKind::ListFiles,
            },
        );

        let mut fields: Vec<FieldSpec> = Vec::new();
        fields.push(
            FieldSpec {
                name: String::from_str("path"),
                ty: FieldType::Text,
                required: true,
                default: Option::None,
            },
        );
        tools.push(
            ToolDescriptor {
                name: String::from_str("read_file"),
                description: String::from_str("Read the contents of a file"),
                schema: ParamSchema { fields },
                kind: ToolKind::ReadFile,
            },
        );

        let mut fields: Vec<FieldSpec> = Vec::new();
        fields.push(
            FieldSpec {
                name: String::from_str("path"),
                ty: FieldType::Text,
                required: true,
                default: Option::None,
            },
        );
        fields.push(
            FieldSpec {
                name: String::from_str("content"),
                ty: FieldType::Text,
                required: true,
                default: Option::None,
            },
        );
        tools.push(
            ToolDescriptor {
                name: String::from_str("write_file"),
                description: String::from_str("Write content to a file"),
                schema: ParamSchema { fields },
                kind: ToolKind::WriteFile,
            },
        );

        let mut fields: Vec<FieldSpec> = Vec::new();
        fields.push(
            FieldSpec {
                name: String::from_str("path"),
                ty: FieldType::Text,
                required: true,
                default: Option::None,
            },
        );
        tools.push(
            ToolDescriptor {
                name: String::from_str("get_file_info"),
                description: String::from_str("Get information about a file or directory"),
                schema: ParamSchema { fields },
                kind: ToolKind::GetFileInfo,
            },
        );

        FileSystem { tool_router: ToolRouter { tools } }
    }

    /// The capability set, protocol version and instructions this server
    /// advertises.
    pub fn get_info(&self) -> (info: ServerInfo)
        ensures
            server_info_ok(info),
    {
        ServerInfo {
            protocol_version: String::from_str("2024-11-05"),
            tools_enabled: true,
            instructions: String::from_str(
                "This server provides filesystem tools for basic file and directory operations. Tools: list_files (list directory contents), read_file (read file contents), write_file (write to file), get_file_info (get file metadata).",
            ),
        }
    }

    /// Answers the handshake: the declared capability set, always.
    pub fn initialize(&self) -> (info: ServerInfo)
        ensures
            server_info_ok(info),
    {
        self.get_info()
    }
}

} // verus!
