use vstd::prelude::*;

verus! {

/// The mathematical value of an argument.
pub enum ArgView {
    Text(Seq<char>),
    Integer(int),
    Flag(bool),
}

/// An untyped argument value, as carried in a tool-call payload.
#[derive(Debug)]
pub enum ArgValue {
    Text(String),
    Integer(i64),
    Flag(bool),
}

impl View for ArgValue {
    type V = ArgView;

    open spec fn view(&self) -> ArgView {
        match self {
            ArgValue::Text(s) => ArgView::Text(s@),
            ArgValue::Integer(n) => ArgView::Integer(*n as int),
            ArgValue::Flag(b) => ArgView::Flag(*b),
        }
    }
}

/// The type a schema field expects.
#[derive(Clone, Copy, PartialEq, Eq, Structural, Debug)]
pub enum FieldType {
    Text,
    Integer,
    Flag,
}

/// The type of an argument value.
pub open spec fn view_type(v: ArgView) -> FieldType {
    match v {
        ArgView::Text(_) => FieldType::Text,
        ArgView::Integer(_) => FieldType::Integer,
        ArgView::Flag(_) => FieldType::Flag,
    }
}

/// Computes the type of `v`.
pub fn arg_type_of(v: &ArgValue) -> (t: FieldType)
    ensures
        t == view_type(v@),
{
    match v {
        ArgValue::Text(_) => FieldType::Text,
        ArgValue::Integer(_) => FieldType::Integer,
        ArgValue::Flag(_) => FieldType::Flag,
    }
}

/// Copies an argument value.
pub fn clone_arg(v: &ArgValue) -> (r: ArgValue)
    ensures
        r@ == v@,
{
    match v {
        ArgValue::Text(s) => ArgValue::Text(s.clone()),
        ArgValue::Integer(n) => ArgValue::Integer(*n),
        ArgValue::Flag(b) => ArgValue::Flag(*b),
    }
}

/// One key/value pair of a raw argument payload.
#[derive(Debug)]
pub struct PayloadEntry {
    pub key: String,
    pub value: ArgValue,
}

/// Arguments of `list_files`, after validation.
pub struct ListFilesArgs {
    pub path: String,
}

/// Arguments of `read_file`, after validation.
pub struct ReadFileArgs {
    pub path: String,
}

/// Arguments of `write_file`, after validation.
pub struct WriteFileArgs {
    pub path: String,
    pub content: String,
}

/// Arguments of `get_file_info`, after validation.
pub struct FileInfoArgs {
    pub path: String,
}

/// Metadata of one file or directory, as the filesystem reports it.
pub struct FileInfo {
    pub path: String,
    pub size: u64,
    pub is_file: bool,
    pub is_dir: bool,
    pub modified: String,
}

/// One directory entry: its decoded name and whether it is a directory.
pub struct DirEntry {
    pub name: String,
    pub is_dir: bool,
}

} // verus!
