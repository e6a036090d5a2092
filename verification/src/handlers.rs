use crate::args::{DirEntry, FileInfo, FileInfoArgs, ListFilesArgs, ReadFileArgs, WriteFileArgs};
use crate::outcome::{
    handler_failure, is_failure, is_text_success, text_success, FailureKind, InvocationResult,
};
use crate::text::{
    dec_rep, dec_u64, lemma_lex_refl, lemma_lex_total, lemma_lex_trans, lex_le, lex_leq,
};
use vstd::prelude::*;
use vstd::string::*;
use vstd::utf8::encode_utf8;

verus! {

/// Metadata of one path, as the filesystem reports it: the size in bytes,
/// the two classification flags, and the modification time in whole seconds
/// since the epoch, where the filesystem can give one.
pub struct FileMeta {
    pub size: u64,
    pub is_file: bool,
    pub is_dir: bool,
    pub modified_secs: Option<u64>,
}

/// The abstract content of one directory entry: its name and whether it is
/// a directory.
pub open spec fn entry_view(e: DirEntry) -> (Seq<char>, bool) {
    (e.name@, e.is_dir)
}

pub open spec fn entry_views(es: Seq<DirEntry>) -> Seq<(Seq<char>, bool)> {
    es.map_values(|e: DirEntry| entry_view(e))
}

/// The line rendered for one entry: its tag — `[DIR]` exactly when the
/// entry is a directory, `[FILE]` otherwise — a space, and its name.
pub open spec fn line_of(v: (Seq<char>, bool)) -> Seq<char> {
    (if v.1 {
        "[DIR]"@
    } else {
        "[FILE]"@
    }) + " "@ + v.0
}

pub open spec fn lines_of(vs: Seq<(Seq<char>, bool)>) -> Seq<Seq<char>> {
    vs.map_values(|v: (Seq<char>, bool)| line_of(v))
}

/// Entries in `lex_leq` order of their names.
pub open spec fn sorted_by_name(es: Seq<DirEntry>) -> bool {
    forall|i: int, j: int| 0 <= i <= j < es.len() ==> lex_leq(es[i].name@, es[j].name@)
}

/// Lines joined with single newlines, in order.
pub open spec fn joined(lines: Seq<Seq<char>>) -> Seq<char>
    decreases lines.len(),
{
    if lines.len() == 0 {
        Seq::empty()
    } else if lines.len() == 1 {
        lines[0]
    } else {
        joined(lines.drop_last()) + "\n"@ + lines.last()
    }
}

/// The text reported for a directory listing, given its rendered lines in
/// their final order.
pub open spec fn listing_text(path: Seq<char>, lines: Seq<Seq<char>>) -> Seq<char> {
    if lines.len() == 0 {
        "Directory is empty"@
    } else {
        "Contents of '"@ + path + "':\n"@ + joined(lines)
    }
}

/// The text reported for a file read.
pub open spec fn read_text(path: Seq<char>, content: Seq<char>) -> Seq<char> {
    "Content of '"@ + path + "':\n\n"@ + content
}

/// The text reported for a file write of `n` bytes.
pub open spec fn write_text(n: nat, path: Seq<char>) -> Seq<char> {
    "Successfully wrote "@ + dec_rep(n) + " bytes to '"@ + path + "'"@
}

/// The modification time as text: seconds since the epoch, or `unknown`.
pub open spec fn modified_text(m: Option<u64>) -> Seq<char> {
    match m {
        Option::Some(s) => dec_rep(s as nat) + " seconds since epoch"@,
        Option::None => "unknown"@,
    }
}

/// The text reported for a metadata query.
pub open spec fn info_text(path: Seq<char>, size: nat, is_dir: bool, modified: Seq<char>) -> Seq<
    char,
> {
    "File info for '"@ + path + "':\nSize: "@ + dec_rep(size) + " bytes\nType: "@ + (if is_dir {
        "Directory"@
    } else {
        "File"@
    }) + "\nModified: "@ + modified
}

fn line_for(e: &DirEntry) -> (s: String)
    ensures
        s@ == line_of(entry_view(*e)),
{
    let mut s = if e.is_dir {
        String::from_str("[DIR]")
    } else {
        String::from_str("[FILE]")
    };
    s.append(" ");
    s.append(e.name.as_str());
    s
}

proof fn lemma_entry_views_remove(v: Seq<DirEntry>, m: int)
    requires
        0 <= m < v.len(),
    ensures
        entry_views(v.remove(m)) =~= entry_views(v).remove(m),
{
}

/// Sorts directory entries into `lex_leq` order of their names; the result
/// is a permutation of the input.
pub fn sort_entries(v: Vec<DirEntry>) -> (r: Vec<DirEntry>)
    ensures
        sorted_by_name(r@),
        entry_views(r@).to_multiset() =~= entry_views(v@).to_multiset(),
{
    broadcast use vstd::seq_lib::group_to_multiset_ensures;

    let mut rest = v;
    let mut out: Vec<DirEntry> = Vec::new();
    let ghost orig = entry_views(rest@);
    while rest.len() > 0
        invariant
            sorted_by_name(out@),
            forall|i: int, j: int|
                0 <= i < out@.len() && 0 <= j < rest@.len() ==> lex_leq(
                    out@[i].name@,
                    rest@[j].name@,
                ),
            entry_views(out@).to_multiset().add(entry_views(rest@).to_multiset())
                =~= orig.to_multiset(),
        decreases rest.len(),
    {
        let mut m: usize = 0;
        let mut k: usize = 1;
        proof {
            lemma_lex_refl(rest@[0].name@);
        }
        while k < rest.len()
            invariant
                m < k,
                k <= rest.len(),
                rest.len() > 0,
                forall|j: int| 0 <= j < k ==> lex_leq(rest@[m as int].name@, rest@[j].name@),
            decreases rest.len() - k,
        {
            if lex_le(rest[k].name.as_str(), rest[m].name.as_str()) {
                proof {
                    assert forall|j: int| 0 <= j < k + 1 implies lex_leq(
                        rest@[k as int].name@,
                        rest@[j].name@,
                    ) by {
                        if j < k {
                            lemma_lex_trans(
                                rest@[k as int].name@,
                                rest@[m as int].name@,
                                rest@[j].name@,
                            );
                        } else {
                            lemma_lex_refl(rest@[k as int].name@);
                        }
                    }
                }
                m = k;
            } else {
                proof {
                    lemma_lex_total(rest@[k as int].name@, rest@[m as int].name@);
                }
            }
            k = k + 1;
        }
        let ghost old_out = out@;
        let ghost old_rest = rest@;
        let x = rest.remove(m);
        out.push(x);
        proof {
            broadcast use vstd::multiset::group_multiset_axioms;

            lemma_entry_views_remove(old_rest, m as int);
            let xv = entry_view(x);
            let mo = entry_views(old_out).to_multiset();
            let mr = entry_views(old_rest).to_multiset();
            vstd::seq_lib::to_multiset_build(entry_views(old_out), xv);
            vstd::seq_lib::to_multiset_remove(entry_views(old_rest), m as int);
            vstd::seq_lib::to_multiset_contains(entry_views(old_rest), xv);
            assert(entry_views(out@) =~= entry_views(old_out).push(xv));
            assert(entry_views(out@).to_multiset() =~= mo.insert(xv));
            assert(entry_views(rest@) =~= entry_views(old_rest).remove(m as int));
            assert(entry_views(old_rest)[m as int] == xv);
            assert(entry_views(old_rest).contains(xv));
            assert(mr.count(xv) > 0);
            assert(entry_views(rest@).to_multiset() =~= mr.remove(xv));
            assert(mo.insert(xv).add(mr.remove(xv)) =~= mo.add(mr));
            assert(entry_views(out@).to_multiset().add(entry_views(rest@).to_multiset())
                =~= orig.to_multiset());
        }
    }
    out
}

/// Renders a directory listing: one tagged line per entry, the entries
/// sorted lexicographically by name, or the fixed text for an empty
/// directory.
pub fn render_listing(path: &String, entries: Vec<DirEntry>) -> (s: String)
    ensures
        exists|vs: Seq<(Seq<char>, bool)>|
            {
                &&& vs.to_multiset() == entry_views(entries@).to_multiset()
                &&& forall|i: int, j: int| 0 <= i <= j < vs.len() ==> lex_leq(vs[i].0, vs[j].0)
                &&& s@ == listing_text(path@, lines_of(vs))
            },
{
    let ghost orig = entry_views(entries@);
    let sorted = sort_entries(entries);
    let ghost vs = entry_views(sorted@);
    let ghost ls = lines_of(vs);
    proof {
        assert(vs.to_multiset() == orig.to_multiset());
        assert forall|i: int, j: int| 0 <= i <= j < vs.len() implies lex_leq(vs[i].0, vs[j].0) by {
            assert(vs[i] == entry_view(sorted@[i]));
            assert(vs[j] == entry_view(sorted@[j]));
        }
        assert(ls.len() == vs.len());
    }
    let n = sorted.len();
    let mut lines: Vec<String> = Vec::new();
    let mut i: usize = 0;
    while i < n
        invariant
            i <= n,
            n == sorted@.len(),
            vs == entry_views(sorted@),
            ls == lines_of(vs),
            ls.len() == n as int,
            lines@.len() == i as int,
            forall|j: int| 0 <= j < i ==> (#[trigger] lines@[j])@ == ls[j],
        decreases n - i,
    {
        let line = line_for(&sorted[i]);
        lines.push(line);
        proof {
            assert(vs[i as int] == entry_view(sorted@[i as int]));
            assert(ls[i as int] == line_of(vs[i as int]));
        }
        i = i + 1;
    }
    if n == 0 {
        let s = String::from_str("Directory is empty");
        proof {
            assert(s@ == listing_text(path@, ls));
        }
        s
    } else {
        let mut body = lines[0].clone();
        proof {
            assert(ls.subrange(0, 1).len() == 1);
            assert(ls.subrange(0, 1)[0] == ls[0]);
            assert(body@ == joined(ls.subrange(0, 1)));
        }
        let mut k: usize = 1;
        while k < n
            invariant
                1 <= k <= n,
                n == lines@.len(),
                ls.len() == n as int,
                forall|j: int| 0 <= j < n ==> (#[trigger] lines@[j])@ == ls[j],
                body@ == joined(ls.subrange(0, k as int)),
            decreases n - k,
        {
            body.append("\n");
            body.append(lines[k].as_str());
            proof {
                let pre = ls.subrange(0, k + 1);
                assert(pre.drop_last() =~= ls.subrange(0, k as int));
                assert(pre.last() == ls[k as int]);
                assert(body@ == joined(pre));
            }
            k = k + 1;
        }
        proof {
            assert(ls.subrange(0, ls.len() as int) =~= ls);
        }
        let mut s = String::from_str("Contents of '");
        s.append(path.as_str());
        s.append("':\n");
        s.append(body.as_str());
        proof {
            assert(s@ == listing_text(path@, ls));
        }
        s
    }
}

/// Renders the text for a file read.
pub fn render_read(path: &String, content: &String) -> (s: String)
    ensures
        s@ == read_text(path@, content@),
{
    let mut s = String::from_str("Content of '");
    s.append(path.as_str());
    s.append("':\n\n");
    s.append(content.as_str());
    s
}

/// Renders the text for a file write of `n` bytes.
pub fn render_write(path: &String, n: u64) -> (s: String)
    ensures
        s@ == write_text(n as nat, path@),
{
    let mut s = String::from_str("Successfully wrote ");
    let d = dec_u64(n);
    s.append(d.as_str());
    s.append(" bytes to '");
    s.append(path.as_str());
    s.append("'");
    s
}

/// Builds the metadata record reported for `path`.
pub fn make_file_info(path: &String, meta: &FileMeta) -> (info: FileInfo)
    ensures
        info.path@ == path@,
        info.size == meta.size,
        info.is_file == meta.is_file,
        info.is_dir == meta.is_dir,
        info.modified@ == modified_text(meta.modified_secs),
{
    let modified = match meta.modified_secs {
        Option::Some(secs) => {
            let mut m = dec_u64(secs);
            m.append(" seconds since epoch");
            m
        },
        Option::None => String::from_str("unknown"),
    };
    FileInfo {
        path: path.clone(),
        size: meta.size,
        is_file: meta.is_file,
        is_dir: meta.is_dir,
        modified,
    }
}

/// Renders the text for a metadata query.
pub fn render_info(info: &FileInfo) -> (s: String)
    ensures
        s@ == info_text(info.path@, info.size as nat, info.is_dir, info.modified@),
{
    let mut s = String::from_str("File info for '");
    s.append(info.path.as_str());
    s.append("':\nSize: ");
    let d = dec_u64(info.size);
    s.append(d.as_str());
    s.append(" bytes\nType: ");
    if info.is_dir {
        s.append("Directory");
    } else {
        s.append("File");
    }
    s.append("\nModified: ");
    s.append(info.modified.as_str());
    s
}

/// Wraps the outcome of a directory read: a listing tagged per entry and
/// sorted by entry name on success, a `HandlerError` carrying the path and
/// the error text otherwise.
pub fn finish_list_files(args: &ListFilesArgs, outcome: Result<Vec<DirEntry>, String>) -> (r:
    InvocationResult)
    ensures
        outcome matches Ok(es) ==> exists|vs: Seq<(Seq<char>, bool)>|
            {
                &&& vs.to_multiset() == entry_views(es@).to_multiset()
                &&& forall|i: int, j: int| 0 <= i <= j < vs.len() ==> lex_leq(vs[i].0, vs[j].0)
                &&& is_text_success(r, listing_text(args.path@, lines_of(vs)))
            },
        outcome matches Err(e) ==> is_failure(
            r,
            FailureKind::HandlerError,
            "failed_to_read_directory"@,
            seq![("path"@, args.path@), ("error"@, e@)],
        ),
{
    match outcome {
        Result::Ok(es) => text_success(render_listing(&args.path, es)),
        Result::Err(e) => handler_failure("failed_to_read_directory", &args.path, e),
    }
}

/// Wraps the outcome of a file read.
pub fn finish_read_file(args: &ReadFileArgs, outcome: Result<String, String>) -> (r:
    InvocationResult)
    ensures
        outcome matches Ok(content) ==> is_text_success(r, read_text(args.path@, content@)),
        outcome matches Err(e) ==> is_failure(
            r,
            FailureKind::HandlerError,
            "failed_to_read_file"@,
            seq![("path"@, args.path@), ("error"@, e@)],
        ),
{
    match outcome {
        Result::Ok(content) => text_success(render_read(&args.path, &content)),
        Result::Err(e) => handler_failure("failed_to_read_file", &args.path, e),
    }
}

/// Wraps the outcome of a file write; the reported count is the byte length
/// of the content that was written.
pub fn finish_write_file(args: &WriteFileArgs, outcome: Result<(), String>) -> (r:
    InvocationResult)
    ensures
        outcome matches Ok(u) ==> is_text_success(
            r,
            write_text((encode_utf8(args.content@).len() as usize) as nat, args.path@),
        ),
        outcome matches Err(e) ==> is_failure(
            r,
            FailureKind::HandlerError,
            "failed_to_write_file"@,
            seq![("path"@, args.path@), ("error"@, e@)],
        ),
{
    match outcome {
        Result::Ok(_) => {
            let n = args.content.as_str().len();
            text_success(render_write(&args.path, n as u64))
        },
        Result::Err(e) => handler_failure("failed_to_write_file", &args.path, e),
    }
}

/// Wraps the outcome of a metadata query.
pub fn finish_get_file_info(args: &FileInfoArgs, outcome: Result<FileMeta, String>) -> (r:
    InvocationResult)
    ensures
        outcome matches Ok(m) ==> is_text_success(
            r,
            info_text(args.path@, m.size as nat, m.is_dir, modified_text(m.modified_secs)),
        ),
        outcome matches Err(e) ==> is_failure(
            r,
            FailureKind::HandlerError,
            "failed_to_get_file_info"@,
            seq![("path"@, args.path@), ("error"@, e@)],
        ),
{
    match outcome {
        Result::Ok(m) => {
            let info = make_file_info(&args.path, &m);
            text_success(render_info(&info))
        },
        Result::Err(e) => handler_failure("failed_to_get_file_info", &args.path, e),
    }
}

} // verus!
