use vstd::prelude::*;
use vstd::string::*;

verus! {

/// One recorded write: a path and the content last written to it.
#[derive(Debug)]
pub struct FsFile {
    pub path: String,
    pub content: String,
}

/// An in-memory store standing for the filesystem the handlers operate on,
/// used to state and test what the server promises of them. Writes are
/// recorded in order and the latest write to a path wins, which is exactly
/// the coordination the server offers for concurrent writers: none beyond
/// last-write-wins.
#[derive(Debug)]
pub struct FileStore {
    pub files: Vec<FsFile>,
}

/// The content a path holds: that of the latest write to it.
pub open spec fn store_lookup(s: Seq<FsFile>, path: Seq<char>) -> Option<Seq<char>>
    decreases s.len(),
{
    if s.len() == 0 {
        Option::None
    } else if s.last().path@ == path {
        Option::Some(s.last().content@)
    } else {
        store_lookup(s.drop_last(), path)
    }
}

impl FileStore {
    pub fn new() -> (s: Self)
        ensures
            s.files@.len() == 0,
    {
        FileStore { files: Vec::new() }
    }

    /// Overwrite-or-create: after the call the path holds exactly
    /// `content`, and no other path changes.
    pub fn write_file(&mut self, path: &String, content: String)
        ensures
            store_lookup(final(self).files@, path@) == Option::Some(content@),
            forall|q: Seq<char>|
                q != path@ ==> store_lookup(final(self).files@, q) == store_lookup(
                    old(self).files@,
                    q,
                ),
    {
        let ghost pre = self.files@;
        let entry = FsFile { path: path.clone(), content };
        self.files.push(entry);
        proof {
            assert(self.files@.last() == entry);
            assert(self.files@.drop_last() =~= pre);
            assert forall|q: Seq<char>| q != path@ implies store_lookup(self.files@, q)
                == store_lookup(pre, q) by {
                assert(self.files@.last().path@ == path@);
            }
        }
    }

    /// The content the path holds, if any write reached it.
    pub fn read_file(&self, path: &String) -> (r: Option<String>)
        ensures
            match r {
                Option::Some(c) => store_lookup(self.files@, path@) == Option::Some(c@),
                Option::None => store_lookup(self.files@, path@) is None,
            },
    {
        let mut i: usize = self.files.len();
        proof {
            assert(self.files@.subrange(0, i as int) =~= self.files@);
        }
        while i > 0
            invariant
                i <= self.files@.len(),
                store_lookup(self.files@, path@) == store_lookup(
                    self.files@.subrange(0, i as int),
                    path@,
                ),
            decreases i,
        {
            let ghost pre = self.files@.subrange(0, i as int);
            proof {
                assert(pre.last() == self.files@[i - 1]);
                assert(pre.drop_last() =~= self.files@.subrange(0, i - 1));
            }
            if self.files[i - 1].path == *path {
                return Option::Some(self.files[i - 1].content.clone());
            }
            i = i - 1;
        }
        Option::None
    }
}

/// Round trip: reading a path right after writing it returns exactly the
/// content written, whatever was stored before.
pub proof fn lemma_write_read_round_trip(s: Seq<FsFile>, f: FsFile)
    ensures
        store_lookup(s.push(f), f.path@) == Option::Some(f.content@),
{
    assert(s.push(f).last() == f);
}

} // verus!
