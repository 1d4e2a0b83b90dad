use vstd::prelude::*;

verus! {

/// One filesystem node in a recursive listing: its name, its full
/// path, whether it is a directory, and — for a directory — its fully
/// expanded contents, in the order in which they were enumerated.
pub struct DirectoryEntry {
    pub name: String,
    pub path: String,
    pub is_directory: bool,
    pub children: Vec<DirectoryEntry>,
}

/// A snapshot of one node's metadata at the time of the call.
pub struct FileMetadata {
    pub is_file: bool,
    pub is_dir: bool,
    pub size_bytes: u64,
}

/// Every entry of the sequence satisfies the listing shape rule.
pub open spec fn entries_wf(s: Seq<DirectoryEntry>) -> bool
    decreases s,
{
    s.len() == 0 || (s[0].wf() && entries_wf(s.drop_first()))
}

/// A sequence whose entries are each well-formed is well-formed.
proof fn lemma_entries_wf(s: Seq<DirectoryEntry>)
    requires
        forall|i: int| 0 <= i < s.len() ==> #[trigger] s[i].wf(),
    ensures
        entries_wf(s),
    decreases s.len(),
{
    if s.len() > 0 {
        assert forall|i: int| 0 <= i < s.drop_first().len() implies #[trigger] s.drop_first()[i].wf() by {
            assert(s.drop_first()[i] == s[i + 1]);
            assert(s[i + 1].wf());
        }
        lemma_entries_wf(s.drop_first());
        assert(s[0].wf());
    }
}

impl DirectoryEntry {
    /// Shape rule for a listing: a node that is not a directory carries
    /// no children, and every node below a directory obeys the same rule.
    pub open spec fn wf(self) -> bool
        decreases self,
    {
        (!self.is_directory ==> self.children@.len() == 0) && entries_wf(self.children@)
    }

    /// A leaf entry for a regular (non-directory) node.
    pub fn new_file(name: String, path: String) -> (e: DirectoryEntry)
        ensures
            e.wf(),
            e.name@ == name@,
            e.path@ == path@,
            !e.is_directory,
            e.children@.len() == 0,
    {
        DirectoryEntry { name, path, is_directory: false, children: Vec::new() }
    }

    /// An entry for a directory node together with its already-listed
    /// contents, kept in enumeration order.
    pub fn new_directory(name: String, path: String, children: Vec<DirectoryEntry>) -> (e:
        DirectoryEntry)
        requires
            forall|i: int| 0 <= i < children@.len() ==> #[trigger] children@[i].wf(),
        ensures
            e.wf(),
            e.name@ == name@,
            e.path@ == path@,
            e.is_directory,
            e.children@ == children@,
    {
        let e = DirectoryEntry { name, path, is_directory: true, children };
        proof {
            lemma_entries_wf(e.children@);
        }
        e
    }

    /// One assembly step of a recursive listing: the node at `path`,
    /// named by the final component of its path, with the children its
    /// walk has already produced (none for a non-directory).
    pub fn build_entry(path: String, is_directory: bool, children: Vec<DirectoryEntry>) -> (e:
        DirectoryEntry)
        requires
            !is_directory ==> children@.len() == 0,
            forall|i: int| 0 <= i < children@.len() ==> #[trigger] children@[i].wf(),
        ensures
            e.wf(),
            e.name@ == crate::paths::spec_file_name(path@),
            e.path@ == path@,
            e.is_directory == is_directory,
            e.children@ == children@,
    {
        let name = crate::paths::file_name_of(path.as_str());
        let e = DirectoryEntry { name, path, is_directory, children };
        proof {
            lemma_entries_wf(e.children@);
        }
        e
    }

    /// How many immediate children this node carries.
    pub fn child_count(&self) -> (n: usize)
        ensures
            n == self.children@.len(),
    {
        self.children.len()
    }
}

impl FileMetadata {
    /// A metadata record built from the flags and size the OS reported.
    pub fn new(is_file: bool, is_dir: bool, size_bytes: u64) -> (m: FileMetadata)
        ensures
            m.is_file == is_file,
            m.is_dir == is_dir,
            m.size_bytes == size_bytes,
    {
        FileMetadata { is_file, is_dir, size_bytes }
    }
}

} // verus!
