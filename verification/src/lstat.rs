use vstd::prelude::*;

verus! {

/// A value snapshot of a path's own filesystem status.
///
/// The snapshot is captured exactly once per inspection, with every field
/// taken from one status call made on the path entry itself (a trailing
/// symlink is never followed). The caller that performs the raw status
/// call hands the fields in here and never refreshes them.
pub struct Lstat {
    size: u64,
    mode: u32,
    uid: u32,
    gid: u32,
    accessed: i64,
    modified: i64,
    blocks: i64,
    block_size: i64,
}

impl Lstat {
    /// Builds the snapshot from the fields of one status call.
    pub fn new(
        size: u64,
        mode: u32,
        owner_user_id: u32,
        owner_group_id: u32,
        accessed: i64,
        modified: i64,
        blocks: i64,
        block_size: i64,
    ) -> (r: Lstat)
        ensures
            r.size() == size,
            r.mode() == mode,
            r.owner_user_id() == owner_user_id,
            r.owner_group_id() == owner_group_id,
            r.accessed() == accessed,
            r.modified() == modified,
            r.blocks() == blocks,
            r.block_size() == block_size,
    {
        Lstat { size, mode, uid: owner_user_id, gid: owner_group_id, accessed, modified, blocks, block_size }
    }

    /// The type and permission bits, as the status call reported them.
    pub closed spec fn spec_mode(&self) -> u32 {
        self.mode
    }

    #[verifier::when_used_as_spec(spec_mode)]
    pub fn mode(&self) -> (r: u32)
        ensures
            r == self.spec_mode(),
    {
        self.mode
    }

    /// The content length in bytes.
    pub closed spec fn spec_size(&self) -> u64 {
        self.size
    }

    #[verifier::when_used_as_spec(spec_size)]
    pub fn size(&self) -> (r: u64)
        ensures
            r == self.spec_size(),
    {
        self.size
    }

    /// The preferred I/O block size.
    pub closed spec fn spec_block_size(&self) -> i64 {
        self.block_size
    }

    #[verifier::when_used_as_spec(spec_block_size)]
    pub fn block_size(&self) -> (r: i64)
        ensures
            r == self.spec_block_size(),
    {
        self.block_size
    }

    /// The permission bits of the mode: the rwx triples together with the
    /// setuid, setgid and sticky bits, without the file-type bits.
    pub fn permissions(&self) -> (r: u32)
        ensures
            r == self.spec_mode() & 0o7777,
    {
        self.mode & 0o7777
    }

    /// The number of allocated blocks.
    pub closed spec fn spec_blocks(&self) -> i64 {
        self.blocks
    }

    #[verifier::when_used_as_spec(spec_blocks)]
    pub fn blocks(&self) -> (r: i64)
        ensures
            r == self.spec_blocks(),
    {
        self.blocks
    }

    /// The last-access time in epoch seconds.
    pub closed spec fn spec_accessed(&self) -> i64 {
        self.accessed
    }

    #[verifier::when_used_as_spec(spec_accessed)]
    pub fn accessed(&self) -> (r: i64)
        ensures
            r == self.spec_accessed(),
    {
        self.accessed
    }

    /// The last-modification time in epoch seconds.
    pub closed spec fn spec_modified(&self) -> i64 {
        self.modified
    }

    #[verifier::when_used_as_spec(spec_modified)]
    pub fn modified(&self) -> (r: i64)
        ensures
            r == self.spec_modified(),
    {
        self.modified
    }

    /// The id of the owning user.
    pub closed spec fn spec_owner_user_id(&self) -> u32 {
        self.uid
    }

    #[verifier::when_used_as_spec(spec_owner_user_id)]
    pub fn owner_user_id(&self) -> (r: u32)
        ensures
            r == self.spec_owner_user_id(),
    {
        self.uid
    }

    /// The id of the owning group.
    pub closed spec fn spec_owner_group_id(&self) -> u32 {
        self.gid
    }

    #[verifier::when_used_as_spec(spec_owner_group_id)]
    pub fn owner_group_id(&self) -> (r: u32)
        ensures
            r == self.spec_owner_group_id(),
    {
        self.gid
    }
}

} // verus!
