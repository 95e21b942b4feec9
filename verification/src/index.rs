//! Index entries: the settable stat data, mode, id, path and flags of one
//! staged file.

use vstd::prelude::*;
use crate::oid::ObjectId;

verus! {

/// The model of an index entry.
pub ghost struct IndexEntryView {
    pub path: Seq<u8>,
    pub oid: Seq<u8>,
    pub mode: u32,
    pub ctime: (u32, u32),
    pub mtime: (u32, u32),
    pub dev: u32,
    pub ino: u32,
    pub uid: u32,
    pub gid: u32,
    pub size: u32,
    pub flags: u16,
}

/// One index entry. The extended flags are always absent and the split-index
/// position is always zero; `flags` may be left at 0, since the index writer
/// recomputes the path-length bits.
#[derive(Debug)]
pub struct IndexEntry {
    path: Vec<u8>,
    oid: ObjectId,
    mode: u32,
    ctime: (u32, u32),
    mtime: (u32, u32),
    dev: u32,
    ino: u32,
    uid: u32,
    gid: u32,
    size: u32,
    flags: u16,
}

impl View for IndexEntry {
    type V = IndexEntryView;

    closed spec fn view(&self) -> IndexEntryView {
        IndexEntryView {
            path: self.path@,
            oid: self.oid@,
            mode: self.mode,
            ctime: self.ctime,
            mtime: self.mtime,
            dev: self.dev,
            ino: self.ino,
            uid: self.uid,
            gid: self.gid,
            size: self.size,
            flags: self.flags,
        }
    }
}

impl IndexEntry {
    /// An entry with the given fields; times are `(seconds, nanoseconds)`.
    pub fn new(
        path: Vec<u8>,
        oid: ObjectId,
        mode: u32,
        ctime: (u32, u32),
        mtime: (u32, u32),
        dev: u32,
        ino: u32,
        uid: u32,
        gid: u32,
        size: u32,
        flags: u16,
    ) -> (res: IndexEntry)
        ensures
            res@ == (IndexEntryView {
                path: path@,
                oid: oid@,
                mode,
                ctime,
                mtime,
                dev,
                ino,
                uid,
                gid,
                size,
                flags,
            }),
    {
        IndexEntry { path, oid, mode, ctime, mtime, dev, ino, uid, gid, size, flags }
    }

    /// The path as raw bytes.
    pub fn path(&self) -> (res: Vec<u8>)
        ensures
            res@ == self@.path,
    {
        self.path.clone()
    }

    /// The staged object's id.
    pub fn oid(&self) -> (res: ObjectId)
        ensures
            res@ == self@.oid,
    {
        self.oid.copy()
    }

    /// The file mode.
    pub fn mode(&self) -> (res: u32)
        ensures
            res == self@.mode,
    {
        self.mode
    }

    /// The change time, `(seconds, nanoseconds)`.
    pub fn ctime(&self) -> (res: (u32, u32))
        ensures
            res == self@.ctime,
    {
        self.ctime
    }

    /// The modification time, `(seconds, nanoseconds)`.
    pub fn mtime(&self) -> (res: (u32, u32))
        ensures
            res == self@.mtime,
    {
        self.mtime
    }

    /// The device number.
    pub fn dev(&self) -> (res: u32)
        ensures
            res == self@.dev,
    {
        self.dev
    }

    /// The inode number.
    pub fn ino(&self) -> (res: u32)
        ensures
            res == self@.ino,
    {
        self.ino
    }

    /// The owner's user id.
    pub fn uid(&self) -> (res: u32)
        ensures
            res == self@.uid,
    {
        self.uid
    }

    /// The owner's group id.
    pub fn gid(&self) -> (res: u32)
        ensures
            res == self@.gid,
    {
        self.gid
    }

    /// The file size (truncated to 32 bits, as the index stores it).
    pub fn size(&self) -> (res: u32)
        ensures
            res == self@.size,
    {
        self.size
    }

    /// The entry flags.
    pub fn flags(&self) -> (res: u16)
        ensures
            res == self@.flags,
    {
        self.flags
    }
}

} // verus!
