use vstd::prelude::*;
use vstd::utf8::{decode_utf8, valid_utf8};
use crate::file::{InodeTypes, inode_type_of};

verus! {

/// Size of the engine's entry-name buffer.
pub const EXT4_NAME_MAX: usize = 255;

/// One directory entry: its inode number, the raw bytes of its name (at
/// most 255) and its type code.
#[derive(Clone, Debug)]
pub struct Ext4DirEntry {
    pub inode: u32,
    pub name: Vec<u8>,
    pub type_: u8,
}

/// Relies on core::str::from_utf8: it accepts exactly the valid UTF-8 byte
/// sequences, and the text it gives is their decoding.
#[verifier::external_body]
fn utf8_text(b: &[u8]) -> (r: Option<String>)
    ensures
        r is Some <==> valid_utf8(b@),
        r matches Some(s) ==> s@ == decode_utf8(b@),
{
    core::str::from_utf8(b).ok().map(|s| s.to_string())
}

/// The first `name_length` bytes of the engine's name buffer, no more than
/// it holds.
pub open spec fn entry_name(name_buf: Seq<u8>, name_length: u8) -> Seq<u8> {
    if name_length as int <= name_buf.len() {
        name_buf.subrange(0, name_length as int)
    } else {
        name_buf
    }
}

impl Ext4DirEntry {
    /// The entry that the engine describes by inode, name buffer, name
    /// length and type code.
    pub fn from_raw(inode: u32, name_buf: &[u8], name_length: u8, type_: u8) -> (r: Ext4DirEntry)
        requires
            name_buf@.len() <= EXT4_NAME_MAX,
        ensures
            r.inode == inode,
            r.name@ == entry_name(name_buf@, name_length),
            r.type_ == type_,
            r.name@.len() <= EXT4_NAME_MAX,
    {
        let len: usize = if (name_length as usize) <= name_buf.len() {
            name_length as usize
        } else {
            name_buf.len()
        };
        let mut name: Vec<u8> = Vec::new();
        let mut i: usize = 0;
        while i < len
            invariant
                len <= name_buf@.len(),
                i <= len,
                name@ == name_buf@.subrange(0, i as int),
            decreases len - i,
        {
            name.push(name_buf[i]);
            i = i + 1;
            assert(name@ =~= name_buf@.subrange(0, i as int));
        }
        assert(name@ =~= entry_name(name_buf@, name_length));
        Ext4DirEntry { inode, name, type_ }
    }

    /// The name as text; `None` where its bytes are not valid UTF-8.
    pub fn name_str(&self) -> (r: Option<String>)
        ensures
            r is Some <==> valid_utf8(self.name@),
            r matches Some(s) ==> s@ == decode_utf8(self.name@),
    {
        utf8_text(self.name.as_slice())
    }

    /// The entry's kind.
    pub fn inode_type(&self) -> (r: InodeTypes)
        ensures
            r == inode_type_of(self.type_ as usize),
    {
        InodeTypes::from(self.type_ as usize)
    }
}

/// A directory cursor. It yields entries until the first time it finds
/// none, and then stays exhausted: it cannot be restarted without
/// reopening the directory.
pub struct Ext4Dir {
    exhausted: bool,
}

impl Ext4Dir {
    /// Whether the cursor has run out.
    pub closed spec fn spec_exhausted(&self) -> bool {
        self.exhausted
    }

    /// A freshly opened cursor.
    pub fn open_cursor() -> (r: Ext4Dir)
        ensures
            !r.spec_exhausted(),
    {
        Ext4Dir { exhausted: false }
    }

    /// Whether the cursor has run out; once it has, no entry is fetched.
    pub fn is_exhausted(&self) -> (r: bool)
        ensures
            r == self.spec_exhausted(),
    {
        self.exhausted
    }

    /// Advances the cursor with what the engine fetched: the entry, or
    /// `None` when there is none left. An exhausted cursor yields nothing
    /// more, whatever is handed to it.
    pub fn next(&mut self, fetched: Option<Ext4DirEntry>) -> (r: Option<Ext4DirEntry>)
        ensures
            old(self).spec_exhausted() ==> r is None && final(self).spec_exhausted(),
            !old(self).spec_exhausted() ==> r == fetched && final(self).spec_exhausted()
                == fetched is None,
    {
        if self.exhausted {
            return None;
        }
        if fetched.is_none() {
            self.exhausted = true;
        }
        fetched
    }

    /// The entries as two parallel lists: each name's bytes followed by a
    /// zero terminator, and each entry's kind, in the order given.
    pub fn entry_lists(entries: &Vec<Ext4DirEntry>) -> (r: (Vec<Vec<u8>>, Vec<InodeTypes>))
        ensures
            r.0@.len() == entries@.len(),
            r.1@.len() == entries@.len(),
            forall|i: int|
                0 <= i < entries@.len() ==> r.0@[i]@ == entries@[i].name@.push(0u8),
            forall|i: int|
                0 <= i < entries@.len() ==> r.1@[i] == inode_type_of(entries@[i].type_ as usize),
    {
        let mut names: Vec<Vec<u8>> = Vec::new();
        let mut kinds: Vec<InodeTypes> = Vec::new();
        let mut i: usize = 0;
        while i < entries.len()
            invariant
                i <= entries@.len(),
                names@.len() == i,
                kinds@.len() == i,
                forall|j: int| 0 <= j < i ==> names@[j]@ == entries@[j].name@.push(0u8),
                forall|j: int| 0 <= j < i ==> kinds@[j] == inode_type_of(entries@[j].type_ as usize),
            decreases entries@.len() - i,
        {
            let e = &entries[i];
            let mut n: Vec<u8> = Vec::new();
            let mut k: usize = 0;
            while k < e.name.len()
                invariant
                    k <= e.name@.len(),
                    n@ == e.name@.subrange(0, k as int),
                decreases e.name@.len() - k,
            {
                n.push(e.name[k]);
                k = k + 1;
                assert(n@ =~= e.name@.subrange(0, k as int));
            }
            n.push(0u8);
            assert(n@ =~= e.name@.push(0u8));
            names.push(n);
            kinds.push(e.inode_type());
            i = i + 1;
        }
        (names, kinds)
    }
}

} // verus!
