use lwext4_rust::{Ext4Dir, Ext4DirEntry, InodeTypes};

fn raw(name: &[u8]) -> [u8; 255] {
    let mut buf = [0u8; 255];
    buf[..name.len()].copy_from_slice(name);
    buf
}

#[test]
fn entry_from_engine_buffer() {
    let buf = raw(b"hello.txt");
    let e = Ext4DirEntry::from_raw(11, &buf, 9, 1);
    assert_eq!(e.inode, 11);
    assert_eq!(e.name, b"hello.txt".to_vec());
    assert_eq!(e.type_, 1);
    assert_eq!(e.inode_type(), InodeTypes::EXT4_DE_REG_FILE);
    assert_eq!(e.name_str(), Some("hello.txt".to_string()));
}

#[test]
fn entry_name_is_bounded_by_buffer() {
    let buf = [b'x'; 10];
    let e = Ext4DirEntry::from_raw(1, &buf, 200, 2);
    assert_eq!(e.name.len(), 10);
}

#[test]
fn entry_name_decodes_multibyte_text() {
    let name = "héllo".as_bytes();
    let buf = raw(name);
    let e = Ext4DirEntry::from_raw(3, &buf, name.len() as u8, 2);
    assert_eq!(e.name_str(), Some("héllo".to_string()));
    assert_eq!(e.inode_type(), InodeTypes::EXT4_DE_DIR);
}

#[test]
fn invalid_entry_name_is_an_error_not_an_abort() {
    let buf = raw(&[b'a', 0xff, 0xfe]);
    let e = Ext4DirEntry::from_raw(4, &buf, 3, 1);
    assert_eq!(e.name_str(), None);
    assert_eq!(e.name, vec![b'a', 0xff, 0xfe]);
}

#[test]
fn cursor_stays_exhausted() {
    let mut d = Ext4Dir::open_cursor();
    assert!(!d.is_exhausted());
    let e = Ext4DirEntry::from_raw(5, &raw(b"a"), 1, 1);
    assert_eq!(d.next(Some(e.clone())).map(|x| x.inode), Some(5));
    assert!(d.next(None).is_none());
    assert!(d.is_exhausted());
    assert!(d.next(Some(e)).is_none());
}

#[test]
fn three_children_listed_once_each() {
    let entries: Vec<Ext4DirEntry> = vec![
        Ext4DirEntry::from_raw(20, &raw(b"a"), 1, 1),
        Ext4DirEntry::from_raw(21, &raw(b"b"), 1, 2),
        Ext4DirEntry::from_raw(22, &raw(b"c"), 1, 7),
    ];
    let (names, kinds) = Ext4Dir::entry_lists(&entries);
    assert_eq!(names, vec![b"a\0".to_vec(), b"b\0".to_vec(), b"c\0".to_vec()]);
    assert_eq!(
        kinds,
        vec![InodeTypes::EXT4_DE_REG_FILE, InodeTypes::EXT4_DE_DIR, InodeTypes::EXT4_DE_SYMLINK]
    );
}

#[test]
fn empty_directory_lists_nothing() {
    let (names, kinds) = Ext4Dir::entry_lists(&Vec::new());
    assert!(names.is_empty());
    assert!(kinds.is_empty());
}
