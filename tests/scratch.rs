use lkh_codec::memory_file::{mapped_len, scratch_name, MemoryFile};
use memmap::MmapMut;

fn region(n: usize) -> MmapMut {
    let mut m = MmapMut::map_anon(n).unwrap();
    for b in m.iter_mut() {
        *b = 0xAB;
    }
    m
}

#[test]
fn new_file_is_zeroed() {
    let f = MemoryFile::new(String::from("a"), region(8));
    assert_eq!(f.capacity(), 8);
    assert_eq!(f.cursor(), 0);
    assert_eq!(f.path(), "a");
    for i in 0..8 {
        assert_eq!(f.byte_at(i), 0);
    }
}

#[test]
fn write_fills_behind_cursor() {
    let mut f = MemoryFile::new(String::from("a"), region(8));
    assert_eq!(f.write(b"hello"), 5);
    assert_eq!(f.cursor(), 5);
    assert!(f.needs_grow(4));
    assert!(!f.needs_grow(3));
    assert_eq!(f.write(b"world"), 3);
    let got: Vec<u8> = (0..8).map(|i| f.byte_at(i)).collect();
    assert_eq!(got, b"hellowor".to_vec());
}

#[test]
fn grow_doubles_and_keeps_written_bytes() {
    let mut f = MemoryFile::new(String::from("old"), region(4));
    assert_eq!(f.write(b"abc"), 3);
    assert_eq!(f.grown_capacity(), Some(8));
    let old = f.grow(String::from("new"), region(8)).unwrap();
    assert_eq!(old, "old");
    assert_eq!(f.path(), "new");
    assert_eq!(f.capacity(), 8);
    assert_eq!(f.cursor(), 3);
    let got: Vec<u8> = (0..8).map(|i| f.byte_at(i)).collect();
    assert_eq!(got, b"abc\0\0\0\0\0".to_vec());
    assert_eq!(f.write(b"defgh"), 5);
    assert!(f.needs_grow(1));
}

#[test]
fn wipe_zeroes_everything() {
    let mut f = MemoryFile::new(String::from("a"), region(6));
    f.write(b"secret");
    assert!(f.wipe().is_ok());
    assert_eq!(f.cursor(), 0);
    for i in 0..6 {
        assert_eq!(f.byte_at(i), 0);
    }
    assert!(f.flush().is_ok());
}

#[test]
fn scratch_names_are_random_and_well_formed() {
    let a = scratch_name("tsp");
    let b = scratch_name("tsp");
    assert_eq!(a.len(), 4 + 24 + 5 + 3);
    assert!(a.starts_with("lkh_"));
    assert!(a.ends_with(".tmp.tsp"));
    assert!(a[4..28].chars().all(|c| c.is_ascii_alphanumeric()));
    assert_ne!(a, b);
}

#[test]
fn mapped_length_is_the_region_size() {
    assert_eq!(mapped_len(&region(24)), 24);
}
