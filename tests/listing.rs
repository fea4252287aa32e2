use rusfuse::{encode_listing, readdir_reply, record_size, FileType, FuseDirectory};

fn hello_entries() -> Vec<FuseDirectory> {
    vec![
        FuseDirectory { name: b".".to_vec(), file_type: FileType::Directory, ino: 1 },
        FuseDirectory { name: b"..".to_vec(), file_type: FileType::Directory, ino: 1 },
        FuseDirectory { name: b"hello".to_vec(), file_type: FileType::RegularFile, ino: 2 },
    ]
}

fn u64_at(b: &[u8], off: usize) -> u64 {
    let mut a = [0u8; 8];
    a.copy_from_slice(&b[off..off + 8]);
    u64::from_le_bytes(a)
}

fn u32_at(b: &[u8], off: usize) -> u32 {
    let mut a = [0u8; 4];
    a.copy_from_slice(&b[off..off + 4]);
    u32::from_le_bytes(a)
}

/// Splits a reply into its whole records: (ino, cursor, type, name).
fn records(reply: &[u8]) -> Vec<(u64, u64, u32, Vec<u8>)> {
    let mut out = Vec::new();
    let mut p = 0;
    while p + 24 <= reply.len() {
        let namelen = u32_at(reply, p + 16) as usize;
        let len = record_size(namelen);
        if p + len > reply.len() {
            break;
        }
        out.push((
            u64_at(reply, p),
            u64_at(reply, p + 8),
            u32_at(reply, p + 20),
            reply[p + 24..p + 24 + namelen].to_vec(),
        ));
        p += len;
    }
    out
}

#[test]
fn record_sizes_round_up_to_eight() {
    assert_eq!(record_size(0), 24);
    assert_eq!(record_size(1), 32);
    assert_eq!(record_size(8), 32);
    assert_eq!(record_size(9), 40);
    assert_eq!(record_size(5), 32);
}

#[test]
fn three_entries_framed_in_order() {
    let es = hello_entries();
    let buf = encode_listing(&es);
    assert_eq!(buf.len(), 96);
    let first = readdir_reply(&es, 4096, 0);
    assert_eq!(first, buf);
    assert_eq!(
        records(&first),
        vec![
            (1, 32, 4, b".".to_vec()),
            (1, 64, 4, b"..".to_vec()),
            (2, 96, 8, b"hello".to_vec()),
        ]
    );
    // padding after each name is zero
    assert!(buf[25..32].iter().all(|x| *x == 0));
    assert!(buf[58..64].iter().all(|x| *x == 0));
    assert!(buf[93..96].iter().all(|x| *x == 0));
    let second = readdir_reply(&es, 4096, first.len() as i64);
    assert!(second.is_empty());
}

#[test]
fn paging_hands_out_every_entry_once() {
    let es = hello_entries();
    for size in [32usize, 40, 63, 64, 65, 96, 1000] {
        let mut seen: Vec<Vec<u8>> = Vec::new();
        let mut cursor: i64 = 0;
        let mut calls = 0;
        loop {
            let reply = readdir_reply(&es, size, cursor);
            assert!(reply.len() <= size);
            if reply.is_empty() {
                break;
            }
            let recs = records(&reply);
            assert!(!recs.is_empty());
            for r in &recs {
                seen.push(r.3.clone());
            }
            cursor = recs.last().unwrap().1 as i64;
            calls += 1;
            assert!(calls <= 3);
        }
        assert_eq!(seen, vec![b".".to_vec(), b"..".to_vec(), b"hello".to_vec()]);
    }
}

#[test]
fn page_is_cut_from_the_cursor() {
    let es = hello_entries();
    let buf = encode_listing(&es);
    assert_eq!(readdir_reply(&es, 40, 0), buf[0..40].to_vec());
    assert_eq!(readdir_reply(&es, 40, 32), buf[32..72].to_vec());
    assert_eq!(readdir_reply(&es, 40, 64), buf[64..96].to_vec());
    assert_eq!(readdir_reply(&es, 10, 5), buf[5..15].to_vec());
}

#[test]
fn same_request_same_bytes() {
    let es = hello_entries();
    assert_eq!(readdir_reply(&es, 50, 32), readdir_reply(&es, 50, 32));
    assert_eq!(readdir_reply(&es, 4096, 0), readdir_reply(&hello_entries(), 4096, 0));
}

#[test]
fn zero_size_gives_empty_reply() {
    let es = hello_entries();
    for off in [0i64, 32, 64, 96, 500, -1] {
        assert!(readdir_reply(&es, 0, off).is_empty());
    }
    assert!(readdir_reply(&Vec::new(), 0, 0).is_empty());
}

#[test]
fn cursor_at_or_past_end_gives_empty_reply() {
    let es = hello_entries();
    assert!(readdir_reply(&es, 4096, 96).is_empty());
    assert!(readdir_reply(&es, 4096, 97).is_empty());
    assert!(readdir_reply(&es, 4096, i64::MAX).is_empty());
    assert!(readdir_reply(&es, 4096, -8).is_empty());
}

#[test]
fn empty_listing_gives_empty_reply() {
    let es: Vec<FuseDirectory> = Vec::new();
    assert!(encode_listing(&es).is_empty());
    assert!(readdir_reply(&es, 4096, 0).is_empty());
    assert!(readdir_reply(&es, 4096, 10).is_empty());
}

#[test]
fn entry_kinds_in_type_field() {
    let es = vec![
        FuseDirectory { name: b"s".to_vec(), file_type: FileType::Socket, ino: 3 },
        FuseDirectory { name: b"l".to_vec(), file_type: FileType::SymbolicLink, ino: 4 },
        FuseDirectory { name: b"b".to_vec(), file_type: FileType::BlockDevice, ino: 5 },
        FuseDirectory { name: b"c".to_vec(), file_type: FileType::CharacterDevice, ino: 6 },
        FuseDirectory { name: b"f".to_vec(), file_type: FileType::FIFO, ino: 7 },
        FuseDirectory { name: b"nine-char".to_vec(), file_type: FileType::RegularFile, ino: 8 },
    ];
    let recs = records(&encode_listing(&es));
    let types: Vec<u32> = recs.iter().map(|r| r.2).collect();
    assert_eq!(types, vec![12, 10, 6, 2, 1, 8]);
    let cursors: Vec<u64> = recs.iter().map(|r| r.1).collect();
    assert_eq!(cursors, vec![32, 64, 96, 128, 160, 200]);
}
