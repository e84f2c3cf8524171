use fetra::event::{EventType, FileAccessEvent, EVENT_SIZE, UNKNOWN_CODE};

fn sample() -> FileAccessEvent {
    let mut e = FileAccessEvent::zeroed();
    e.inode = 0x0102_0304_0506_0708;
    e.bytes = 128;
    e.tid = 501;
    e.tgid = 500;
    e.dev = 0x0080_0001;
    e.event_type = EventType::VfsWrite;
    e.comm[..3].copy_from_slice(b"app");
    e.s_magic = 0xEF53;
    e.i_mode = 0o100644;
    e.path[..16].copy_from_slice(b"/var/log/app.log");
    e
}

#[test]
fn zeroed_event_encodes_to_zero_bytes() {
    let e = FileAccessEvent::zeroed();
    assert_eq!(e.to_bytes(), vec![0u8; 320]);
    assert_eq!(e.event_type, EventType::MmapRead);
}

#[test]
fn event_size_is_320() {
    assert_eq!(EVENT_SIZE, 320);
    assert_eq!(sample().to_bytes().len(), 320);
}

#[test]
fn fields_stand_at_their_offsets() {
    let b = sample().to_bytes();
    assert_eq!(&b[0..8], &[8, 7, 6, 5, 4, 3, 2, 1]);
    assert_eq!(&b[8..16], &[128, 0, 0, 0, 0, 0, 0, 0]);
    assert_eq!(&b[16..20], &[0xf5, 0x01, 0, 0]);
    assert_eq!(&b[20..24], &[0xf4, 0x01, 0, 0]);
    assert_eq!(&b[24..28], &[0x01, 0x00, 0x80, 0x00]);
    assert_eq!(&b[28..32], &[30, 0, 0, 0]);
    assert_eq!(&b[32..35], b"app");
    assert_eq!(&b[35..48], &[0u8; 13]);
    assert_eq!(&b[48..56], &[0x53, 0xEF, 0, 0, 0, 0, 0, 0]);
    assert_eq!(&b[56..58], &[0xa4, 0x81]);
    assert_eq!(&b[58..64], &[0u8; 6]);
    assert_eq!(&b[64..80], b"/var/log/app.log");
    assert_eq!(&b[80..320], &[0u8; 240][..]);
}

#[test]
fn encoding_round_trips() {
    let e = sample();
    assert_eq!(FileAccessEvent::from_bytes(&e.to_bytes()), Some(e));
    let mut max = FileAccessEvent::zeroed();
    max.inode = u64::MAX;
    max.bytes = u64::MAX;
    max.tid = u32::MAX;
    max.tgid = u32::MAX;
    max.dev = u32::MAX;
    max.event_type = EventType::Unknown;
    max.comm = [0xff; 16];
    max.s_magic = u64::MAX;
    max.i_mode = u16::MAX;
    max.path = [0xff; 256];
    assert_eq!(FileAccessEvent::from_bytes(&max.to_bytes()), Some(max));
}

#[test]
fn decoding_ignores_padding() {
    let mut b = sample().to_bytes();
    for i in 58..64 {
        b[i] = 0xaa;
    }
    assert_eq!(FileAccessEvent::from_bytes(&b), Some(sample()));
}

#[test]
fn wrong_length_decodes_to_nothing() {
    assert_eq!(FileAccessEvent::from_bytes(&[]), None);
    assert_eq!(FileAccessEvent::from_bytes(&[0u8; 319]), None);
    assert_eq!(FileAccessEvent::from_bytes(&[0u8; 321]), None);
    assert!(FileAccessEvent::from_bytes(&[0u8; 320]).is_some());
}

#[test]
fn event_type_codes() {
    assert_eq!(EventType::MmapRead.code(), 0);
    assert_eq!(EventType::MmapWrite.code(), 1);
    assert_eq!(EventType::NullPage.code(), 3);
    assert_eq!(EventType::VfsRead.code(), 20);
    assert_eq!(EventType::VfsWrite.code(), 30);
    assert_eq!(EventType::VfsReadv.code(), 40);
    assert_eq!(EventType::VfsWritev.code(), 50);
    assert_eq!(EventType::Unknown.code(), UNKNOWN_CODE);
}

#[test]
fn invalid_codes_decode_to_unknown() {
    for code in [2u32, 4, 19, 21, 31, 49, 51, 1000, u32::MAX] {
        assert_eq!(EventType::from_code(code), EventType::Unknown);
    }
    let mut b = sample().to_bytes();
    b[28] = 2;
    let e = FileAccessEvent::from_bytes(&b).unwrap();
    assert_eq!(e.event_type, EventType::Unknown);
}

#[test]
fn every_code_round_trips() {
    for t in [
        EventType::MmapRead,
        EventType::MmapWrite,
        EventType::NullPage,
        EventType::VfsRead,
        EventType::VfsWrite,
        EventType::VfsReadv,
        EventType::VfsWritev,
        EventType::Unknown,
    ] {
        assert_eq!(EventType::from_code(t.code()), t);
    }
}
