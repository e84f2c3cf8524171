use fetra::event::{EventType, FileAccessEvent};
use fetra::ext::Qstr;
use fetra::mount::{Dentry, Mount, MountTree, EFAULT};
use fetra::path::{BufferHeap, PathRef};
use fetra::probe::{
    bytes_from_page, handle_vfs_write, handle_vfs_writev, iovec_limit, is_write, total_iovec_len,
    new_report, try_handle_filemap_fault, try_handle_vfs_read, try_handle_vfs_readv,
    try_handle_vfs_write, try_handle_vfs_writev, EventExt, FaultReads, FileInfo, IoVec,
    ProbeConfig, Task, FILTER_LEN, MAX_IOVEC, N_EVENTS, RB_CAP,
};

fn config() -> ProbeConfig {
    let mut filter_tgids = [0u32; 16];
    filter_tgids[0] = 4242;
    filter_tgids[1] = 4000;
    filter_tgids[2] = 77;
    ProbeConfig { filter_tgids, page_size: 4096, page_head_mask: 1 << 6 }
}

fn dentry(parent: u64, name: &[u8]) -> Dentry {
    Dentry { parent, name: Qstr::new(name) }
}

fn tree() -> MountTree {
    MountTree {
        dentries: vec![
            dentry(0, b"/"),
            dentry(0, b"var"),
            dentry(1, b"log"),
            dentry(2, b"app.log"),
            dentry(50, b"lost"),
        ],
        mounts: vec![Mount { parent: 0, root: 0, mountpoint: 0 }],
    }
}

fn comm(name: &[u8]) -> [u8; 16] {
    let mut c = [0u8; 16];
    c[..name.len()].copy_from_slice(name);
    c
}

fn task(tgid: u32, tid: u32) -> Task {
    Task {
        pid_tgid: ((tgid as u64) << 32) | tid as u64,
        comm: Ok(comm(b"app")),
        root: PathRef { dentry: 0, mnt: 0 },
    }
}

fn app_log() -> FileInfo {
    FileInfo {
        inode: 1234,
        dev: (8 << 20) | 1,
        s_magic: 0xEF53,
        i_mode: 0o100644,
        path: PathRef { dentry: 3, mnt: 0 },
    }
}

fn path_of(e: &FileAccessEvent) -> Vec<u8> {
    let end = e.path.iter().position(|b| *b == 0).unwrap_or(256);
    e.path[..end].to_vec()
}

#[test]
fn channel_holds_sixteen_thousand_events() {
    assert_eq!(N_EVENTS, 16 * 1024);
    assert_eq!(RB_CAP as usize, N_EVENTS * 320);
    assert_eq!(FILTER_LEN, 16);
}

#[test]
fn filter_splits_the_identifier_pair() {
    let cfg = config();
    assert_eq!(cfg.filter_tgids((500u64 << 32) | 501), Some((500, 501)));
    assert_eq!(cfg.filter_tgids(u64::MAX), Some((u32::MAX, u32::MAX)));
}

#[test]
fn filter_drops_the_excluded() {
    let cfg = config();
    assert_eq!(cfg.filter_tgids((4242u64 << 32) | 1), None);
    assert_eq!(cfg.filter_tgids((77u64 << 32) | 78), None);
    // unused places hold 0, so process 0 is dropped as well
    assert_eq!(cfg.filter_tgids(5), None);
    // the thread identifier is not looked at
    assert_eq!(cfg.filter_tgids((78u64 << 32) | 77), Some((78, 77)));
}

#[test]
fn vectored_cap_counts_the_first_31_entries() {
    let iov: Vec<Result<IoVec, i64>> =
        (0..40).map(|i| Ok(IoVec { iov_base: 0x1000 * i, iov_len: 10 })).collect();
    assert_eq!(total_iovec_len(&iov), Ok(310));
    assert_eq!(iovec_limit(40), 31);
    assert_eq!(iovec_limit(31), 31);
    assert_eq!(iovec_limit(30), 30);
    assert_eq!(iovec_limit(0), 0);
    assert_eq!(MAX_IOVEC, 31);
}

#[test]
fn vectored_total_adds_lengths() {
    let v = |len| Ok(IoVec { iov_base: 0, iov_len: len });
    assert_eq!(total_iovec_len(&[]), Ok(0));
    assert_eq!(total_iovec_len(&[v(7)]), Ok(7));
    assert_eq!(total_iovec_len(&[v(1), v(2), v(3)]), Ok(6));
}

#[test]
fn vectored_total_wraps() {
    let v = |len| Ok(IoVec { iov_base: 0, iov_len: len });
    assert_eq!(total_iovec_len(&[v(u64::MAX), v(2)]), Ok(1));
    assert_eq!(total_iovec_len(&[v(u64::MAX), v(u64::MAX), v(u64::MAX)]), Ok(u64::MAX - 2));
}

#[test]
fn vectored_total_stops_at_the_first_fault() {
    let v = |len| Ok(IoVec { iov_base: 0, iov_len: len });
    assert_eq!(total_iovec_len(&[v(1), Err(-14), v(3), Err(-5)]), Err(-14));
    // a fault past the cap is never met
    let mut iov: Vec<Result<IoVec, i64>> = (0..31).map(|_| v(2)).collect();
    iov.push(Err(-14));
    assert_eq!(total_iovec_len(&iov), Ok(62));
}

#[test]
fn write_faults_are_told_from_reads() {
    assert!(is_write(0x01));
    assert!(is_write(0x02));
    assert!(is_write(0x03));
    assert!(is_write(0x15));
    assert!(!is_write(0));
    assert!(!is_write(0x04));
    assert!(!is_write(0xffff_fffc));
}

fn fault(flags: u32, page: u64, page_flags: u64, order: u8) -> FaultReads {
    FaultReads { flags: Ok(flags), page: Ok(page), page_flags: Ok(page_flags), order: Ok(order) }
}

#[test]
fn page_fault_sizes() {
    let cfg = config();
    assert_eq!(bytes_from_page(&cfg, &fault(0, 0xffff_8000, 0, 9)), Ok((EventType::MmapRead, 4096)));
    assert_eq!(bytes_from_page(&cfg, &fault(1, 0xffff_8000, 0, 9)), Ok((EventType::MmapWrite, 4096)));
    assert_eq!(
        bytes_from_page(&cfg, &fault(2, 0xffff_8000, 1 << 6, 9)),
        Ok((EventType::MmapWrite, 512 * 4096))
    );
    assert_eq!(
        bytes_from_page(&cfg, &fault(0, 0xffff_8000, 0xff, 2)),
        Ok((EventType::MmapRead, 4 * 4096))
    );
    assert_eq!(
        bytes_from_page(&cfg, &fault(0, 0xffff_8000, 1 << 6, 0)),
        Ok((EventType::MmapRead, 4096))
    );
}

#[test]
fn null_page_has_no_bytes() {
    let cfg = config();
    assert_eq!(bytes_from_page(&cfg, &fault(1, 0, 1 << 6, 9)), Ok((EventType::NullPage, 0)));
    let reads = FaultReads { flags: Ok(0), page: Ok(0), page_flags: Err(-14), order: Err(-14) };
    assert_eq!(bytes_from_page(&cfg, &reads), Ok((EventType::NullPage, 0)));
}

#[test]
fn page_fault_order_wraps() {
    let cfg = config();
    // the shift is taken modulo 64, the product modulo 2^64
    assert_eq!(
        bytes_from_page(&cfg, &fault(0, 1, 1 << 6, 64)),
        Ok((EventType::MmapRead, 4096))
    );
    assert_eq!(bytes_from_page(&cfg, &fault(0, 1, 1 << 6, 63)), Ok((EventType::MmapRead, 0)));
    assert_eq!(
        bytes_from_page(&cfg, &fault(0, 1, 1 << 6, 51)),
        Ok((EventType::MmapRead, 1 << 63))
    );
}

#[test]
fn page_fault_reads_fail_in_order() {
    let cfg = config();
    let all = FaultReads { flags: Err(-1), page: Err(-2), page_flags: Err(-3), order: Err(-4) };
    assert_eq!(bytes_from_page(&cfg, &all), Err(-1));
    let r = FaultReads { flags: Ok(0), ..all };
    assert_eq!(bytes_from_page(&cfg, &r), Err(-2));
    let r = FaultReads { page: Ok(8), ..r };
    assert_eq!(bytes_from_page(&cfg, &r), Err(-3));
    let r = FaultReads { page_flags: Ok(1 << 6), ..r };
    assert_eq!(bytes_from_page(&cfg, &r), Err(-4));
    // the order is not needed for a page that heads nothing
    let r = FaultReads { page_flags: Ok(0), ..r };
    assert_eq!(bytes_from_page(&cfg, &r), Ok((EventType::MmapRead, 4096)));
}

#[test]
fn write_of_128_bytes_is_reported() {
    let mut heap = BufferHeap::new();
    let r = try_handle_vfs_write(&config(), &task(500, 501), &app_log(), 128, &tree(), &mut heap);
    let e = r.unwrap().unwrap();
    assert_eq!(e.event_type, EventType::VfsWrite);
    assert_eq!(e.bytes, 128);
    assert_eq!(e.tgid, 500);
    assert_eq!(e.tid, 501);
    assert_eq!(e.comm, comm(b"app"));
    assert_eq!(e.inode, 1234);
    assert_eq!(e.dev, (8 << 20) | 1);
    assert_eq!(e.s_magic, 0xEF53);
    assert_eq!(e.i_mode, 0o100644);
    assert_eq!(path_of(&e), b"/var/log/app.log".to_vec());
    assert!(e.path[16..].iter().all(|b| *b == 0));
}

#[test]
fn each_handler_sets_its_kind() {
    let (cfg, t, f, tr) = (config(), task(500, 501), app_log(), tree());
    let iov = [Ok(IoVec { iov_base: 0, iov_len: 5 }), Ok(IoVec { iov_base: 9, iov_len: 6 })];
    let mut heap = BufferHeap::new();
    let e = try_handle_vfs_read(&cfg, &t, &f, 64, &tr, &mut heap).unwrap().unwrap();
    assert_eq!((e.event_type, e.bytes), (EventType::VfsRead, 64));
    let e = try_handle_vfs_readv(&cfg, &t, &f, &iov, &tr, &mut heap).unwrap().unwrap();
    assert_eq!((e.event_type, e.bytes), (EventType::VfsReadv, 11));
    let e = try_handle_vfs_writev(&cfg, &t, &f, &iov, &tr, &mut heap).unwrap().unwrap();
    assert_eq!((e.event_type, e.bytes), (EventType::VfsWritev, 11));
    let e = try_handle_filemap_fault(&cfg, &t, &fault(1, 8, 1 << 6, 3), &Ok(f), &tr, &mut heap)
        .unwrap()
        .unwrap();
    assert_eq!((e.event_type, e.bytes), (EventType::MmapWrite, 8 * 4096));
    assert_eq!(path_of(&e), b"/var/log/app.log".to_vec());
    let e = try_handle_filemap_fault(&cfg, &t, &fault(0, 0, 0, 0), &Ok(f), &tr, &mut heap)
        .unwrap()
        .unwrap();
    assert_eq!((e.event_type, e.bytes), (EventType::NullPage, 0));
}

#[test]
fn excluded_process_is_not_reported() {
    let (cfg, f, tr) = (config(), app_log(), tree());
    let mut heap = BufferHeap::new();
    let own = task(4242, 4243);
    assert_eq!(try_handle_vfs_write(&cfg, &own, &f, 128, &tr, &mut heap), Ok(None));
    assert_eq!(try_handle_vfs_read(&cfg, &own, &f, 128, &tr, &mut heap), Ok(None));
    // not even a fault is looked at
    let iov = [Err(-14)];
    assert_eq!(try_handle_vfs_readv(&cfg, &own, &f, &iov, &tr, &mut heap), Ok(None));
    assert_eq!(try_handle_vfs_writev(&cfg, &own, &f, &iov, &tr, &mut heap), Ok(None));
    let bad = FaultReads { flags: Err(-1), page: Err(-2), page_flags: Err(-3), order: Err(-4) };
    assert_eq!(try_handle_filemap_fault(&cfg, &own, &bad, &Err(-9), &tr, &mut heap), Ok(None));
    assert!(heap.buf.iter().all(|b| *b == 0));
}

#[test]
fn n_invocations_with_m_excluded_publish_n_minus_m() {
    let (cfg, f, tr) = (config(), app_log(), tree());
    let tgids = [500u32, 4242, 501, 77, 4000, 502, 0, 503, 4242, 504];
    let mut heap = BufferHeap::new();
    let mut published = 0;
    let mut excluded = 0;
    for tgid in tgids {
        if cfg.filter_tgids.contains(&tgid) {
            excluded += 1;
        }
        if let Ok(Some(e)) = try_handle_vfs_write(&cfg, &task(tgid, 1), &f, 1, &tr, &mut heap) {
            assert_eq!(e.tgid, tgid);
            published += 1;
        }
    }
    assert_eq!(excluded, 5);
    assert_eq!(published, tgids.len() - excluded);
}

#[test]
fn faults_end_a_handler_without_an_event() {
    let (cfg, f, tr) = (config(), app_log(), tree());
    let mut heap = BufferHeap::new();
    let mut t = task(500, 501);
    t.comm = Err(-22);
    assert_eq!(try_handle_vfs_write(&cfg, &t, &f, 128, &tr, &mut heap), Err(-22));
    // the count of a vectored call is taken before the name of the task
    let iov = [Ok(IoVec { iov_base: 0, iov_len: 5 }), Err(-7)];
    assert_eq!(try_handle_vfs_writev(&cfg, &t, &f, &iov, &tr, &mut heap), Err(-7));
    // the file's path cannot be walked
    let lost = FileInfo { path: PathRef { dentry: 4, mnt: 0 }, ..f };
    assert_eq!(try_handle_vfs_read(&cfg, &task(500, 501), &lost, 1, &tr, &mut heap), Err(EFAULT));
    // page fault: the fault itself, then the task, then the file
    let bad = FaultReads { flags: Ok(0), page: Err(-2), page_flags: Err(-3), order: Err(-4) };
    assert_eq!(try_handle_filemap_fault(&cfg, &t, &bad, &Err(-9), &tr, &mut heap), Err(-2));
    let ok = fault(0, 8, 0, 0);
    assert_eq!(try_handle_filemap_fault(&cfg, &t, &ok, &Err(-9), &tr, &mut heap), Err(-22));
    assert_eq!(
        try_handle_filemap_fault(&cfg, &task(500, 501), &ok, &Err(-9), &tr, &mut heap),
        Err(-9)
    );
}

#[test]
fn probe_status_is_zero_or_the_fault() {
    let (cfg, f, tr) = (config(), app_log(), tree());
    let mut heap = BufferHeap::new();
    let h = handle_vfs_write(&cfg, &task(500, 501), &f, 128, &tr, &mut heap);
    assert_eq!(h.status, 0);
    assert_eq!(h.event.unwrap().bytes, 128);
    let h = handle_vfs_write(&cfg, &task(4242, 1), &f, 128, &tr, &mut heap);
    assert_eq!((h.status, h.event), (0, None));
    let iov = [Err(-14)];
    let h = handle_vfs_writev(&cfg, &task(500, 501), &f, &iov, &tr, &mut heap);
    assert_eq!((h.status, h.event), (-14, None));
    let iov = [Ok(IoVec { iov_base: 0, iov_len: 9 })];
    let h = handle_vfs_writev(&cfg, &task(500, 501), &f, &iov, &tr, &mut heap);
    assert_eq!(h.status, 0);
    assert_eq!(h.event.unwrap().event_type, EventType::VfsWritev);
}

#[test]
fn long_path_fills_the_field_with_its_end() {
    // the field takes the last 256 bytes of what was resolved
    let mut dentries = vec![dentry(0, b"/")];
    for i in 0..3u8 {
        dentries.push(dentry(i as u64, &vec![b'a' + i; 200]));
    }
    let tr = MountTree { dentries, mounts: vec![Mount { parent: 0, root: 0, mountpoint: 0 }] };
    let f = FileInfo { path: PathRef { dentry: 3, mnt: 0 }, ..app_log() };
    let mut heap = BufferHeap::new();
    let e = try_handle_vfs_read(&config(), &task(500, 501), &f, 1, &tr, &mut heap)
        .unwrap()
        .unwrap();
    let mut want = vec![b'b'; 55];
    want.push(b'/');
    want.extend(vec![b'c'; 200]);
    assert_eq!(e.path.to_vec(), want);
}

#[test]
fn populate_sets_identity_and_path() {
    let mut e = FileAccessEvent::zeroed();
    e.bytes = 5;
    let mut heap = BufferHeap::new();
    let root = PathRef { dentry: 0, mnt: 0 };
    assert_eq!(e.populate_from_file(&app_log(), root, &tree(), &mut heap), Ok(()));
    assert_eq!((e.inode, e.dev, e.s_magic, e.i_mode), (1234, (8 << 20) | 1, 0xEF53, 0o100644));
    assert_eq!(e.bytes, 5);
    assert_eq!(path_of(&e), b"/var/log/app.log".to_vec());
    let lost = FileInfo { path: PathRef { dentry: 4, mnt: 0 }, ..app_log() };
    let mut e = FileAccessEvent::zeroed();
    assert_eq!(e.populate_from_file(&lost, root, &tree(), &mut heap), Err(EFAULT));
}

#[test]
fn set_path_keeps_the_last_256_bytes() {
    let mut heap = BufferHeap::new();
    for i in 0..4352 {
        heap.buf[i] = (i % 251) as u8 + 1;
    }
    let mut e = FileAccessEvent::zeroed();
    e.set_path(&heap, 4090, 6);
    assert_eq!(&e.path[..6], &heap.buf[4090..4096]);
    assert!(e.path[6..].iter().all(|b| *b == 0));
    e.set_path(&heap, 100, 3996);
    assert_eq!(&e.path[..], &heap.buf[3840..4096]);
    e.set_path(&heap, 3840, 256);
    assert_eq!(&e.path[..], &heap.buf[3840..4096]);
    e.set_path(&heap, 3839, 257);
    assert_eq!(&e.path[..], &heap.buf[3840..4096]);
    let mut short = FileAccessEvent::zeroed();
    short.set_path(&heap, 3841, 255);
    assert_eq!(&short.path[..255], &heap.buf[3841..4096]);
    assert_eq!(short.path[255], 0);
    short.set_path(&heap, 4096, 0);
    assert_eq!(&short.path[..255], &heap.buf[3841..4096]);
}

#[test]
fn new_report_fills_everything_but_the_path() {
    let e = new_report(EventType::VfsReadv, (500, 501), comm(b"app"), 77, &app_log());
    assert_eq!(e.event_type, EventType::VfsReadv);
    assert_eq!((e.tgid, e.tid), (500, 501));
    assert_eq!(e.comm, comm(b"app"));
    assert_eq!(e.bytes, 77);
    assert_eq!((e.inode, e.dev, e.s_magic, e.i_mode), (1234, (8 << 20) | 1, 0xEF53, 0o100644));
    assert_eq!(e.path, [0u8; 256]);
}
