use fetra::cmdline::Cmdline;
use fetra::device::{dev_name_bytes, dev_name_from_uevent};
use fetra::fmt::{decimal_string, push_decimal, push_hex};
use fetra::size::human_size;
use fetra::text::{c_str_lossy, first_nul};

#[test]
fn decimal_matches_std() {
    for x in [0u64, 1, 9, 10, 11, 99, 100, 255, 1000, 4096, 65535, 1 << 32, u64::MAX] {
        assert_eq!(decimal_string(x), format!("{}", x));
    }
}

#[test]
fn hex_matches_std() {
    for x in [0u64, 1, 9, 10, 15, 16, 255, 256, 0xEF53, 0xdead_beef, u64::MAX] {
        let mut s = String::from("magic:0x");
        push_hex(&mut s, x);
        assert_eq!(s, format!("magic:0x{:x}", x));
    }
}

#[test]
fn pushes_append() {
    let mut s = String::from("a");
    push_decimal(&mut s, 500);
    push_hex(&mut s, 0xbeef);
    assert_eq!(s, "a500beef");
}

#[test]
fn first_nul_finds_the_end_of_the_text() {
    assert_eq!(first_nul(b"app\0\0\0"), 3);
    assert_eq!(first_nul(b"\0app"), 0);
    assert_eq!(first_nul(b"app"), 3);
    assert_eq!(first_nul(b""), 0);
}

#[test]
fn c_str_stops_at_the_first_nul() {
    assert_eq!(c_str_lossy(b"app\0junk\0"), "app");
    assert_eq!(c_str_lossy(b"exactly16bytes!!"), "exactly16bytes!!");
    assert_eq!(c_str_lossy(b"\0"), "");
}

#[test]
fn c_str_replaces_invalid_bytes() {
    assert_eq!(c_str_lossy(b"a\xffb\0"), "a\u{fffd}b");
    assert_eq!(c_str_lossy("h\u{e9}llo\0".as_bytes()), "h\u{e9}llo");
}

#[test]
fn cmdline_name_is_the_first_argument() {
    assert_eq!(Cmdline::new(b"/usr/bin/app\0--flag\0value\0".to_vec()).name(), "/usr/bin/app");
    assert_eq!(Cmdline::new(b"app\0".to_vec()).name(), "app");
    assert_eq!(Cmdline::new(b"\0app".to_vec()).name(), "");
}

#[test]
fn cmdline_without_nul_loses_its_last_byte() {
    assert_eq!(Cmdline::new(b"app".to_vec()).name(), "ap");
    assert_eq!(Cmdline::new(b"a".to_vec()).name(), "");
    assert_eq!(Cmdline::new(Vec::new()).name(), "");
}

#[test]
fn cmdline_name_is_decoded_lossily() {
    assert_eq!(Cmdline::new(b"a\xffp\0".to_vec()).name(), "a\u{fffd}p");
}

fn std_dev_name(content: &str) -> Option<String> {
    for line in content.lines() {
        if let Some(name) = line.strip_prefix("DEVNAME=") {
            return Some(name.to_string());
        }
    }
    None
}

#[test]
fn dev_name_is_read_from_uevent() {
    let text = "MAJOR=8\nMINOR=1\nDEVNAME=sda1\nDEVTYPE=partition\n";
    assert_eq!(dev_name_from_uevent(text), Some("sda1".to_string()));
    assert_eq!(dev_name_bytes(text.as_bytes()), Some((24, 28)));
}

#[test]
fn dev_name_agrees_with_std_lines() {
    let cases = [
        "",
        "\n",
        "DEVNAME=",
        "DEVNAME=sda",
        "DEVNAME=sda\n",
        "DEVNAME=sda\r\n",
        "DEVNAME=sda\r",
        "DEVNAME=\r\n",
        "DEVNAME\r\nDEVNAME=x",
        "X=1\n\nDEVNAME=nvme0n1p2\nDEVNAME=other\n",
        "XDEVNAME=no\nDEVNAME=yes",
        "devname=no\n",
        "MAJOR=8\r\nDEVNAME=dm-0\r\n",
        "DEVNAM=\nDEVNAME",
        "\r\nDEVNAME=a\rb\r\n",
        "DEVNAME=d\u{e9}j\u{e0}\n",
        "A\n\n\n",
    ];
    for c in cases {
        assert_eq!(dev_name_from_uevent(c), std_dev_name(c), "{:?}", c);
    }
}

#[test]
fn dev_name_missing() {
    assert_eq!(dev_name_from_uevent("MAJOR=8\nMINOR=1\n"), None);
    assert_eq!(dev_name_bytes(b"MAJOR=8\nMINOR=1\n"), None);
}

fn float_human_size(bytes: u64) -> String {
    const UNITS: [&str; 7] = ["B", "K", "M", "G", "T", "P", "E"];
    let mut val = bytes as f64;
    let mut idx = 0usize;
    while val >= 1024.0 && idx < UNITS.len() - 1 {
        val /= 1024.0;
        idx += 1;
    }
    if idx == 0 {
        format!("{val:.0}{}", UNITS[idx])
    } else {
        format!("{val:.1}{}", UNITS[idx])
    }
}

#[test]
fn human_size_examples() {
    assert_eq!(human_size(0), "0B");
    assert_eq!(human_size(128), "128B");
    assert_eq!(human_size(1023), "1023B");
    assert_eq!(human_size(1024), "1.0K");
    assert_eq!(human_size(1536), "1.5K");
    assert_eq!(human_size(1 << 20), "1.0M");
    assert_eq!(human_size(u64::MAX), "16.0E");
}

#[test]
fn human_size_agrees_with_floating_point() {
    let mut cases: Vec<u64> = vec![
        0, 1, 1023, 1024, 1025, 1075, 1076, 1280, 1792, 2304, 10 * 1024 + 512, 1048575, 1048576,
        1048576 + 52428, 1048576 + 52429, 5 << 18, 7 << 18, 1 << 30, (1 << 30) + (1 << 28),
        (1u64 << 53) - 1, 1 << 53, (1 << 53) + 1, (1 << 53) + 2, (1 << 53) + 3, (1 << 54) + 2,
        (1 << 54) + 6, (1 << 60) - 1, 1 << 60, (1 << 60) + (1 << 56), u64::MAX - 1, u64::MAX,
        u64::MAX - 1023, u64::MAX - 1024, u64::MAX - 2048, (1 << 63) + 1024, (1 << 63) + 3072,
        1023 * 1024 + 972, 1023 * 1024 + 973, 1024 * 1024 - 1,
    ];
    let mut x: u64 = 0x9e37_79b9_7f4a_7c15;
    for i in 0..4000 {
        x = x.wrapping_mul(6364136223846793005).wrapping_add(1442695040888963407);
        cases.push(x >> (i % 64));
    }
    for k in 0..64 {
        for d in [0u64, 1, 2, 3] {
            cases.push((1u64 << k).wrapping_sub(d));
            cases.push((1u64 << k).wrapping_add(d));
            cases.push((5u64 << k) >> 2);
        }
    }
    for b in cases {
        assert_eq!(human_size(b), float_human_size(b), "{}", b);
    }
}
