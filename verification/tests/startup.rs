use fetra::init::{
    get_ppid, hostname, is_whitespace, join_addresses, machine_id, nth_field, parse_u32, trim,
    PpidError, PpidPath, UNKNOWN,
};

fn chars(s: &str, from: usize, to: usize) -> String {
    s.chars().skip(from).take(to - from).collect()
}

#[test]
fn whitespace_is_that_of_std() {
    for u in 0..0x11_0000u32 {
        if let Some(c) = char::from_u32(u) {
            assert_eq!(is_whitespace(c), c.is_whitespace(), "{:x}", u);
        }
    }
}

#[test]
fn trim_is_that_of_std() {
    for s in [
        "",
        " ",
        "\n\t \r",
        "abc",
        "  abc",
        "abc\n",
        " a b c \n",
        "\u{a0}x\u{3000}",
        "0123abcd\n",
        "\u{e9}t\u{e9} \u{2003}",
        "x",
        " x",
    ] {
        let (from, to) = trim(s);
        assert_eq!(chars(s, from, to), s.trim(), "{:?}", s);
    }
}

#[test]
fn machine_id_is_trimmed_or_unknown() {
    assert_eq!(machine_id(Some("0123456789abcdef0123456789abcdef\n")), "0123456789abcdef0123456789abcdef");
    assert_eq!(machine_id(Some("  id  ")), "id");
    assert_eq!(machine_id(Some("\n")), "");
    assert_eq!(machine_id(None), "unknown");
    assert_eq!(UNKNOWN, "unknown");
}

#[test]
fn hostname_or_unknown() {
    assert_eq!(hostname(Some("box".to_string())), "box");
    assert_eq!(hostname(None), "unknown");
}

#[test]
fn addresses_are_joined_by_commas() {
    let join = |parts: &[&str]| join_addresses(&parts.iter().map(|p| p.to_string()).collect());
    assert_eq!(join(&[]), "");
    assert_eq!(join(&["10.0.0.1"]), "10.0.0.1");
    assert_eq!(join(&["8.8.4.4", "2001:db8::1"]), "8.8.4.4,2001:db8::1");
    assert_eq!(join(&["a", "", "c"]), "a,,c");
}

#[test]
fn fields_are_those_of_split_whitespace() {
    for s in [
        "",
        "   ",
        "one",
        " one ",
        "one two three four five",
        "1234 (my app) S 1 1234",
        "\ta\u{a0}b\u{2003}c  d\n",
        "a b c d",
        "a b c",
        "a b c ",
        "42 (x) R 4000 42 42 0 -1 4194304",
    ] {
        for n in 0..7 {
            let got = nth_field(s, n).map(|(from, to)| chars(s, from, to));
            let want = s.split_whitespace().nth(n).map(|f| f.to_string());
            assert_eq!(got, want, "{:?} {}", s, n);
        }
    }
}

#[test]
fn numbers_are_parsed_as_std_does() {
    for s in [
        "", "+", "-", "0", "+0", "-0", "7", "007", "+42", "++4", "4+", "12a", "a12", " 12", "12 ",
        "4294967295", "4294967296", "+4294967295", "99999999999999999999", "00000000004294967295",
        "1_000", "0x10", "\u{663}",
    ] {
        let len = s.chars().count();
        assert_eq!(parse_u32(s, 0, len), s.parse::<u32>().ok(), "{:?}", s);
    }
    assert_eq!(parse_u32("a 4000 b", 2, 6), Some(4000));
    assert_eq!(parse_u32("a 4000 b", 2, 7), None);
}

#[test]
fn parent_is_the_fourth_field_of_stat() {
    let line = "4242 (fetra) S 4000 4242 4000 34816 4242 4194304 1234 0 0 0 1 2 0 0 20 0 9 0";
    assert_eq!(get_ppid(line), Ok(4000));
    assert_eq!(get_ppid("1 (systemd) S 0 1 1 0 -1"), Ok(0));
    assert_eq!(get_ppid("1 (systemd) S"), Err(PpidError::Missing));
    assert_eq!(get_ppid(""), Err(PpidError::Missing));
    // a name with a space moves the fields
    assert_eq!(get_ppid("77 (my app) S 1 77"), Err(PpidError::Invalid));
    assert_eq!(get_ppid("77 (app) S -1 77"), Err(PpidError::Invalid));
    assert_eq!(get_ppid("77 (app) S 4294967296 77"), Err(PpidError::Invalid));
}

#[test]
fn ancestors_are_listed_until_init() {
    let mut path = PpidPath::new(4242, 4000);
    assert_eq!(path.next_query(), Some(4000));
    path.push(3000);
    assert_eq!(path.next_query(), Some(3000));
    path.push(77);
    assert_eq!(path.next_query(), Some(77));
    path.push(1);
    assert_eq!(path.next_query(), None);
    let mut want = [0u32; 16];
    want[..4].copy_from_slice(&[4242, 4000, 3000, 77]);
    assert_eq!(path.pids, want);
    assert_eq!(path.filled, 4);
    assert!(path.done);
}

#[test]
fn list_of_ancestors_holds_sixteen() {
    let mut path = PpidPath::new(100, 99);
    let mut next = 98;
    while path.next_query().is_some() {
        path.push(next);
        next -= 1;
    }
    assert_eq!(path.filled, 16);
    assert!(!path.done);
    let want: Vec<u32> = (85..=100).rev().collect();
    assert_eq!(path.pids.to_vec(), want);
}

#[test]
fn parent_zero_ends_the_list() {
    let mut path = PpidPath::new(2, 0);
    assert_eq!(path.next_query(), Some(0));
    path.push(0);
    assert_eq!(path.next_query(), None);
    assert_eq!(path.pids[..3], [2, 0, 0]);
}
