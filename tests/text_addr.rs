use vpn_netns::addr::Ipv4Cidr;
use vpn_netns::text::{decimal_text, is_white_space_char, join_words, split_command};

fn strings(v: &[&str]) -> Vec<String> {
    v.iter().map(|s| s.to_string()).collect()
}

#[test]
fn split_command_two_words() {
    assert_eq!(split_command("echo hello"), strings(&["echo", "hello"]));
}

#[test]
fn split_command_collapses_whitespace() {
    assert_eq!(
        split_command("  firefox \t--private-window\n  x  "),
        strings(&["firefox", "--private-window", "x"])
    );
}

#[test]
fn split_command_empty_and_blank() {
    assert!(split_command("").is_empty());
    assert!(split_command(" \t\n ").is_empty());
}

#[test]
fn split_command_unicode_space() {
    assert_eq!(split_command("a\u{3000}b\u{a0}c"), strings(&["a", "b", "c"]));
    assert_eq!(split_command("héllo wörld"), strings(&["héllo", "wörld"]));
}

#[test]
fn white_space_chars() {
    assert!(is_white_space_char(' '));
    assert!(is_white_space_char('\t'));
    assert!(is_white_space_char('\u{2028}'));
    assert!(!is_white_space_char('a'));
    assert!(!is_white_space_char('_'));
}

#[test]
fn join_words_with_spaces() {
    assert_eq!(join_words(&strings(&["sudo", "ip", "netns", "add", "x"])), "sudo ip netns add x");
    assert_eq!(join_words(&strings(&["one"])), "one");
    assert_eq!(join_words(&Vec::new()), "");
}

#[test]
fn decimal_values() {
    assert_eq!(decimal_text(0), "0");
    assert_eq!(decimal_text(7), "7");
    assert_eq!(decimal_text(200), "200");
    assert_eq!(decimal_text(1194), "1194");
    assert_eq!(decimal_text(65535), "65535");
    assert_eq!(decimal_text(u64::MAX), "18446744073709551615");
}

#[test]
fn network_of_namespace_end() {
    let a = Ipv4Cidr { a: 10, b: 200, c: 200, d: 2, prefix: 24 };
    let n = a.network();
    assert_eq!(n, Ipv4Cidr { a: 10, b: 200, c: 200, d: 0, prefix: 24 });
    assert_eq!(n.to_text(), "10.200.200.0/24");
    assert_eq!(a.to_text(), "10.200.200.2/24");
    assert_eq!(a.address_text(), "10.200.200.2");
}

#[test]
fn network_edge_prefixes() {
    let a = Ipv4Cidr { a: 192, b: 168, c: 37, d: 201, prefix: 0 };
    assert_eq!(a.network(), Ipv4Cidr { a: 0, b: 0, c: 0, d: 0, prefix: 0 });
    let b = Ipv4Cidr { prefix: 32, ..a };
    assert_eq!(b.network(), b);
    let c = Ipv4Cidr { prefix: 20, ..a };
    assert_eq!(c.network(), Ipv4Cidr { a: 192, b: 168, c: 32, d: 0, prefix: 20 });
    let d = Ipv4Cidr { a: 255, b: 255, c: 255, d: 255, prefix: 1 };
    assert_eq!(d.network().to_text(), "128.0.0.0/1");
}
