use idle_terminal::network_info::{
    is_space, parse_dns_servers, parse_gateway, pieces, shown_interfaces, starts_with,
    LocalNetworkInfo,
};

fn std_dns_servers(content: &str) -> Vec<String> {
    content
        .lines()
        .filter_map(|line| {
            let line = line.trim();
            if line.starts_with("nameserver") {
                line.split_whitespace().nth(1).map(|s| s.to_string())
            } else {
                None
            }
        })
        .take(3)
        .collect()
}

fn std_gateway(output: &str) -> Option<String> {
    output.split_whitespace().skip_while(|w| *w != "via").nth(1).map(|s| s.to_string())
}

const SAMPLES: [&str; 14] = [
    "",
    "\n",
    "nameserver 1.1.1.1",
    "nameserver 1.1.1.1\n",
    "# made by hand\nnameserver 1.1.1.1\n  nameserver\t8.8.8.8 extra\nnameserver\nsearch lan\n",
    "nameserver 1\nnameserver 2\nnameserver 3\nnameserver 4\nnameserver 5\n",
    "nameserver 1.1.1.1\r\nnameserver 8.8.8.8\r\n",
    "nameserverx 7.7.7.7\nxnameserver 6.6.6.6\n nameserver\u{a0}5.5.5.5\n",
    "options edns0\n\n\n   \nnameserver fe80::1%eth0\n",
    "default via 192.168.1.1 dev eth0 proto dhcp metric 100\n",
    "default via",
    "via via via",
    "default dev tun0 scope link\n",
    "default\u{2003}via\u{3000}10.0.0.1\u{85}dev\u{b}wlan0 via 10.0.0.2",
];

#[test]
fn name_servers_as_the_standard_library_reads_them() {
    for sample in SAMPLES {
        assert_eq!(parse_dns_servers(sample), std_dns_servers(sample), "{sample:?}");
    }
    assert_eq!(
        parse_dns_servers(SAMPLES[4]),
        vec!["1.1.1.1".to_string(), "8.8.8.8".to_string()]
    );
    assert_eq!(parse_dns_servers(SAMPLES[5]), vec!["1", "2", "3"]);
    assert_eq!(parse_dns_servers(SAMPLES[7]), vec!["7.7.7.7", "5.5.5.5"]);
}

#[test]
fn the_gateway_as_the_standard_library_reads_it() {
    for sample in SAMPLES {
        assert_eq!(parse_gateway(sample), std_gateway(sample), "{sample:?}");
    }
    assert_eq!(parse_gateway(SAMPLES[9]), Some("192.168.1.1".to_string()));
    assert_eq!(parse_gateway(SAMPLES[10]), None);
    assert_eq!(parse_gateway(SAMPLES[11]), Some("via".to_string()));
    assert_eq!(parse_gateway(SAMPLES[12]), None);
    assert_eq!(parse_gateway(SAMPLES[13]), Some("10.0.0.1".to_string()));
}

#[test]
fn words_and_lines_of_a_text() {
    for sample in SAMPLES {
        let words: Vec<String> = sample.split_whitespace().map(String::from).collect();
        assert_eq!(pieces(sample, false), words, "{sample:?}");
        let lines: Vec<String> =
            sample.split('\n').filter(|l| !l.is_empty()).map(String::from).collect();
        assert_eq!(pieces(sample, true), lines, "{sample:?}");
    }
    assert_eq!(pieces("  a  bc ", false), vec!["a", "bc"]);
    assert_eq!(pieces("a b\n\nc", true), vec!["a b", "c"]);
}

#[test]
fn spaces_are_the_white_space_characters() {
    for code in 0..0x11_0000u32 {
        if let Some(c) = char::from_u32(code) {
            assert_eq!(is_space(c), c.is_whitespace(), "U+{code:04X}");
        }
    }
}

#[test]
fn prefixes() {
    assert!(starts_with("nameserver", "nameserver"));
    assert!(starts_with("nameservers", "nameserver"));
    assert!(!starts_with("nameserve", "nameserver"));
    assert!(!starts_with("xameserver", "nameserver"));
    assert!(!starts_with("nameserveR", "nameserver"));
    assert!(starts_with("anything", ""));
    assert!(starts_with("", ""));
    assert!(starts_with("\u{e9}t\u{e9}", "\u{e9}t"));
}

#[test]
fn shown_interfaces_leave_the_loopback_out() {
    let names: Vec<String> =
        ["lo", "eth0", "", "wlan0", "lo0", "lo"].iter().map(|s| s.to_string()).collect();
    assert_eq!(shown_interfaces(&names), vec!["eth0", "wlan0", "lo0"]);
    assert!(shown_interfaces(&Vec::new()).is_empty());
}

#[test]
fn discovery_with_everything_found() {
    let info = LocalNetworkInfo::discover(
        Some("rack-01".to_string()),
        Some(vec!["lo".to_string(), "enp3s0".to_string()]),
        Some("search lan\nnameserver 192.168.1.1\n".to_string()),
        Some("default via 192.168.1.254 dev enp3s0\n".to_string()),
    );
    assert_eq!(info.hostname, "rack-01");
    assert_eq!(info.interfaces, vec!["enp3s0"]);
    assert_eq!(info.dns_servers, vec!["192.168.1.1"]);
    assert_eq!(info.gateway.as_deref(), Some("192.168.1.254"));
}

#[test]
fn discovery_with_nothing_found() {
    let info = LocalNetworkInfo::discover(None, None, None, None);
    assert_eq!(info.hostname, "localhost");
    assert_eq!(info.interfaces, vec!["eth0"]);
    assert_eq!(info.dns_servers, vec!["8.8.8.8"]);
    assert_eq!(info.gateway, None);
    let empty = LocalNetworkInfo::discover(
        Some(String::new()),
        Some(Vec::new()),
        Some(String::new()),
        Some(String::new()),
    );
    assert_eq!(empty.hostname, "");
    assert!(empty.interfaces.is_empty());
    assert!(empty.dns_servers.is_empty());
    assert_eq!(empty.gateway, None);
}
