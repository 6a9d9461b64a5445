use vpn_netns::error::NetnsError;
use vpn_netns::netns::{is_valid_name, AddressPlan, NetworkInterface, NetworkNamespace};

fn strings(v: &[&str]) -> Vec<String> {
    v.iter().map(|s| s.to_string()).collect()
}

fn fresh(name: &str) -> NetworkNamespace {
    NetworkNamespace::new(name.to_string(), AddressPlan::standard()).unwrap()
}

#[test]
fn standard_plan_addresses() {
    let p = AddressPlan::standard();
    assert_eq!(p.host.to_text(), "10.200.200.1/24");
    assert_eq!(p.namespace.to_text(), "10.200.200.2/24");
    assert_eq!(p.namespace.network().to_text(), "10.200.200.0/24");
    assert_eq!(p.host.network(), p.namespace.network());
}

#[test]
fn namespace_names() {
    assert!(is_valid_name("exampleVPN_us-east-1"));
    assert!(is_valid_name("..."));
    assert!(!is_valid_name(""));
    assert!(!is_valid_name("."));
    assert!(!is_valid_name(".."));
    assert!(!is_valid_name("a/b"));
    assert!(!is_valid_name("a\0b"));
    assert!(is_valid_name(&"x".repeat(255)));
    assert!(!is_valid_name(&"x".repeat(256)));
}

#[test]
fn new_refuses_bad_name() {
    let r = NetworkNamespace::new("a/b".to_string(), AddressPlan::standard());
    assert!(matches!(r, Err(NetnsError::NamespaceCreationError)));
}

#[test]
fn create_command() {
    let ns = fresh("vpn_a");
    assert_eq!(ns.create(), strings(&["ip", "netns", "add", "vpn_a"]));
    assert_eq!(ns.name(), "vpn_a");
}

#[test]
fn loopback_runs_inside_namespace() {
    let mut ns = fresh("vpn_a");
    let cmds = ns.add_loopback();
    assert_eq!(cmds, vec![strings(&["ip", "netns", "exec", "vpn_a", "ip", "link", "set", "lo", "up"])]);
    for c in &cmds {
        assert_eq!(&c[..4], &strings(&["ip", "netns", "exec", "vpn_a"])[..]);
    }
}

#[test]
fn routing_before_veth_fails() {
    let mut ns = fresh("vpn_a");
    assert_eq!(ns.add_routing(), Err(NetnsError::RoutingError));
    ns.add_loopback();
    assert_eq!(ns.add_routing(), Err(NetnsError::RoutingError));
    assert!(ns.add_veth_pair().is_ok());
    assert!(ns.add_routing().is_ok());
}

#[test]
fn veth_before_loopback_fails() {
    let mut ns = fresh("vpn_a");
    assert_eq!(ns.add_veth_pair(), Err(NetnsError::InterfaceError));
    ns.add_loopback();
    assert!(ns.add_veth_pair().is_ok());
    assert_eq!(ns.add_veth_pair(), Err(NetnsError::InterfaceError));
}

#[test]
fn veth_pair_commands() {
    let mut ns = fresh("exampleVPN_us-east-1");
    ns.add_loopback();
    let cmds = ns.add_veth_pair().unwrap();
    let n = "exampleVPN_us-east-1";
    let h = "exampleVPN_us-east-1_d";
    let s = "exampleVPN_us-east-1_s";
    assert_eq!(
        cmds,
        vec![
            strings(&["ip", "link", "add", h, "type", "veth", "peer", "name", s]),
            strings(&["ip", "link", "set", s, "netns", n]),
            strings(&["ip", "addr", "add", "10.200.200.1/24", "dev", h]),
            strings(&["ip", "link", "set", h, "up"]),
            strings(&["ip", "netns", "exec", n, "ip", "addr", "add", "10.200.200.2/24", "dev", s]),
            strings(&["ip", "netns", "exec", n, "ip", "link", "set", s, "up"]),
        ]
    );
}

#[test]
fn routing_command() {
    let mut ns = fresh("vpn_a");
    ns.add_loopback();
    ns.add_veth_pair().unwrap();
    assert_eq!(
        ns.add_routing().unwrap(),
        vec![strings(&["ip", "netns", "exec", "vpn_a", "ip", "route", "add", "default", "via", "10.200.200.1"])]
    );
}

#[test]
fn dns_before_routing_fails() {
    let mut ns = fresh("vpn_a");
    assert!(matches!(ns.dns_config(), Err(NetnsError::DnsConfigError)));
}

#[test]
fn dns_configuration() {
    let mut ns = fresh("vpn_a");
    ns.add_loopback();
    ns.add_veth_pair().unwrap();
    ns.add_routing().unwrap();
    let rc = ns.dns_config().unwrap();
    assert_eq!(rc.directory, "/etc/netns/vpn_a");
    assert_eq!(rc.path, "/etc/netns/vpn_a/resolv.conf");
    assert_eq!(rc.contents, "nameserver 8.8.8.8\n");
}

#[test]
fn openvpn_before_dns_fails() {
    let mut ns = fresh("vpn_a");
    assert_eq!(ns.run_openvpn("c.ovpn", "us1.example.com", 1194), Err(NetnsError::ProcessSpawnError));
    assert!(!ns.check_openvpn_running(false));
}

#[test]
fn openvpn_liveness() {
    let mut ns = fresh("vpn_a");
    ns.add_loopback();
    ns.add_veth_pair().unwrap();
    ns.add_routing().unwrap();
    ns.dns_config().unwrap();
    let c = ns.run_openvpn("/etc/vpn/us.ovpn", "us1.example.com", 1194).unwrap();
    assert_eq!(
        c,
        strings(&[
            "ip", "netns", "exec", "vpn_a", "openvpn", "--config", "/etc/vpn/us.ovpn", "--remote",
            "us1.example.com", "1194",
        ])
    );
    assert!(ns.check_openvpn_running(false));
    assert!(!ns.check_openvpn_running(true));
}

#[test]
fn exec_echo_hello_in_namespace() {
    let ns = fresh("vpn_a");
    let c = ns.exec_no_block(&strings(&["echo", "hello"])).unwrap();
    assert_eq!(c, strings(&["ip", "netns", "exec", "vpn_a", "echo", "hello"]));
    assert_eq!(ns.exec_no_block(&Vec::new()), Err(NetnsError::ProcessSpawnError));
}

#[test]
fn interface_devices() {
    assert_eq!(NetworkInterface::Ethernet.device_name(), "eth0");
    assert_eq!(NetworkInterface::Wireless.device_name(), "wlan0");
}
