use vpn_netns::error::NetnsError;
use vpn_netns::netns::{AddressPlan, NetworkInterface};
use vpn_netns::session::{Action, Session, Stage};

fn strings(v: &[&str]) -> Vec<String> {
    v.iter().map(|s| s.to_string()).collect()
}

fn scenario(application: &str) -> Session {
    Session::new(
        "exampleVPN",
        "us-east-1",
        "/etc/vpn/us-east-1.ovpn",
        "us1.example.com",
        1194,
        application,
        NetworkInterface::Ethernet,
        AddressPlan::standard(),
    )
    .unwrap()
}

fn privileged(a: Action) -> Vec<Vec<String>> {
    match a {
        Action::Privileged(c) => c,
        _ => panic!("expected privileged commands"),
    }
}

/// Walks a session up to the liveness check, returning it.
fn up_to_check(s: &mut Session) {
    let create = privileged(s.start());
    assert_eq!(create, vec![strings(&["ip", "netns", "add", "exampleVPN_us-east-1"])]);
    let lo = privileged(s.advance(true));
    assert_eq!(lo[0][..4], strings(&["ip", "netns", "exec", "exampleVPN_us-east-1"])[..]);
    let veth = privileged(s.advance(true));
    assert_eq!(veth.len(), 6);
    assert_eq!(veth[2][3], "10.200.200.1/24");
    assert_eq!(veth[4][7], "10.200.200.2/24");
    let route = privileged(s.advance(true));
    assert_eq!(route[0][9], "10.200.200.1");
    let nat = privileged(s.advance(true));
    assert_eq!(
        nat,
        vec![strings(&["iptables", "-t", "nat", "-A", "POSTROUTING", "-s", "10.200.200.0/24", "-o", "eth0", "-j", "MASQUERADE"])]
    );
    let fwd = privileged(s.advance(true));
    assert_eq!(fwd, vec![strings(&["sysctl", "-q", "net.ipv4.ip_forward=1"])]);
    match s.advance(true) {
        Action::WriteResolver(rc) => assert_eq!(rc.path, "/etc/netns/exampleVPN_us-east-1/resolv.conf"),
        _ => panic!("expected resolver configuration"),
    }
    match s.advance(true) {
        Action::SpawnVpn(c) => assert_eq!(
            c,
            strings(&[
                "ip", "netns", "exec", "exampleVPN_us-east-1", "openvpn", "--config",
                "/etc/vpn/us-east-1.ovpn", "--remote", "us1.example.com", "1194",
            ])
        ),
        _ => panic!("expected the VPN client"),
    }
    assert!(matches!(s.advance(true), Action::CheckVpn));
    assert_eq!(s.stage(), Stage::CheckVpn);
}

#[test]
fn scenario_vpn_dies_after_launch() {
    let mut s = scenario("firefox");
    assert_eq!(s.namespace_name(), "exampleVPN_us-east-1");
    up_to_check(&mut s);
    assert!(matches!(s.advance(false), Action::Abort(NetnsError::VpnNotRunningError)));
    assert_eq!(s.stage(), Stage::Failed(NetnsError::VpnNotRunningError));
    assert!(matches!(s.advance(true), Action::Abort(NetnsError::VpnNotRunningError)));
}

#[test]
fn scenario_echo_hello() {
    let mut s = scenario("echo hello");
    up_to_check(&mut s);
    match s.advance(true) {
        Action::SpawnApplication(c) => {
            assert_eq!(c, strings(&["ip", "netns", "exec", "exampleVPN_us-east-1", "echo", "hello"]))
        }
        _ => panic!("expected the application"),
    }
    assert!(matches!(s.advance(true), Action::WriteOutput));
    assert!(matches!(s.advance(true), Action::Done));
    assert_eq!(s.stage(), Stage::Finished);
    assert!(matches!(s.advance(false), Action::Done));
}

#[test]
fn failure_of_each_step() {
    let expected = [
        NetnsError::NamespaceCreationError,
        NetnsError::InterfaceError,
        NetnsError::InterfaceError,
        NetnsError::RoutingError,
        NetnsError::FilterRuleError,
        NetnsError::SysctlError,
        NetnsError::DnsConfigError,
        NetnsError::ProcessSpawnError,
        NetnsError::VpnNotRunningError,
        NetnsError::ProcessSpawnError,
        NetnsError::ProcessSpawnError,
    ];
    for (k, e) in expected.iter().enumerate() {
        let mut s = scenario("echo hello");
        s.start();
        for _ in 0..k {
            s.advance(true);
        }
        match s.advance(false) {
            Action::Abort(got) => assert_eq!(got, *e),
            _ => panic!("expected the run to end"),
        }
        assert_eq!(s.stage(), Stage::Failed(*e));
    }
}

#[test]
fn session_refuses_bad_input() {
    let bad_name = Session::new("a/b", "c", "x", "h", 1, "echo", NetworkInterface::Ethernet, AddressPlan::standard());
    assert!(matches!(bad_name, Err(NetnsError::NamespaceCreationError)));
    let no_app = Session::new("a", "c", "x", "h", 1, "  ", NetworkInterface::Ethernet, AddressPlan::standard());
    assert!(matches!(no_app, Err(NetnsError::ProcessSpawnError)));
}

#[test]
fn error_messages() {
    assert_eq!(
        NetnsError::VpnNotRunningError.message(),
        "OpenVPN not running in network namespace, probable authentication error"
    );
    assert_eq!(NetnsError::RoutingError.message(), "could not install the route of the namespace");
}
