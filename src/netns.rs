//! The network namespace and the commands that wire it up.
//!
//! Each step checks that the steps before it were taken and hands back the
//! privileged commands that carry it out. The caller runs them in order and
//! abandons the whole run on the first failure, so a step is recorded as taken
//! as soon as its commands are handed out. Nothing is rolled back: when one
//! command of a step fails, what the earlier ones did (a veth pair created but
//! not moved, say) is left in place for inspection, and the error names the
//! step.
use crate::addr::{address_text, address_value, block_size, cidr_text, from_value, network, Ipv4Cidr};
use crate::error::NetnsError;
use crate::text::{push_word, views};
use vstd::prelude::*;

verus! {

/// The host interface through which the namespace's traffic leaves.
#[derive(Clone, Copy, Debug, PartialEq, Eq, Structural)]
pub enum NetworkInterface {
    Ethernet,
    Wireless,
}

impl NetworkInterface {
    /// The kernel's name for the interface.
    pub open spec fn device(self) -> Seq<char> {
        match self {
            NetworkInterface::Ethernet => "eth0"@,
            NetworkInterface::Wireless => "wlan0"@,
        }
    }

    /// The kernel's name for the interface.
    pub fn device_name(&self) -> (r: &'static str)
        ensures
            r@ == self.device(),
    {
        match self {
            NetworkInterface::Ethernet => "eth0",
            NetworkInterface::Wireless => "wlan0",
        }
    }
}

/// The addresses of the two ends of the veth pair, and the name server that
/// processes inside the namespace use.
#[derive(Clone, Copy, Debug, PartialEq, Eq, Structural)]
pub struct AddressPlan {
    pub host: Ipv4Cidr,
    pub namespace: Ipv4Cidr,
    pub nameserver: Ipv4Cidr,
}

impl AddressPlan {
    /// Both ends lie in one subnet and have different addresses.
    pub open spec fn wf(self) -> bool {
        &&& self.host.wf()
        &&& self.namespace.wf()
        &&& self.host.prefix == self.namespace.prefix
        &&& network(self.host) == network(self.namespace)
        &&& self.host != self.namespace
    }

    /// The subnet that is masqueraded on the host: the one of the namespace's
    /// end of the pair.
    pub open spec fn subnet(self) -> Ipv4Cidr {
        network(self.namespace)
    }

    /// Host end `10.200.200.1/24`, namespace end `10.200.200.2/24`, name
    /// server `8.8.8.8`.
    pub fn standard() -> (r: AddressPlan)
        ensures
            r.wf(),
            r.host == (Ipv4Cidr { a: 10, b: 200, c: 200, d: 1, prefix: 24 }),
            r.namespace == (Ipv4Cidr { a: 10, b: 200, c: 200, d: 2, prefix: 24 }),
            r.nameserver == (Ipv4Cidr { a: 8, b: 8, c: 8, d: 8, prefix: 32 }),
            r.subnet() == (Ipv4Cidr { a: 10, b: 200, c: 200, d: 0, prefix: 24 }),
    {
        let r = AddressPlan {
            host: Ipv4Cidr { a: 10, b: 200, c: 200, d: 1, prefix: 24 },
            namespace: Ipv4Cidr { a: 10, b: 200, c: 200, d: 2, prefix: 24 },
            nameserver: Ipv4Cidr { a: 8, b: 8, c: 8, d: 8, prefix: 32 },
        };
        proof {
            vstd::arithmetic::power2::lemma2_to64();
            assert(block_size(r.host) == 256);
            assert(block_size(r.namespace) == 256);
            assert(address_value(r.host) == 180930561);
            assert(address_value(r.namespace) == 180930562);
            assert(180930561nat % 256 == 1);
            assert(180930562nat % 256 == 2);
            assert(from_value(180930560, 24) == (Ipv4Cidr { a: 10, b: 200, c: 200, d: 0, prefix: 24 }));
        }
        r
    }
}

/// The views of a list of commands.
pub open spec fn command_views(v: Seq<Vec<String>>) -> Seq<Seq<Seq<char>>> {
    v.map_values(|c: Vec<String>| views(c@))
}

/// `cmd`, run inside the namespace `name`.
pub open spec fn in_namespace(name: Seq<char>, cmd: Seq<Seq<char>>) -> Seq<Seq<char>> {
    seq!["ip"@, "netns"@, "exec"@, name] + cmd
}

/// Whether `cmd` runs inside the namespace `name` and nowhere else.
pub open spec fn scoped_to(name: Seq<char>, cmd: Seq<Seq<char>>) -> bool {
    cmd.len() >= 4 && cmd.take(4) == seq!["ip"@, "netns"@, "exec"@, name]
}

/// The name of the host end of the pair.
pub open spec fn host_end(name: Seq<char>) -> Seq<char> {
    name + "_d"@
}

/// The name of the namespace end of the pair.
pub open spec fn namespace_end(name: Seq<char>) -> Seq<char> {
    name + "_s"@
}

/// Creates the namespace.
pub open spec fn create_command(name: Seq<char>) -> Seq<Seq<char>> {
    seq!["ip"@, "netns"@, "add"@, name]
}

/// Brings the loopback interface up, inside the namespace.
pub open spec fn loopback_commands(name: Seq<char>) -> Seq<Seq<Seq<char>>> {
    seq![in_namespace(name, seq!["ip"@, "link"@, "set"@, "lo"@, "up"@])]
}

/// Creates the pair, moves one end into the namespace, addresses both ends
/// and brings them up.
pub open spec fn veth_commands(name: Seq<char>, plan: AddressPlan) -> Seq<Seq<Seq<char>>> {
    let h = host_end(name);
    let s = namespace_end(name);
    seq![
        seq!["ip"@, "link"@, "add"@, h, "type"@, "veth"@, "peer"@, "name"@, s],
        seq!["ip"@, "link"@, "set"@, s, "netns"@, name],
        seq!["ip"@, "addr"@, "add"@, cidr_text(plan.host), "dev"@, h],
        seq!["ip"@, "link"@, "set"@, h, "up"@],
        in_namespace(name, seq!["ip"@, "addr"@, "add"@, cidr_text(plan.namespace), "dev"@, s]),
        in_namespace(name, seq!["ip"@, "link"@, "set"@, s, "up"@]),
    ]
}

/// The default route of the namespace, through the host end of the pair.
pub open spec fn routing_commands(name: Seq<char>, plan: AddressPlan) -> Seq<Seq<Seq<char>>> {
    seq![
        in_namespace(
            name,
            seq!["ip"@, "route"@, "add"@, "default"@, "via"@, address_text(plan.host)],
        ),
    ]
}

/// Bringing the loopback interface up is done inside the namespace and
/// nowhere else: every command of that step is scoped to the namespace.
pub proof fn lemma_loopback_only_inside(name: Seq<char>)
    ensures
        loopback_commands(name).len() == 1,
        forall|i: int|
            0 <= i < loopback_commands(name).len() ==> scoped_to(name, #[trigger] loopback_commands(name)[i]),
{
    let c = loopback_commands(name)[0];
    assert(c.take(4) =~= seq!["ip"@, "netns"@, "exec"@, name]);
}

/// A name the kernel accepts for a namespace: one to 255 characters, no
/// path separator or NUL, and neither `.` nor `..`.
pub open spec fn valid_name(name: Seq<char>) -> bool {
    &&& 0 < name.len() <= 255
    &&& forall|i: int| 0 <= i < name.len() ==> name[i] != '/' && name[i] != '\0'
    &&& name != "."@
    &&& name != ".."@
}

/// What a namespace is at one moment: its name and addresses, and the steps
/// taken on it so far.
pub ghost struct NamespaceState {
    pub name: Seq<char>,
    pub addresses: AddressPlan,
    pub loopback_up: bool,
    pub veth_up: bool,
    pub routed: bool,
    pub dns_set: bool,
    pub vpn_launched: bool,
}

/// A network namespace, from creation to hosting the application.
pub struct NetworkNamespace {
    name: String,
    addresses: AddressPlan,
    loopback_up: bool,
    veth_up: bool,
    routed: bool,
    dns_set: bool,
    vpn_launched: bool,
}

impl View for NetworkNamespace {
    type V = NamespaceState;

    closed spec fn view(&self) -> NamespaceState {
        NamespaceState {
            name: self.name@,
            addresses: self.addresses,
            loopback_up: self.loopback_up,
            veth_up: self.veth_up,
            routed: self.routed,
            dns_set: self.dns_set,
            vpn_launched: self.vpn_launched,
        }
    }
}

/// `ip netns exec <name>`.
fn namespace_prefix(name: &String) -> (r: Vec<String>)
    ensures
        views(r@) == seq!["ip"@, "netns"@, "exec"@, name@],
{
    let mut v: Vec<String> = Vec::new();
    push_word(&mut v, "ip");
    push_word(&mut v, "netns");
    push_word(&mut v, "exec");
    push_word(&mut v, name.as_str());
    assert(views(v@) =~= seq!["ip"@, "netns"@, "exec"@, name@]);
    v
}

/// Appends a command to a list of commands.
fn push_command(list: &mut Vec<Vec<String>>, cmd: Vec<String>)
    ensures
        command_views(final(list)@) == command_views(old(list)@).push(views(cmd@)),
{
    list.push(cmd);
    assert(command_views(final(list)@) =~= command_views(old(list)@).push(views(cmd@)));
}

/// Checks a namespace name.
pub fn is_valid_name(name: &str) -> (r: bool)
    ensures
        r == valid_name(name@),
{
    let n = name.unicode_len();
    if n == 0 || n > 255 {
        return false;
    }
    let mut i: usize = 0;
    while i < n
        invariant
            n == name@.len(),
            i <= n,
            forall|j: int| 0 <= j < i ==> name@[j] != '/' && name@[j] != '\0',
        decreases n - i,
    {
        let c = name.get_char(i);
        if c == '/' || c == '\0' {
            return false;
        }
        i += 1;
    }
    proof {
        reveal_strlit(".");
        reveal_strlit("..");
    }
    if n == 1 && name.get_char(0) == '.' {
        assert(name@ =~= "."@);
        return false;
    }
    if n == 2 && name.get_char(0) == '.' && name.get_char(1) == '.' {
        assert(name@ =~= ".."@);
        return false;
    }
    proof {
        if n == 1 {
            assert(name@ != "."@) by {
                assert(name@[0] != "."@[0]);
            }
        }
        if n == 2 {
            assert(name@ != ".."@) by {
                assert(name@[0] != ".."@[0] || name@[1] != ".."@[1]);
            }
        }
    }
    true
}

/// The directory whose files replace those of `/etc` inside the namespace.
pub open spec fn resolver_directory(name: Seq<char>) -> Seq<char> {
    "/etc/netns/"@ + name
}

/// What the namespace's resolver configuration says.
pub open spec fn resolver_contents(plan: AddressPlan) -> Seq<char> {
    "nameserver "@ + address_text(plan.nameserver) + "\n"@
}

/// Starts the VPN client inside the namespace.
pub open spec fn openvpn_command(name: Seq<char>, config: Seq<char>, server: Seq<char>, port: nat) -> Seq<
    Seq<char>,
> {
    in_namespace(
        name,
        seq!["openvpn"@, "--config"@, config, "--remote"@, server, crate::text::decimal(port)],
    )
}

/// The resolver configuration to write for a namespace: `contents` goes to
/// `path`, in `directory`.
pub struct ResolverConfig {
    pub directory: String,
    pub path: String,
    pub contents: String,
}

impl NetworkNamespace {
    /// A namespace named `name`, with no step taken yet. Fails with
    /// `NamespaceCreationError` when the kernel would refuse the name.
    pub fn new(name: String, addresses: AddressPlan) -> (r: Result<NetworkNamespace, NetnsError>)
        ensures
            r is Ok <==> valid_name(name@),
            r matches Err(e) ==> e == NetnsError::NamespaceCreationError,
            r matches Ok(ns) ==> ns@ == (NamespaceState {
                name: name@,
                addresses,
                loopback_up: false,
                veth_up: false,
                routed: false,
                dns_set: false,
                vpn_launched: false,
            }),
    {
        if !is_valid_name(name.as_str()) {
            return Err(NetnsError::NamespaceCreationError);
        }
        Ok(
            NetworkNamespace {
                name,
                addresses,
                loopback_up: false,
                veth_up: false,
                routed: false,
                dns_set: false,
                vpn_launched: false,
            },
        )
    }

    /// The namespace's name.
    pub fn name(&self) -> (r: &String)
        ensures
            r@ == self@.name,
    {
        &self.name
    }

    /// The namespace's addresses.
    pub fn addresses(&self) -> (r: AddressPlan)
        ensures
            r == self@.addresses,
    {
        self.addresses
    }

    /// The command that creates the namespace.
    pub fn create(&self) -> (r: Vec<String>)
        ensures
            views(r@) == create_command(self@.name),
    {
        let mut v: Vec<String> = Vec::new();
        push_word(&mut v, "ip");
        push_word(&mut v, "netns");
        push_word(&mut v, "add");
        push_word(&mut v, self.name.as_str());
        assert(views(v@) =~= create_command(self@.name));
        v
    }

    /// Brings the loopback interface up inside the namespace.
    pub fn add_loopback(&mut self) -> (r: Vec<Vec<String>>)
        ensures
            command_views(r@) == loopback_commands(old(self)@.name),
            final(self)@ == (NamespaceState { loopback_up: true, ..old(self)@ }),
    {
        let mut cmd = namespace_prefix(&self.name);
        push_word(&mut cmd, "ip");
        push_word(&mut cmd, "link");
        push_word(&mut cmd, "set");
        push_word(&mut cmd, "lo");
        push_word(&mut cmd, "up");
        let mut r: Vec<Vec<String>> = Vec::new();
        push_command(&mut r, cmd);
        self.loopback_up = true;
        assert(command_views(r@)[0] =~= loopback_commands(self@.name)[0]);
        assert(command_views(r@) =~= loopback_commands(self@.name));
        r
    }

    /// Creates the veth pair and wires it between host and namespace. Fails
    /// with `InterfaceError` before the loopback is up or once the pair exists.
    pub fn add_veth_pair(&mut self) -> (r: Result<Vec<Vec<String>>, NetnsError>)
        ensures
            r is Ok <==> old(self)@.loopback_up && !old(self)@.veth_up,
            r matches Err(e) ==> e == NetnsError::InterfaceError && final(self)@ == old(self)@,
            r matches Ok(cmds) ==> command_views(cmds@) == veth_commands(
                old(self)@.name,
                old(self)@.addresses,
            ) && final(self)@ == (NamespaceState { veth_up: true, ..old(self)@ }),
    {
        if !self.loopback_up || self.veth_up {
            return Err(NetnsError::InterfaceError);
        }
        proof {
            reveal_strlit("_d");
            reveal_strlit("_s");
        }
        let mut h = self.name.clone();
        h.append("_d");
        let mut s = self.name.clone();
        s.append("_s");
        let mut r: Vec<Vec<String>> = Vec::new();

        let mut c: Vec<String> = Vec::new();
        push_word(&mut c, "ip");
        push_word(&mut c, "link");
        push_word(&mut c, "add");
        push_word(&mut c, h.as_str());
        push_word(&mut c, "type");
        push_word(&mut c, "veth");
        push_word(&mut c, "peer");
        push_word(&mut c, "name");
        push_word(&mut c, s.as_str());
        push_command(&mut r, c);

        let mut c: Vec<String> = Vec::new();
        push_word(&mut c, "ip");
        push_word(&mut c, "link");
        push_word(&mut c, "set");
        push_word(&mut c, s.as_str());
        push_word(&mut c, "netns");
        push_word(&mut c, self.name.as_str());
        push_command(&mut r, c);

        let mut c: Vec<String> = Vec::new();
        push_word(&mut c, "ip");
        push_word(&mut c, "addr");
        push_word(&mut c, "add");
        push_word(&mut c, self.addresses.host.to_text().as_str());
        push_word(&mut c, "dev");
        push_word(&mut c, h.as_str());
        push_command(&mut r, c);

        let mut c: Vec<String> = Vec::new();
        push_word(&mut c, "ip");
        push_word(&mut c, "link");
        push_word(&mut c, "set");
        push_word(&mut c, h.as_str());
        push_word(&mut c, "up");
        push_command(&mut r, c);

        let mut c = namespace_prefix(&self.name);
        push_word(&mut c, "ip");
        push_word(&mut c, "addr");
        push_word(&mut c, "add");
        push_word(&mut c, self.addresses.namespace.to_text().as_str());
        push_word(&mut c, "dev");
        push_word(&mut c, s.as_str());
        push_command(&mut r, c);

        let mut c = namespace_prefix(&self.name);
        push_word(&mut c, "ip");
        push_word(&mut c, "link");
        push_word(&mut c, "set");
        push_word(&mut c, s.as_str());
        push_word(&mut c, "up");
        push_command(&mut r, c);

        self.veth_up = true;
        let ghost name = old(self)@.name;
        assert(command_views(r@)[0] =~= veth_commands(name, self.addresses)[0]);
        assert(command_views(r@)[1] =~= veth_commands(name, self.addresses)[1]);
        assert(command_views(r@)[2] =~= veth_commands(name, self.addresses)[2]);
        assert(command_views(r@)[3] =~= veth_commands(name, self.addresses)[3]);
        assert(command_views(r@)[4] =~= veth_commands(name, self.addresses)[4]);
        assert(command_views(r@)[5] =~= veth_commands(name, self.addresses)[5]);
        assert(command_views(r@) =~= veth_commands(name, self.addresses));
        Ok(r)
    }

    /// Installs the default route of the namespace through the host end of
    /// the pair. Fails with `RoutingError` while the pair is not there.
    pub fn add_routing(&mut self) -> (r: Result<Vec<Vec<String>>, NetnsError>)
        ensures
            r is Ok <==> old(self)@.veth_up,
            r matches Err(e) ==> e == NetnsError::RoutingError && final(self)@ == old(self)@,
            r matches Ok(cmds) ==> command_views(cmds@) == routing_commands(
                old(self)@.name,
                old(self)@.addresses,
            ) && final(self)@ == (NamespaceState { routed: true, ..old(self)@ }),
    {
        if !self.veth_up {
            return Err(NetnsError::RoutingError);
        }
        let mut c = namespace_prefix(&self.name);
        push_word(&mut c, "ip");
        push_word(&mut c, "route");
        push_word(&mut c, "add");
        push_word(&mut c, "default");
        push_word(&mut c, "via");
        push_word(&mut c, self.addresses.host.address_text().as_str());
        let mut r: Vec<Vec<String>> = Vec::new();
        push_command(&mut r, c);
        self.routed = true;
        assert(command_views(r@)[0] =~= routing_commands(self@.name, self.addresses)[0]);
        assert(command_views(r@) =~= routing_commands(self@.name, self.addresses));
        Ok(r)
    }

    /// The resolver configuration of the namespace. Fails with
    /// `DnsConfigError` before the route is installed.
    pub fn dns_config(&mut self) -> (r: Result<ResolverConfig, NetnsError>)
        ensures
            r is Ok <==> old(self)@.routed,
            r matches Err(e) ==> e == NetnsError::DnsConfigError && final(self)@ == old(self)@,
            r matches Ok(c) ==> {
                &&& c.directory@ == resolver_directory(old(self)@.name)
                &&& c.path@ == resolver_directory(old(self)@.name) + "/resolv.conf"@
                &&& c.contents@ == resolver_contents(old(self)@.addresses)
                &&& final(self)@ == (NamespaceState { dns_set: true, ..old(self)@ })
            },
    {
        if !self.routed {
            return Err(NetnsError::DnsConfigError);
        }
        let mut directory = String::from_str("/etc/netns/");
        directory.append(self.name.as_str());
        let mut path = directory.clone();
        path.append("/resolv.conf");
        let mut contents = String::from_str("nameserver ");
        contents.append(self.addresses.nameserver.address_text().as_str());
        contents.append("\n");
        self.dns_set = true;
        Ok(ResolverConfig { directory, path, contents })
    }

    /// The command that starts the VPN client inside the namespace, against
    /// `server` on `port` with the provider's configuration file `config`.
    /// Fails with `ProcessSpawnError` before DNS is configured.
    pub fn run_openvpn(&mut self, config: &str, server: &str, port: u16) -> (r: Result<
        Vec<String>,
        NetnsError,
    >)
        ensures
            r is Ok <==> old(self)@.dns_set,
            r matches Err(e) ==> e == NetnsError::ProcessSpawnError && final(self)@ == old(self)@,
            r matches Ok(c) ==> views(c@) == openvpn_command(
                old(self)@.name,
                config@,
                server@,
                port as nat,
            ) && final(self)@ == (NamespaceState { vpn_launched: true, ..old(self)@ }),
    {
        if !self.dns_set {
            return Err(NetnsError::ProcessSpawnError);
        }
        let mut c = namespace_prefix(&self.name);
        push_word(&mut c, "openvpn");
        push_word(&mut c, "--config");
        push_word(&mut c, config);
        push_word(&mut c, "--remote");
        push_word(&mut c, server);
        push_word(&mut c, crate::text::decimal_text(port as u64).as_str());
        self.vpn_launched = true;
        assert(views(c@) =~= openvpn_command(self@.name, config@, server@, port as nat));
        Ok(c)
    }

    /// Whether the VPN client is alive: it was launched and has not exited.
    /// This says nothing of whether the tunnel passes traffic.
    pub fn check_openvpn_running(&self, client_exited: bool) -> (r: bool)
        ensures
            r == (self@.vpn_launched && !client_exited),
    {
        self.vpn_launched && !client_exited
    }

    /// `command_parts`, run inside the namespace. Fails with
    /// `ProcessSpawnError` when there is no program to run.
    pub fn exec_no_block(&self, command_parts: &Vec<String>) -> (r: Result<Vec<String>, NetnsError>)
        ensures
            r is Ok <==> command_parts@.len() > 0,
            r matches Err(e) ==> e == NetnsError::ProcessSpawnError,
            r matches Ok(c) ==> views(c@) == in_namespace(self@.name, views(command_parts@)),
    {
        if command_parts.len() == 0 {
            return Err(NetnsError::ProcessSpawnError);
        }
        let mut c = namespace_prefix(&self.name);
        let mut i: usize = 0;
        while i < command_parts.len()
            invariant
                i <= command_parts@.len(),
                views(c@) == in_namespace(self@.name, views(command_parts@).take(i as int)),
            decreases command_parts@.len() - i,
        {
            push_word(&mut c, command_parts[i].as_str());
            assert(views(command_parts@).take(i + 1) =~= views(command_parts@).take(i as int).push(
                command_parts@[i as int]@,
            ));
            assert(views(c@) =~= in_namespace(self@.name, views(command_parts@).take(i + 1)));
            i += 1;
        }
        assert(views(command_parts@).take(command_parts@.len() as int) =~= views(command_parts@));
        Ok(c)
    }
}

} // verus!
