//! One run, from resolved server to the application's output, as a state
//! machine: the host program performs each action it is handed and reports
//! whether it succeeded; the session decides what comes next. The first
//! failure ends the run.
use crate::error::NetnsError;
use crate::host::{add_masquerade_rule, enable_ipv4_forwarding, forwarding_command, masquerade_command};
use crate::netns::{
    command_views, create_command, in_namespace, loopback_commands, openvpn_command,
    resolver_contents, resolver_directory, routing_commands, valid_name, veth_commands,
    AddressPlan, NamespaceState, NetworkInterface, NetworkNamespace, ResolverConfig,
};
use crate::text::{split_command, views, words};
use crate::vpn::{namespace_name, namespace_name_of};
use vstd::prelude::*;

verus! {

/// The step a run is at: the one whose action was handed out last.
#[derive(Clone, Copy, Debug, PartialEq, Eq, Structural)]
pub enum Stage {
    Create,
    Loopback,
    VethPair,
    Routing,
    Masquerade,
    Forwarding,
    Dns,
    LaunchVpn,
    CheckVpn,
    LaunchApp,
    Output,
    Finished,
    Failed(NetnsError),
}

/// The order of the steps.
pub open spec fn rank(s: Stage) -> nat {
    match s {
        Stage::Create => 0,
        Stage::Loopback => 1,
        Stage::VethPair => 2,
        Stage::Routing => 3,
        Stage::Masquerade => 4,
        Stage::Forwarding => 5,
        Stage::Dns => 6,
        Stage::LaunchVpn => 7,
        Stage::CheckVpn => 8,
        Stage::LaunchApp => 9,
        Stage::Output => 10,
        Stage::Finished => 11,
        Stage::Failed(_) => 12,
    }
}

/// The step after `s`, when `s` succeeded.
pub open spec fn next_stage(s: Stage) -> Stage {
    match s {
        Stage::Create => Stage::Loopback,
        Stage::Loopback => Stage::VethPair,
        Stage::VethPair => Stage::Routing,
        Stage::Routing => Stage::Masquerade,
        Stage::Masquerade => Stage::Forwarding,
        Stage::Forwarding => Stage::Dns,
        Stage::Dns => Stage::LaunchVpn,
        Stage::LaunchVpn => Stage::CheckVpn,
        Stage::CheckVpn => Stage::LaunchApp,
        Stage::LaunchApp => Stage::Output,
        Stage::Output => Stage::Finished,
        Stage::Finished => Stage::Finished,
        Stage::Failed(e) => Stage::Failed(e),
    }
}

/// The error that ends the run when step `s` fails.
pub open spec fn stage_error(s: Stage) -> NetnsError {
    match s {
        Stage::Create => NetnsError::NamespaceCreationError,
        Stage::Loopback => NetnsError::InterfaceError,
        Stage::VethPair => NetnsError::InterfaceError,
        Stage::Routing => NetnsError::RoutingError,
        Stage::Masquerade => NetnsError::FilterRuleError,
        Stage::Forwarding => NetnsError::SysctlError,
        Stage::Dns => NetnsError::DnsConfigError,
        Stage::LaunchVpn => NetnsError::ProcessSpawnError,
        Stage::CheckVpn => NetnsError::VpnNotRunningError,
        Stage::LaunchApp => NetnsError::ProcessSpawnError,
        Stage::Output => NetnsError::ProcessSpawnError,
        Stage::Finished => NetnsError::ProcessSpawnError,
        Stage::Failed(e) => e,
    }
}

/// Whether a run at `s` is still going.
pub open spec fn active(s: Stage) -> bool {
    rank(s) <= 10
}

/// What the host program is asked to do.
pub enum Action {
    /// Run each command with elevated privilege, in order, stopping at the
    /// first failure.
    Privileged(Vec<Vec<String>>),
    /// Create the directory and write the resolver configuration there.
    WriteResolver(ResolverConfig),
    /// Start the VPN client without waiting for it.
    SpawnVpn(Vec<String>),
    /// Wait a moment, then report whether the VPN client is still alive.
    CheckVpn,
    /// Start the application without waiting for it.
    SpawnApplication(Vec<String>),
    /// Wait for the application and write its output to standard output.
    WriteOutput,
    /// The run is over.
    Done,
    /// The run failed.
    Abort(NetnsError),
}

/// What a session is at one moment.
pub ghost struct SessionState {
    pub stage: Stage,
    pub ns: NamespaceState,
    pub interface: NetworkInterface,
    pub config: Seq<char>,
    pub server: Seq<char>,
    pub port: u16,
    pub application: Seq<Seq<char>>,
}

impl SessionState {
    /// The namespace has taken exactly the steps before the current one.
    pub open spec fn wf(self) -> bool {
        &&& self.ns.addresses.wf()
        &&& self.application.len() > 0
        &&& active(self.stage) ==> {
            &&& self.ns.loopback_up == (rank(self.stage) >= 1)
            &&& self.ns.veth_up == (rank(self.stage) >= 2)
            &&& self.ns.routed == (rank(self.stage) >= 3)
            &&& self.ns.dns_set == (rank(self.stage) >= 6)
            &&& self.ns.vpn_launched == (rank(self.stage) >= 7)
        }
    }

    /// The action that entering the current step hands out.
    pub open spec fn announces(self, a: Action) -> bool {
        let name = self.ns.name;
        let plan = self.ns.addresses;
        match self.stage {
            Stage::Create => a matches Action::Privileged(c) && command_views(c@) == seq![
                create_command(name),
            ],
            Stage::Loopback => a matches Action::Privileged(c) && command_views(c@)
                == loopback_commands(name),
            Stage::VethPair => a matches Action::Privileged(c) && command_views(c@)
                == veth_commands(name, plan),
            Stage::Routing => a matches Action::Privileged(c) && command_views(c@)
                == routing_commands(name, plan),
            Stage::Masquerade => a matches Action::Privileged(c) && command_views(c@) == seq![
                masquerade_command(plan.subnet(), self.interface),
            ],
            Stage::Forwarding => a matches Action::Privileged(c) && command_views(c@) == seq![
                forwarding_command(),
            ],
            Stage::Dns => a matches Action::WriteResolver(rc) && rc.directory@
                == resolver_directory(name) && rc.path@ == resolver_directory(name)
                + "/resolv.conf"@ && rc.contents@ == resolver_contents(plan),
            Stage::LaunchVpn => a matches Action::SpawnVpn(c) && views(c@) == openvpn_command(
                name,
                self.config,
                self.server,
                self.port as nat,
            ),
            Stage::CheckVpn => a is CheckVpn,
            Stage::LaunchApp => a matches Action::SpawnApplication(c) && views(c@)
                == in_namespace(name, self.application),
            Stage::Output => a is WriteOutput,
            Stage::Finished => a is Done,
            Stage::Failed(e) => a == Action::Abort(e),
        }
    }
}

/// One run of an application inside a VPN-only namespace.
pub struct Session {
    ns: NetworkNamespace,
    stage: Stage,
    interface: NetworkInterface,
    config: String,
    server: String,
    port: u16,
    application: Vec<String>,
}

impl View for Session {
    type V = SessionState;

    closed spec fn view(&self) -> SessionState {
        SessionState {
            stage: self.stage,
            ns: self.ns@,
            interface: self.interface,
            config: self.config@,
            server: self.server@,
            port: self.port,
            application: views(self.application@),
        }
    }
}

impl Session {
    /// A run of `application` in the namespace `{provider_alias}_{server_alias}`,
    /// whose VPN client connects to `server` on `port` with the provider's
    /// configuration `config`. Fails with `NamespaceCreationError` when the
    /// kernel would refuse that name, and with `ProcessSpawnError` when the
    /// application command names no program; nothing has been run then.
    pub fn new(
        provider_alias: &str,
        server_alias: &str,
        config: &str,
        server: &str,
        port: u16,
        application: &str,
        interface: NetworkInterface,
        addresses: AddressPlan,
    ) -> (r: Result<Session, NetnsError>)
        requires
            addresses.wf(),
        ensures
            r is Ok <==> valid_name(namespace_name_of(provider_alias@, server_alias@))
                && words(application@).len() > 0,
            r matches Err(e) ==> if !valid_name(namespace_name_of(provider_alias@, server_alias@)) {
                e == NetnsError::NamespaceCreationError
            } else {
                e == NetnsError::ProcessSpawnError
            },
            r matches Ok(s) ==> s@ == (SessionState {
                stage: Stage::Create,
                ns: NamespaceState {
                    name: namespace_name_of(provider_alias@, server_alias@),
                    addresses,
                    loopback_up: false,
                    veth_up: false,
                    routed: false,
                    dns_set: false,
                    vpn_launched: false,
                },
                interface,
                config: config@,
                server: server@,
                port,
                application: words(application@),
            }) && s@.wf(),
    {
        let name = namespace_name(provider_alias, server_alias);
        let ns = match NetworkNamespace::new(name, addresses) {
            Ok(ns) => ns,
            Err(e) => {
                return Err(e);
            },
        };
        let parts = split_command(application);
        if parts.len() == 0 {
            return Err(NetnsError::ProcessSpawnError);
        }
        Ok(
            Session {
                ns,
                stage: Stage::Create,
                interface,
                config: String::from_str(config),
                server: String::from_str(server),
                port,
                application: parts,
            },
        )
    }

    /// The step the run is at.
    pub fn stage(&self) -> (r: Stage)
        ensures
            r == self@.stage,
    {
        self.stage
    }

    /// The namespace's name.
    pub fn namespace_name(&self) -> (r: &String)
        ensures
            r@ == self@.ns.name,
    {
        self.ns.name()
    }

    /// The first action of a run: create the namespace.
    pub fn start(&self) -> (r: Action)
        requires
            self@.stage == Stage::Create,
        ensures
            self@.announces(r),
    {
        let mut cmds: Vec<Vec<String>> = Vec::new();
        cmds.push(self.ns.create());
        assert(command_views(cmds@) =~= seq![create_command(self@.ns.name)]);
        Action::Privileged(cmds)
    }

    /// Ends the run with the error of the current step.
    fn fail(&mut self) -> (r: Action)
        requires
            active(old(self)@.stage),
        ensures
            final(self)@ == (SessionState {
                stage: Stage::Failed(stage_error(old(self)@.stage)),
                ..old(self)@
            }),
            r == Action::Abort(stage_error(old(self)@.stage)),
    {
        let e = match self.stage {
            Stage::Create => NetnsError::NamespaceCreationError,
            Stage::Loopback => NetnsError::InterfaceError,
            Stage::VethPair => NetnsError::InterfaceError,
            Stage::Routing => NetnsError::RoutingError,
            Stage::Masquerade => NetnsError::FilterRuleError,
            Stage::Forwarding => NetnsError::SysctlError,
            Stage::Dns => NetnsError::DnsConfigError,
            Stage::LaunchVpn => NetnsError::ProcessSpawnError,
            Stage::CheckVpn => NetnsError::VpnNotRunningError,
            Stage::LaunchApp => NetnsError::ProcessSpawnError,
            Stage::Output => NetnsError::ProcessSpawnError,
            Stage::Finished => NetnsError::ProcessSpawnError,
            Stage::Failed(e) => e,
        };
        self.stage = Stage::Failed(e);
        Action::Abort(e)
    }

    /// Takes the outcome of the last action and hands out the next one. For
    /// the liveness check, `succeeded` says that the VPN client is still
    /// alive. A failure ends the run with the error of the step that failed;
    /// a finished or failed run stays as it is.
    pub fn advance(&mut self, succeeded: bool) -> (r: Action)
        requires
            old(self)@.wf(),
        ensures
            final(self)@.wf(),
            !active(old(self)@.stage) ==> final(self)@ == old(self)@ && old(self)@.announces(r),
            active(old(self)@.stage) && !succeeded ==> final(self)@ == (SessionState {
                stage: Stage::Failed(stage_error(old(self)@.stage)),
                ..old(self)@
            }) && r == Action::Abort(stage_error(old(self)@.stage)),
            active(old(self)@.stage) && succeeded ==> final(self)@.stage == next_stage(
                old(self)@.stage,
            ) && final(self)@.announces(r),
            final(self)@.ns.name == old(self)@.ns.name,
            final(self)@.ns.addresses == old(self)@.ns.addresses,
            final(self)@.interface == old(self)@.interface,
            final(self)@.config == old(self)@.config,
            final(self)@.server == old(self)@.server,
            final(self)@.port == old(self)@.port,
            final(self)@.application == old(self)@.application,
    {
        match self.stage {
            Stage::Finished => {
                return Action::Done;
            },
            Stage::Failed(e) => {
                return Action::Abort(e);
            },
            _ => {},
        }
        if !succeeded {
            return self.fail();
        }
        match self.stage {
            Stage::Create => {
                self.stage = Stage::Loopback;
                Action::Privileged(self.ns.add_loopback())
            },
            Stage::Loopback => {
                match self.ns.add_veth_pair() {
                    Ok(cmds) => {
                        self.stage = Stage::VethPair;
                        Action::Privileged(cmds)
                    },
                    Err(_) => self.fail(),
                }
            },
            Stage::VethPair => {
                match self.ns.add_routing() {
                    Ok(cmds) => {
                        self.stage = Stage::Routing;
                        Action::Privileged(cmds)
                    },
                    Err(_) => self.fail(),
                }
            },
            Stage::Routing => {
                let subnet = self.ns.addresses().namespace.network();
                let mut cmds: Vec<Vec<String>> = Vec::new();
                cmds.push(add_masquerade_rule(subnet, self.interface));
                assert(command_views(cmds@) =~= seq![
                    masquerade_command(self@.ns.addresses.subnet(), self.interface),
                ]);
                self.stage = Stage::Masquerade;
                Action::Privileged(cmds)
            },
            Stage::Masquerade => {
                let mut cmds: Vec<Vec<String>> = Vec::new();
                cmds.push(enable_ipv4_forwarding());
                assert(command_views(cmds@) =~= seq![forwarding_command()]);
                self.stage = Stage::Forwarding;
                Action::Privileged(cmds)
            },
            Stage::Forwarding => {
                match self.ns.dns_config() {
                    Ok(rc) => {
                        self.stage = Stage::Dns;
                        Action::WriteResolver(rc)
                    },
                    Err(_) => self.fail(),
                }
            },
            Stage::Dns => {
                match self.ns.run_openvpn(self.config.as_str(), self.server.as_str(), self.port) {
                    Ok(c) => {
                        self.stage = Stage::LaunchVpn;
                        Action::SpawnVpn(c)
                    },
                    Err(_) => self.fail(),
                }
            },
            Stage::LaunchVpn => {
                self.stage = Stage::CheckVpn;
                Action::CheckVpn
            },
            Stage::CheckVpn => {
                if !self.ns.check_openvpn_running(false) {
                    return self.fail();
                }
                match self.ns.exec_no_block(&self.application) {
                    Ok(c) => {
                        self.stage = Stage::LaunchApp;
                        Action::SpawnApplication(c)
                    },
                    Err(_) => self.fail(),
                }
            },
            Stage::LaunchApp => {
                self.stage = Stage::Output;
                Action::WriteOutput
            },
            _ => {
                self.stage = Stage::Finished;
                Action::Done
            },
        }
    }
}

} // verus!
