//! The ways in which setting up an isolated namespace can fail.
use vstd::prelude::*;

verus! {

/// Which step of the set-up failed. Every step is fail-fast: the first error
/// ends the whole run.
#[derive(Clone, Copy, Debug, PartialEq, Eq, Structural)]
pub enum NetnsError {
    /// The namespace could not be created (bad name, no privilege, collision).
    NamespaceCreationError,
    /// An interface could not be created, moved, addressed or brought up.
    InterfaceError,
    /// A route could not be installed, or the veth pair is not there yet.
    RoutingError,
    /// The resolver configuration of the namespace could not be written.
    DnsConfigError,
    /// A process could not be started.
    ProcessSpawnError,
    /// The masquerade rule could not be installed.
    FilterRuleError,
    /// IPv4 forwarding could not be enabled.
    SysctlError,
    /// A privileged command could not be started, or exited with failure.
    PrivilegedCommandError,
    /// The provider's credentials, server list or server alias did not resolve.
    VpnResolutionError,
    /// The VPN client exited right after launch: probably an authentication
    /// error.
    VpnNotRunningError,
}

impl NetnsError {
    /// A short description of the failure, for the user.
    pub fn message(&self) -> (r: &'static str) {
        match self {
            NetnsError::NamespaceCreationError => "could not create the network namespace",
            NetnsError::InterfaceError => "could not configure a network interface",
            NetnsError::RoutingError => "could not install the route of the namespace",
            NetnsError::DnsConfigError => "could not configure DNS in the namespace",
            NetnsError::ProcessSpawnError => "could not start a process in the namespace",
            NetnsError::FilterRuleError => "could not install the masquerade rule",
            NetnsError::SysctlError => "could not enable IPv4 forwarding",
            NetnsError::PrivilegedCommandError => "a privileged command failed",
            NetnsError::VpnResolutionError => "could not resolve the VPN provider or server",
            NetnsError::VpnNotRunningError =>
                "OpenVPN not running in network namespace, probable authentication error",
        }
    }
}

} // verus!
