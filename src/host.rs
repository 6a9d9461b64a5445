//! Host-side state that the namespace's traffic needs: the masquerade rule
//! and IPv4 forwarding, and how privileged commands are run and judged.
use crate::addr::{cidr_text, network, Ipv4Cidr};
use crate::netns::{AddressPlan, NetworkInterface};
use crate::text::{join_words, joined, push_word, views};
use vstd::prelude::*;

verus! {

/// Translates the source addresses of `subnet` to those of `interface`.
pub open spec fn masquerade_command(subnet: Ipv4Cidr, interface: NetworkInterface) -> Seq<
    Seq<char>,
> {
    seq![
        "iptables"@,
        "-t"@,
        "nat"@,
        "-A"@,
        "POSTROUTING"@,
        "-s"@,
        cidr_text(subnet),
        "-o"@,
        interface.device(),
        "-j"@,
        "MASQUERADE"@,
    ]
}

/// The subnet that the masquerade rule translates is exactly the subnet of
/// the namespace's end of the veth pair, which is also the host end's.
pub proof fn lemma_masquerade_covers_namespace(plan: AddressPlan, interface: NetworkInterface)
    requires
        plan.wf(),
    ensures
        masquerade_command(plan.subnet(), interface)[6] == cidr_text(network(plan.namespace)),
        network(plan.host) == plan.subnet(),
{
}

/// Lets the host route packets between its interfaces.
pub open spec fn forwarding_command() -> Seq<Seq<char>> {
    seq!["sysctl"@, "-q"@, "net.ipv4.ip_forward=1"@]
}

/// The command that installs the masquerade rule for `subnet` on `interface`.
pub fn add_masquerade_rule(subnet: Ipv4Cidr, interface: NetworkInterface) -> (r: Vec<String>)
    ensures
        views(r@) == masquerade_command(subnet, interface),
{
    let mut c: Vec<String> = Vec::new();
    push_word(&mut c, "iptables");
    push_word(&mut c, "-t");
    push_word(&mut c, "nat");
    push_word(&mut c, "-A");
    push_word(&mut c, "POSTROUTING");
    push_word(&mut c, "-s");
    push_word(&mut c, subnet.to_text().as_str());
    push_word(&mut c, "-o");
    push_word(&mut c, interface.device_name());
    push_word(&mut c, "-j");
    push_word(&mut c, "MASQUERADE");
    assert(views(c@) =~= masquerade_command(subnet, interface));
    c
}

/// The command that enables IPv4 forwarding.
pub fn enable_ipv4_forwarding() -> (r: Vec<String>)
    ensures
        views(r@) == forwarding_command(),
{
    let mut c: Vec<String> = Vec::new();
    push_word(&mut c, "sysctl");
    push_word(&mut c, "-q");
    push_word(&mut c, "net.ipv4.ip_forward=1");
    assert(views(c@) =~= forwarding_command());
    c
}

/// `command`, run with elevated privilege.
pub open spec fn privileged(command: Seq<Seq<char>>) -> Seq<Seq<char>> {
    seq!["sudo"@] + command
}

/// The argument vector that runs `command` with elevated privilege.
pub fn sudo_argv(command: &Vec<String>) -> (r: Vec<String>)
    ensures
        views(r@) == privileged(views(command@)),
{
    let mut r: Vec<String> = Vec::new();
    push_word(&mut r, "sudo");
    let mut i: usize = 0;
    while i < command.len()
        invariant
            i <= command@.len(),
            views(r@) == privileged(views(command@).take(i as int)),
        decreases command@.len() - i,
    {
        push_word(&mut r, command[i].as_str());
        assert(views(r@) =~= privileged(views(command@).take(i + 1)));
        i += 1;
    }
    assert(views(command@).take(command@.len() as int) =~= views(command@));
    r
}

/// How a privileged command ended.
#[derive(Clone, Copy, Debug, PartialEq, Eq, Structural)]
pub enum CommandStatus {
    /// It could not be started.
    NotStarted,
    /// It ran and exited, successfully or not.
    Exited { success: bool },
}

/// A privileged command that failed: the command line as the user would
/// type it, and whether it was started at all.
#[derive(Debug)]
pub struct PrivilegedFailure {
    pub command: String,
    pub started: bool,
}

/// Judges how a privileged command ended: success only when it ran and
/// exited successfully.
pub fn check_privileged(command: &Vec<String>, status: CommandStatus) -> (r: Result<
    (),
    PrivilegedFailure,
>)
    ensures
        r is Ok <==> status == (CommandStatus::Exited { success: true }),
        r matches Err(f) ==> f.command@ == joined(privileged(views(command@))) && f.started == (
        status != CommandStatus::NotStarted),
{
    match status {
        CommandStatus::Exited { success: true } => Ok(()),
        _ => {
            let argv = sudo_argv(command);
            Err(
                PrivilegedFailure {
                    command: join_words(&argv),
                    started: !matches!(status, CommandStatus::NotStarted),
                },
            )
        },
    }
}

} // verus!
