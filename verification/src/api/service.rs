//! Which services a role needs started and stopped, and in what order.
//!
//! A device is either a server, which advertises and listens, or a client,
//! which browses and dials. The caller carries the commands out in order
//! and stops at the first that fails.

use vstd::prelude::*;
use crate::service::txt::str_eq;

verus! {

/// A command to one of the four services.
#[derive(Debug, Clone, Copy, PartialEq, Eq, Structural)]
pub enum ServiceCommand {
    StartMdnsServer,
    StartTcpServer,
    StartMdnsClient,
    StopMdnsClient,
    StopTcpClient,
    StopMdnsServer,
    StopTcpServer,
}

/// What starting as `service_type` takes: a server's advertiser and
/// listener for `server`, a client's browser for anything else.
pub open spec fn spec_start_service(service_type: Seq<char>) -> Seq<ServiceCommand> {
    if service_type == "server"@ {
        seq![ServiceCommand::StartMdnsServer, ServiceCommand::StartTcpServer]
    } else {
        seq![ServiceCommand::StartMdnsClient]
    }
}

/// What changing to `service_type` takes: the other role's services are
/// stopped first, then the new role's are started.
pub open spec fn spec_service_type_change(service_type: Seq<char>) -> Seq<ServiceCommand> {
    if service_type == "server"@ {
        seq![
            ServiceCommand::StopMdnsClient,
            ServiceCommand::StopTcpClient,
            ServiceCommand::StartMdnsServer,
            ServiceCommand::StartTcpServer,
        ]
    } else {
        seq![
            ServiceCommand::StopMdnsServer,
            ServiceCommand::StopTcpServer,
            ServiceCommand::StartMdnsClient,
        ]
    }
}

/// The commands that start the device as `service_type`.
pub fn start_service(service_type: &str) -> (commands: Vec<ServiceCommand>)
    ensures
        commands@ == spec_start_service(service_type@),
{
    let mut commands: Vec<ServiceCommand> = Vec::new();
    if str_eq(service_type, "server") {
        commands.push(ServiceCommand::StartMdnsServer);
        commands.push(ServiceCommand::StartTcpServer);
    } else {
        commands.push(ServiceCommand::StartMdnsClient);
    }
    assert(commands@ =~= spec_start_service(service_type@));
    commands
}

/// The commands that change the device's role to `service_type`.
pub fn handle_service_type_change(service_type: &str) -> (commands: Vec<ServiceCommand>)
    ensures
        commands@ == spec_service_type_change(service_type@),
{
    let mut commands: Vec<ServiceCommand> = Vec::new();
    if str_eq(service_type, "server") {
        commands.push(ServiceCommand::StopMdnsClient);
        commands.push(ServiceCommand::StopTcpClient);
        commands.push(ServiceCommand::StartMdnsServer);
        commands.push(ServiceCommand::StartTcpServer);
    } else {
        commands.push(ServiceCommand::StopMdnsServer);
        commands.push(ServiceCommand::StopTcpServer);
        commands.push(ServiceCommand::StartMdnsClient);
    }
    assert(commands@ =~= spec_service_type_change(service_type@));
    commands
}

} // verus!
