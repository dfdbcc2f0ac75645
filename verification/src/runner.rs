//! The boundary to the `testcontainers` crate: the two types of it that a
//! descriptor hands to the runner, and the calls that make values of them.
//! Nothing in this file is proved. Each contract gives the result of the call
//! a name, so that the descriptor can say exactly which values it hands out.

use vstd::prelude::*;

verus! {

/// `testcontainers::core::WaitFor`: a condition that the runner waits for
/// before it calls a container ready. Verified code only passes it on.
#[verifier::external_type_specification]
#[verifier::external_body]
pub struct ExWaitFor(testcontainers::core::WaitFor);

/// `testcontainers::core::ContainerPort`: a port number together with its
/// protocol. Verified code only passes it on.
#[verifier::external_type_specification]
#[verifier::external_body]
pub struct ExContainerPort(testcontainers::core::ContainerPort);

/// The condition that `WaitFor::message_on_stdout` returns for `message`: to
/// wait until the message has appeared once on the container's standard
/// output.
pub uninterp spec fn stdout_message(message: Seq<char>) -> testcontainers::core::WaitFor;

/// The port that `ContainerPort::Tcp` makes of `number`: that number, with
/// TCP as its protocol.
pub uninterp spec fn tcp_port(number: u16) -> testcontainers::core::ContainerPort;

/// Calls `WaitFor::message_on_stdout`. That function copies the bytes of the
/// message into a log-wait strategy on the standard output, asking for one
/// occurrence, and wraps it in `WaitFor::Log`; it reads nothing but its
/// argument. The contract claims that much: the result is determined by the
/// message.
#[verifier::external_body]
pub(crate) fn wait_for_message_on_stdout(
    message: &str,
) -> (condition: testcontainers::core::WaitFor)
    ensures
        condition == stdout_message(message@),
{
    testcontainers::core::WaitFor::message_on_stdout(message)
}

/// Builds `ContainerPort::Tcp(number)`, a variant of an enum that holds the
/// number and nothing else. The contract claims that the result is determined
/// by the number.
#[verifier::external_body]
pub(crate) fn tcp(number: u16) -> (port: testcontainers::core::ContainerPort)
    ensures
        port == tcp_port(number),
{
    testcontainers::core::ContainerPort::Tcp(number)
}

} // verus!
