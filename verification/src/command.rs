use vstd::prelude::*;
use bytes::Bytes;

verus! {

/// Relies on bytes::Bytes as the remote store's value payload: an opaque,
/// cheaply shareable byte buffer. This core only moves such values between a
/// caller, the mailbox and a response channel; it never reads inside one.
#[verifier::external_type_specification]
#[verifier::external_body]
pub struct ExBytes(Bytes);

/// Identifies the response slot paired with one command: the sender half
/// travels with the command into the mailbox, the issuing caller keeps the
/// receiver half under the same identifier.
pub type SlotId = usize;

/// A failure reported by the remote collaborator. It is propagated unchanged
/// through the response channel to the original caller as a normal outcome
/// value, never thrown as a fault of this core.
#[derive(Debug)]
pub struct RemoteError {
    pub detail: String,
}

/// Which of the two remote operations a command asks for.
#[derive(Clone, Copy, PartialEq, Eq, Structural)]
pub enum OpKind {
    Get,
    Put,
}

/// A request to the connection actor: fetch the value under a key, or put
/// a value under a key. Each command carries exactly one
/// response-slot identifier; ownership of that sender endpoint moves with
/// the command into the mailbox, and the actor consumes the command once.
pub enum Command {
    Get { key: String, resp: SlotId },
    Put { key: String, val: Bytes, resp: SlotId },
}

/// The remote operation the actor performs for one command, handed to the
/// owner of the connection.
pub enum RemoteOp {
    Get { key: String },
    Put { key: String, val: Bytes },
}

/// The outcome the actor sends back on a command's response channel: the
/// remote result of a `Get` or of a `Put`.
#[derive(Debug)]
pub enum Response {
    Got(Result<Option<Bytes>, RemoteError>),
    Did(Result<(), RemoteError>),
}

impl Command {
    /// The response slot paired with this command.
    pub open spec fn resp_slot(self) -> SlotId {
        match self {
            Command::Get { resp, .. } => resp,
            Command::Put { resp, .. } => resp,
        }
    }

    /// The kind of remote operation this command asks for.
    pub open spec fn kind(self) -> OpKind {
        match self {
            Command::Get { .. } => OpKind::Get,
            Command::Put { .. } => OpKind::Put,
        }
    }

    /// The remote operation this command dispatches to, key and value moved
    /// out unchanged.
    pub open spec fn remote_op(self) -> RemoteOp {
        match self {
            Command::Get { key, .. } => RemoteOp::Get { key },
            Command::Put { key, val, .. } => RemoteOp::Put { key, val },
        }
    }
}

impl Response {
    /// The kind of command this response answers.
    pub open spec fn kind(self) -> OpKind {
        match self {
            Response::Got(_) => OpKind::Get,
            Response::Did(_) => OpKind::Put,
        }
    }
}

} // verus!
