//! The data the handshake works on: identities, credentials, the inbound
//! messages the coordinator distinguishes, and the commands it hands back
//! to the transport.

use vstd::prelude::*;

verus! {

/// The identity presented by a connecting client, as derived from the
/// connection's startup metadata: a username and, optionally, a target
/// database.
pub struct Identity {
    pub user: Option<String>,
    pub database: Option<String>,
}

/// A credential returned by the credential source for an identity: the
/// challenge salt — mandatory for the salted-password scheme — and the
/// expected secret the client must prove knowledge of.
pub struct Credential {
    pub salt: Option<Vec<u8>>,
    pub secret: Vec<u8>,
}

/// A structured rejection sent to the client before the connection is
/// closed: a severity, a standardized error code, and a human-readable
/// message.
pub struct Rejection {
    pub severity: String,
    pub code: String,
    pub message: String,
}

/// The inbound message kinds the handshake phase distinguishes. Anything
/// that is neither a startup message nor a password response is `Other`.
pub enum FrontendMessage {
    /// The client's opening message, carrying its startup parameters as
    /// key-value pairs.
    Startup(Vec<(String, String)>),
    /// The client's answer to the salted-password challenge: the raw bytes
    /// of the presented secret.
    PasswordResponse(Vec<u8>),
    /// Any other message kind; ignored during the handshake.
    Other,
}

/// The authentication state of one connection. The transport layer owns
/// it; the coordinator only requests transitions.
#[derive(Clone, Copy, Debug, PartialEq, Eq, Structural)]
pub enum ConnState {
    Idle,
    AwaitingPassword,
    Authenticated,
    Rejected,
}

/// What the transport must do next, decided by the coordinator from one
/// inbound message or one fetched credential.
pub enum Command {
    /// Do nothing; the message is ignored for forward compatibility.
    Ignore,
    /// Persist these startup parameters in the connection's metadata
    /// store, move the connection to `AwaitingPassword`, and fetch the
    /// credential for the connection's identity.
    BeginAuthentication(Vec<(String, String)>),
    /// Send the salted-password challenge carrying this salt.
    SendChallenge(Vec<u8>),
    /// The credential source broke its contract: the credential has no
    /// salt. Abort the task; send nothing to the client.
    AbortMissingSalt,
    /// Authentication succeeded: have the parameter supplier send the
    /// session parameters and the authentication-complete message.
    FinishSession,
    /// Authentication failed: send this rejection, flush it, then close
    /// the connection.
    RejectAndClose(Rejection),
}

/// The one username allowed to authenticate, checked in addition to the
/// password proof itself.
pub open spec fn superuser_name() -> Seq<char> {
    "postgres"@
}

/// A password response is accepted exactly when the presented bytes equal
/// the expected secret held in the pending slot and the identity's
/// username is the required superuser name.
pub open spec fn accepts(slot: Seq<u8>, presented: Seq<u8>, user: Option<String>) -> bool {
    &&& presented == slot
    &&& user matches Some(u) && u@ == superuser_name()
}

/// The fixed rejection reported for a failed password check: severity
/// `FATAL`, the standard invalid-password code `28P01`, and a
/// human-readable message.
pub open spec fn is_invalid_password_rejection(r: Rejection) -> bool {
    &&& r.severity@ == "FATAL"@
    &&& r.code@ == "28P01"@
    &&& r.message@ == "Password authentication failed"@
}

/// Builds the fixed invalid-password rejection.
pub fn invalid_password_rejection() -> (r: Rejection)
    ensures
        is_invalid_password_rejection(r),
{
    Rejection {
        severity: "FATAL".to_owned(),
        code: "28P01".to_owned(),
        message: "Password authentication failed".to_owned(),
    }
}

} // verus!
