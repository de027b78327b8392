//! The handshake coordinator: one step function per kind of event — an
//! inbound message, or a credential returned by the credential source —
//! each returning the command the transport must carry out next.

use vstd::prelude::*;

use crate::protocol::{
    accepts, invalid_password_rejection, is_invalid_password_rejection, superuser_name, Command,
    ConnState, Credential, FrontendMessage, Identity,
};

verus! {

/// One handler instance. Its only state is the pending-secret slot: the
/// expected secret most recently fetched from the credential source,
/// written when a startup message is processed and read when the password
/// response arrives. The slot belongs to the instance, not to a single
/// connection: when one instance serves several connections, they share
/// it (see [`crate::laws::lemma_interleaved_startups_overwrite_slot`]).
pub struct HandshakeCoordinator {
    pub pending_secret: Vec<u8>,
}

/// What the coordinator commands for one inbound message, given the
/// pending slot and the connection's identity: a startup message begins
/// authentication (fetch the credential; nothing is sent yet), a password
/// response is either accepted or answered with the fixed
/// invalid-password rejection, and anything else is ignored.
pub open spec fn message_command_ok(
    slot: Seq<u8>,
    user: Option<String>,
    message: FrontendMessage,
    c: Command,
) -> bool {
    match message {
        FrontendMessage::Startup(params) => c == Command::BeginAuthentication(params),
        FrontendMessage::PasswordResponse(presented) => {
            if accepts(slot, presented@, user) {
                c == Command::FinishSession
            } else {
                c matches Command::RejectAndClose(r) && is_invalid_password_rejection(r)
            }
        },
        FrontendMessage::Other => c == Command::Ignore,
    }
}

/// What the coordinator commands for one fetched credential: a credential
/// with a salt yields the challenge carrying exactly that salt; one
/// without a salt is a contract violation and yields an abort, with no
/// challenge sent.
pub open spec fn credential_command_ok(credential: Credential, c: Command) -> bool {
    match credential.salt {
        Some(salt) => c == Command::SendChallenge(salt),
        None => c == Command::AbortMissingSalt,
    }
}

/// The pending slot after a credential has been processed: a credential
/// with a salt overwrites the slot with its expected secret; one without
/// a salt leaves the slot untouched.
pub open spec fn slot_after_credential(slot: Seq<u8>, credential: Credential) -> Seq<u8> {
    match credential.salt {
        Some(_) => credential.secret@,
        None => slot,
    }
}

/// The connection-state transition a command asks of the transport.
/// Beginning authentication awaits the password; finishing the session
/// and rejecting are the two terminal outcomes; every other command
/// leaves the state alone.
pub open spec fn requested_state(state: ConnState, c: Command) -> ConnState {
    match c {
        Command::BeginAuthentication(_) => ConnState::AwaitingPassword,
        Command::FinishSession => ConnState::Authenticated,
        Command::RejectAndClose(_) => ConnState::Rejected,
        Command::Ignore => state,
        Command::SendChallenge(_) => state,
        Command::AbortMissingSalt => state,
    }
}

/// Exact byte equality of two byte sequences, the comparison the password
/// check rests on.
pub fn bytes_equal(a: &Vec<u8>, b: &Vec<u8>) -> (r: bool)
    ensures
        r == (a@ == b@),
{
    if a.len() != b.len() {
        return false;
    }
    let mut i: usize = 0;
    while i < a.len()
        invariant
            i <= a@.len(),
            a@.len() == b@.len(),
            forall|j: int| 0 <= j < i ==> a@[j] == b@[j],
        decreases a@.len() - i,
    {
        if a[i] != b[i] {
            return false;
        }
        i += 1;
    }
    proof {
        assert(a@ =~= b@);
    }
    true
}

/// Whether the identity's username is exactly the required superuser
/// name.
pub fn is_superuser(user: &Option<String>) -> (r: bool)
    ensures
        r == (user matches Some(u) && u@ == superuser_name()),
{
    match user {
        Some(u) => {
            let required: String = "postgres".to_owned();
            *u == required
        },
        None => false,
    }
}

impl HandshakeCoordinator {
    /// A fresh handler instance; the pending slot starts empty.
    pub fn new() -> (coordinator: Self)
        ensures
            coordinator.pending_secret@ == Seq::<u8>::empty(),
    {
        HandshakeCoordinator { pending_secret: Vec::new() }
    }

    /// Decides what to do with one inbound message.
    ///
    /// A startup message commands the transport to persist the startup
    /// parameters, move to `AwaitingPassword`, and fetch the credential
    /// for the connection's identity — no outbound message is commanded
    /// until that credential comes back through
    /// [`Self::on_credential`]. A password response is checked against
    /// the pending slot: it is accepted exactly when its bytes equal the
    /// stored expected secret and the username is the superuser name;
    /// otherwise the fixed invalid-password rejection is sent and the
    /// connection closed. Any other message is ignored.
    pub fn on_message(&self, identity: &Identity, message: FrontendMessage) -> (c: Command)
        ensures
            message_command_ok(self.pending_secret@, identity.user, message, c),
    {
        match message {
            FrontendMessage::Startup(params) => Command::BeginAuthentication(params),
            FrontendMessage::PasswordResponse(presented) => {
                if bytes_equal(&presented, &self.pending_secret) && is_superuser(&identity.user) {
                    Command::FinishSession
                } else {
                    Command::RejectAndClose(invalid_password_rejection())
                }
            },
            FrontendMessage::Other => Command::Ignore,
        }
    }

    /// Takes the credential the credential source returned for the
    /// pending startup.
    ///
    /// When the credential carries its mandatory salt, the expected
    /// secret is stored into the pending slot — overwriting whatever was
    /// there — and the transport is commanded to send the challenge
    /// carrying exactly that salt. A credential without a salt is a
    /// contract violation of the credential source: the slot is left
    /// untouched, no challenge is sent, and the transport must abort the
    /// task.
    pub fn on_credential(&mut self, credential: Credential) -> (c: Command)
        ensures
            credential_command_ok(credential, c),
            final(self).pending_secret@ == slot_after_credential(
                old(self).pending_secret@,
                credential,
            ),
    {
        match credential.salt {
            Some(salt) => {
                self.pending_secret = credential.secret;
                Command::SendChallenge(salt)
            },
            None => Command::AbortMissingSalt,
        }
    }
}

/// The connection-state transition a command requests; the executable
/// counterpart of [`requested_state`], for the transport to apply.
pub fn next_state(state: ConnState, c: &Command) -> (s: ConnState)
    ensures
        s == requested_state(state, *c),
{
    match c {
        Command::BeginAuthentication(_) => ConnState::AwaitingPassword,
        Command::FinishSession => ConnState::Authenticated,
        Command::RejectAndClose(_) => ConnState::Rejected,
        Command::Ignore => state,
        Command::SendChallenge(_) => state,
        Command::AbortMissingSalt => state,
    }
}

} // verus!
