//! The guarantees of the handshake, stated once, in one place, over the
//! same spec functions the step functions' contracts use.

use vstd::prelude::*;

use crate::coordinator::{
    credential_command_ok, message_command_ok, requested_state, slot_after_credential,
};
use crate::protocol::{
    accepts, is_invalid_password_rejection, superuser_name, Command, ConnState, Credential,
    FrontendMessage,
};

verus! {

/// A startup message commands one credential fetch and nothing outbound;
/// the challenge is commanded only once the credential has come back, and
/// it carries exactly the salt the credential source returned.
pub proof fn lemma_challenge_salt_from_credential_source(
    slot: Seq<u8>,
    user: Option<String>,
    params: Vec<(String, String)>,
    c_startup: Command,
    credential: Credential,
    c_credential: Command,
)
    requires
        message_command_ok(slot, user, FrontendMessage::Startup(params), c_startup),
        credential_command_ok(credential, c_credential),
        credential.salt is Some,
    ensures
        c_startup == Command::BeginAuthentication(params),
        credential.salt matches Some(salt) ==> c_credential == Command::SendChallenge(salt),
{
}

/// A credential whose salt is absent makes the coordinator fail fast: the
/// command is an abort, not a challenge and not a client-visible
/// rejection, and the pending slot is left as it was.
pub proof fn lemma_missing_salt_aborts(slot: Seq<u8>, credential: Credential, c: Command)
    requires
        credential_command_ok(credential, c),
        credential.salt is None,
    ensures
        c == Command::AbortMissingSalt,
        slot_after_credential(slot, credential) == slot,
{
}

/// A password response whose bytes equal the stored expected secret, from
/// an identity whose username is the superuser name, authenticates: the
/// one command is to have the parameter supplier finish the session.
pub proof fn lemma_matching_password_authenticates(
    slot: Seq<u8>,
    user: Option<String>,
    presented: Vec<u8>,
    c: Command,
)
    requires
        message_command_ok(slot, user, FrontendMessage::PasswordResponse(presented), c),
        presented@ == slot,
        user matches Some(u) && u@ == superuser_name(),
    ensures
        c == Command::FinishSession,
{
}

/// A password response whose bytes differ from the stored secret, or
/// whose username is not the superuser name, is rejected: the one command
/// is to send the fixed invalid-password rejection and close, and the
/// parameter supplier is never invoked.
pub proof fn lemma_failed_check_rejects(
    slot: Seq<u8>,
    user: Option<String>,
    presented: Vec<u8>,
    c: Command,
)
    requires
        message_command_ok(slot, user, FrontendMessage::PasswordResponse(presented), c),
        !accepts(slot, presented@, user),
    ensures
        c matches Command::RejectAndClose(r) && is_invalid_password_rejection(r),
        c != Command::FinishSession,
{
}

/// An unrelated message during the handshake commands nothing outbound
/// and requests no state transition: the connection stays where it was.
pub proof fn lemma_unrelated_message_ignored(
    slot: Seq<u8>,
    user: Option<String>,
    state: ConnState,
    c: Command,
)
    requires
        message_command_ok(slot, user, FrontendMessage::Other, c),
    ensures
        c == Command::Ignore,
        requested_state(state, c) == state,
{
}

/// The shared-slot hazard: when the startups of two connections served by
/// one handler instance interleave before either password response, the
/// second credential silently overwrites the first's expected secret —
/// after which the first connection's correct password no longer matches
/// the slot and is rejected, whatever identity presents it.
pub proof fn lemma_interleaved_startups_overwrite_slot(
    slot0: Seq<u8>,
    first: Credential,
    second: Credential,
    user: Option<String>,
)
    requires
        first.salt is Some,
        second.salt is Some,
    ensures
        slot_after_credential(slot_after_credential(slot0, first), second) == second.secret@,
        first.secret@ != second.secret@ ==> !accepts(
            slot_after_credential(slot_after_credential(slot0, first), second),
            first.secret@,
            user,
        ),
{
}

} // verus!
