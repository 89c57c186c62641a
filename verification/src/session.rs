use vstd::prelude::*;
use crate::guard::ConversationGuard;
use crate::resource::{attachment_kind, display_name_of, is_mp4_name, name_from_path, AttachmentKind};
use crate::{validate_length, ValidateError, MAX_TRANSFER_BYTES};

verus! {

/// Where one transfer stands in its life.
#[derive(Clone, Copy, Debug, PartialEq, Eq, Structural)]
pub enum SessionPhase {
    /// The conversation's lock is held; the stream is not yet revocable.
    Guarded,
    /// The stream is wired up and bytes are moving.
    Transferring,
    /// The upload finished and the conversation's lock is free again.
    Done,
    /// The initiator revoked the stream; the lock is free again.
    Cancelled,
    /// Something else went wrong; the lock is free again.
    Failed,
}

/// Why a transfer never started. The resource is vetted before the guard is
/// touched, so a refused resource leaves no registry trace at all.
#[derive(Clone, Copy, Debug, PartialEq, Eq, Structural)]
pub enum StartRefusal {
    /// The resource reported no bytes (or no readable length).
    Empty,
    /// The resource reported more bytes than `MAX_TRANSFER_BYTES`.
    TooLarge,
    /// Another transfer is already running in this conversation.
    Busy,
}

/// Whether a declared content length lets a transfer start.
pub open spec fn accepted_length(declared: Option<u64>) -> bool {
    match declared {
        Some(n) => 0 < n <= MAX_TRANSFER_BYTES,
        None => false,
    }
}

/// The refusal a rejected length earns.
pub open spec fn length_refusal(declared: Option<u64>) -> StartRefusal {
    match declared {
        None => StartRefusal::Empty,
        Some(n) => if n == 0 {
            StartRefusal::Empty
        } else {
            StartRefusal::TooLarge
        },
    }
}

/// One end-to-end transfer: its conversation, its initiator, the vetted
/// byte count, the derived display name, and where it stands.
pub struct TransferSession {
    pub chat: i64,
    pub initiator: i64,
    pub total: u64,
    pub name: Vec<u8>,
    pub phase: SessionPhase,
}

/// Starts a transfer: vet the declared length first — a refused resource
/// returns before the guard is even consulted — then take the
/// conversation's lock for the initiator. Busy conversations refuse without
/// any mutation. On success the session is `Guarded`, with the display name
/// derived from the resource's path.
pub fn begin(
    g: &mut ConversationGuard,
    chat: i64,
    initiator: i64,
    declared: Option<u64>,
    path: &Vec<u8>,
) -> (r: Result<TransferSession, StartRefusal>)
    requires
        old(g).wf(),
    ensures
        final(g).wf(),
        !accepted_length(declared) ==> r
            == Result::<TransferSession, StartRefusal>::Err(length_refusal(declared))
            && final(g).held() == old(g).held()
            && final(g).owners() == old(g).owners()
            && final(g).revocable() == old(g).revocable(),
        accepted_length(declared) && old(g).held().contains(chat) ==> r
            == Result::<TransferSession, StartRefusal>::Err(StartRefusal::Busy)
            && final(g).held() == old(g).held()
            && final(g).owners() == old(g).owners()
            && final(g).revocable() == old(g).revocable(),
        accepted_length(declared) && !old(g).held().contains(chat) ==> (r matches Ok(s)
            && s.chat == chat && s.initiator == initiator && Some(s.total) == declared
            && s.name@ == display_name_of(path@) && s.phase == SessionPhase::Guarded)
            && final(g).held() == old(g).held().insert(chat)
            && final(g).owners() == old(g).owners().insert(chat, initiator)
            && final(g).revocable() == old(g).revocable(),
{
    let total = match validate_length(declared) {
        Ok(n) => n,
        Err(ValidateError::Empty) => {
            return Err(StartRefusal::Empty);
        }
        Err(ValidateError::TooLarge) => {
            return Err(StartRefusal::TooLarge);
        }
    };
    if !g.try_acquire(chat, initiator) {
        return Err(StartRefusal::Busy);
    }
    let name = name_from_path(path);
    Ok(TransferSession { chat, initiator, total, name, phase: SessionPhase::Guarded })
}

impl TransferSession {
    /// Wires the stream's revocation handle into the registry: from here a
    /// cancel request can revoke the stream, and the session is transferring.
    pub fn arm(&mut self, g: &mut ConversationGuard, handle: stream_cancel::Trigger)
        requires
            old(g).wf(),
            old(self).phase == SessionPhase::Guarded,
            old(g).held().contains(old(self).chat),
            !old(g).revocable().contains(old(self).chat),
        ensures
            final(g).wf(),
            final(self).phase == SessionPhase::Transferring,
            final(self).chat == old(self).chat,
            final(self).initiator == old(self).initiator,
            final(self).total == old(self).total,
            final(self).name == old(self).name,
            final(g).held() == old(g).held(),
            final(g).owners() == old(g).owners(),
            final(g).revocable() == old(g).revocable().insert(old(self).chat),
    {
        g.register_handle(self.chat, handle);
        self.phase = SessionPhase::Transferring;
    }

    /// Finalizes a successful upload: picks the attachment kind from the
    /// display name (video exactly for `.mp4`, any casing) and releases the
    /// conversation for the next transfer.
    pub fn complete(&mut self, g: &mut ConversationGuard) -> (kind: AttachmentKind)
        requires
            old(g).wf(),
            old(self).phase == SessionPhase::Transferring,
        ensures
            final(g).wf(),
            final(self).phase == SessionPhase::Done,
            final(self).name == old(self).name,
            kind == (if is_mp4_name(old(self).name@) {
                AttachmentKind::Video
            } else {
                AttachmentKind::Document
            }),
            final(g).held() == old(g).held().remove(old(self).chat),
            final(g).owners() == old(g).owners().remove(old(self).chat),
            final(g).revocable() == old(g).revocable().remove(old(self).chat),
    {
        let kind = attachment_kind(&self.name);
        g.release(self.chat);
        self.phase = SessionPhase::Done;
        kind
    }

    /// Ends a transfer whose stream was revoked: the status edit is the
    /// cancel handler's business; here the conversation is only released.
    pub fn cancelled(&mut self, g: &mut ConversationGuard)
        requires
            old(g).wf(),
            old(self).phase == SessionPhase::Transferring,
        ensures
            final(g).wf(),
            final(self).phase == SessionPhase::Cancelled,
            final(g).held() == old(g).held().remove(old(self).chat),
            final(g).owners() == old(g).owners().remove(old(self).chat),
            final(g).revocable() == old(g).revocable().remove(old(self).chat),
    {
        g.release(self.chat);
        self.phase = SessionPhase::Cancelled;
    }

    /// Ends a transfer on any other error, on whichever step it struck: the
    /// conversation is released unconditionally.
    pub fn fail(&mut self, g: &mut ConversationGuard)
        requires
            old(g).wf(),
            old(self).phase == SessionPhase::Guarded || old(self).phase
                == SessionPhase::Transferring,
        ensures
            final(g).wf(),
            final(self).phase == SessionPhase::Failed,
            final(g).held() == old(g).held().remove(old(self).chat),
            final(g).owners() == old(g).owners().remove(old(self).chat),
            final(g).revocable() == old(g).revocable().remove(old(self).chat),
    {
        g.release(self.chat);
        self.phase = SessionPhase::Failed;
    }
}

/// Law: a conversation released by one finished transfer can be acquired
/// again at once — two transfers back to back, without overlap, both go
/// through.
pub proof fn lemma_reacquire_after_release(held: Set<i64>, chat: i64)
    ensures
        !held.remove(chat).contains(chat),
{
}

} // verus!
