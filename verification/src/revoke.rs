use vstd::prelude::*;

verus! {

/// The platform-level revocation handle for an in-flight transfer.
/// Firing it (or dropping it) makes the valved download stream end at once,
/// which the upload consumer observes as a failed read.
#[verifier::external_type_specification]
#[verifier::external_body]
pub struct ExTrigger(stream_cancel::Trigger);

/// Relies on stream_cancel::Trigger::cancel: consuming the trigger makes the
/// streams tied to it yield no further items. Firing is one-shot by
/// construction (the trigger is consumed) and harmless after the stream has
/// already finished.
#[verifier::external_body]
pub(crate) fn fire_trigger(t: stream_cancel::Trigger) {
    t.cancel();
}

/// The condition a consumer observes when it reads a revoked source.
#[derive(Clone, Copy, Debug, PartialEq, Eq, Structural)]
pub struct Cancelled;

/// A finite byte source paired with a revocation flag: the pass-through model
/// of the cancellable transfer. Every read checks the flag first; once the
/// flag is set, no byte is ever delivered again, whether the chunk was
/// already in flight or requested later.
pub struct RevocableSource {
    /// Set once by `revoke`; never cleared.
    pub revoked: bool,
    /// Cumulative bytes handed to the consumer so far.
    pub delivered: u64,
}

/// The state `revoke` leaves behind: the flag set, everything else untouched.
pub open spec fn revoked_state(s: RevocableSource) -> RevocableSource {
    (RevocableSource { revoked: true, ..s })
}

/// Byte count of one read's payload: the chunk's length, or 0 at end of stream.
pub open spec fn chunk_len(chunk: Option<Vec<u8>>) -> nat {
    match chunk {
        Some(v) => v@.len(),
        None => 0,
    }
}

impl RevocableSource {
    /// A fresh, unrevoked source that has delivered nothing.
    pub fn new() -> (s: RevocableSource)
        ensures
            s.revoked == false,
            s.delivered == 0,
    {
        RevocableSource { revoked: false, delivered: 0 }
    }

    /// Revokes the source. Idempotent: the resulting state does not depend
    /// on how often this has been called before.
    pub fn revoke(&mut self)
        ensures
            *final(self) == revoked_state(*old(self)),
    {
        self.revoked = true;
    }

    /// One read step. `chunk` is what the wrapped source produced (`None`
    /// at end of stream). After revocation every read fails with `Cancelled`
    /// and delivers nothing; before it, the source is pass-through: the
    /// chunk comes back exactly as produced, in order, and the counter grows
    /// by its length.
    pub fn read(&mut self, chunk: Option<Vec<u8>>) -> (r: Result<Option<Vec<u8>>, Cancelled>)
        requires
            !old(self).revoked ==> old(self).delivered + chunk_len(chunk) <= u64::MAX,
        ensures
            old(self).revoked ==> r is Err && *final(self) == *old(self),
            !old(self).revoked ==> r == Result::<Option<Vec<u8>>, Cancelled>::Ok(chunk)
                && final(self).revoked == false
                && final(self).delivered == old(self).delivered + chunk_len(chunk),
    {
        if self.revoked {
            Err(Cancelled)
        } else {
            let add: u64 = match &chunk {
                Some(v) => v.len() as u64,
                None => 0u64,
            };
            self.delivered = self.delivered + add;
            Ok(chunk)
        }
    }
}

/// Law: firing a revocation handle exactly once or many times leaves the
/// source in the same state; together with `read`'s contract, any read
/// issued after (or pending across) the firing fails with `Cancelled`.
pub proof fn lemma_revoke_idempotent(s: RevocableSource)
    ensures
        revoked_state(revoked_state(s)) == revoked_state(s),
{
}

} // verus!
