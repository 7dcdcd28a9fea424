//! Dispatch: turning a detected change event into an encrypted wire
//! envelope for the transport, subject to the auto-send policy and the
//! presence of an established cluster key.
use vstd::prelude::*;

use crate::crypto::{self, sealed_payload, CryptoError, AEAD_PT_LIMIT};
use crate::event::ChangeEvent;
use crate::wire::{encode_envelope, encode_payload, envelope_bytes, payload_bytes};

verus! {

/// The read-only policy flags this engine consumes; they are mutated only
/// through the toggles below, by collaborators outside this core.
pub struct Settings {
    pub auto_send: bool,
    pub auto_receive: bool,
    pub notify_data_sent: bool,
}

impl Settings {
    /// Flips the auto-send flag and returns its new value; nothing else
    /// changes.
    pub fn toggle_auto_send(&mut self) -> (r: bool)
        ensures
            final(self).auto_send == !old(self).auto_send,
            final(self).auto_receive == old(self).auto_receive,
            final(self).notify_data_sent == old(self).notify_data_sent,
            r == final(self).auto_send,
    {
        self.auto_send = !self.auto_send;
        self.auto_send
    }

    /// Flips the auto-receive flag and returns its new value; nothing else
    /// changes.
    pub fn toggle_auto_receive(&mut self) -> (r: bool)
        ensures
            final(self).auto_receive == !old(self).auto_receive,
            final(self).auto_send == old(self).auto_send,
            final(self).notify_data_sent == old(self).notify_data_sent,
            r == final(self).auto_receive,
    {
        self.auto_receive = !self.auto_receive;
        self.auto_receive
    }

    /// The pair of policy flags, for state queries.
    pub fn get_state(&self) -> (r: (bool, bool))
        ensures
            r.0 == self.auto_send,
            r.1 == self.auto_receive,
    {
        (self.auto_send, self.auto_receive)
    }
}

/// Which one-line notification describes a completed broadcast: file
/// metadata was sent, or full text was sent.
#[derive(Clone, Copy, Debug, PartialEq, Eq, Structural)]
pub enum NoticeKind {
    TextSent,
    FilesSent,
}

/// Why a dispatch produced no network traffic.
#[derive(Clone, Copy, Debug, PartialEq, Eq, Structural)]
pub enum SkipReason {
    /// The auto-send policy flag is off.
    AutoSendOff,
    /// No cluster key is established, or the stored key is not exactly 32
    /// bytes: dispatch requires a completed pairing.
    MissingKey,
    /// The serialized event exceeds what the cipher can seal in one call.
    PayloadTooLarge,
}

/// What a dispatch decided. The local emit of the event is unconditional
/// and happens before this decision; only `Broadcast` results in traffic.
pub enum DispatchOutcome {
    /// Nothing goes on the wire, for the given reason.
    Skipped(SkipReason),
    /// The envelope bytes to hand to the transport for every known peer,
    /// and the notification to surface, if any.
    Broadcast(Vec<u8>, Option<NoticeKind>),
}

/// The cluster key is present and has exactly the required length.
pub open spec fn usable_key(key: Option<&Vec<u8>>) -> bool {
    key matches Some(k) && k@.len() == 32
}

/// Fixes a 32-byte key blob into the key array the cipher takes.
fn key_array_from(bytes: &Vec<u8>) -> (r: [u8; 32])
    requires
        bytes@.len() == 32,
    ensures
        r@ == bytes@,
{
    let mut k: [u8; 32] = [0u8; 32];
    let mut i: usize = 0;
    while i < 32
        invariant
            bytes@.len() == 32,
            i <= 32,
            forall|j: int| 0 <= j < i ==> k@[j] == bytes@[j],
        decreases 32 - i,
    {
        k[i] = bytes[i];
        i = i + 1;
    }
    proof {
        assert(k@ =~= bytes@);
    }
    k
}

/// Decides one dispatch: with auto-send off nothing is sent; without a
/// usable 32-byte cluster key nothing is sent; otherwise the event is
/// serialized, encrypted under the key with a fresh nonce, and wrapped in
/// the clipboard envelope, and a notification is surfaced exactly when
/// peers exist and the data-sent preference is on, naming files or text by
/// what the event carries.
pub fn dispatch(
    event: &ChangeEvent,
    auto_send: bool,
    cluster_key: Option<&Vec<u8>>,
    has_peers: bool,
    notify_data_sent: bool,
) -> (r: DispatchOutcome)
    ensures
        !auto_send ==> r == DispatchOutcome::Skipped(SkipReason::AutoSendOff),
        auto_send && !usable_key(cluster_key) ==> r == DispatchOutcome::Skipped(
            SkipReason::MissingKey,
        ),
        auto_send && usable_key(cluster_key) && payload_bytes(event@).len() > AEAD_PT_LIMIT ==> r
            == DispatchOutcome::Skipped(SkipReason::PayloadTooLarge),
        auto_send && usable_key(cluster_key) && payload_bytes(event@).len() <= AEAD_PT_LIMIT ==> (
        r matches DispatchOutcome::Broadcast(data, notice) && (exists|sealed: Seq<u8>|
            sealed_payload(cluster_key.unwrap()@, payload_bytes(event@), sealed) && data@
                == envelope_bytes(sealed)) && notice == (if has_peers && notify_data_sent {
            if event@.files is Some {
                Option::Some(NoticeKind::FilesSent)
            } else {
                Option::Some(NoticeKind::TextSent)
            }
        } else {
            Option::<NoticeKind>::None
        })),
{
    if !auto_send {
        return DispatchOutcome::Skipped(SkipReason::AutoSendOff);
    }
    let key_vec = match cluster_key {
        Option::Some(k) => k,
        Option::None => {
            return DispatchOutcome::Skipped(SkipReason::MissingKey);
        },
    };
    if key_vec.len() != 32 {
        return DispatchOutcome::Skipped(SkipReason::MissingKey);
    }
    let key = key_array_from(key_vec);
    let payload = encode_payload(event);
    let sealed = match crypto::encrypt(&key, payload.as_slice()) {
        Ok(c) => c,
        Err(_) => {
            return DispatchOutcome::Skipped(SkipReason::PayloadTooLarge);
        },
    };
    let data = encode_envelope(&sealed);
    let notice: Option<NoticeKind> = if has_peers && notify_data_sent {
        match &event.files {
            Option::Some(_) => Option::Some(NoticeKind::FilesSent),
            Option::None => Option::Some(NoticeKind::TextSent),
        }
    } else {
        Option::None
    };
    DispatchOutcome::Broadcast(data, notice)
}

} // verus!
