//! Client-side addressing and flow-control state consumed when building a
//! frame header.
use vstd::prelude::*;

verus! {

/// Per-session request state: addressing, flags and the sequence counter.
///
/// `tagged` selects broadcast addressing (the `target` field is then ignored
/// by devices), `source` is a client-chosen session identifier echoed back in
/// replies, `target` is a device serial left-justified in 6 bytes followed by
/// two zero bytes (all zeros to broadcast), and `ack_required` /
/// `res_required` ask the device for an acknowledgement or a state reply.
/// `sequence` disambiguates in-flight requests and wraps at 255.
///
/// Devices are known to misbehave when `source` is 0 or 1; that is a caller
/// responsibility, not an enforced invariant.
#[derive(Debug, Clone, PartialEq, Eq)]
pub struct LifxRequestOptions {
    pub tagged: bool,
    pub source: u32,
    pub target: [u8; 8],
    pub ack_required: bool,
    pub res_required: bool,
    pub sequence: u8,
}

impl LifxRequestOptions {
    /// A fresh session: unicast, no flags, sequence 0, and a fixed non-zero,
    /// non-one source identifier.
    pub fn default() -> (r: LifxRequestOptions)
        ensures
            !r.tagged,
            r.source == 1234567890u32,
            r.target@ =~= Seq::new(8, |i: int| 0u8),
            !r.ack_required,
            !r.res_required,
            r.sequence == 0,
    {
        LifxRequestOptions {
            tagged: false,
            source: 1234567890,
            target: [0; 8],
            res_required: false,
            ack_required: false,
            sequence: 0,
        }
    }

    /// Advance the sequence counter, wrapping from 255 back to 0.
    pub fn increment_sequence(&mut self)
        ensures
            final(self).sequence == if old(self).sequence == 255 {
                0u8
            } else {
                (old(self).sequence + 1) as u8
            },
            final(self).tagged == old(self).tagged,
            final(self).source == old(self).source,
            final(self).target == old(self).target,
            final(self).ack_required == old(self).ack_required,
            final(self).res_required == old(self).res_required,
    {
        self.sequence = self.sequence.wrapping_add(1);
    }
}

} // verus!
