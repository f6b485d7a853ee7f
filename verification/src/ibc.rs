//! Cross-chain transfer lifecycle.
//!
//! A dispatched transfer is first recorded as pending under a locally
//! generated correlation id; once the host's reply supplies the assigned
//! sequence number, the record moves to the in-flight ledger keyed by
//! (channel, sequence) with status `Sent`.  A later callback moves the
//! status exactly once to a terminal value; failures and timeouts append
//! a recovery entry for the intended recipient.

use vstd::prelude::*;

use crate::state::ContractState;

verus! {

/// Lifecycle status of a dispatched cross-chain transfer.
#[derive(Debug, Clone, Copy, PartialEq, Eq, Structural)]
pub enum PacketLifecycleStatus {
    /// Dispatched; no callback observed yet.
    Sent,
    /// The counterparty acknowledged success.
    AckSuccess,
    /// The counterparty acknowledged failure.
    AckFailure,
    /// The transfer timed out before being received.
    TimedOut,
}

/// A transfer sent by the contract that is expected to be received but
/// is tracked in case the receive fails or times out.
pub struct IBCTransfer {
    pub recovery_addr: String,
    pub channel_id: String,
    pub sequence: u64,
    pub amount: u128,
    pub denom: String,
    pub status: PacketLifecycleStatus,
}

#[verifier::ext_equal]
pub struct IBCTransferV {
    pub recovery_addr: Seq<char>,
    pub channel_id: Seq<char>,
    pub sequence: u64,
    pub amount: u128,
    pub denom: Seq<char>,
    pub status: PacketLifecycleStatus,
}

impl View for IBCTransfer {
    type V = IBCTransferV;

    open spec fn view(&self) -> IBCTransferV {
        IBCTransferV {
            recovery_addr: self.recovery_addr@,
            channel_id: self.channel_id@,
            sequence: self.sequence,
            amount: self.amount,
            denom: self.denom@,
            status: self.status,
        }
    }
}

/// An outbound cross-chain transfer instruction handed to the host for
/// dispatch.
pub struct TransferInstruction {
    pub channel_id: String,
    pub to_address: String,
    pub amount: u128,
    pub denom: String,
    /// Absolute time (seconds) after which the transfer times out.
    pub timeout_timestamp: u64,
    /// Correlation id under which the dispatch was recorded pending.
    pub correlation_id: u64,
}

#[verifier::ext_equal]
pub struct TransferInstructionV {
    pub channel_id: Seq<char>,
    pub to_address: Seq<char>,
    pub amount: u128,
    pub denom: Seq<char>,
    pub timeout_timestamp: u64,
    pub correlation_id: u64,
}

impl View for TransferInstruction {
    type V = TransferInstructionV;

    open spec fn view(&self) -> TransferInstructionV {
        TransferInstructionV {
            channel_id: self.channel_id@,
            to_address: self.to_address@,
            amount: self.amount,
            denom: self.denom@,
            timeout_timestamp: self.timeout_timestamp,
            correlation_id: self.correlation_id,
        }
    }
}

/// A dispatched transfer whose host-assigned sequence number is not
/// known yet.
pub struct PendingTransfer {
    pub correlation_id: u64,
    pub recovery_addr: String,
    pub amount: u128,
    pub denom: String,
}

#[verifier::ext_equal]
pub struct PendingTransferV {
    pub correlation_id: u64,
    pub recovery_addr: Seq<char>,
    pub amount: u128,
    pub denom: Seq<char>,
}

impl View for PendingTransfer {
    type V = PendingTransferV;

    open spec fn view(&self) -> PendingTransferV {
        PendingTransferV {
            correlation_id: self.correlation_id,
            recovery_addr: self.recovery_addr@,
            amount: self.amount,
            denom: self.denom@,
        }
    }
}

/// First in-flight record keyed by (channel, sequence).
pub open spec fn get_inflight_v(fs: Seq<IBCTransferV>, chan: Seq<char>, seq: u64) -> Option<
    IBCTransferV,
>
    decreases fs.len(),
{
    if fs.len() == 0 {
        None
    } else if fs[0].channel_id == chan && fs[0].sequence == seq {
        Some(fs[0])
    } else {
        get_inflight_v(fs.drop_first(), chan, seq)
    }
}

pub open spec fn distinct_transfer_keys(fs: Seq<IBCTransferV>) -> bool {
    forall|i: int, j: int|
        0 <= i < j < fs.len() ==> !(fs[i].channel_id == fs[j].channel_id && fs[i].sequence
            == fs[j].sequence)
}

/// A key that no record holds is one the recursive lookup misses.
pub proof fn lemma_inflight_get_all_keys(fs: Seq<IBCTransferV>, chan: Seq<char>, seq: u64)
    ensures
        (get_inflight_v(fs, chan, seq) is None) <==> (forall|i: int|
            0 <= i < fs.len() ==> !(fs[i].channel_id == chan && fs[i].sequence == seq)),
    decreases fs.len(),
{
    if fs.len() > 0 {
        lemma_inflight_get_all_keys(fs.drop_first(), chan, seq);
        assert forall|i: int| 1 <= i < fs.len() implies fs.drop_first()[i - 1] == fs[i] by {}
    }
}

/// A fresh key keeps the keys distinct.
pub proof fn lemma_inflight_push_distinct(fs: Seq<IBCTransferV>, t: IBCTransferV)
    requires
        distinct_transfer_keys(fs),
        get_inflight_v(fs, t.channel_id, t.sequence) is None,
    ensures
        distinct_transfer_keys(fs.push(t)),
{
    lemma_inflight_get_all_keys(fs, t.channel_id, t.sequence);
}

/// Rewriting the record at the index holding a key rewrites that key's
/// lookup and no other, when keys are distinct and the key is kept.
pub proof fn lemma_inflight_update(
    fs: Seq<IBCTransferV>,
    i: int,
    nt: IBCTransferV,
    chan: Seq<char>,
    seq: u64,
)
    requires
        0 <= i < fs.len(),
        distinct_transfer_keys(fs),
        nt.channel_id == fs[i].channel_id,
        nt.sequence == fs[i].sequence,
    ensures
        get_inflight_v(fs.update(i, nt), chan, seq) == if chan == fs[i].channel_id && seq
            == fs[i].sequence {
            Some(nt)
        } else {
            get_inflight_v(fs, chan, seq)
        },
        distinct_transfer_keys(fs.update(i, nt)),
    decreases fs.len(),
{
    let fs2 = fs.update(i, nt);
    if i == 0 {
        assert(fs2.drop_first() =~= fs.drop_first());
        if !(fs[0].channel_id == chan && fs[0].sequence == seq) {
            lemma_inflight_get_all_keys(fs.drop_first(), chan, seq);
        }
    } else {
        assert(fs2.drop_first() =~= fs.drop_first().update(i - 1, nt));
        lemma_inflight_update(fs.drop_first(), i - 1, nt, chan, seq);
    }
}

/// Index of the first in-flight record keyed by (channel, sequence).
pub fn find_inflight(fs: &Vec<IBCTransfer>, chan: &String, seq: u64) -> (r: Option<usize>)
    ensures
        ({
            let fv = fs@.map_values(|t: IBCTransfer| t@);
            match r {
                Some(i) => i < fs@.len() && fs@[i as int].channel_id@ == chan@
                    && fs@[i as int].sequence == seq && get_inflight_v(fv, chan@, seq) == Some(
                    fs@[i as int]@,
                ),
                None => get_inflight_v(fv, chan@, seq) is None,
            }
        }),
{
    let ghost fv = fs@.map_values(|t: IBCTransfer| t@);
    proof {
        assert(fv.skip(0) =~= fv);
    }
    let n = fs.len();
    for i in 0..n
        invariant
            n == fs@.len(),
            fv == fs@.map_values(|t: IBCTransfer| t@),
            get_inflight_v(fv, chan@, seq) == get_inflight_v(fv.skip(i as int), chan@, seq),
            forall|j: int|
                0 <= j < i ==> !(fs@[j].channel_id@ == chan@ && fs@[j].sequence == seq),
    {
        if fs[i].sequence == seq && fs[i].channel_id == *chan {
            proof {
                assert(fv.skip(i as int)[0] == fv[i as int]);
            }
            return Some(i);
        }
        proof {
            assert(fv.skip(i as int).drop_first() =~= fv.skip(i as int + 1));
            assert(fv.skip(i as int)[0] == fv[i as int]);
        }
    }
    proof {
        assert(fv.skip(n as int) =~= Seq::<IBCTransferV>::empty());
    }
    None
}

/// The record for a key, with its status rewritten; the ledger
/// unchanged when the key is absent.
pub open spec fn set_inflight_v(
    fs: Seq<IBCTransferV>,
    chan: Seq<char>,
    seq: u64,
    status: PacketLifecycleStatus,
) -> Seq<IBCTransferV>
    decreases fs.len(),
{
    if fs.len() == 0 {
        fs
    } else if fs[0].channel_id == chan && fs[0].sequence == seq {
        seq![IBCTransferV { status, ..fs[0] }] + fs.drop_first()
    } else {
        seq![fs[0]] + set_inflight_v(fs.drop_first(), chan, seq, status)
    }
}

/// Rewriting a key's status is an update at its first index.
pub proof fn lemma_set_inflight_at_index(
    fs: Seq<IBCTransferV>,
    i: int,
    status: PacketLifecycleStatus,
)
    requires
        0 <= i < fs.len(),
        forall|j: int|
            0 <= j < i ==> !(fs[j].channel_id == fs[i].channel_id && fs[j].sequence
                == fs[i].sequence),
    ensures
        set_inflight_v(fs, fs[i].channel_id, fs[i].sequence, status) == fs.update(
            i,
            IBCTransferV { status, ..fs[i] },
        ),
    decreases fs.len(),
{
    if i == 0 {
        assert(set_inflight_v(fs, fs[0].channel_id, fs[0].sequence, status) =~= fs.update(
            0,
            IBCTransferV { status, ..fs[0] },
        ));
    } else {
        lemma_set_inflight_at_index(fs.drop_first(), i - 1, status);
        assert(fs.drop_first()[i - 1] == fs[i]);
        assert(set_inflight_v(fs, fs[i].channel_id, fs[i].sequence, status) =~= fs.update(
            i,
            IBCTransferV { status, ..fs[i] },
        ));
    }
}

/// What a lookup sees after a key's status is rewritten.
pub proof fn lemma_set_inflight_get(
    fs: Seq<IBCTransferV>,
    chan: Seq<char>,
    seq: u64,
    status: PacketLifecycleStatus,
    chan2: Seq<char>,
    seq2: u64,
)
    ensures
        get_inflight_v(set_inflight_v(fs, chan, seq, status), chan2, seq2) == if chan2 == chan
            && seq2 == seq && get_inflight_v(fs, chan, seq) is Some {
            Some(IBCTransferV { status, ..get_inflight_v(fs, chan, seq).unwrap() })
        } else {
            get_inflight_v(fs, chan2, seq2)
        },
    decreases fs.len(),
{
    if fs.len() > 0 {
        if fs[0].channel_id == chan && fs[0].sequence == seq {
            let fs2 = seq![IBCTransferV { status, ..fs[0] }] + fs.drop_first();
            assert(fs2.drop_first() =~= fs.drop_first());
        } else {
            let fs2 = seq![fs[0]] + set_inflight_v(fs.drop_first(), chan, seq, status);
            assert(fs2.drop_first() =~= set_inflight_v(fs.drop_first(), chan, seq, status));
            lemma_set_inflight_get(fs.drop_first(), chan, seq, status, chan2, seq2);
        }
    }
}

/// First pending record under the correlation id.
pub open spec fn get_pending_v(ps: Seq<PendingTransferV>, id: u64) -> Option<PendingTransferV>
    decreases ps.len(),
{
    if ps.len() == 0 {
        None
    } else if ps[0].correlation_id == id {
        Some(ps[0])
    } else {
        get_pending_v(ps.drop_first(), id)
    }
}

/// The pending table with the first record under the correlation id
/// taken out; the table unchanged when the id is absent.
pub open spec fn remove_pending_v(ps: Seq<PendingTransferV>, id: u64) -> Seq<PendingTransferV>
    decreases ps.len(),
{
    if ps.len() == 0 {
        ps
    } else if ps[0].correlation_id == id {
        ps.drop_first()
    } else {
        seq![ps[0]] + remove_pending_v(ps.drop_first(), id)
    }
}

/// Taking a pending record out is a removal at its first index.
pub proof fn lemma_remove_pending_at_index(ps: Seq<PendingTransferV>, i: int)
    requires
        0 <= i < ps.len(),
        forall|j: int| 0 <= j < i ==> ps[j].correlation_id != ps[i].correlation_id,
    ensures
        remove_pending_v(ps, ps[i].correlation_id) == ps.remove(i),
    decreases ps.len(),
{
    if i == 0 {
        assert(remove_pending_v(ps, ps[0].correlation_id) =~= ps.remove(0));
    } else {
        lemma_remove_pending_at_index(ps.drop_first(), i - 1);
        assert(ps.drop_first()[i - 1] == ps[i]);
        assert(remove_pending_v(ps, ps[i].correlation_id) =~= ps.remove(i));
    }
}

/// Index of the first pending record under the correlation id.
fn find_pending(ps: &Vec<PendingTransfer>, id: u64) -> (r: Option<usize>)
    ensures
        ({
            let pv = ps@.map_values(|p: PendingTransfer| p@);
            match r {
                Some(i) => i < ps@.len() && ps@[i as int].correlation_id == id && get_pending_v(
                    pv,
                    id,
                ) == Some(ps@[i as int]@) && forall|j: int|
                    0 <= j < i ==> ps@[j].correlation_id != id,
                None => get_pending_v(pv, id) is None,
            }
        }),
{
    let ghost pv = ps@.map_values(|p: PendingTransfer| p@);
    proof {
        assert(pv.skip(0) =~= pv);
    }
    let n = ps.len();
    for i in 0..n
        invariant
            n == ps@.len(),
            pv == ps@.map_values(|p: PendingTransfer| p@),
            get_pending_v(pv, id) == get_pending_v(pv.skip(i as int), id),
            forall|j: int| 0 <= j < i ==> ps@[j].correlation_id != id,
    {
        if ps[i].correlation_id == id {
            proof {
                assert(pv.skip(i as int)[0] == pv[i as int]);
            }
            return Some(i);
        }
        proof {
            assert(pv.skip(i as int).drop_first() =~= pv.skip(i as int + 1));
            assert(pv.skip(i as int)[0] == pv[i as int]);
        }
    }
    proof {
        assert(pv.skip(n as int) =~= Seq::<PendingTransferV>::empty());
    }
    None
}

/// What a lifecycle step did, so callers and hosts can log it; an
/// unexpected or repeated callback is tolerated as a no-op.
#[derive(Debug, Clone, Copy, PartialEq, Eq, Structural)]
pub enum TransferOutcome {
    /// A pending dispatch was keyed under its (channel, sequence).
    Registered,
    /// The (channel, sequence) key was already taken; nothing changed.
    AlreadyRegistered,
    /// No record matched the callback; nothing changed.
    NotFound,
    /// An in-flight transfer reached the status.
    Resolved(PacketLifecycleStatus),
    /// The transfer had already reached a terminal status; nothing
    /// changed.
    AlreadyResolved,
}

/// How a host reply resolves a pending dispatch: the pending record
/// moves to the in-flight ledger under the host-assigned (channel,
/// sequence) key with status `Sent`.  An unknown correlation id or an
/// already-taken key changes nothing.
pub open spec fn spec_resolve_pending(
    s: crate::state::StateV,
    correlation_id: u64,
    channel: Seq<char>,
    sequence: u64,
) -> (crate::state::StateV, TransferOutcome) {
    match get_pending_v(s.pending, correlation_id) {
        None => (s, TransferOutcome::NotFound),
        Some(p) => {
            if get_inflight_v(s.inflight, channel, sequence) is Some {
                (s, TransferOutcome::AlreadyRegistered)
            } else {
                (
                    crate::state::StateV {
                        pending: remove_pending_v(s.pending, correlation_id),
                        inflight: s.inflight.push(
                            IBCTransferV {
                                recovery_addr: p.recovery_addr,
                                channel_id: channel,
                                sequence,
                                amount: p.amount,
                                denom: p.denom,
                                status: PacketLifecycleStatus::Sent,
                            },
                        ),
                        ..s
                    },
                    TransferOutcome::Registered,
                )
            }
        },
    }
}

/// Keys a dispatched transfer by the (channel, sequence) the host
/// assigned, recording it in flight as `Sent`.
pub fn resolve_pending_transfer(
    state: &mut ContractState,
    correlation_id: u64,
    channel: &String,
    sequence: u64,
) -> (r: TransferOutcome)
    requires
        old(state)@.wf(),
    ensures
        final(state)@.wf(),
        final(state)@ == spec_resolve_pending(old(state)@, correlation_id, channel@, sequence).0,
        r == spec_resolve_pending(old(state)@, correlation_id, channel@, sequence).1,
{
    let i = match find_pending(&state.pending, correlation_id) {
        None => {
            return TransferOutcome::NotFound;
        },
        Some(i) => i,
    };
    match find_inflight(&state.inflight, channel, sequence) {
        Some(_) => {
            return TransferOutcome::AlreadyRegistered;
        },
        None => {},
    }
    let ghost pre = state@;
    let p = state.pending.remove(i);
    let t = IBCTransfer {
        recovery_addr: p.recovery_addr,
        channel_id: channel.clone(),
        sequence,
        amount: p.amount,
        denom: p.denom,
        status: PacketLifecycleStatus::Sent,
    };
    let ghost tv = t@;
    state.inflight.push(t);
    proof {
        assert(state@.pending =~= pre.pending.remove(i as int));
        lemma_remove_pending_at_index(pre.pending, i as int);
        assert(state@.inflight =~= pre.inflight.push(tv));
        lemma_inflight_push_distinct(pre.inflight, tv);
        assert(state@ =~= spec_resolve_pending(pre, correlation_id, channel@, sequence).0);
        assert(forall|j: int|
            0 <= j < state@.surveys.len() ==> state@.surveys[j] == pre.surveys[j]);
    }
    TransferOutcome::Registered
}

/// How an acknowledgement resolves an in-flight transfer: a `Sent`
/// record moves to `AckSuccess` or `AckFailure` exactly once; a failure
/// appends one recovery entry for the intended recipient.  An unknown
/// key or an already-terminal record changes nothing.
pub open spec fn spec_receive_ack(
    s: crate::state::StateV,
    channel: Seq<char>,
    sequence: u64,
    success: bool,
) -> (crate::state::StateV, TransferOutcome) {
    match get_inflight_v(s.inflight, channel, sequence) {
        None => (s, TransferOutcome::NotFound),
        Some(t) => {
            if !(t.status is Sent) {
                (s, TransferOutcome::AlreadyResolved)
            } else {
                let status = if success {
                    PacketLifecycleStatus::AckSuccess
                } else {
                    PacketLifecycleStatus::AckFailure
                };
                (
                    crate::state::StateV {
                        inflight: set_inflight_v(s.inflight, channel, sequence, status),
                        recovery: if success {
                            s.recovery
                        } else {
                            s.recovery.push(IBCTransferV { status, ..t })
                        },
                        ..s
                    },
                    TransferOutcome::Resolved(status),
                )
            }
        },
    }
}

/// How a timeout resolves an in-flight transfer: a `Sent` record moves
/// to `TimedOut` exactly once and one recovery entry is appended for the
/// intended recipient.  An unknown key or an already-terminal record
/// changes nothing.
pub open spec fn spec_receive_timeout(
    s: crate::state::StateV,
    channel: Seq<char>,
    sequence: u64,
) -> (crate::state::StateV, TransferOutcome) {
    match get_inflight_v(s.inflight, channel, sequence) {
        None => (s, TransferOutcome::NotFound),
        Some(t) => {
            if !(t.status is Sent) {
                (s, TransferOutcome::AlreadyResolved)
            } else {
                (
                    crate::state::StateV {
                        inflight: set_inflight_v(
                            s.inflight,
                            channel,
                            sequence,
                            PacketLifecycleStatus::TimedOut,
                        ),
                        recovery: s.recovery.push(
                            IBCTransferV { status: PacketLifecycleStatus::TimedOut, ..t },
                        ),
                        ..s
                    },
                    TransferOutcome::Resolved(PacketLifecycleStatus::TimedOut),
                )
            }
        },
    }
}

impl IBCTransfer {
    /// A field-for-field copy of the record, with a new status.
    fn dup_with_status(&self, status: PacketLifecycleStatus) -> (r: IBCTransfer)
        ensures
            r@ == (IBCTransferV { status, ..self@ }),
    {
        IBCTransfer {
            recovery_addr: self.recovery_addr.clone(),
            channel_id: self.channel_id.clone(),
            sequence: self.sequence,
            amount: self.amount,
            denom: self.denom.clone(),
            status,
        }
    }
}

/// Applies a success or failure acknowledgement to the in-flight
/// ledger; a failure appends a recovery entry.
pub fn receive_ack(
    state: &mut ContractState,
    channel: &String,
    sequence: u64,
    success: bool,
) -> (r: TransferOutcome)
    requires
        old(state)@.wf(),
    ensures
        final(state)@.wf(),
        final(state)@ == spec_receive_ack(old(state)@, channel@, sequence, success).0,
        r == spec_receive_ack(old(state)@, channel@, sequence, success).1,
{
    let i = match find_inflight(&state.inflight, channel, sequence) {
        None => {
            return TransferOutcome::NotFound;
        },
        Some(i) => i,
    };
    match state.inflight[i].status {
        PacketLifecycleStatus::Sent => {},
        _ => {
            return TransferOutcome::AlreadyResolved;
        },
    }
    let status = if success {
        PacketLifecycleStatus::AckSuccess
    } else {
        PacketLifecycleStatus::AckFailure
    };
    let ghost pre = state@;
    let updated = state.inflight[i].dup_with_status(status);
    let ghost uv = updated@;
    if !success {
        let entry = updated.dup_with_status(status);
        state.recovery.push(entry);
    }
    state.inflight[i] = updated;
    proof {
        assert(state@.inflight =~= pre.inflight.update(i as int, uv));
        lemma_set_inflight_at_index(pre.inflight, i as int, status);
        lemma_inflight_update(pre.inflight, i as int, uv, channel@, sequence);
        if !success {
            assert(state@.recovery =~= pre.recovery.push(uv));
        }
        assert(state@ =~= spec_receive_ack(pre, channel@, sequence, success).0);
        assert(forall|j: int|
            0 <= j < state@.surveys.len() ==> state@.surveys[j] == pre.surveys[j]);
    }
    TransferOutcome::Resolved(status)
}

/// Applies a timeout to the in-flight ledger and appends a recovery
/// entry for the intended recipient.
pub fn receive_timeout(state: &mut ContractState, channel: &String, sequence: u64) -> (r:
    TransferOutcome)
    requires
        old(state)@.wf(),
    ensures
        final(state)@.wf(),
        final(state)@ == spec_receive_timeout(old(state)@, channel@, sequence).0,
        r == spec_receive_timeout(old(state)@, channel@, sequence).1,
{
    let i = match find_inflight(&state.inflight, channel, sequence) {
        None => {
            return TransferOutcome::NotFound;
        },
        Some(i) => i,
    };
    match state.inflight[i].status {
        PacketLifecycleStatus::Sent => {},
        _ => {
            return TransferOutcome::AlreadyResolved;
        },
    }
    let ghost pre = state@;
    let updated = state.inflight[i].dup_with_status(PacketLifecycleStatus::TimedOut);
    let ghost uv = updated@;
    let entry = updated.dup_with_status(PacketLifecycleStatus::TimedOut);
    state.recovery.push(entry);
    state.inflight[i] = updated;
    proof {
        assert(state@.inflight =~= pre.inflight.update(i as int, uv));
        lemma_set_inflight_at_index(pre.inflight, i as int, PacketLifecycleStatus::TimedOut);
        lemma_inflight_update(pre.inflight, i as int, uv, channel@, sequence);
        assert(state@.recovery =~= pre.recovery.push(uv));
        assert(state@ =~= spec_receive_timeout(pre, channel@, sequence).0);
        assert(forall|j: int|
            0 <= j < state@.surveys.len() ==> state@.surveys[j] == pre.surveys[j]);
    }
    TransferOutcome::Resolved(PacketLifecycleStatus::TimedOut)
}

/// Law: a timeout callback resolves a `Sent` transfer to `TimedOut`
/// exactly once and appends exactly one recovery entry; a second
/// timeout for the same (channel, sequence) changes nothing and appends
/// nothing.
pub proof fn lemma_timeout_resolves_once(
    s: crate::state::StateV,
    channel: Seq<char>,
    sequence: u64,
)
    requires
        get_inflight_v(s.inflight, channel, sequence) matches Some(t) && t.status
            == PacketLifecycleStatus::Sent,
    ensures
        ({
            let (s2, o1) = spec_receive_timeout(s, channel, sequence);
            let (s3, o2) = spec_receive_timeout(s2, channel, sequence);
            &&& o1 == TransferOutcome::Resolved(PacketLifecycleStatus::TimedOut)
            &&& get_inflight_v(s2.inflight, channel, sequence) matches Some(t2) && t2.status
                == PacketLifecycleStatus::TimedOut
            &&& s2.recovery.len() == s.recovery.len() + 1
            &&& s3 == s2
            &&& o2 == TransferOutcome::AlreadyResolved
        }),
{
    lemma_set_inflight_get(
        s.inflight,
        channel,
        sequence,
        PacketLifecycleStatus::TimedOut,
        channel,
        sequence,
    );
}

} // verus!
