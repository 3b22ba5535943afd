//! The delegation lifecycle of a price-feed record: the four-state protocol
//! that hands exclusive write control of a record from the canonical program
//! to a delegated execution context and back, without losing the record's
//! content.

use vstd::prelude::*;
use crate::codec::{
    lemma_record_layout, lemma_serialize_record_injective, spec_serialize_message,
    spec_serialize_record, spec_wf_record_bytes, RECORD_SERIALIZED_LEN,
};
use crate::price_feed::{keys_equal, PriceUpdateV3};

verus! {

/// Which program owns the record's account storage.
#[derive(Clone, Copy, PartialEq, Eq, Structural, Debug)]
pub enum AccountOwner {
    /// The canonical oracle program.
    Canonical,
    /// The delegation-authority program.
    DelegationProgram,
}

/// Where a record stands in the delegation protocol.
#[derive(Clone, Copy, PartialEq, Eq, Structural, Debug)]
pub enum DelegationState {
    /// The canonical program accepts writes.
    Undelegated,
    /// A delegation was started but the delegation-authority program has not
    /// confirmed it: the record is already zeroed and reassigned, and the
    /// buffer still holds its content.
    Delegating,
    /// The delegated execution context is the sole writer.
    Delegated,
    /// A commit of the delegated state back into the record was requested;
    /// the controller sees this as part of one atomic transition.
    Undelegating,
    /// The record's storage was released; only re-initialization can revive
    /// the feed.
    Closed,
}

/// A rejection raised by a delegation transition.
#[derive(Clone, Copy, PartialEq, Eq, Structural, Debug)]
pub enum DelegationError {
    /// The caller is not the recognized oracle identity.
    Unauthorized,
    /// The delegation-authority program rejected the delegation request.
    DelegationRejected,
}

/// An all-zero byte string of the given length.
pub open spec fn spec_zero_bytes(n: nat) -> Seq<u8> {
    Seq::new(n, |i: int| 0u8)
}

/// The account of one price feed, as the delegation controller sees it:
/// its owner, its protocol state, its storage bytes, the transient
/// delegation buffer, and the copy held by the delegated context.
#[derive(Clone, PartialEq, Eq, Debug)]
pub struct FeedAccount {
    pub owner: AccountOwner,
    pub state: DelegationState,
    pub data: Vec<u8>,
    pub buffer: Option<Vec<u8>>,
    pub delegated_data: Option<Vec<u8>>,
}

impl FeedAccount {
    /// The invariant each protocol state keeps: the record's content is
    /// never lost — it lives in `data`, in the buffer, or in the delegated
    /// context, whichever the state names.
    pub open spec fn wf(self) -> bool {
        match self.state {
            DelegationState::Undelegated => {
                &&& self.owner == AccountOwner::Canonical
                &&& spec_wf_record_bytes(self.data@)
                &&& self.buffer is None
                &&& self.delegated_data is None
            },
            DelegationState::Delegating => {
                &&& self.owner == AccountOwner::DelegationProgram
                &&& self.data@ == spec_zero_bytes(RECORD_SERIALIZED_LEN as nat)
                &&& self.buffer matches Some(b) && spec_wf_record_bytes(b@)
                &&& self.delegated_data is None
            },
            DelegationState::Delegated | DelegationState::Undelegating => {
                &&& self.owner == AccountOwner::DelegationProgram
                &&& self.data@ == spec_zero_bytes(RECORD_SERIALIZED_LEN as nat)
                &&& self.buffer is None
                &&& self.delegated_data matches Some(b) && spec_wf_record_bytes(b@)
            },
            DelegationState::Closed => {
                &&& self.data@.len() == 0
                &&& self.buffer is None
                &&& self.delegated_data is None
            },
        }
    }

    /// The serialized content this account currently carries, wherever the
    /// protocol state keeps it.
    pub open spec fn content(self) -> Seq<u8> {
        match self.state {
            DelegationState::Undelegated => self.data@,
            DelegationState::Delegating => self.buffer->Some_0@,
            DelegationState::Delegated | DelegationState::Undelegating => {
                self.delegated_data->Some_0@
            },
            DelegationState::Closed => Seq::empty(),
        }
    }
}

fn zeroed_bytes(n: usize) -> (out: Vec<u8>)
    ensures
        out@ == spec_zero_bytes(n as nat),
{
    let mut out: Vec<u8> = Vec::new();
    let mut i: usize = 0;
    while i < n
        invariant
            i <= n,
            out@ =~= spec_zero_bytes(i as nat),
        decreases n - i,
    {
        out.push(0u8);
        proof {
            assert(out@ =~= spec_zero_bytes((i + 1) as nat));
        }
        i += 1;
    }
    out
}

/// Sets up the account of a freshly initialized record: canonically owned,
/// undelegated, holding the given serialized record.
pub fn feed_account_new(record_bytes: Vec<u8>) -> (account: FeedAccount)
    requires
        spec_wf_record_bytes(record_bytes@),
    ensures
        account.wf(),
        account.state == DelegationState::Undelegated,
        account.content() == record_bytes@,
{
    FeedAccount {
        owner: AccountOwner::Canonical,
        state: DelegationState::Undelegated,
        data: record_bytes,
        buffer: None,
        delegated_data: None,
    }
}

/// Hands write control of an undelegated record to the delegated execution
/// context. Only the recognized oracle identity may do so; any other caller
/// is rejected with the account left byte-for-byte unchanged.
///
/// The handover copies the record's bytes into a buffer sized exactly to
/// them, zeroes the record's storage, reassigns ownership to the
/// delegation-authority program, and asks that program to take over.
/// Whether it accepts is the outside world's decision, passed in as
/// `delegation_accepted`. On acceptance the buffer is consumed into the
/// delegated context and destroyed; on rejection the account is left in the
/// known recovery window — zeroed and reassigned, with the buffer still
/// holding the content.
pub fn delegate_price_feed(
    account: &mut FeedAccount,
    payer: &[u8; 32],
    oracle_identity: &[u8; 32],
    delegation_accepted: bool,
) -> (result: Result<(), DelegationError>)
    requires
        old(account).wf(),
        old(account).state == DelegationState::Undelegated,
    ensures
        final(account).wf(),
        payer@ != oracle_identity@ ==> result == Err::<(), DelegationError>(
            DelegationError::Unauthorized,
        ) && *final(account) == *old(account),
        payer@ == oracle_identity@ && delegation_accepted ==> result is Ok && final(account).state
            == DelegationState::Delegated && final(account).content() == old(account).content(),
        payer@ == oracle_identity@ && !delegation_accepted ==> result == Err::<(), DelegationError>(
            DelegationError::DelegationRejected,
        ) && final(account).state == DelegationState::Delegating && final(account).content() == old(
            account,
        ).content(),
{
    if !keys_equal(payer, oracle_identity) {
        return Err(DelegationError::Unauthorized);
    }
    let mut buffer: Vec<u8> = Vec::new();
    buffer.extend_from_slice(account.data.as_slice());
    proof {
        assert(buffer@ =~= old(account).data@);
    }
    account.data = zeroed_bytes(RECORD_SERIALIZED_LEN);
    account.owner = AccountOwner::DelegationProgram;
    if delegation_accepted {
        account.state = DelegationState::Delegated;
        account.delegated_data = Some(buffer);
        account.buffer = None;
        Ok(())
    } else {
        account.state = DelegationState::Delegating;
        account.buffer = Some(buffer);
        Err(DelegationError::DelegationRejected)
    }
}

/// Restores a record from its delegation buffer after a delegation that the
/// delegation-authority program never confirmed. This is the explicit
/// recovery path out of the window that `delegate_price_feed` leaves open
/// when the request is rejected.
pub fn recover_price_feed(
    account: &mut FeedAccount,
    payer: &[u8; 32],
    oracle_identity: &[u8; 32],
) -> (result: Result<(), DelegationError>)
    requires
        old(account).wf(),
        old(account).state == DelegationState::Delegating,
    ensures
        final(account).wf(),
        payer@ != oracle_identity@ ==> result == Err::<(), DelegationError>(
            DelegationError::Unauthorized,
        ) && *final(account) == *old(account),
        payer@ == oracle_identity@ ==> result is Ok && final(account).state
            == DelegationState::Undelegated && final(account).content() == old(account).content(),
{
    if !keys_equal(payer, oracle_identity) {
        return Err(DelegationError::Unauthorized);
    }
    let buffer = account.buffer.take().unwrap();
    account.data = buffer;
    account.owner = AccountOwner::Canonical;
    account.state = DelegationState::Undelegated;
    Ok(())
}

/// A write performed by the delegated execution context while it is the
/// record's sole writer: the delegated copy is replaced by the new
/// serialized state.
pub fn commit_delegated_state(account: &mut FeedAccount, new_state: Vec<u8>)
    requires
        old(account).wf(),
        old(account).state == DelegationState::Delegated,
        spec_wf_record_bytes(new_state@),
    ensures
        final(account).wf(),
        final(account).state == DelegationState::Delegated,
        final(account).content() == new_state@,
{
    account.delegated_data = Some(new_state);
}

/// Commits the delegated context's latest state back into the record and
/// restores canonical ownership. The controller sees this as one atomic
/// transition; only the recognized oracle identity may request it.
pub fn undelegate_price_feed(
    account: &mut FeedAccount,
    payer: &[u8; 32],
    oracle_identity: &[u8; 32],
) -> (result: Result<(), DelegationError>)
    requires
        old(account).wf(),
        old(account).state == DelegationState::Delegated,
    ensures
        final(account).wf(),
        payer@ != oracle_identity@ ==> result == Err::<(), DelegationError>(
            DelegationError::Unauthorized,
        ) && *final(account) == *old(account),
        payer@ == oracle_identity@ ==> result is Ok && final(account).state
            == DelegationState::Undelegated && final(account).owner == AccountOwner::Canonical
            && final(account).data@ == old(account).content(),
{
    if !keys_equal(payer, oracle_identity) {
        return Err(DelegationError::Unauthorized);
    }
    account.state = DelegationState::Undelegating;
    let committed = account.delegated_data.take().unwrap();
    account.data = committed;
    account.owner = AccountOwner::Canonical;
    account.state = DelegationState::Undelegated;
    Ok(())
}

/// Releases an undelegated record's storage; the feed is gone until it is
/// re-initialized. Only the recognized oracle identity may close a feed.
pub fn close_price_feed(
    account: &mut FeedAccount,
    payer: &[u8; 32],
    oracle_identity: &[u8; 32],
) -> (result: Result<(), DelegationError>)
    requires
        old(account).wf(),
        old(account).state == DelegationState::Undelegated,
    ensures
        final(account).wf(),
        payer@ != oracle_identity@ ==> result == Err::<(), DelegationError>(
            DelegationError::Unauthorized,
        ) && *final(account) == *old(account),
        payer@ == oracle_identity@ ==> result is Ok && final(account).state
            == DelegationState::Closed && final(account).data@.len() == 0,
{
    if !keys_equal(payer, oracle_identity) {
        return Err(DelegationError::Unauthorized);
    }
    account.data = Vec::new();
    account.buffer = None;
    account.delegated_data = None;
    account.state = DelegationState::Closed;
    Ok(())
}

/// Delegating and then undelegating restores the record byte for byte when
/// no write happened while it was delegated: for any accounts that the
/// success contracts of `delegate_price_feed` and `undelegate_price_feed`
/// allow, the storage after the round trip carries the pre-delegation
/// record — in particular its `price_message` bytes — and no other record
/// serializes to it.
pub proof fn lemma_delegation_round_trip(
    before: FeedAccount,
    delegated: FeedAccount,
    after: FeedAccount,
    original: PriceUpdateV3,
)
    requires
        before.wf(),
        before.state == DelegationState::Undelegated,
        before.data@ == spec_serialize_record(original),
        delegated.state == DelegationState::Delegated,
        delegated.content() == before.content(),
        after.state == DelegationState::Undelegated,
        after.data@ == delegated.content(),
    ensures
        after.data@ == spec_serialize_record(original),
        after.data@.subrange(41, 125) == spec_serialize_message(original.price_message),
        forall|other: PriceUpdateV3|
            spec_serialize_record(other) == after.data@ ==> other == original,
{
    lemma_record_layout(original);
    assert forall|other: PriceUpdateV3|
        spec_serialize_record(other) == after.data@ implies other == original by {
        lemma_serialize_record_injective(other, original);
    }
}

} // verus!
