use ephemeral_oracle::codec::serialize_record;
use ephemeral_oracle::delegation::{
    close_price_feed, commit_delegated_state, delegate_price_feed, feed_account_new,
    recover_price_feed, undelegate_price_feed, AccountOwner, DelegationError, DelegationState,
};
use ephemeral_oracle::price_feed::initialize_price_feed;

const ORACLE: [u8; 32] = [7u8; 32];
const STRANGER: [u8; 32] = [9u8; 32];

fn fresh_account() -> (ephemeral_oracle::delegation::FeedAccount, Vec<u8>) {
    let record = initialize_price_feed(&ORACLE, &[3u8; 32], -8, 1_700_000_000);
    let bytes = serialize_record(&record);
    (feed_account_new(bytes.clone()), bytes)
}

// Round trip: delegating then undelegating restores the record's bytes
// exactly when nothing wrote to it while delegated.
#[test]
fn delegation_round_trip_restores_bytes() {
    let (mut account, original) = fresh_account();
    delegate_price_feed(&mut account, &ORACLE, &ORACLE, true).unwrap();
    assert_eq!(account.state, DelegationState::Delegated);
    assert!(account.data.iter().all(|b| *b == 0));
    undelegate_price_feed(&mut account, &ORACLE, &ORACLE).unwrap();
    assert_eq!(account.state, DelegationState::Undelegated);
    assert_eq!(account.owner, AccountOwner::Canonical);
    assert_eq!(account.data, original);
}

// A write in the delegated context is what undelegation commits back.
#[test]
fn undelegation_commits_delegated_write() {
    let (mut account, original) = fresh_account();
    delegate_price_feed(&mut account, &ORACLE, &ORACLE, true).unwrap();
    let updated = initialize_price_feed(&ORACLE, &[4u8; 32], -8, 1_700_000_100);
    let new_bytes = serialize_record(&updated);
    commit_delegated_state(&mut account, new_bytes.clone());
    undelegate_price_feed(&mut account, &ORACLE, &ORACLE).unwrap();
    assert_eq!(account.data, new_bytes);
    assert_ne!(account.data, original);
}

// A rejected delegation request leaves the known recovery window: record
// zeroed and reassigned, buffer still holding the content; the explicit
// recovery path restores it.
#[test]
fn rejected_delegation_leaves_recoverable_window() {
    let (mut account, original) = fresh_account();
    let result = delegate_price_feed(&mut account, &ORACLE, &ORACLE, false);
    assert_eq!(result, Err(DelegationError::DelegationRejected));
    assert_eq!(account.state, DelegationState::Delegating);
    assert_eq!(account.owner, AccountOwner::DelegationProgram);
    assert!(account.data.iter().all(|b| *b == 0));
    assert_eq!(account.buffer.as_ref().unwrap(), &original);
    recover_price_feed(&mut account, &ORACLE, &ORACLE).unwrap();
    assert_eq!(account.state, DelegationState::Undelegated);
    assert_eq!(account.data, original);
}

// Every privileged transition rejects a stranger and leaves the account
// byte-for-byte unchanged.
#[test]
fn stranger_cannot_drive_delegation() {
    let (mut account, _) = fresh_account();
    let before = account.clone();
    assert_eq!(
        delegate_price_feed(&mut account, &STRANGER, &ORACLE, true),
        Err(DelegationError::Unauthorized)
    );
    assert_eq!(account, before);
    assert_eq!(
        close_price_feed(&mut account, &STRANGER, &ORACLE),
        Err(DelegationError::Unauthorized)
    );
    assert_eq!(account, before);

    delegate_price_feed(&mut account, &ORACLE, &ORACLE, true).unwrap();
    let delegated = account.clone();
    assert_eq!(
        undelegate_price_feed(&mut account, &STRANGER, &ORACLE),
        Err(DelegationError::Unauthorized)
    );
    assert_eq!(account, delegated);
}

#[test]
fn close_releases_storage() {
    let (mut account, _) = fresh_account();
    close_price_feed(&mut account, &ORACLE, &ORACLE).unwrap();
    assert_eq!(account.state, DelegationState::Closed);
    assert!(account.data.is_empty());
    assert!(account.buffer.is_none());
    assert!(account.delegated_data.is_none());
}
