//! The escrow operations, driven through concrete calls: lookups, creation,
//! cancellation, collection and fee updates, with every typed error exercised.

use az_safe_send::errors::AzSafeSendError;
use az_safe_send::{Asset, AzSafeSend, Cheque, Payment, Status};

const MOCK_AMOUNT: u128 = 250;
const MOCK_FEE: u128 = 500;

const ALICE: u128 = 1;
const BOB: u128 = 2;
const CHARLIE: u128 = 3;

fn admin() -> u128 {
    ALICE
}

fn token_address() -> u128 {
    CHARLIE
}

fn init() -> AzSafeSend {
    AzSafeSend::new(admin(), MOCK_FEE)
}

#[test]
fn test_config() {
    let az_safe_send = init();
    let config = az_safe_send.config();
    // * it returns the config
    assert_eq!(config.admin, admin());
    assert_eq!(config.fee, MOCK_FEE);
}

#[test]
fn test_cancel() {
    let mut az_safe_send = init();
    // when cheque doesn't exist
    let mut result = az_safe_send.cancel(admin(), 0);
    // * it raises an error
    assert_eq!(result, Err(AzSafeSendError::NotFound("Cheque".to_string())));
    // when cheque exists
    let mut cheque: Cheque = az_safe_send
        .create(admin(), BOB, MOCK_AMOUNT, Asset::Native, MOCK_FEE + MOCK_AMOUNT)
        .unwrap();
    // = when cheque doesn't belong to caller
    // = * it raises an error
    result = az_safe_send.cancel(BOB, 0);
    assert_eq!(result, Err(AzSafeSendError::Unauthorised));
    // = when cheque belongs to caller
    // == when cheque is finalised
    cheque.status = Status::Collected;
    az_safe_send.cheques.insert(cheque.id, cheque);
    // == * it raises an error
    result = az_safe_send.cancel(admin(), 0);
    assert_eq!(
        result,
        Err(AzSafeSendError::UnprocessableEntity(
            "Status must be pending collection.".to_string()
        ))
    );
    // == when cheque is cancelled
    cheque.status = Status::Cancelled;
    az_safe_send.cheques.insert(cheque.id, cheque);
    // == * it raises an error
    result = az_safe_send.cancel(admin(), 0);
    assert_eq!(
        result,
        Err(AzSafeSendError::UnprocessableEntity(
            "Status must be pending collection.".to_string()
        ))
    );
    // == when cheque is pending
    cheque.status = Status::Pending;
    // === when cheque has a fee associated with it
    // ==== when cheque does not have a token address
    az_safe_send.cheques.insert(cheque.id, cheque);
    // ===== * it sends the fee and amount back to the user
    let mut alice_balance: u128 = 1_000_000;
    az_safe_send.cancel(admin(), 0).unwrap();
    match az_safe_send.payments.last() {
        Some(Payment::Native { to, amount }) => {
            assert_eq!(*to, admin());
            alice_balance += amount;
        }
        other => panic!("expected a native refund, got {:?}", other),
    }
    assert_eq!(alice_balance, 1_000_000 + cheque.fee + cheque.amount);

    // === when cheque does not have a fee associated with it
    cheque.status = Status::Pending;
    cheque.fee = 0;
    az_safe_send.cheques.insert(cheque.id, cheque);
    // ==== when cheque does not have a token address
    // ===== * it sends the fee and amount back to the user
    let mut alice_balance: u128 = 1_000_000;
    az_safe_send.cancel(admin(), 0).unwrap();
    match az_safe_send.payments.last() {
        Some(Payment::Native { to, amount }) => {
            assert_eq!(*to, admin());
            alice_balance += amount;
        }
        other => panic!("expected a native refund, got {:?}", other),
    }
    assert_eq!(alice_balance, 1_000_000 + cheque.amount);
    // == * it sets the status to cancelled
    let cheque: Cheque = *az_safe_send.cheques.get(&cheque.id).unwrap();
    assert_eq!(cheque.status, Status::Cancelled);
}

// This is for cheques without a token address attached to it
#[test]
fn test_collect() {
    let mut az_safe_send = init();
    // when cheque doesn't exist
    let mut result = az_safe_send.collect(admin(), 1);
    // * it raises an error
    assert_eq!(result, Err(AzSafeSendError::NotFound("Cheque".to_string())));
    // when cheque exists
    let mut cheque: Cheque = az_safe_send
        .create(admin(), BOB, MOCK_AMOUNT, Asset::Native, MOCK_FEE + MOCK_AMOUNT)
        .unwrap();
    // = when cheque's to isn't the caller
    // = * it raises an error
    result = az_safe_send.collect(admin(), 0);
    assert_eq!(result, Err(AzSafeSendError::Unauthorised));
    // = when cheque's to is the caller
    // == when cheque is collected
    cheque.status = Status::Collected;
    az_safe_send.cheques.insert(cheque.id, cheque);
    // == * it raises an error
    result = az_safe_send.collect(BOB, 0);
    assert_eq!(
        result,
        Err(AzSafeSendError::UnprocessableEntity(
            "Status must be pending collection.".to_string()
        ))
    );
    // == when cheque is cancelled
    cheque.status = Status::Cancelled;
    az_safe_send.cheques.insert(cheque.id, cheque);
    // == * it raises an error
    result = az_safe_send.collect(BOB, 0);
    assert_eq!(
        result,
        Err(AzSafeSendError::UnprocessableEntity(
            "Status must be pending collection.".to_string()
        ))
    );
    // == when cheque is pending
    cheque.status = Status::Pending;
    az_safe_send.cheques.insert(cheque.id, cheque);
    let mut bob_balance: u128 = 1_000_000;
    let mut alice_balance: u128 = 1_000_000;
    result = az_safe_send.collect(BOB, 0);
    let result_unwrapped = result.unwrap();
    for payment in &az_safe_send.payments {
        match payment {
            Payment::Native { to, amount } if *to == BOB => bob_balance += amount,
            Payment::Native { to, amount } if *to == admin() => alice_balance += amount,
            other => panic!("unexpected payment {:?}", other),
        }
    }
    // == * it transfers the cheque amount to the caller
    assert_eq!(bob_balance, 1_000_000 + cheque.amount);
    // == * it transfers the fee to the admin
    assert!(alice_balance > 1_000_000);
    // == * it sets the status to collected
    assert_eq!(result_unwrapped.status, Status::Collected);
}

// Testing here when token address isn't provided;
// the token paths are covered in the scenarios
#[test]
fn test_create() {
    let mut az_safe_send = init();
    // when sender and receiver are the same
    // * it raises an error
    let mut result = az_safe_send.create(admin(), admin(), 1, Asset::Token(token_address()), 0);
    assert_eq!(
        result,
        Err(AzSafeSendError::UnprocessableEntity(
            "Sender and receiver must be different.".to_string()
        ))
    );
    // when sender and receiver are different
    // = when amount is zero
    // = * it raises an error
    result = az_safe_send.create(admin(), BOB, 0, Asset::Token(token_address()), 0);
    assert_eq!(
        result,
        Err(AzSafeSendError::UnprocessableEntity(
            "Amount must be greater than zero.".to_string()
        ))
    );
    // == when new cheque id will be less than or equal to u32::MAX is within range
    az_safe_send.cheques_total = u32::MAX - 1;
    // === when token address is not provided
    // ==== when fee is incorrect
    let amount: u128 = 1;
    // ==== * it raises an error
    result = az_safe_send.create(admin(), BOB, amount, Asset::Native, az_safe_send.fee);
    assert_eq!(result, Err(AzSafeSendError::IncorrectFee));
    // ==== when fee is correct
    // ==== * it stores the submitter as the caller
    result = az_safe_send.create(admin(), BOB, amount, Asset::Native, az_safe_send.fee + amount);
    let result_unwrapped = result.unwrap();
    // ==== * it increases the cheque length by 1
    assert_eq!(az_safe_send.cheques_total, u32::MAX);
    // ==== * it stores the id as the current length
    assert_eq!(result_unwrapped.id, u32::MAX - 1);
    // ==== * it stores the caller as from
    assert_eq!(result_unwrapped.from, admin());
    // ==== * it stores the to
    assert_eq!(result_unwrapped.to, BOB);
    // ==== * it stores the amount
    assert_eq!(result_unwrapped.amount, amount);
    // ==== * it sets the status to pending
    assert_eq!(result_unwrapped.status, Status::Pending);
    // ==== * it stores the submitted asset
    assert_eq!(result_unwrapped.asset, Asset::Native);
    // ==== * it stores the transaction
    assert_eq!(
        result_unwrapped,
        *az_safe_send.cheques.get(&result_unwrapped.id).unwrap()
    );
    // == when new cheque id will be greater than u32::MAX
    result = az_safe_send.create(admin(), BOB, 1, Asset::Token(token_address()), 501);
    assert_eq!(
        result,
        Err(AzSafeSendError::RecordsLimitReached("Cheque".to_string()))
    );
}

#[test]
fn test_update_fee() {
    let mut az_safe_send = init();
    // when called by non-admin
    // * it raises an error
    let mut result = az_safe_send.update_fee(BOB, 1);
    assert_eq!(result, Err(AzSafeSendError::Unauthorised));
    // when called by admin
    result = az_safe_send.update_fee(ALICE, 10);
    assert!(result.is_ok());
    // = * it updates the fee
    assert_eq!(az_safe_send.fee, 10);
}
