use dice_rpc::state::{StateStore, TransactionStatus};

#[test]
fn test_get_or_create_account() {
    let mut store = StateStore::new();
    let account = store.get_or_create_account("0x123");

    assert_eq!(account.address, "0x123");
    assert_eq!(account.balance, 0);
    assert_eq!(account.nonce, 0);
}

#[test]
fn test_balance_operations() {
    let mut store = StateStore::new();

    // Set balance
    store.set_balance("0x123", 1000);

    // Get balance
    let balance = store.get_balance("0x123");
    assert_eq!(balance, Some(1000));
}

#[test]
fn test_transfer() {
    let mut store = StateStore::new();

    // Setup accounts
    store.set_balance("0x123", 1000);
    store.set_balance("0x456", 500);

    // Transfer
    let tx = store.transfer("0x123", "0x456", 300).unwrap();

    // Check balances
    assert_eq!(store.get_balance("0x123"), Some(700));
    assert_eq!(store.get_balance("0x456"), Some(800));

    // Check transaction
    assert_eq!(tx.from, "0x123");
    assert_eq!(tx.to, "0x456");
    assert_eq!(tx.amount, 300);
    assert_eq!(tx.status, TransactionStatus::Pending);
}

#[test]
fn test_insufficient_balance() {
    let mut store = StateStore::new();
    store.set_balance("0x123", 100);

    let result = store.transfer("0x123", "0x456", 200);
    assert!(result.is_err());
    assert_eq!(result.unwrap_err(), "Insufficient balance");
}

#[test]
fn test_transaction_confirmation() {
    let mut store = StateStore::new();
    store.set_balance("0x123", 1000);

    let tx = store.transfer("0x123", "0x456", 100).unwrap();

    // Confirm transaction
    store.confirm_transaction(&tx.txid).unwrap();

    // Check status
    let confirmed_tx = store.get_transaction(&tx.txid).unwrap();
    assert_eq!(confirmed_tx.status, TransactionStatus::Confirmed);
}

#[test]
fn test_get_transactions_for_address() {
    let mut store = StateStore::new();

    // Setup accounts
    store.set_balance("0xAlice", 1000);
    store.set_balance("0xBob", 500);
    store.set_balance("0xCarol", 300);

    // Alice sends to Bob
    let tx1 = store.transfer("0xAlice", "0xBob", 100).unwrap();

    // Bob sends to Carol
    let tx2 = store.transfer("0xBob", "0xCarol", 50).unwrap();

    // Alice sends to Carol
    let tx3 = store.transfer("0xAlice", "0xCarol", 200).unwrap();

    // Get Alice's transactions (should have 2: sent to Bob and Carol)
    let alice_txs = store.get_transactions_for_address("0xAlice");
    assert_eq!(alice_txs.len(), 2);
    assert!(alice_txs.iter().any(|tx| tx.txid == tx1.txid));
    assert!(alice_txs.iter().any(|tx| tx.txid == tx3.txid));

    // Get Bob's transactions (should have 2: received from Alice, sent to Carol)
    let bob_txs = store.get_transactions_for_address("0xBob");
    assert_eq!(bob_txs.len(), 2);
    assert!(bob_txs.iter().any(|tx| tx.txid == tx1.txid));
    assert!(bob_txs.iter().any(|tx| tx.txid == tx2.txid));

    // Get Carol's transactions (should have 2: received from Bob and Alice)
    let carol_txs = store.get_transactions_for_address("0xCarol");
    assert_eq!(carol_txs.len(), 2);
    assert!(carol_txs.iter().any(|tx| tx.txid == tx2.txid));
    assert!(carol_txs.iter().any(|tx| tx.txid == tx3.txid));
}

#[test]
fn test_get_transactions_for_address_empty() {
    let mut store = StateStore::new();

    // Get transactions for address with no transactions
    let txs = store.get_transactions_for_address("0xNobody");
    assert_eq!(txs.len(), 0);
}

#[test]
fn test_get_all_accounts() {
    let mut store = StateStore::new();

    // Initially empty
    let accounts = store.get_all_accounts();
    assert_eq!(accounts.len(), 0);

    // Add some accounts
    store.set_balance("0xAlice", 1000);
    store.set_balance("0xBob", 500);
    store.set_balance("0xCarol", 300);

    // Should have 3 accounts
    let accounts = store.get_all_accounts();
    assert_eq!(accounts.len(), 3);

    // Check all accounts exist
    assert!(
        accounts
            .iter()
            .any(|a| a.address == "0xAlice" && a.balance == 1000)
    );
    assert!(
        accounts
            .iter()
            .any(|a| a.address == "0xBob" && a.balance == 500)
    );
    assert!(
        accounts
            .iter()
            .any(|a| a.address == "0xCarol" && a.balance == 300)
    );
}

#[test]
fn test_get_all_accounts_after_transfers() {
    let mut store = StateStore::new();

    // Setup and do transfers
    store.set_balance("0xAlice", 1000);
    store.set_balance("0xBob", 500);
    store.transfer("0xAlice", "0xBob", 200).unwrap();

    // Get all accounts
    let accounts = store.get_all_accounts();
    assert_eq!(accounts.len(), 2);

    // Check balances updated correctly
    let alice = accounts.iter().find(|a| a.address == "0xAlice").unwrap();
    let bob = accounts.iter().find(|a| a.address == "0xBob").unwrap();

    assert_eq!(alice.balance, 800);
    assert_eq!(bob.balance, 700);
    assert_eq!(alice.nonce, 1); // Nonce should increment
    assert_eq!(bob.nonce, 0);
}

#[test]
fn test_nonce_increments_on_transfer() {
    let mut store = StateStore::new();

    store.set_balance("0xAlice", 1000);
    store.set_balance("0xBob", 500);

    // Do multiple transfers
    store.transfer("0xAlice", "0xBob", 100).unwrap();
    store.transfer("0xAlice", "0xBob", 100).unwrap();
    store.transfer("0xAlice", "0xBob", 100).unwrap();

    // Check Alice's nonce incremented
    let alice = store.get_or_create_account("0xAlice");
    assert_eq!(alice.nonce, 3);

    // Check Bob's nonce didn't increment (he only received)
    let bob = store.get_or_create_account("0xBob");
    assert_eq!(bob.nonce, 0);
}

#[test]
fn test_get_transaction_by_id() {
    let mut store = StateStore::new();

    store.set_balance("0xAlice", 1000);
    store.set_balance("0xBob", 500);

    let tx = store.transfer("0xAlice", "0xBob", 100).unwrap();

    // Get transaction by ID
    let retrieved = store.get_transaction(&tx.txid);
    assert!(retrieved.is_some());

    let retrieved = retrieved.unwrap();
    assert_eq!(retrieved.txid, tx.txid);
    assert_eq!(retrieved.from, "0xAlice");
    assert_eq!(retrieved.to, "0xBob");
    assert_eq!(retrieved.amount, 100);
    assert_eq!(retrieved.status, TransactionStatus::Pending);

    // Try to get non-existent transaction
    let non_existent = store.get_transaction("fake-txid-123");
    assert!(non_existent.is_none());
}

#[test]
fn test_transfer_to_new_account() {
    let mut store = StateStore::new();

    // Only create sender account
    store.set_balance("0xAlice", 1000);

    // Transfer to non-existent account
    let tx = store.transfer("0xAlice", "0xNewAccount", 300).unwrap();

    // Check sender balance
    assert_eq!(store.get_balance("0xAlice"), Some(700));

    // Check receiver account was created with correct balance
    assert_eq!(store.get_balance("0xNewAccount"), Some(300));

    // Verify the new account exists
    let new_account = store.get_or_create_account("0xNewAccount");
    assert_eq!(new_account.balance, 300);
    assert_eq!(new_account.nonce, 0);
}

#[test]
fn test_transfer_from_non_existent_account() {
    let mut store = StateStore::new();

    store.set_balance("0xBob", 500);

    // Try to transfer from account that doesn't exist
    let result = store.transfer("0xNonExistent", "0xBob", 100);

    assert!(result.is_err());
    assert_eq!(result.unwrap_err(), "Sender account not found");
}

#[test]
fn test_confirm_non_existent_transaction() {
    let mut store = StateStore::new();

    let result = store.confirm_transaction("fake-txid");

    assert!(result.is_err());
    assert_eq!(result.unwrap_err(), "Transaction not found");
}

#[test]
fn test_multiple_transaction_confirmations() {
    let mut store = StateStore::new();

    store.set_balance("0xAlice", 1000);
    store.set_balance("0xBob", 500);

    // Create multiple transactions
    let tx1 = store.transfer("0xAlice", "0xBob", 100).unwrap();
    let tx2 = store.transfer("0xAlice", "0xBob", 200).unwrap();

    // Confirm first transaction
    store.confirm_transaction(&tx1.txid).unwrap();

    // Check status
    let confirmed_tx1 = store.get_transaction(&tx1.txid).unwrap();
    assert_eq!(confirmed_tx1.status, TransactionStatus::Confirmed);

    let pending_tx2 = store.get_transaction(&tx2.txid).unwrap();
    assert_eq!(pending_tx2.status, TransactionStatus::Pending);

    // Confirm second transaction
    store.confirm_transaction(&tx2.txid).unwrap();

    let confirmed_tx2 = store.get_transaction(&tx2.txid).unwrap();
    assert_eq!(confirmed_tx2.status, TransactionStatus::Confirmed);
}

#[test]
fn test_transaction_timestamp() {
    let mut store = StateStore::new();

    store.set_balance("0xAlice", 1000);
    store.set_balance("0xBob", 500);

    let before = std::time::SystemTime::now()
        .duration_since(std::time::UNIX_EPOCH)
        .unwrap()
        .as_secs();

    let tx = store.transfer("0xAlice", "0xBob", 100).unwrap();

    let after = std::time::SystemTime::now()
        .duration_since(std::time::UNIX_EPOCH)
        .unwrap()
        .as_secs();

    // Transaction timestamp should be between before and after
    assert!(tx.timestamp >= before);
    assert!(tx.timestamp <= after);
}

#[test]
fn test_complex_transaction_flow() {
    let mut store = StateStore::new();

    // Setup accounts
    store.set_balance("0xAlice", 10000);
    store.set_balance("0xBob", 5000);
    store.set_balance("0xCarol", 2000);

    // Create a series of transactions
    let tx1 = store.transfer("0xAlice", "0xBob", 1000).unwrap();
    let tx2 = store.transfer("0xBob", "0xCarol", 500).unwrap();
    let tx3 = store.transfer("0xCarol", "0xAlice", 300).unwrap();
    let tx4 = store.transfer("0xAlice", "0xCarol", 200).unwrap();

    // Confirm some transactions
    store.confirm_transaction(&tx1.txid).unwrap();
    store.confirm_transaction(&tx3.txid).unwrap();

    // Check final balances
    assert_eq!(store.get_balance("0xAlice"), Some(9100)); // 10000 - 1000 + 300 - 200
    assert_eq!(store.get_balance("0xBob"), Some(5500)); // 5000 + 1000 - 500
    assert_eq!(store.get_balance("0xCarol"), Some(2400)); // 2000 + 500 - 300 + 200

    // Check transaction statuses
    assert_eq!(
        store.get_transaction(&tx1.txid).unwrap().status,
        TransactionStatus::Confirmed
    );
    assert_eq!(
        store.get_transaction(&tx2.txid).unwrap().status,
        TransactionStatus::Pending
    );
    assert_eq!(
        store.get_transaction(&tx3.txid).unwrap().status,
        TransactionStatus::Confirmed
    );
    assert_eq!(
        store.get_transaction(&tx4.txid).unwrap().status,
        TransactionStatus::Pending
    );

    // Check transaction counts per address
    assert_eq!(store.get_transactions_for_address("0xAlice").len(), 3);
    assert_eq!(store.get_transactions_for_address("0xBob").len(), 2);
    assert_eq!(store.get_transactions_for_address("0xCarol").len(), 3);

    // Check nonces
    let alice = store.get_or_create_account("0xAlice");
    let bob = store.get_or_create_account("0xBob");
    let carol = store.get_or_create_account("0xCarol");

    assert_eq!(alice.nonce, 2); // Sent twice
    assert_eq!(bob.nonce, 1); // Sent once
    assert_eq!(carol.nonce, 1); // Sent once
}

#[test]
fn transfer_with_records_given_id_and_time() {
    let mut store = StateStore::new();
    store.set_balance("0xAlice", 1000);
    let tx = store
        .transfer_with("0xAlice", "0xBob", 250, "tx-1".to_string(), 1_700_000_000)
        .unwrap();
    assert_eq!(tx.txid, "tx-1");
    assert_eq!(tx.timestamp, 1_700_000_000);
    assert_eq!(tx.status, TransactionStatus::Pending);
    assert_eq!(store.get_transaction("tx-1"), Some(tx));
    assert_eq!(store.get_balance("0xAlice"), Some(750));
    assert_eq!(store.get_balance("0xBob"), Some(250));
}

#[test]
fn transfer_to_self_keeps_balance_and_bumps_nonce() {
    let mut store = StateStore::new();
    store.set_balance("0xAlice", 1000);
    store.transfer_with("0xAlice", "0xAlice", 400, "tx-1".to_string(), 7).unwrap();
    let alice = store.get_or_create_account("0xAlice");
    assert_eq!(alice.balance, 1000);
    assert_eq!(alice.nonce, 1);
}

#[test]
fn transfer_of_whole_balance_is_allowed() {
    let mut store = StateStore::new();
    store.set_balance("0xAlice", 1000);
    assert!(store.transfer("0xAlice", "0xBob", 1000).is_ok());
    assert_eq!(store.get_balance("0xAlice"), Some(0));
    assert_eq!(store.get_balance("0xBob"), Some(1000));
}

#[test]
fn refused_transfer_changes_nothing() {
    let mut store = StateStore::new();
    store.set_balance("0xAlice", 100);
    store.set_balance("0xBob", u64::MAX);
    let r = store.transfer_with("0xAlice", "0xBob", 1, "tx-1".to_string(), 7);
    assert_eq!(r.unwrap_err(), "Receiver balance overflow");
    assert_eq!(store.get_balance("0xAlice"), Some(100));
    assert_eq!(store.get_balance("0xBob"), Some(u64::MAX));
    assert_eq!(store.get_transaction("tx-1"), None);
    let alice = store.get_or_create_account("0xAlice");
    assert_eq!(alice.nonce, 0);
    let r = store.transfer_with("0xAlice", "0xCarol", 101, "tx-2".to_string(), 7);
    assert_eq!(r.unwrap_err(), "Insufficient balance");
    assert_eq!(store.get_balance("0xCarol"), None);
}

#[test]
fn set_balance_keeps_nonce() {
    let mut store = StateStore::new();
    store.set_balance("0xAlice", 1000);
    store.transfer("0xAlice", "0xBob", 1).unwrap();
    store.set_balance("0xAlice", 5);
    let alice = store.get_or_create_account("0xAlice");
    assert_eq!(alice.balance, 5);
    assert_eq!(alice.nonce, 1);
    assert_eq!(store.get_all_accounts().len(), 2);
}

#[test]
fn fresh_transaction_ids_differ() {
    let mut store = StateStore::new();
    store.set_balance("0xAlice", 1000);
    let a = store.transfer("0xAlice", "0xBob", 1).unwrap();
    let b = store.transfer("0xAlice", "0xBob", 1).unwrap();
    assert_ne!(a.txid, b.txid);
    assert_eq!(a.txid.len(), 36);
    assert_eq!(store.get_transactions_for_address("0xBob").len(), 2);
}

#[test]
fn transactions_come_in_recorded_order() {
    let mut store = StateStore::new();
    store.set_balance("0xAlice", 1000);
    store.transfer_with("0xAlice", "0xBob", 1, "a".to_string(), 1).unwrap();
    store.transfer_with("0xAlice", "0xCarol", 2, "b".to_string(), 2).unwrap();
    store.transfer_with("0xBob", "0xAlice", 1, "c".to_string(), 3).unwrap();
    let ids: Vec<String> =
        store.get_transactions_for_address("0xAlice").into_iter().map(|t| t.txid).collect();
    assert_eq!(ids, vec!["a".to_string(), "b".to_string(), "c".to_string()]);
    let ids: Vec<String> =
        store.get_transactions_for_address("0xBob").into_iter().map(|t| t.txid).collect();
    assert_eq!(ids, vec!["a".to_string(), "c".to_string()]);
}

#[test]
fn default_store_is_empty() {
    let store = StateStore::default();
    assert_eq!(store.get_all_accounts().len(), 0);
    assert_eq!(store.get_balance("0xAlice"), None);
    assert_eq!(store.get_transaction("tx"), None);
}
