use neuradesci_core::blockchain::{
    Block, Blockchain, ChainFault, EthereumConnector, Transaction, TransactionStatus, TransactionType,
};
use neuradesci_core::crypto;
use neuradesci_core::error::LedgerError;

fn signed(sender: &str, data: &str) -> Transaction {
    let (private_key, _) = crypto::generate_keypair();
    let mut tx = Transaction::new(TransactionType::DataSubmission, sender, data);
    tx.sign(&private_key).unwrap();
    tx
}

#[test]
fn signed_transaction_keeps_fields_and_status() {
    let (private_key, public_key) = crypto::generate_keypair();
    let mut tx = Transaction::new(TransactionType::DataSubmission, "sender123", "测试数据提交")
        .with_recipient("recipient456")
        .with_gas_fee(21000);
    let before = tx.clone();
    tx.sign(&private_key).unwrap();
    assert!(tx.signature.is_some());
    assert_eq!(tx.id, before.id);
    assert_eq!(tx.recipient, Some("recipient456".to_string()));
    assert_eq!(tx.gas_fee, Some(21000));
    assert_eq!(tx.status, TransactionStatus::Pending);
    // The placeholder scheme accepts a signature only for the key derived
    // from the signature itself, not for the signer's public key.
    assert!(!tx.verify_signature(&public_key));
    let own = crypto::hash_sha256(tx.signature.as_ref().unwrap());
    assert!(tx.verify_signature(&own[..40]));
}

#[test]
fn test_block_mining() {
    let mut block = Block::new(1, "previous_hash", Vec::new(), 2);
    block.mine();

    assert!(block.is_valid());
    assert!(block.hash.starts_with("00"));
}

#[test]
fn test_blockchain_creation() {
    let blockchain = Blockchain::new(2, 50);

    assert_eq!(blockchain.chain.len(), 1);
    assert_eq!(blockchain.chain[0].index, 0);
    assert_eq!(blockchain.chain[0].previous_hash, "0");
}

#[test]
fn fresh_chain_is_valid_with_genesis() {
    let blockchain = Blockchain::new(2, 50);
    assert!(blockchain.is_chain_valid());
    assert!(blockchain.chain[0].transactions.is_empty());
    assert_eq!(blockchain.chain[0].nonce, 0);
    assert!(blockchain.pending_transactions.is_empty());
    assert_eq!(blockchain.get_latest_block().unwrap().index, 0);
}

#[test]
fn transaction_id_is_digest_of_sender_time_and_data() {
    let tx = Transaction::new_at(TransactionType::DataSubmission, "alice", "sample", 123);
    assert_eq!(tx.id, "5661820ef0992115e11f01c582c320916160a82add015f4d63214e1662428350");
    assert_eq!(tx.timestamp, 123);
    assert_eq!(tx.recipient, None);
    assert_eq!(tx.signature, None);
    assert_eq!(tx.gas_fee, None);
    assert_eq!(tx.status, TransactionStatus::Pending);
}

#[test]
fn builders_set_recipient_and_fee() {
    let tx = Transaction::new_at(TransactionType::DataAccess, "alice", "sample", 123)
        .with_recipient("bob")
        .with_gas_fee(7);
    assert_eq!(tx.recipient, Some("bob".to_string()));
    assert_eq!(tx.gas_fee, Some(7));
    assert_eq!(tx.id, "5661820ef0992115e11f01c582c320916160a82add015f4d63214e1662428350");
}

#[test]
fn signing_uses_canonical_text() {
    let mut tx = Transaction::new_at(TransactionType::DataSubmission, "alice", "sample", 123);
    tx.sign("key").unwrap();
    assert_eq!(
        tx.signature,
        Some("3d3fa8b9560a2c329178eacaa35fe18ec0034eac5adf14e7aeeb65e1b3df0fff".to_string())
    );
    assert!(tx.verify_signature("e1528e5675c037d262a9f8b54ba6170c9f6c684b"));
    assert!(!tx.verify_signature("e1528e5675c037d262a9f8b54ba6170c9f6c684c"));

    let mut with_recipient =
        Transaction::new_at(TransactionType::DataSubmission, "alice", "sample", 123).with_recipient("bob");
    with_recipient.sign("key").unwrap();
    assert_eq!(
        with_recipient.signature,
        Some("7a771264ed3f7bba238848eb539ab38b42eb5b3ae947b6507655387a3120c642".to_string())
    );
}

#[test]
fn unsigned_transaction_does_not_verify() {
    let tx = Transaction::new_at(TransactionType::DataSubmission, "alice", "sample", 123);
    assert!(!tx.verify_signature("e1528e5675c037d262a9f8b54ba6170c9f6c684b"));
}

#[test]
fn block_hash_is_digest_of_its_fields() {
    let block = Block::new_at(1, "prev", Vec::new(), 0, 1000);
    assert_eq!(block.hash, "cd0bf49c26182f0b1a68aee1a72bc399e39b696c332ba134047e97049eede9bd");
    assert_eq!(block.calculate_hash(), block.hash);
    assert!(block.is_valid());
}

#[test]
fn mining_finds_the_first_nonce() {
    let mut block = Block::new_at(1, "prev", Vec::new(), 1, 1000);
    assert!(block.mine());
    assert_eq!(block.nonce, 15);
    assert_eq!(block.hash, "0f737aee42392c8bffcd56fb18b1329e9db5c679c39cdfcf609226f76f5e71dd");
    assert!(block.is_valid());
}

#[test]
fn mining_at_difficulty_zero_keeps_nonce() {
    let mut block = Block::new(3, "abc", Vec::new(), 0);
    assert!(block.mine());
    assert_eq!(block.nonce, 0);
    assert!(block.is_valid());
}

#[test]
fn unmined_block_lacks_work() {
    let block = Block::new_at(1, "prev", Vec::new(), 1, 1000);
    assert!(!block.is_valid());
}

#[test]
fn add_transaction_rejects_unsigned() {
    let mut chain = Blockchain::new(1, 10);
    let tx = Transaction::new(TransactionType::DataSubmission, "alice", "sample");
    assert_eq!(chain.add_transaction(tx), Err(LedgerError::InvalidTransaction));
    assert!(chain.pending_transactions.is_empty());
}

#[test]
fn add_transaction_accepts_any_signature() {
    let mut chain = Blockchain::new(1, 10);
    let mut tx = Transaction::new(TransactionType::DataSubmission, "alice", "sample");
    tx.signature = Some("not a real signature".to_string());
    assert_eq!(chain.add_transaction(tx.clone()), Ok(()));
    assert_eq!(chain.pending_transactions, vec![tx]);
}

#[test]
fn mining_empty_pool_fails() {
    let mut chain = Blockchain::new(1, 10);
    assert_eq!(chain.mine_pending_transactions("bob").unwrap_err(), LedgerError::EmptyPool);
    assert_eq!(chain.chain.len(), 1);
}

#[test]
fn mining_without_chain_fails() {
    let mut chain = Blockchain::new(1, 10);
    chain.add_transaction(signed("alice", "sample")).unwrap();
    chain.chain.clear();
    assert_eq!(chain.mine_pending_transactions("bob").unwrap_err(), LedgerError::ChainEmpty);
    assert_eq!(chain.pending_transactions.len(), 1);
    assert!(!chain.is_chain_valid());
}

#[test]
fn mining_past_the_last_index_fails() {
    let mut chain = Blockchain::new(0, 10);
    chain.add_transaction(signed("alice", "sample")).unwrap();
    chain.chain[0].index = u64::MAX;
    assert_eq!(chain.mine_pending_transactions("bob").unwrap_err(), LedgerError::InvalidBlock);
    assert_eq!(chain.chain.len(), 1);
    assert_eq!(chain.pending_transactions.len(), 1);
}

#[test]
fn end_to_end_mining_round() {
    let mut chain = Blockchain::new(1, 10);
    let (private_key, _) = crypto::generate_keypair();
    let mut tx = Transaction::new(TransactionType::DataSubmission, "alice", "sample");
    tx.sign(&private_key).unwrap();
    let original_id = tx.id.clone();
    assert_eq!(chain.add_transaction(tx.clone()), Ok(()));

    let block = chain.mine_pending_transactions("bob").unwrap();
    assert_eq!(block.transactions.len(), 2);
    assert_eq!(block.transactions[0], tx);
    let reward = &block.transactions[1];
    assert_eq!(reward.transaction_type, TransactionType::TokenTransfer);
    assert_eq!(reward.sender, "System");
    assert_eq!(reward.recipient, Some("bob".to_string()));
    assert_eq!(reward.data, "Reward: 10");
    assert_eq!(block.index, 1);
    assert_eq!(block.previous_hash, chain.chain[0].hash);
    assert!(block.hash.starts_with('0'));

    assert_eq!(chain.chain.len(), 2);
    assert_eq!(chain.chain[1], block);
    assert!(chain.pending_transactions.is_empty());
    assert!(chain.is_chain_valid());
    assert_eq!(chain.find_transaction(&original_id), Some(&tx));
}

#[test]
fn reward_transaction_at_fixed_time() {
    let mut chain = Blockchain::new(0, 10);
    chain.add_transaction(signed("alice", "sample")).unwrap();
    let block = chain.mine_pending_transactions_at("bob", 5).unwrap();
    let reward = &block.transactions[1];
    assert_eq!(reward.id, "6038e3b95cd736972cf3d8158d022e5de97abc1c7f739d6d1f6163d99b061f62");
    assert_eq!(reward.timestamp, 5);
    assert_eq!(block.timestamp, 5);
    assert_eq!(block.nonce, 0);
}

#[test]
fn find_transaction_prefers_pool_then_chain_order() {
    let mut chain = Blockchain::new(0, 10);
    let first = signed("alice", "one");
    chain.add_transaction(first.clone()).unwrap();
    chain.mine_pending_transactions("bob").unwrap();
    let mut second = signed("carol", "two");
    second.id = first.id.clone();
    chain.add_transaction(second.clone()).unwrap();
    assert_eq!(chain.find_transaction(&first.id), Some(&second));
    chain.mine_pending_transactions("bob").unwrap();
    assert_eq!(chain.find_transaction(&first.id), Some(&first));
    assert_eq!(chain.find_transaction("missing"), None);
}

#[test]
fn tampering_with_a_committed_block_is_detected() {
    let mut chain = Blockchain::new(1, 10);
    chain.add_transaction(signed("alice", "sample")).unwrap();
    chain.mine_pending_transactions("bob").unwrap();
    assert!(chain.is_chain_valid());

    let mut tampered = chain.chain[1].clone();
    tampered.transactions[0].id = "forged".to_string();
    assert!(!tampered.is_valid());

    chain.chain[1].transactions[0].id = "forged".to_string();
    assert!(!chain.chain[1].is_valid());
    assert!(!chain.is_chain_valid());
}

#[test]
fn tampering_with_each_field_is_detected() {
    let mut chain = Blockchain::new(1, 10);
    chain.add_transaction(signed("alice", "sample")).unwrap();
    chain.mine_pending_transactions("bob").unwrap();
    let committed = chain.chain[1].clone();

    let mut b = committed.clone();
    b.index += 1;
    assert!(!b.is_valid());
    let mut b = committed.clone();
    b.timestamp += 1;
    assert!(!b.is_valid());
    let mut b = committed.clone();
    b.previous_hash.push('x');
    assert!(!b.is_valid());
    let mut b = committed.clone();
    b.nonce += 1;
    assert!(!b.is_valid());
    let mut b = committed.clone();
    b.transactions.pop();
    assert!(!b.is_valid());
    let mut b = committed.clone();
    b.hash = "0".repeat(64);
    assert!(!b.is_valid());
}

#[test]
fn broken_link_invalidates_chain() {
    let mut chain = Blockchain::new(0, 10);
    chain.add_transaction(signed("alice", "sample")).unwrap();
    chain.mine_pending_transactions("bob").unwrap();
    chain.chain[0].hash = "different".to_string();
    assert!(!chain.is_chain_valid());
}

#[test]
fn ethereum_connector_results() {
    let connector = EthereumConnector::new("http://localhost:8545", 1);
    assert_eq!(connector.endpoint, "http://localhost:8545");
    assert_eq!(connector.chain_id, 1);
    assert_eq!(
        connector.submission_receipt_at("payload", 21000, 1000),
        "16e69ccabfd58b06560af73113550d7106a066ab0d1744becf9e255e0b73f382"
    );
    assert_eq!(connector.contract_call_result("transfer"), "合约执行结果_27f576ca");
    assert_eq!(connector.submission_receipt("payload", 21000).len(), 64);
}

#[test]
fn validate_chain_names_first_fault() {
    let mut chain = Blockchain::new(0, 10);
    assert_eq!(chain.validate_chain(), Ok(()));
    chain.add_transaction(signed("alice", "one")).unwrap();
    chain.mine_pending_transactions("bob").unwrap();
    chain.add_transaction(signed("alice", "two")).unwrap();
    chain.mine_pending_transactions("bob").unwrap();
    assert_eq!(chain.validate_chain(), Ok(()));

    let mut gap = Blockchain { chain: chain.chain.clone(), pending_transactions: Vec::new(), difficulty: 0, mining_reward: 10 };
    gap.chain[2].index = 7;
    assert_eq!(gap.validate_chain(), Err((2, ChainFault::IndexGap)));

    let mut link = Blockchain { chain: chain.chain.clone(), pending_transactions: Vec::new(), difficulty: 0, mining_reward: 10 };
    link.chain[1].previous_hash = "elsewhere".to_string();
    assert_eq!(link.validate_chain(), Err((1, ChainFault::BrokenLink)));

    let mut seal = Blockchain { chain: chain.chain.clone(), pending_transactions: Vec::new(), difficulty: 0, mining_reward: 10 };
    seal.chain[2].timestamp += 1;
    assert_eq!(seal.validate_chain(), Err((2, ChainFault::BadSeal)));
    assert!(!seal.is_chain_valid());

    let empty = Blockchain { chain: Vec::new(), pending_transactions: Vec::new(), difficulty: 0, mining_reward: 10 };
    assert_eq!(empty.validate_chain(), Err((0, ChainFault::Empty)));
    assert!(empty.get_latest_block().is_none());
}

#[test]
fn data_access_transaction_is_signed() {
    let tx = neuradesci_core::create_neural_data_transaction("r1", "r2", "QmData", "key").unwrap();
    assert_eq!(tx.transaction_type, TransactionType::DataAccess);
    assert_eq!(tx.data, "Access granted to data: QmData");
    assert_eq!(tx.recipient, Some("r2".to_string()));
    assert_eq!(tx.gas_fee, Some(21000));
    let mut unsigned = tx.clone();
    unsigned.signature = None;
    unsigned.sign("key").unwrap();
    assert_eq!(unsigned.signature, tx.signature);
}
