//! Core of a minimal append-only research ledger: signed transactions are
//! pooled, batched into proof-of-work blocks and linked into a chain whose
//! integrity can be re-checked at any time.

use vstd::prelude::*;
use vstd::string::*;

pub mod error;
pub mod encoding;
pub mod crypto;
pub mod blockchain;
pub mod ipfs;
pub mod neural_data;
pub mod records;

verus! {

/// The lowercase hexadecimal SHA-256 digest of a text.
pub fn hash_data(data: &str) -> (r: String)
    ensures
        r@ == crypto::digest_hex(data@),
{
    crypto::hash_sha256(data)
}

/// Encrypt text with a hex-encoded key; see `crypto::encrypt`.
pub fn encrypt_data(data: &str, key: &str) -> (r: Result<String, crypto::CryptoError>)
    ensures
        crypto::encrypt_outcome(data.spec_bytes(), key.spec_bytes(), r),
{
    crypto::encrypt(data, key)
}

/// Decrypt hex text with a hex-encoded key; see `crypto::decrypt`.
pub fn decrypt_data(encrypted_data: &str, key: &str) -> (r: Result<String, crypto::CryptoError>)
    ensures
        crypto::decrypt_outcome(encrypted_data.spec_bytes(), key.spec_bytes(), r),
{
    crypto::decrypt(encrypted_data, key)
}

/// The text a data-access grant carries.
pub open spec fn access_grant_text(data_id: Seq<char>) -> Seq<char> {
    "Access granted to data: "@ + data_id
}

/// A signed data-access transaction from `sender` to `recipient` for
/// `data_id`, with the standard fee.
pub fn create_neural_data_transaction(
    sender: &str,
    recipient: &str,
    data_id: &str,
    private_key: &str,
) -> (r: Result<blockchain::Transaction, error::LedgerError>)
    ensures
        r matches Ok(t) && {
            &&& t.transaction_type == blockchain::TransactionType::DataAccess
            &&& t.id@ == blockchain::transaction_id(sender@, t.timestamp, access_grant_text(data_id@))
            &&& t.sender@ == sender@
            &&& t.recipient matches Some(to) && to@ == recipient@
            &&& t.data@ == access_grant_text(data_id@)
            &&& t.gas_fee == Some(21000u64)
            &&& t.status == blockchain::TransactionStatus::Pending
            &&& t.signature matches Some(sig) && sig@ == crypto::signature_of(
                t.signing_text(),
                private_key@,
            )
        },
{
    let data = String::from_str("Access granted to data: ").concat(data_id);
    let mut tx = blockchain::Transaction::new(blockchain::TransactionType::DataAccess, sender, data.as_str())
        .with_recipient(recipient)
        .with_gas_fee(21000);
    tx.sign(private_key)?;
    Ok(tx)
}

/// The content id handed out for uploads where no store node is reachable.
pub fn upload_to_ipfs(data: &str) -> (r: String)
    ensures
        r@ == "QmSampleHashIPFSStub12345"@,
{
    let _ = data;
    String::from_str("QmSampleHashIPFSStub12345")
}

} // verus!
