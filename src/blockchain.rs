//! Transactions, proof-of-work blocks and the chain that links them.

use vstd::prelude::*;
use vstd::string::*;
use crate::crypto::{digest_hex, hash_sha256, sign_data, signature_accepted, signature_of, verify_signature};
use crate::encoding::{decimal, decimal_string};
use crate::error::LedgerError;

verus! {

/// Relies on `SystemTime::now` and `duration_since(UNIX_EPOCH)`: the current
/// time in whole seconds since the Unix epoch; a clock set before the epoch
/// reads as zero.
#[verifier::external_body]
pub(crate) fn unix_now_secs() -> (r: u64) {
    std::time::SystemTime::now()
        .duration_since(std::time::UNIX_EPOCH)
        .map(|d| d.as_secs())
        .unwrap_or(0)
}

/// What a transaction does.
#[derive(Debug, Clone, PartialEq, Eq)]
pub enum TransactionType {
    DataSubmission,
    DataAccess,
    CredentialVerification,
    TokenTransfer,
    SmartContractInteraction,
    Custom(String),
}

impl TransactionType {
    /// A copy of this kind.
    pub fn duplicate(&self) -> (r: Self)
        ensures
            r == *self,
    {
        match self {
            TransactionType::DataSubmission => TransactionType::DataSubmission,
            TransactionType::DataAccess => TransactionType::DataAccess,
            TransactionType::CredentialVerification => TransactionType::CredentialVerification,
            TransactionType::TokenTransfer => TransactionType::TokenTransfer,
            TransactionType::SmartContractInteraction => TransactionType::SmartContractInteraction,
            TransactionType::Custom(name) => TransactionType::Custom(name.clone()),
        }
    }
}

/// Where a transaction stands.
#[derive(Debug, Clone, Copy, PartialEq, Eq, Structural)]
pub enum TransactionStatus {
    Pending,
    Confirmed,
    Failed,
    Rejected,
}

/// A signed intent with a fixed identity.
#[derive(Debug, Clone, PartialEq, Eq)]
pub struct Transaction {
    pub id: String,
    pub transaction_type: TransactionType,
    pub sender: String,
    pub recipient: Option<String>,
    pub timestamp: u64,
    pub data: String,
    pub signature: Option<String>,
    pub gas_fee: Option<u64>,
    pub status: TransactionStatus,
}

/// The identity of a transaction: the digest of sender, time and payload.
pub open spec fn transaction_id(sender: Seq<char>, timestamp: u64, data: Seq<char>) -> Seq<char> {
    digest_hex(sender + decimal(timestamp as nat) + data)
}

/// The text of an optional string, empty when absent.
pub open spec fn text_or_empty(o: Option<String>) -> Seq<char> {
    match o {
        Some(s) => s@,
        None => Seq::empty(),
    }
}

fn duplicate_text(o: &Option<String>) -> (r: Option<String>)
    ensures
        r == *o,
{
    match o {
        Some(s) => Some(s.clone()),
        None => None,
    }
}

impl Transaction {
    /// The canonical text that is signed: `id:sender:recipient:timestamp:data`.
    pub open spec fn signing_text(&self) -> Seq<char> {
        self.id@ + ":"@ + self.sender@ + ":"@ + text_or_empty(self.recipient) + ":"@
            + decimal(self.timestamp as nat) + ":"@ + self.data@
    }

    /// Whether `self` is a freshly created transaction of the given kind,
    /// sender, payload and time.
    pub open spec fn is_fresh(
        &self,
        transaction_type: TransactionType,
        sender: Seq<char>,
        data: Seq<char>,
        timestamp: u64,
    ) -> bool {
        &&& self.id@ == transaction_id(sender, timestamp, data)
        &&& self.transaction_type == transaction_type
        &&& self.sender@ == sender
        &&& self.recipient is None
        &&& self.timestamp == timestamp
        &&& self.data@ == data
        &&& self.signature is None
        &&& self.gas_fee is None
        &&& self.status == TransactionStatus::Pending
    }

    /// Whether `other` equals `self` except, possibly, for the signature.
    pub open spec fn same_but_signature(&self, other: Transaction) -> bool {
        &&& other.id == self.id
        &&& other.transaction_type == self.transaction_type
        &&& other.sender == self.sender
        &&& other.recipient == self.recipient
        &&& other.timestamp == self.timestamp
        &&& other.data == self.data
        &&& other.gas_fee == self.gas_fee
        &&& other.status == self.status
    }

    /// A new pending, unsigned transaction stamped with the given time.
    pub fn new_at(transaction_type: TransactionType, sender: &str, data: &str, timestamp: u64) -> (r: Self)
        ensures
            r.is_fresh(transaction_type, sender@, data@, timestamp),
    {
        let ts = decimal_string(timestamp);
        let text = String::from_str(sender).concat(ts.as_str()).concat(data);
        let id = hash_sha256(text.as_str());
        Transaction {
            id,
            transaction_type,
            sender: String::from_str(sender),
            recipient: None,
            timestamp,
            data: String::from_str(data),
            signature: None,
            gas_fee: None,
            status: TransactionStatus::Pending,
        }
    }

    /// A new pending, unsigned transaction stamped with the current time.
    pub fn new(transaction_type: TransactionType, sender: &str, data: &str) -> (r: Self)
        ensures
            r.is_fresh(transaction_type, sender@, data@, r.timestamp),
    {
        let now = unix_now_secs();
        Self::new_at(transaction_type, sender, data, now)
    }

    /// The same transaction, addressed to `recipient`.
    pub fn with_recipient(self, recipient: &str) -> (r: Self)
        ensures
            r.recipient matches Some(s) && s@ == recipient@,
            (Transaction { recipient: r.recipient, ..self }) == r,
    {
        let mut tx = self;
        tx.recipient = Some(String::from_str(recipient));
        tx
    }

    /// The same transaction, with a fee.
    pub fn with_gas_fee(self, gas_fee: u64) -> (r: Self)
        ensures
            (Transaction { gas_fee: Some(gas_fee), ..self }) == r,
    {
        let mut tx = self;
        tx.gas_fee = Some(gas_fee);
        tx
    }

    /// A copy of this transaction.
    pub fn duplicate(&self) -> (r: Self)
        ensures
            r == *self,
    {
        Transaction {
            id: self.id.clone(),
            transaction_type: self.transaction_type.duplicate(),
            sender: self.sender.clone(),
            recipient: duplicate_text(&self.recipient),
            timestamp: self.timestamp,
            data: self.data.clone(),
            signature: duplicate_text(&self.signature),
            gas_fee: self.gas_fee,
            status: self.status,
        }
    }

    fn to_signing_string(&self) -> (r: String)
        ensures
            r@ == self.signing_text(),
    {
        let recipient = match &self.recipient {
            Some(s) => s.clone(),
            None => String::new(),
        };
        let ts = decimal_string(self.timestamp);
        String::from_str(self.id.as_str())
            .concat(":")
            .concat(self.sender.as_str())
            .concat(":")
            .concat(recipient.as_str())
            .concat(":")
            .concat(ts.as_str())
            .concat(":")
            .concat(self.data.as_str())
    }

    /// Sign the transaction's canonical text with a private key and keep the
    /// signature; every other field stays as it was.
    pub fn sign(&mut self, private_key: &str) -> (r: Result<(), LedgerError>)
        ensures
            old(self).same_but_signature(*final(self)),
            r is Ok,
            final(self).signature matches Some(s) && s@ == signature_of(
                old(self).signing_text(),
                private_key@,
            ),
    {
        let message = self.to_signing_string();
        match sign_data(message.as_str(), private_key) {
            Ok(signature) => {
                self.signature = Some(signature);
                Ok(())
            },
            Err(_) => Err(LedgerError::SigningFailure),
        }
    }

    /// Whether the stored signature is accepted for `public_key`; false when
    /// the transaction is unsigned.
    pub fn verify_signature(&self, public_key: &str) -> (r: bool)
        ensures
            r == match self.signature {
                Some(s) => signature_accepted(s@, public_key@),
                None => false,
            },
    {
        match &self.signature {
            Some(signature) => {
                let message = self.to_signing_string();
                verify_signature(message.as_str(), signature.as_str(), public_key)
            },
            None => false,
        }
    }
}

/// An ordered batch of transactions, linked to its predecessor by hash and
/// sealed by proof of work.
#[derive(Debug, Clone, PartialEq, Eq)]
pub struct Block {
    pub index: u64,
    pub timestamp: u64,
    pub transactions: Vec<Transaction>,
    pub previous_hash: String,
    pub hash: String,
    pub nonce: u64,
    pub difficulty: u8,
}

/// The ids of the transactions, concatenated in order.
pub open spec fn ids_text(txs: Seq<Transaction>) -> Seq<char>
    decreases txs.len(),
{
    if txs.len() == 0 {
        Seq::empty()
    } else {
        ids_text(txs.drop_last()) + txs.last().id@
    }
}

/// The text a block's hash is the digest of.
pub open spec fn block_preimage(
    index: u64,
    previous_hash: Seq<char>,
    timestamp: u64,
    txs: Seq<Transaction>,
    nonce: u64,
) -> Seq<char> {
    decimal(index as nat) + previous_hash + decimal(timestamp as nat) + ids_text(txs) + decimal(
        nonce as nat,
    )
}

/// The hash of a block with these contents.
pub open spec fn block_digest(
    index: u64,
    previous_hash: Seq<char>,
    timestamp: u64,
    txs: Seq<Transaction>,
    nonce: u64,
) -> Seq<char> {
    digest_hex(block_preimage(index, previous_hash, timestamp, txs, nonce))
}

/// Whether a hash starts with at least `difficulty` `'0'` characters.
pub open spec fn meets_difficulty(hash: Seq<char>, difficulty: nat) -> bool {
    difficulty <= hash.len() && forall|i: int| 0 <= i < difficulty ==> hash[i] == '0'
}

/// Whether some nonce gives a block with these contents a hash that meets
/// the difficulty.
pub open spec fn work_possible(
    index: u64,
    previous_hash: Seq<char>,
    timestamp: u64,
    txs: Seq<Transaction>,
    difficulty: u8,
) -> bool {
    exists|n: u64|
        meets_difficulty(
            #[trigger] block_digest(index, previous_hash, timestamp, txs, n),
            difficulty as nat,
        )
}

fn has_zero_prefix(hash: &String, difficulty: u8) -> (r: bool)
    ensures
        r == meets_difficulty(hash@, difficulty as nat),
{
    let text = hash.as_str();
    let len = text.unicode_len();
    if difficulty as usize > len {
        return false;
    }
    let mut i: usize = 0;
    while i < difficulty as usize
        invariant
            i <= difficulty,
            difficulty <= hash@.len(),
            text@ == hash@,
            forall|j: int| 0 <= j < i ==> hash@[j] == '0',
        decreases difficulty - i,
    {
        if text.get_char(i) != '0' {
            return false;
        }
        i = i + 1;
    }
    true
}

fn duplicate_all(txs: &Vec<Transaction>) -> (r: Vec<Transaction>)
    ensures
        r@ == txs@,
{
    let mut out: Vec<Transaction> = Vec::new();
    let mut i: usize = 0;
    while i < txs.len()
        invariant
            i <= txs@.len(),
            out@ == txs@.subrange(0, i as int),
        decreases txs@.len() - i,
    {
        out.push(txs[i].duplicate());
        i = i + 1;
    }
    assert(out@ =~= txs@);
    out
}

impl Block {
    /// The hash this block's current contents call for.
    pub open spec fn computed_hash(&self) -> Seq<char> {
        block_digest(self.index, self.previous_hash@, self.timestamp, self.transactions@, self.nonce)
    }

    /// Whether the stored hash is the one the contents call for and meets the
    /// difficulty.
    pub open spec fn sealed(&self) -> bool {
        self.hash@ == self.computed_hash() && meets_difficulty(self.hash@, self.difficulty as nat)
    }

    /// Whether `other` has the same contents as `self`, nonce and hash aside.
    pub open spec fn same_contents(&self, other: Block) -> bool {
        &&& other.index == self.index
        &&& other.timestamp == self.timestamp
        &&& other.transactions@ == self.transactions@
        &&& other.previous_hash@ == self.previous_hash@
        &&& other.difficulty == self.difficulty
    }

    /// A new block stamped with the given time, nonce zero, its hash computed.
    pub fn new_at(
        index: u64,
        previous_hash: &str,
        transactions: Vec<Transaction>,
        difficulty: u8,
        timestamp: u64,
    ) -> (r: Self)
        ensures
            r.index == index,
            r.timestamp == timestamp,
            r.transactions@ == transactions@,
            r.previous_hash@ == previous_hash@,
            r.nonce == 0,
            r.difficulty == difficulty,
            r.hash@ == r.computed_hash(),
    {
        let mut block = Block {
            index,
            timestamp,
            transactions,
            previous_hash: String::from_str(previous_hash),
            hash: String::new(),
            nonce: 0,
            difficulty,
        };
        block.hash = block.calculate_hash();
        block
    }

    /// A new block stamped with the current time, nonce zero, its hash computed.
    pub fn new(index: u64, previous_hash: &str, transactions: Vec<Transaction>, difficulty: u8) -> (r: Self)
        ensures
            r.index == index,
            r.transactions@ == transactions@,
            r.previous_hash@ == previous_hash@,
            r.nonce == 0,
            r.difficulty == difficulty,
            r.hash@ == r.computed_hash(),
    {
        let now = unix_now_secs();
        Self::new_at(index, previous_hash, transactions, difficulty, now)
    }

    /// The digest of index, previous hash, time, the transaction ids in order
    /// and the nonce.
    pub fn calculate_hash(&self) -> (r: String)
        ensures
            r@ == self.computed_hash(),
            r@.len() == 64,
    {
        let mut tx_data = String::new();
        let mut i: usize = 0;
        while i < self.transactions.len()
            invariant
                i <= self.transactions@.len(),
                tx_data@ == ids_text(self.transactions@.subrange(0, i as int)),
            decreases self.transactions@.len() - i,
        {
            proof {
                assert(self.transactions@.subrange(0, i + 1).drop_last()
                    =~= self.transactions@.subrange(0, i as int));
            }
            tx_data.append(self.transactions[i].id.as_str());
            i = i + 1;
        }
        assert(self.transactions@.subrange(0, i as int) =~= self.transactions@);
        let index = decimal_string(self.index);
        let timestamp = decimal_string(self.timestamp);
        let nonce = decimal_string(self.nonce);
        let text = index.concat(self.previous_hash.as_str())
            .concat(timestamp.as_str())
            .concat(tx_data.as_str())
            .concat(nonce.as_str());
        hash_sha256(text.as_str())
    }

    /// Proof-of-work search: from the current nonce upward, the first nonce
    /// whose hash meets the difficulty. Returns false, with the nonce at its
    /// maximum, when no nonce up to the maximum does.
    pub fn mine(&mut self) -> (found: bool)
        ensures
            old(self).same_contents(*final(self)),
            final(self).hash@ == final(self).computed_hash(),
            old(self).nonce <= final(self).nonce,
            forall|n: u64|
                old(self).nonce <= n < final(self).nonce ==> !meets_difficulty(
                    #[trigger] block_digest(
                        old(self).index,
                        old(self).previous_hash@,
                        old(self).timestamp,
                        old(self).transactions@,
                        n,
                    ),
                    old(self).difficulty as nat,
                ),
            found == final(self).sealed(),
            !found ==> final(self).nonce == u64::MAX,
    {
        self.hash = self.calculate_hash();
        while !has_zero_prefix(&self.hash, self.difficulty)
            invariant
                old(self).same_contents(*self),
                self.hash@ == self.computed_hash(),
                old(self).nonce <= self.nonce,
                forall|n: u64|
                    old(self).nonce <= n < self.nonce ==> !meets_difficulty(
                        #[trigger] block_digest(
                            old(self).index,
                            old(self).previous_hash@,
                            old(self).timestamp,
                            old(self).transactions@,
                            n,
                        ),
                        old(self).difficulty as nat,
                    ),
            decreases u64::MAX - self.nonce,
        {
            if self.nonce == u64::MAX {
                return false;
            }
            self.nonce = self.nonce + 1;
            self.hash = self.calculate_hash();
        }
        true
    }

    /// Whether the stored hash matches the contents and meets the difficulty:
    /// catches tampering and missing work alike.
    pub fn is_valid(&self) -> (r: bool)
        ensures
            r == self.sealed(),
    {
        let calculated = self.calculate_hash();
        calculated == self.hash && has_zero_prefix(&self.hash, self.difficulty)
    }

    /// Whether `other` is a copy of `self`: same contents, nonce and hash.
    pub open spec fn same_block(&self, other: Block) -> bool {
        &&& self.same_contents(other)
        &&& other.hash@ == self.hash@
        &&& other.nonce == self.nonce
    }

    /// A copy of this block.
    pub fn duplicate(&self) -> (r: Self)
        ensures
            self.same_block(r),
    {
        let transactions = duplicate_all(&self.transactions);
        let r = Block {
            index: self.index,
            timestamp: self.timestamp,
            transactions,
            previous_hash: self.previous_hash.clone(),
            hash: self.hash.clone(),
            nonce: self.nonce,
            difficulty: self.difficulty,
        };
        r
    }
}

/// Whether `cur` follows `prev`: next index, linked by hash, and sealed.
pub open spec fn links_to(prev: Block, cur: Block) -> bool {
    &&& cur.index as int == prev.index as int + 1
    &&& cur.previous_hash@ == prev.hash@
    &&& cur.sealed()
}

/// Whether a sequence of blocks forms a valid chain: not empty, and each
/// block after the first follows its predecessor.
pub open spec fn chain_valid(c: Seq<Block>) -> bool {
    &&& c.len() > 0
    &&& forall|i: int| 1 <= i < c.len() ==> #[trigger] links_to(c[i - 1], c[i])
}

/// A chain that holds, after its first block, a block whose stored hash does
/// not match its contents or lacks the work is not valid.
pub proof fn lemma_unsealed_block_breaks_chain(c: Seq<Block>, i: int)
    requires
        1 <= i < c.len(),
        !c[i].sealed(),
    ensures
        !chain_valid(c),
{
    assert(!links_to(c[i - 1], c[i]));
}

/// Why a block fails to follow its predecessor.
#[derive(Debug, Clone, Copy, PartialEq, Eq, Structural)]
pub enum ChainFault {
    /// The chain holds no block.
    Empty,
    /// The index is not one past the predecessor's.
    IndexGap,
    /// The previous hash is not the predecessor's hash.
    BrokenLink,
    /// The hash does not match the contents or lacks the work.
    BadSeal,
}

/// The first of the three checks that `cur` fails against `prev`, if any.
pub open spec fn link_fault(prev: Block, cur: Block) -> Option<ChainFault> {
    if cur.index as int != prev.index as int + 1 {
        Some(ChainFault::IndexGap)
    } else if cur.previous_hash@ != prev.hash@ {
        Some(ChainFault::BrokenLink)
    } else if !cur.sealed() {
        Some(ChainFault::BadSeal)
    } else {
        None
    }
}

/// The payload of the reward transaction for a reward amount.
pub open spec fn reward_text(reward: u64) -> Seq<char> {
    "Reward: "@ + decimal(reward as nat)
}

/// Whether `t` is the reward transaction paying `reward` to `miner` at `timestamp`.
pub open spec fn is_reward(t: Transaction, miner: Seq<char>, reward: u64, timestamp: u64) -> bool {
    &&& t.id@ == transaction_id("System"@, timestamp, reward_text(reward))
    &&& t.transaction_type == TransactionType::TokenTransfer
    &&& t.sender@ == "System"@
    &&& t.recipient matches Some(r) && r@ == miner
    &&& t.timestamp == timestamp
    &&& t.data@ == reward_text(reward)
    &&& t.signature is None
    &&& t.gas_fee is None
    &&& t.status == TransactionStatus::Pending
}

/// Whether `id` names no transaction in `txs`.
pub open spec fn id_absent(txs: Seq<Transaction>, id: Seq<char>) -> bool {
    forall|k: int| 0 <= k < txs.len() ==> (#[trigger] txs[k]).id@ != id
}

/// Whether `t` is the first transaction of `txs` whose id is `id`.
pub open spec fn first_with_id(txs: Seq<Transaction>, id: Seq<char>, t: Transaction) -> bool {
    exists|k: int|
        0 <= k < txs.len() && #[trigger] txs[k] == t && t.id@ == id && id_absent(txs.subrange(0, k), id)
}

/// The id text of a sequence with one more transaction is the old text
/// followed by that transaction's id.
proof fn lemma_ids_text_push(txs: Seq<Transaction>, t: Transaction)
    ensures
        ids_text(txs.push(t)) == ids_text(txs) + t.id@,
{
    assert(txs.push(t).drop_last() =~= txs);
}

/// Whether `b` is the block a mining round at `timestamp` seals on `before`:
/// the pool plus the reward, following the tip, with the least nonce that
/// meets the difficulty.
pub open spec fn mined_block(before: Blockchain, miner: Seq<char>, timestamp: u64, b: Block) -> bool {
    let tip = before.chain@.last();
    let n = before.pending_transactions@.len();
    &&& b.index == tip.index + 1
    &&& b.previous_hash@ == tip.hash@
    &&& b.timestamp == timestamp
    &&& b.difficulty == before.difficulty
    &&& b.transactions@.len() == n + 1
    &&& b.transactions@.subrange(0, n as int) == before.pending_transactions@
    &&& is_reward(b.transactions@[n as int], miner, before.mining_reward, timestamp)
    &&& b.sealed()
    &&& links_to(tip, b)
    &&& forall|k: u64|
        k < b.nonce ==> !meets_difficulty(
            #[trigger] block_digest(b.index, b.previous_hash@, b.timestamp, b.transactions@, k),
            b.difficulty as nat,
        )
}

/// Whether no block can be sealed on `before` at `timestamp`: the tip's
/// index is at its maximum, or no nonce meets the difficulty.
pub open spec fn mining_exhausted(before: Blockchain, miner: Seq<char>, timestamp: u64) -> bool {
    let tip = before.chain@.last();
    tip.index == u64::MAX || forall|t: Transaction|
        is_reward(t, miner, before.mining_reward, timestamp) ==> !work_possible(
            (tip.index + 1) as u64,
            tip.hash@,
            timestamp,
            before.pending_transactions@.push(t),
            before.difficulty,
        )
}

/// What one mining round at `timestamp` does to a ledger, and what it returns.
pub open spec fn mining_round(
    before: Blockchain,
    after: Blockchain,
    miner: Seq<char>,
    timestamp: u64,
    r: Result<Block, LedgerError>,
) -> bool {
    let empty_pool = before.pending_transactions@.len() == 0;
    let empty_chain = before.chain@.len() == 0;
    &&& after.difficulty == before.difficulty
    &&& after.mining_reward == before.mining_reward
    &&& match r {
        Ok(b) => {
            &&& !empty_pool
            &&& !empty_chain
            &&& mined_block(before, miner, timestamp, b)
            &&& after.chain@.len() == before.chain@.len() + 1
            &&& after.chain@.subrange(0, before.chain@.len() as int) == before.chain@
            &&& after.chain@.last().same_block(b)
            &&& after.pending_transactions@.len() == 0
        },
        Err(e) => {
            &&& after.chain == before.chain
            &&& after.pending_transactions == before.pending_transactions
            &&& e == if empty_pool {
                LedgerError::EmptyPool
            } else if empty_chain {
                LedgerError::ChainEmpty
            } else {
                LedgerError::InvalidBlock
            }
            &&& (e == LedgerError::InvalidBlock ==> mining_exhausted(before, miner, timestamp))
        },
    }
}

/// The ledger: the chain of blocks and the pool of signed transactions
/// waiting to be mined.
#[derive(Debug)]
pub struct Blockchain {
    pub chain: Vec<Block>,
    pub pending_transactions: Vec<Transaction>,
    pub difficulty: u8,
    pub mining_reward: u64,
}

impl Blockchain {
    /// Whether the chain starts with a genesis block: index zero, the
    /// sentinel predecessor "0", no transactions.
    pub open spec fn has_genesis(&self) -> bool {
        &&& self.chain@.len() > 0
        &&& self.chain@[0].index == 0
        &&& self.chain@[0].previous_hash@ == "0"@
        &&& self.chain@[0].transactions@.len() == 0
    }

    /// A ledger with a genesis block and an empty pool.
    pub fn new(difficulty: u8, mining_reward: u64) -> (r: Self)
        ensures
            r.chain@.len() == 1,
            r.has_genesis(),
            r.chain@[0].nonce == 0,
            r.chain@[0].difficulty == difficulty,
            r.chain@[0].hash@ == r.chain@[0].computed_hash(),
            chain_valid(r.chain@),
            r.pending_transactions@.len() == 0,
            r.difficulty == difficulty,
            r.mining_reward == mining_reward,
    {
        let mut blockchain = Blockchain {
            chain: Vec::new(),
            pending_transactions: Vec::new(),
            difficulty,
            mining_reward,
        };
        blockchain.create_genesis_block();
        blockchain
    }

    fn create_genesis_block(&mut self)
        requires
            old(self).chain@.len() == 0,
        ensures
            final(self).chain@.len() == 1,
            final(self).has_genesis(),
            final(self).chain@[0].nonce == 0,
            final(self).chain@[0].difficulty == old(self).difficulty,
            final(self).chain@[0].hash@ == final(self).chain@[0].computed_hash(),
            final(self).pending_transactions == old(self).pending_transactions,
            final(self).difficulty == old(self).difficulty,
            final(self).mining_reward == old(self).mining_reward,
    {
        let genesis = Block::new(0, "0", Vec::new(), self.difficulty);
        self.chain.push(genesis);
    }

    /// The last block of the chain, if there is one.
    pub fn get_latest_block(&self) -> (r: Option<&Block>)
        ensures
            match r {
                Some(b) => self.chain@.len() > 0 && *b == self.chain@.last(),
                None => self.chain@.len() == 0,
            },
    {
        if self.chain.len() == 0 {
            None
        } else {
            Some(&self.chain[self.chain.len() - 1])
        }
    }

    /// Put a signed transaction into the pool. Unsigned ones are refused; the
    /// signature itself is not checked here.
    pub fn add_transaction(&mut self, transaction: Transaction) -> (r: Result<(), LedgerError>)
        ensures
            transaction.signature is None <==> r == Err::<(), LedgerError>(
                LedgerError::InvalidTransaction,
            ),
            r is Ok <==> transaction.signature is Some,
            r is Ok ==> final(self).pending_transactions@ == old(
                self,
            ).pending_transactions@.push(transaction),
            r is Err ==> final(self).pending_transactions@ == old(self).pending_transactions@,
            final(self).chain == old(self).chain,
            final(self).difficulty == old(self).difficulty,
            final(self).mining_reward == old(self).mining_reward,
    {
        if transaction.signature.is_none() {
            return Err(LedgerError::InvalidTransaction);
        }
        self.pending_transactions.push(transaction);
        Ok(())
    }

    fn is_valid_new_block(&self, new_block: &Block, previous_block: &Block) -> (r: bool)
        ensures
            r == links_to(*previous_block, *new_block),
    {
        if previous_block.index == u64::MAX || new_block.index != previous_block.index + 1 {
            return false;
        }
        if new_block.previous_hash != previous_block.hash {
            return false;
        }
        if !new_block.is_valid() {
            return false;
        }
        true
    }

    /// One mining round at the given time: the pool plus a reward for
    /// `miner_address` is sealed into a block that follows the tip. On
    /// success the block is appended and the pool cleared; on any error
    /// nothing changes.
    pub fn mine_pending_transactions_at(&mut self, miner_address: &str, timestamp: u64) -> (r: Result<Block, LedgerError>)
        ensures
            mining_round(*old(self), *final(self), miner_address@, timestamp, r),
            chain_valid(old(self).chain@) ==> chain_valid(final(self).chain@),
    {
        if self.pending_transactions.len() == 0 {
            return Err(LedgerError::EmptyPool);
        }
        let reward_data = String::from_str("Reward: ").concat(
            decimal_string(self.mining_reward).as_str(),
        );
        let reward_tx = Transaction::new_at(
            TransactionType::TokenTransfer,
            "System",
            reward_data.as_str(),
            timestamp,
        ).with_recipient(miner_address);
        let ghost reward_ghost = reward_tx;
        let mut transactions_to_mine = duplicate_all(&self.pending_transactions);
        transactions_to_mine.push(reward_tx);
        let latest_block = match self.get_latest_block() {
            Some(b) => b,
            None => {
                return Err(LedgerError::ChainEmpty);
            },
        };
        if latest_block.index == u64::MAX {
            return Err(LedgerError::InvalidBlock);
        }
        let new_index = latest_block.index + 1;
        let mut new_block = Block::new_at(
            new_index,
            latest_block.hash.as_str(),
            transactions_to_mine,
            self.difficulty,
            timestamp,
        );
        let found = new_block.mine();
        proof {
            lemma_ids_text_push(self.pending_transactions@, reward_ghost);
            assert(new_block.transactions@.subrange(0, self.pending_transactions@.len() as int)
                =~= self.pending_transactions@);
        }
        if !found {
            proof {
                assert forall|t: Transaction|
                    is_reward(
                        t,
                        miner_address@,
                        self.mining_reward,
                        timestamp,
                    ) implies !work_possible(
                    new_index,
                    latest_block.hash@,
                    timestamp,
                    self.pending_transactions@.push(t),
                    self.difficulty,
                ) by {
                    lemma_ids_text_push(self.pending_transactions@, t);
                    assert forall|k: u64|
                        !meets_difficulty(
                            #[trigger] block_digest(
                                new_index,
                                latest_block.hash@,
                                timestamp,
                                self.pending_transactions@.push(t),
                                k,
                            ),
                            self.difficulty as nat,
                        ) by {
                        assert(block_digest(
                            new_index,
                            latest_block.hash@,
                            timestamp,
                            self.pending_transactions@.push(t),
                            k,
                        ) == block_digest(
                            new_index,
                            latest_block.hash@,
                            timestamp,
                            new_block.transactions@,
                            k,
                        ));
                    }
                }
            }
            return Err(LedgerError::InvalidBlock);
        }
        proof {
            assert(meets_difficulty(
                block_digest(
                    new_index,
                    latest_block.hash@,
                    timestamp,
                    self.pending_transactions@.push(reward_ghost),
                    new_block.nonce,
                ),
                self.difficulty as nat,
            ));
        }
        if self.is_valid_new_block(&new_block, latest_block) {
            let copy = new_block.duplicate();
            self.chain.push(new_block);
            self.pending_transactions = Vec::new();
            proof {
                assert(self.chain@.subrange(0, self.chain@.len() - 1) =~= old(self).chain@);
                if chain_valid(old(self).chain@) {
                    assert forall|i: int| 1 <= i < self.chain@.len() implies #[trigger] links_to(
                        self.chain@[i - 1],
                        self.chain@[i],
                    ) by {
                        if i < self.chain@.len() - 1 {
                            assert(links_to(old(self).chain@[i - 1], old(self).chain@[i]));
                        }
                    }
                }
            }
            Ok(copy)
        } else {
            Err(LedgerError::InvalidBlock)
        }
    }

    /// One mining round at the current time; see `mine_pending_transactions_at`.
    pub fn mine_pending_transactions(&mut self, miner_address: &str) -> (r: Result<Block, LedgerError>)
        ensures
            exists|timestamp: u64| mining_round(*old(self), *final(self), miner_address@, timestamp, r),
            chain_valid(old(self).chain@) ==> chain_valid(final(self).chain@),
    {
        let now = unix_now_secs();
        self.mine_pending_transactions_at(miner_address, now)
    }

    /// The first transaction with the given id: the pool is searched first, in
    /// insertion order, then the blocks in chain order.
    pub fn find_transaction(&self, transaction_id: &str) -> (r: Option<&Transaction>)
        ensures
            match r {
                Some(t) => first_with_id(self.pending_transactions@, transaction_id@, *t) || (
                id_absent(self.pending_transactions@, transaction_id@) && exists|b: int|
                    0 <= b < self.chain@.len() && first_with_id(
                        #[trigger] self.chain@[b].transactions@,
                        transaction_id@,
                        *t,
                    ) && forall|c: int|
                        0 <= c < b ==> id_absent(
                            #[trigger] self.chain@[c].transactions@,
                            transaction_id@,
                        )),
                None => id_absent(self.pending_transactions@, transaction_id@) && forall|b: int|
                    0 <= b < self.chain@.len() ==> id_absent(
                        #[trigger] self.chain@[b].transactions@,
                        transaction_id@,
                    ),
            },
    {
        let target = String::from_str(transaction_id);
        let mut i: usize = 0;
        while i < self.pending_transactions.len()
            invariant
                i <= self.pending_transactions@.len(),
                target@ == transaction_id@,
                id_absent(self.pending_transactions@.subrange(0, i as int), transaction_id@),
            decreases self.pending_transactions@.len() - i,
        {
            let tx = &self.pending_transactions[i];
            if tx.id == target {
                assert(self.pending_transactions@[i as int] == *tx);
                return Some(tx);
            }
            proof {
                assert forall|k: int| 0 <= k < i + 1 implies (#[trigger] self.pending_transactions@.subrange(0, i + 1)[k]).id@ != transaction_id@ by {
                    if k < i {
                        assert(self.pending_transactions@.subrange(0, i + 1)[k]
                            == self.pending_transactions@.subrange(0, i as int)[k]);
                    }
                }
            }
            i = i + 1;
        }
        assert(self.pending_transactions@.subrange(0, i as int) =~= self.pending_transactions@);
        let mut b: usize = 0;
        while b < self.chain.len()
            invariant
                b <= self.chain@.len(),
                target@ == transaction_id@,
                id_absent(self.pending_transactions@, transaction_id@),
                forall|c: int| 0 <= c < b ==> id_absent(#[trigger] self.chain@[c].transactions@, transaction_id@),
            decreases self.chain@.len() - b,
        {
            let block = &self.chain[b];
            let mut k: usize = 0;
            while k < block.transactions.len()
                invariant
                    k <= block.transactions@.len(),
                    b < self.chain@.len(),
                    *block == self.chain@[b as int],
                    id_absent(self.pending_transactions@, transaction_id@),
                    forall|c: int|
                        0 <= c < b ==> id_absent(#[trigger] self.chain@[c].transactions@, transaction_id@),
                    target@ == transaction_id@,
                    id_absent(block.transactions@.subrange(0, k as int), transaction_id@),
                decreases block.transactions@.len() - k,
            {
                let tx = &block.transactions[k];
                if tx.id == target {
                    assert(block.transactions@[k as int] == *tx);
                    assert(first_with_id(self.chain@[b as int].transactions@, transaction_id@, *tx));
                    return Some(tx);
                }
                proof {
                    assert forall|j: int| 0 <= j < k + 1 implies (#[trigger] block.transactions@.subrange(0, k + 1)[j]).id@ != transaction_id@ by {
                        if j < k {
                            assert(block.transactions@.subrange(0, k + 1)[j]
                                == block.transactions@.subrange(0, k as int)[j]);
                        }
                    }
                }
                k = k + 1;
            }
            assert(block.transactions@.subrange(0, k as int) =~= block.transactions@);
            b = b + 1;
        }
        None
    }

    /// Like `is_chain_valid`, but names the first block that fails and why.
    pub fn validate_chain(&self) -> (r: Result<(), (usize, ChainFault)>)
        ensures
            r is Ok <==> chain_valid(self.chain@),
            self.chain@.len() == 0 ==> r == Err::<(), (usize, ChainFault)>((0, ChainFault::Empty)),
            match r {
                Ok(()) => true,
                Err((i, f)) => self.chain@.len() == 0 || ({
                    &&& 1 <= i < self.chain@.len()
                    &&& link_fault(self.chain@[i - 1], self.chain@[i as int]) == Some(f)
                    &&& forall|j: int|
                        1 <= j < i ==> #[trigger] links_to(self.chain@[j - 1], self.chain@[j])
                }),
            },
    {
        if self.chain.len() == 0 {
            return Err((0, ChainFault::Empty));
        }
        let mut i: usize = 1;
        while i < self.chain.len()
            invariant
                1 <= i <= self.chain@.len(),
                forall|j: int| 1 <= j < i ==> #[trigger] links_to(self.chain@[j - 1], self.chain@[j]),
            decreases self.chain@.len() - i,
        {
            let prev = &self.chain[i - 1];
            let cur = &self.chain[i];
            if prev.index == u64::MAX || cur.index != prev.index + 1 {
                assert(!links_to(self.chain@[i - 1], self.chain@[i as int]));
                return Err((i, ChainFault::IndexGap));
            }
            if cur.previous_hash != prev.hash {
                assert(!links_to(self.chain@[i - 1], self.chain@[i as int]));
                return Err((i, ChainFault::BrokenLink));
            }
            if !cur.is_valid() {
                assert(!links_to(self.chain@[i - 1], self.chain@[i as int]));
                return Err((i, ChainFault::BadSeal));
            }
            i = i + 1;
        }
        Ok(())
    }

    /// Whether every block after the first follows its predecessor; false
    /// for an empty chain.
    pub fn is_chain_valid(&self) -> (r: bool)
        ensures
            r == chain_valid(self.chain@),
    {
        if self.chain.len() == 0 {
            return false;
        }
        let mut i: usize = 1;
        while i < self.chain.len()
            invariant
                1 <= i <= self.chain@.len(),
                forall|j: int| 1 <= j < i ==> #[trigger] links_to(self.chain@[j - 1], self.chain@[j]),
            decreases self.chain@.len() - i,
        {
            if !self.is_valid_new_block(&self.chain[i], &self.chain[i - 1]) {
                assert(!links_to(self.chain@[i as int - 1], self.chain@[i as int]));
                return false;
            }
            i = i + 1;
        }
        true
    }
}

/// A simulated bridge to a remote ledger.
#[derive(Debug, Clone)]
pub struct EthereumConnector {
    pub endpoint: String,
    pub chain_id: u64,
}

/// The receipt of a submission: the digest of payload, gas limit and time.
pub open spec fn submission_receipt(data: Seq<char>, gas_limit: u64, timestamp: u64) -> Seq<char> {
    digest_hex(data + decimal(gas_limit as nat) + decimal(timestamp as nat))
}

/// The simulated result of a contract call: a fixed prefix and the first
/// eight digits of the method name's digest.
pub open spec fn contract_call_text(method_name: Seq<char>) -> Seq<char> {
    "合约执行结果_"@ + digest_hex(method_name).subrange(0, 8)
}

impl EthereumConnector {
    pub fn new(endpoint: &str, chain_id: u64) -> (r: Self)
        ensures
            r.endpoint@ == endpoint@,
            r.chain_id == chain_id,
    {
        EthereumConnector { endpoint: String::from_str(endpoint), chain_id }
    }

    /// The receipt for submitting `transaction_data` at the given time.
    pub fn submission_receipt_at(&self, transaction_data: &str, gas_limit: u64, timestamp: u64) -> (r: String)
        ensures
            r@ == submission_receipt(transaction_data@, gas_limit, timestamp),
    {
        let text = String::from_str(transaction_data)
            .concat(decimal_string(gas_limit).as_str())
            .concat(decimal_string(timestamp).as_str());
        hash_sha256(text.as_str())
    }

    /// The receipt for submitting `transaction_data` now.
    pub fn submission_receipt(&self, transaction_data: &str, gas_limit: u64) -> (r: String)
        ensures
            exists|timestamp: u64| r@ == submission_receipt(transaction_data@, gas_limit, timestamp),
    {
        let now = unix_now_secs();
        self.submission_receipt_at(transaction_data, gas_limit, now)
    }

    /// The simulated result of calling `method_name` on a contract.
    pub fn contract_call_result(&self, method_name: &str) -> (r: String)
        ensures
            r@ == contract_call_text(method_name@),
    {
        let digest = hash_sha256(method_name);
        String::from_str("合约执行结果_").concat(digest.as_str().substring_char(0, 8))
    }
}

} // verus!
