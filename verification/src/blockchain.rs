//! The ledger itself: the append-only chain of blocks, the pending pool,
//! balance derivation, validation, and the proof-of-work mining procedure.

pub use crate::block::Block;
pub use crate::keypair::Keypair;
pub use crate::signed_transaction::SignedTransaction;
pub use crate::transaction::Transaction;

use crate::signed_transaction::reward_shaped;
use crate::strutil::{str_eq, str_starts_with};
use vstd::prelude::*;
use vstd::wrapping::i64_specs;

verus! {

/// The balance the genesis block credits to the funding key.
pub const GENESIS_AMOUNT: i64 = 100;

/// A monotonically growing ledger: the recorded hash of block 0, the blocks
/// themselves, and the pool of transactions awaiting inclusion.
pub struct Blockchain {
    genesis_hash: String,
    blocks: Vec<Block>,
    pending_transactions: Vec<SignedTransaction>,
}

/// One transaction's effect on an address's balance: its amount is
/// subtracted when the address is the sender, added when it is (only) the
/// receiver, with wrapping 64-bit arithmetic.
pub open spec fn balance_step(balance: i64, t: SignedTransaction, address: Seq<char>) -> i64 {
    if t.transaction.from@ == address {
        i64_specs::wrapping_sub(balance, t.transaction.amount)
    } else if t.transaction.to@ == address {
        i64_specs::wrapping_add(balance, t.transaction.amount)
    } else {
        balance
    }
}

/// Folds `balance_step` over a block's transactions in order.
pub open spec fn txs_balance(txs: Seq<SignedTransaction>, address: Seq<char>, acc: i64) -> i64
    decreases txs.len(),
{
    if txs.len() == 0 {
        acc
    } else {
        txs_balance(txs.skip(1), address, balance_step(acc, txs[0], address))
    }
}

/// Folds the balance over whole blocks in chain order.
pub open spec fn chain_balance(blocks: Seq<Block>, address: Seq<char>, acc: i64) -> i64
    decreases blocks.len(),
{
    if blocks.len() == 0 {
        acc
    } else {
        chain_balance(blocks.skip(1), address, txs_balance(blocks[0].transactions@, address, acc))
    }
}

/// The balance the ledger's history assigns to an address, starting from
/// nothing.
pub open spec fn balance_of(blocks: Seq<Block>, address: Seq<char>) -> i64 {
    chain_balance(blocks, address, 0)
}

/// Whether some transaction in the sequence carries the given content hash.
pub open spec fn txs_have_hash(txs: Seq<SignedTransaction>, hash: Seq<char>) -> bool {
    exists|j: int| 0 <= j < txs.len() && txs[j].hash@ == hash
}

/// Whether some transaction anywhere in the chain carries the given content
/// hash.
pub open spec fn chain_has_tx_hash(blocks: Seq<Block>, hash: Seq<char>) -> bool {
    exists|i: int| 0 <= i < blocks.len() && txs_have_hash(blocks[i].transactions@, hash)
}

/// What stays at the bottom of the pending pool after one mining pass has
/// drained its top: everything below the last `MAX_TRANSACTIONS` entries.
pub open spec fn drain_floor(pending: Seq<SignedTransaction>) -> int {
    if pending.len() <= Block::MAX_TRANSACTIONS as int {
        0
    } else {
        pending.len() - Block::MAX_TRANSACTIONS as int
    }
}

/// The candidates one mining pass considers: the drained entries of the
/// pending pool, most recently added first.
pub open spec fn drained_of(pending: Seq<SignedTransaction>) -> Seq<SignedTransaction> {
    pending.skip(drain_floor(pending)).reverse()
}

/// A candidate is admitted to a block when it is valid, its sender's ledger
/// balance covers its amount, and its content hash appears neither among the
/// transactions already chosen nor anywhere in the chain.
pub open spec fn admissible(
    blocks: Seq<Block>,
    chosen: Seq<SignedTransaction>,
    t: SignedTransaction,
) -> bool {
    &&& t.valid()
    &&& balance_of(blocks, t.transaction.from@) >= t.transaction.amount
    &&& !txs_have_hash(chosen, t.hash@)
    &&& !chain_has_tx_hash(blocks, t.hash@)
}

/// The transactions mining selects: each drained candidate in turn joins the
/// chosen ones exactly when it is admissible against the chain and those
/// chosen before it.
pub open spec fn select_txs(
    blocks: Seq<Block>,
    drained: Seq<SignedTransaction>,
    chosen: Seq<SignedTransaction>,
) -> Seq<SignedTransaction>
    decreases drained.len(),
{
    if drained.len() == 0 {
        chosen
    } else if admissible(blocks, chosen, drained[0]) {
        select_txs(blocks, drained.skip(1), chosen.push(drained[0]))
    } else {
        select_txs(blocks, drained.skip(1), chosen)
    }
}

/// What admission guarantees of each selected transaction on its own,
/// whatever else was chosen: validity, a sender balance that covers the
/// amount, and absence from the chain.
pub open spec fn admissible_alone(blocks: Seq<Block>, t: SignedTransaction) -> bool {
    &&& t.valid()
    &&& balance_of(blocks, t.transaction.from@) >= t.transaction.amount
    &&& !chain_has_tx_hash(blocks, t.hash@)
}

/// No two distinct positions in the sequence hold the same content hash.
pub open spec fn hashes_distinct(txs: Seq<SignedTransaction>) -> bool {
    forall|a: int, b: int| 0 <= a < b < txs.len() ==> txs[a].hash@ != txs[b].hash@
}

proof fn lemma_select_txs_admissible(
    blocks: Seq<Block>,
    drained: Seq<SignedTransaction>,
    chosen: Seq<SignedTransaction>,
)
    requires
        forall|j: int| 0 <= j < chosen.len() ==> admissible_alone(blocks, #[trigger] chosen[j]),
    ensures
        forall|j: int|
            0 <= j < select_txs(blocks, drained, chosen).len() ==> admissible_alone(
                blocks,
                #[trigger] select_txs(blocks, drained, chosen)[j],
            ),
    decreases drained.len(),
{
    if drained.len() == 0 {
        assert forall|j: int| 0 <= j < select_txs(blocks, drained, chosen).len() implies
            admissible_alone(blocks, #[trigger] select_txs(blocks, drained, chosen)[j]) by {
            assert(admissible_alone(blocks, chosen[j]));
        }
    } else if admissible(blocks, chosen, drained[0]) {
        let extended = chosen.push(drained[0]);
        assert forall|j: int| 0 <= j < extended.len() implies admissible_alone(
            blocks,
            #[trigger] extended[j],
        ) by {
            if j < chosen.len() {
                assert(admissible_alone(blocks, chosen[j]));
            }
        }
        lemma_select_txs_admissible(blocks, drained.skip(1), extended);
        assert(select_txs(blocks, drained, chosen) == select_txs(
            blocks,
            drained.skip(1),
            extended,
        ));
    } else {
        lemma_select_txs_admissible(blocks, drained.skip(1), chosen);
        assert(select_txs(blocks, drained, chosen) == select_txs(blocks, drained.skip(1), chosen));
    }
}

/// The guards mining promises of what it selects from the pending pool:
/// every selected transaction is valid, its sender's ledger balance covers
/// its amount, and its content hash appears nowhere in the chain already.
pub proof fn lemma_selection_admissible(blocks: Seq<Block>, pending: Seq<SignedTransaction>)
    ensures
        forall|j: int|
            0 <= j < select_txs(blocks, drained_of(pending), Seq::empty()).len()
                ==> admissible_alone(
                blocks,
                #[trigger] select_txs(blocks, drained_of(pending), Seq::empty())[j],
            ),
{
    lemma_select_txs_admissible(blocks, drained_of(pending), Seq::empty());
}

proof fn lemma_select_txs_distinct(
    blocks: Seq<Block>,
    drained: Seq<SignedTransaction>,
    chosen: Seq<SignedTransaction>,
)
    requires
        hashes_distinct(chosen),
    ensures
        hashes_distinct(select_txs(blocks, drained, chosen)),
    decreases drained.len(),
{
    if drained.len() == 0 {
    } else if admissible(blocks, chosen, drained[0]) {
        let extended = chosen.push(drained[0]);
        assert forall|a: int, b: int| 0 <= a < b < extended.len() implies extended[a].hash@
            != extended[b].hash@ by {
            if b == chosen.len() {
                if extended[a].hash@ == extended[b].hash@ {
                    assert(chosen[a].hash@ == drained[0].hash@);
                    assert(txs_have_hash(chosen, drained[0].hash@));
                }
            } else {
                assert(chosen[a].hash@ != chosen[b].hash@);
            }
        }
        lemma_select_txs_distinct(blocks, drained.skip(1), extended);
    } else {
        lemma_select_txs_distinct(blocks, drained.skip(1), chosen);
    }
}

/// The double-spend guard: among the transactions one mining pass selects,
/// each content hash appears at most once, however often it was submitted.
pub proof fn lemma_selection_hashes_distinct(blocks: Seq<Block>, pending: Seq<SignedTransaction>)
    ensures
        hashes_distinct(select_txs(blocks, drained_of(pending), Seq::empty())),
{
    lemma_select_txs_distinct(blocks, drained_of(pending), Seq::empty());
}

/// An empty pending pool gives mining nothing to select, so a mining pass
/// over it fails with "no transactions" and leaves the ledger unchanged.
pub proof fn lemma_empty_pool_selects_nothing(blocks: Seq<Block>, pending: Seq<SignedTransaction>)
    requires
        pending.len() == 0,
    ensures
        select_txs(blocks, drained_of(pending), Seq::empty())
            == Seq::<SignedTransaction>::empty(),
{
    assert(drained_of(pending) =~= Seq::<SignedTransaction>::empty());
}

/// The two failure reports mining can give are distinct, so a caller can
/// tell "nothing to mine" from an exhausted nonce search.
proof fn lemma_mining_failures_differ()
    ensures
        "Unable to find proof of work"@ != "No transactions found"@,
{
    reveal_strlit("Unable to find proof of work");
    reveal_strlit("No transactions found");
    assert("Unable to find proof of work"@.len() == 28);
    assert("No transactions found"@.len() == 21);
}

/// Whether any transaction in the vector carries the given content hash.
fn contains_hash(txs: &Vec<SignedTransaction>, hash: &str) -> (r: bool)
    ensures
        r == txs_have_hash(txs@, hash@),
{
    let mut j: usize = 0;
    while j < txs.len()
        invariant
            j <= txs@.len(),
            forall|l: int| 0 <= l < j ==> (#[trigger] txs@[l]).hash@ != hash@,
        decreases txs@.len() - j,
    {
        if str_eq(txs[j].hash.as_str(), hash) {
            return true;
        }
        j += 1;
    }
    false
}

impl Blockchain {
    /// The chain as a sequence of blocks; index 0 is the genesis block.
    pub closed spec fn spec_blocks(self) -> Seq<Block> {
        self.blocks@
    }

    /// The pending pool, oldest submission first.
    pub closed spec fn spec_pending(self) -> Seq<SignedTransaction> {
        self.pending_transactions@
    }

    /// The hash recorded for block 0 at construction.
    pub closed spec fn spec_genesis_hash(self) -> Seq<char> {
        self.genesis_hash@
    }

    /// Chain-linkage well-formedness: at least the genesis block; indices
    /// count positions; the recorded genesis hash is block 0's stored hash;
    /// every later block points at its predecessor's stored hash.
    pub open spec fn wf(self) -> bool {
        &&& self.spec_blocks().len() >= 1
        &&& (forall|i: int|
            0 <= i < self.spec_blocks().len() ==> (#[trigger] self.spec_blocks()[i]).index == i)
        &&& self.spec_genesis_hash() == self.spec_blocks()[0].hash@
        &&& (forall|i: int|
            1 <= i < self.spec_blocks().len() ==> (#[trigger] self.spec_blocks()[i]).previous_hash@
                == self.spec_blocks()[i - 1].hash@)
    }

    /// Every block's stored hash matches its recomputation.
    pub open spec fn hashes_ok(self) -> bool {
        forall|i: int|
            0 <= i < self.spec_blocks().len() ==> (#[trigger] self.spec_blocks()[i]).hash_ok()
    }

    /// Creates the ledger with its genesis block: one funding transaction of
    /// `GENESIS_AMOUNT` from the sentinel address `"0"` to the keypair's
    /// public key, signed by that keypair and sealed in block 0 with an
    /// empty previous hash, timestamp 0 and nonce 0.  That block's hash is
    /// recorded as the genesis hash.  This is the sole origin of currency:
    /// the funded key holds `GENESIS_AMOUNT` and every other address
    /// (besides the sentinel) holds nothing.
    pub fn new(keypair: &Keypair) -> (bc: Blockchain)
        ensures
            bc.wf(),
            bc.hashes_ok(),
            bc.spec_blocks().len() == 1,
            bc.spec_pending().len() == 0,
            bc.spec_blocks()[0].previous_hash@ == ""@,
            bc.spec_blocks()[0].timestamp == 0,
            bc.spec_blocks()[0].nonce == 0,
            bc.spec_blocks()[0].transactions@.len() == 1,
            ({
                let t = bc.spec_blocks()[0].transactions@[0];
                &&& t.transaction.to@ == keypair.public_key()
                &&& t.transaction.from@ == "0"@
                &&& t.transaction.amount == GENESIS_AMOUNT
                &&& t.hash_ok()
            }),
            keypair.public_key() != "0"@ ==> balance_of(bc.spec_blocks(), keypair.public_key())
                == GENESIS_AMOUNT,
            forall|address: Seq<char>|
                address != keypair.public_key() && address != "0"@ ==> #[trigger] balance_of(
                    bc.spec_blocks(),
                    address,
                ) == 0,
    {
        let public_key = keypair.export_public_key();
        let transaction = Transaction::create(public_key.as_str(), "0", GENESIS_AMOUNT);
        let signed_transaction = SignedTransaction::create(transaction, keypair);

        let mut transactions: Vec<SignedTransaction> = Vec::new();
        transactions.push(signed_transaction);
        let block = Block::new(0, transactions, "", 0, 0);
        let hash = block.as_hash();

        let mut blocks: Vec<Block> = Vec::new();
        blocks.push(block);
        let bc = Blockchain {
            genesis_hash: hash,
            blocks: blocks,
            pending_transactions: Vec::new(),
        };
        proof {
            let b = bc.spec_blocks()[0];
            assert(bc.spec_blocks().skip(1) =~= Seq::<Block>::empty());
            assert(b.transactions@.skip(1) =~= Seq::<SignedTransaction>::empty());
            assert forall|address: Seq<char>| balance_of(bc.spec_blocks(), address) == balance_step(
                0,
                b.transactions@[0],
                address,
            ) by {
                assert(chain_balance(bc.spec_blocks(), address, 0) == chain_balance(
                    bc.spec_blocks().skip(1),
                    address,
                    txs_balance(b.transactions@, address, 0),
                ));
                assert(txs_balance(b.transactions@, address, 0) == txs_balance(
                    b.transactions@.skip(1),
                    address,
                    balance_step(0, b.transactions@[0], address),
                ));
            }
        }
        bc
    }

    /// Read-only view of the chain's blocks.
    pub fn blocks(&self) -> (r: &Vec<Block>)
        ensures
            r@ == self.spec_blocks(),
    {
        &self.blocks
    }

    /// Read-only view of the pending pool.
    pub fn pending_transactions(&self) -> (r: &Vec<SignedTransaction>)
        ensures
            r@ == self.spec_pending(),
    {
        &self.pending_transactions
    }

    /// The hash recorded for block 0 at construction.
    pub fn genesis_hash(&self) -> (r: &String)
        ensures
            r@ == self.spec_genesis_hash(),
    {
        &self.genesis_hash
    }

    /// Folds a single block's transactions into a running balance.
    fn block_balance(block: &Block, address: &str, balance: i64) -> (r: i64)
        ensures
            r == txs_balance(block.transactions@, address@, balance),
    {
        let mut acc: i64 = balance;
        let mut j: usize = 0;
        proof {
            assert(block.transactions@.skip(0) =~= block.transactions@);
        }
        while j < block.transactions.len()
            invariant
                j <= block.transactions@.len(),
                txs_balance(block.transactions@, address@, balance) == txs_balance(
                    block.transactions@.skip(j as int),
                    address@,
                    acc,
                ),
            decreases block.transactions@.len() - j,
        {
            proof {
                assert(block.transactions@.skip(j as int).skip(1) =~= block.transactions@.skip(
                    j as int + 1,
                ));
            }
            let t = &block.transactions[j];
            if str_eq(t.transaction.from.as_str(), address) {
                acc = acc.wrapping_sub(t.transaction.amount);
            } else if str_eq(t.transaction.to.as_str(), address) {
                acc = acc.wrapping_add(t.transaction.amount);
            }
            j += 1;
        }
        acc
    }

    /// Runs through every transaction in the ledger, in chain order, to
    /// compute the balance of an address.
    pub fn calculate_balance(&self, address: &str) -> (r: i64)
        ensures
            r == balance_of(self.spec_blocks(), address@),
    {
        let mut balance: i64 = 0;
        let mut i: usize = 0;
        proof {
            assert(self.spec_blocks().skip(0) =~= self.spec_blocks());
        }
        while i < self.blocks.len()
            invariant
                i <= self.spec_blocks().len(),
                balance_of(self.spec_blocks(), address@) == chain_balance(
                    self.spec_blocks().skip(i as int),
                    address@,
                    balance,
                ),
            decreases self.spec_blocks().len() - i,
        {
            proof {
                assert(self.spec_blocks().skip(i as int).skip(1) =~= self.spec_blocks().skip(
                    i as int + 1,
                ));
            }
            balance = Blockchain::block_balance(&self.blocks[i], address, balance);
            i += 1;
        }
        balance
    }

    /// Finds the block carrying the given index by linear scan.
    fn find_block_by_index(&self, index: u64) -> (r: Result<&Block, &'static str>)
        ensures
            match r {
                Ok(b) => exists|i: int|
                    0 <= i < self.spec_blocks().len() && #[trigger] self.spec_blocks()[i] == *b
                        && b.index == index,
                Err(m) => m@ == "Unable to find block"@ && forall|i: int|
                    0 <= i < self.spec_blocks().len() ==> (#[trigger] self.spec_blocks()[i]).index
                        != index,
            },
    {
        let mut i: usize = 0;
        while i < self.blocks.len()
            invariant
                i <= self.spec_blocks().len(),
                forall|k: int|
                    0 <= k < i ==> (#[trigger] self.spec_blocks()[k]).index != index,
            decreases self.spec_blocks().len() - i,
        {
            if self.blocks[i].index == index {
                return Ok(&self.blocks[i]);
            }
            i += 1;
        }
        Err("Unable to find block")
    }

    /// Finds a transaction with the given content hash anywhere in the
    /// ledger by linear scan.
    fn find_transaction_by_hash(&self, hash: &str) -> (r: Result<&SignedTransaction, String>)
        ensures
            r is Ok <==> chain_has_tx_hash(self.spec_blocks(), hash@),
            r matches Ok(t) ==> t.hash@ == hash@,
    {
        let mut i: usize = 0;
        while i < self.blocks.len()
            invariant
                i <= self.spec_blocks().len(),
                forall|k: int|
                    0 <= k < i ==> !txs_have_hash(
                        (#[trigger] self.spec_blocks()[k]).transactions@,
                        hash@,
                    ),
            decreases self.spec_blocks().len() - i,
        {
            let block = &self.blocks[i];
            let mut j: usize = 0;
            while j < block.transactions.len()
                invariant
                    i < self.spec_blocks().len(),
                    *block == self.spec_blocks()[i as int],
                    j <= block.transactions@.len(),
                    forall|l: int| 0 <= l < j ==> (#[trigger] block.transactions@[l]).hash@ != hash@,
                decreases block.transactions@.len() - j,
            {
                if str_eq(block.transactions[j].hash.as_str(), hash) {
                    proof {
                        assert(txs_have_hash(self.spec_blocks()[i as int].transactions@, hash@));
                        assert(chain_has_tx_hash(self.spec_blocks(), hash@));
                    }
                    return Ok(&block.transactions[j]);
                }
                j += 1;
            }
            proof {
                assert(!txs_have_hash(block.transactions@, hash@));
            }
            i += 1;
        }
        Err("No transaction found".to_owned())
    }

    /// The condition under which this chain accepts a block: its stored hash
    /// matches recomputation, and it either is the recorded genesis block or
    /// points at the stored hash of the block holding the previous index.
    pub open spec fn block_admissible(self, block: Block) -> bool
        recommends
            self.wf(),
    {
        &&& block.hash_ok()
        &&& if block.index == 0 {
            block.spec_hash() == self.spec_genesis_hash()
        } else {
            &&& block.index - 1 < self.spec_blocks().len()
            &&& block.previous_hash@ == self.spec_blocks()[block.index - 1].hash@
        }
    }

    /// Validates a block against the chain, reporting the reason on failure:
    /// a hash mismatch, a genesis mismatch, a missing predecessor, or a
    /// broken link to the predecessor's hash.  Transaction signatures are
    /// not checked here.
    pub fn validate_block(&self, block: &Block) -> (r: Result<(), &'static str>)
        requires
            self.wf(),
        ensures
            r is Ok <==> self.block_admissible(*block),
            !block.hash_ok() ==> (r matches Err(m) && m@ == "Invalid block"@),
            block.hash_ok() && block.index == 0 && block.spec_hash() != self.spec_genesis_hash()
                ==> (r matches Err(m) && m@ == "Unable to validate genesis block"@),
            block.hash_ok() && block.index != 0 && block.index - 1 >= self.spec_blocks().len() ==> (
            r matches Err(m) && m@ == "Unable to find block"@),
            block.hash_ok() && block.index != 0 && block.index - 1 < self.spec_blocks().len()
                && block.previous_hash@ != self.spec_blocks()[block.index - 1].hash@ ==> (
            r matches Err(m) && m@ == "Invalid previous block reference"@),
    {
        if !block.is_valid() {
            return Err("Invalid block");
        }
        if block.index == 0 {
            let recomputed = block.as_hash();
            if recomputed == self.genesis_hash {
                return Ok(());
            } else {
                return Err("Unable to validate genesis block");
            }
        }
        match self.find_block_by_index(block.index - 1) {
            Ok(previous_block) => {
                proof {
                    let i = choose|i: int|
                        0 <= i < self.spec_blocks().len() && #[trigger] self.spec_blocks()[i]
                            == *previous_block && previous_block.index == block.index - 1;
                    assert(self.spec_blocks()[i].index == i);
                    assert(self.spec_blocks()[block.index - 1] == *previous_block);
                }
                if !str_eq(block.previous_hash.as_str(), previous_block.hash.as_str()) {
                    return Err("Invalid previous block reference");
                }
            },
            Err(message) => {
                return Err(message);
            },
        }
        Ok(())
    }

    /// One mining pass's filter: walks the top of the pending pool, most
    /// recently added first, and clones the candidates the chain admits.
    fn select_pending(&self) -> (selected: Vec<SignedTransaction>)
        ensures
            selected@ == select_txs(
                self.spec_blocks(),
                drained_of(self.spec_pending()),
                Seq::empty(),
            ),
    {
        let pending_len: usize = self.pending_transactions.len();
        let limit: usize = Block::MAX_TRANSACTIONS as usize;
        let take_count: usize = if pending_len < limit {
            pending_len
        } else {
            limit
        };
        let ghost drained = drained_of(self.spec_pending());
        proof {
            assert(drained.len() == take_count);
            assert(drained.skip(0) =~= drained);
        }
        let mut selected: Vec<SignedTransaction> = Vec::new();
        let mut i: usize = 0;
        while i < take_count
            invariant
                i <= take_count,
                take_count <= pending_len,
                pending_len == self.spec_pending().len(),
                take_count == drained.len(),
                drained == drained_of(self.spec_pending()),
                select_txs(self.spec_blocks(), drained, Seq::empty()) == select_txs(
                    self.spec_blocks(),
                    drained.skip(i as int),
                    selected@,
                ),
            decreases take_count - i,
        {
            let idx: usize = pending_len - 1 - i;
            proof {
                assert(drained[i as int] == self.spec_pending()[idx as int]);
                assert(drained.skip(i as int)[0] == drained[i as int]);
                assert(drained.skip(i as int).skip(1) =~= drained.skip(i as int + 1));
            }
            let candidate = &self.pending_transactions[idx];
            let ghost before = selected@;
            let mut accepted = candidate.is_valid();
            if accepted {
                let balance: i64 = self.calculate_balance(candidate.transaction.from.as_str());
                accepted = balance >= candidate.transaction.amount;
            }
            if accepted {
                accepted = !contains_hash(&selected, candidate.hash.as_str());
            }
            if accepted {
                accepted = self.find_transaction_by_hash(candidate.hash.as_str()).is_err();
            }
            proof {
                assert(accepted == admissible(self.spec_blocks(), before, drained[i as int]));
            }
            if accepted {
                selected.push(candidate.clone());
            }
            proof {
                assert(select_txs(self.spec_blocks(), drained.skip(i as int), before)
                    == select_txs(self.spec_blocks(), drained.skip(i as int + 1), selected@));
            }
            i += 1;
        }
        proof {
            assert(drained.skip(take_count as int) =~= Seq::<SignedTransaction>::empty());
        }
        selected
    }

    /// Mines a block: drains up to `MAX_TRANSACTIONS` pending candidates
    /// (most recently added first), keeps the admissible ones, appends the
    /// miner's reward, searches for a nonce under which the block's hex hash
    /// opens with `"0000"`, and appends the sealed block.  Failure leaves
    /// the ledger untouched: with no admissible candidate nothing is mined,
    /// and a nonce search that exhausts the 64-bit space reports failure.
    /// Whether the search succeeds depends on the hashes found along the
    /// way, so success itself is not promised.
    pub fn mine_block(&mut self, reward_address: &str) -> (r: Result<(), &'static str>)
        requires
            old(self).wf(),
        ensures
            final(self).wf(),
            old(self).hashes_ok() ==> final(self).hashes_ok(),
            final(self).spec_genesis_hash() == old(self).spec_genesis_hash(),
            r is Err ==> *final(self) == *old(self),
            select_txs(
                old(self).spec_blocks(),
                drained_of(old(self).spec_pending()),
                Seq::empty(),
            ).len() == 0 ==> (r matches Err(m) && m@ == "No transactions found"@),
            r matches Err(m) ==> (m@ == "No transactions found"@ <==> select_txs(
                old(self).spec_blocks(),
                drained_of(old(self).spec_pending()),
                Seq::empty(),
            ).len() == 0),
            r is Ok ==> ({
                let sel = select_txs(
                    old(self).spec_blocks(),
                    drained_of(old(self).spec_pending()),
                    Seq::empty(),
                );
                let previous = old(self).spec_blocks().last();
                let sealed = final(self).spec_blocks().last();
                &&& final(self).spec_blocks() == old(self).spec_blocks().push(sealed)
                &&& sealed.index == previous.index + 1
                &&& sealed.previous_hash@ == previous.hash@
                &&& sealed.hash_ok()
                &&& sealed.hash@.len() >= 4
                &&& sealed.hash@.subrange(0, 4) == "0000"@
                &&& sealed.transactions@.len() == sel.len() + 1
                &&& sealed.transactions@.take(sel.len() as int) == sel
                &&& reward_shaped(sealed.transactions@.last(), reward_address@)
                &&& final(self).spec_pending() == old(self).spec_pending().take(
                    drain_floor(old(self).spec_pending()),
                )
            }),
    {
        let selected = self.select_pending();
        if selected.len() == 0 {
            return Err("No transactions found");
        }
        let ghost sel = selected@;

        let mut transactions = selected;
        let reward_transaction = SignedTransaction::create_reward(reward_address);
        transactions.push(reward_transaction);
        proof {
            assert(transactions@.take(sel.len() as int) =~= sel);
        }

        let last_position: usize = self.blocks.len() - 1;
        let new_index: u64 = self.blocks[last_position].index + 1;
        let previous_hash: String = self.blocks[last_position].hash.clone();

        let mut block = Block::create(new_index, transactions, previous_hash.as_str(), 0);
        let ghost block_txs = block.transactions@;
        let mut found = str_starts_with(block.hash.as_str(), "0000");
        while !found && block.nonce < u64::MAX
            invariant
                block.index == new_index,
                block.transactions@ == block_txs,
                block.previous_hash@ == previous_hash@,
                block.hash_ok(),
                found == (block.hash@.len() >= "0000"@.len() && block.hash@.subrange(
                    0,
                    "0000"@.len() as int,
                ) == "0000"@),
            decreases u64::MAX - block.nonce,
        {
            let next_nonce: u64 = block.nonce + 1;
            block.update_nonce(next_nonce);
            found = str_starts_with(block.hash.as_str(), "0000");
        }
        if !found {
            proof {
                lemma_mining_failures_differ();
            }
            return Err("Unable to find proof of work");
        }

        let pending_len: usize = self.pending_transactions.len();
        let limit: usize = Block::MAX_TRANSACTIONS as usize;
        let floor: usize = if pending_len <= limit {
            0
        } else {
            pending_len - limit
        };
        let ghost sealed = block;
        self.pending_transactions.truncate(floor);
        self.blocks.push(block);
        proof {
            reveal_strlit("0000");
            let obs = old(self).spec_blocks();
            assert(self.spec_blocks() == obs.push(sealed));
            assert(sealed.transactions@.take(sel.len() as int) == sel);
            assert(sealed.transactions@.last() == block_txs.last());
            assert forall|i: int| 0 <= i < self.spec_blocks().len() implies (
            #[trigger] self.spec_blocks()[i]).index == i by {
                if i < obs.len() {
                    assert(obs[i].index == i);
                }
            }
            assert forall|i: int| 1 <= i < self.spec_blocks().len() implies (
            #[trigger] self.spec_blocks()[i]).previous_hash@ == self.spec_blocks()[i - 1].hash@ by {
                if i < obs.len() {
                    assert(obs[i].previous_hash@ == obs[i - 1].hash@);
                }
            }
            if old(self).hashes_ok() {
                assert forall|i: int| 0 <= i < self.spec_blocks().len() implies (
                #[trigger] self.spec_blocks()[i]).hash_ok() by {
                    if i < obs.len() {
                        assert(obs[i].hash_ok());
                    }
                }
            }
        }
        Ok(())
    }

    /// Appends a transaction to the pending pool; validation is deferred to
    /// mining time.
    pub fn add_pending_transaction(&mut self, transaction: SignedTransaction)
        ensures
            final(self).spec_pending() == old(self).spec_pending().push(transaction),
            final(self).spec_blocks() == old(self).spec_blocks(),
            final(self).spec_genesis_hash() == old(self).spec_genesis_hash(),
            old(self).wf() ==> final(self).wf(),
            old(self).hashes_ok() ==> final(self).hashes_ok(),
    {
        self.pending_transactions.push(transaction);
    }

    /// Chain linkage: on a well-formed ledger, every block of the chain
    /// whose stored hash is right — the genesis block in particular —
    /// passes `validate_block`'s admission condition.
    pub proof fn lemma_chain_blocks_admissible(self)
        requires
            self.wf(),
        ensures
            forall|i: int|
                0 <= i < self.spec_blocks().len() && (#[trigger] self.spec_blocks()[i]).hash_ok()
                    ==> self.block_admissible(self.spec_blocks()[i]),
    {
        assert forall|i: int|
            0 <= i < self.spec_blocks().len() && (#[trigger] self.spec_blocks()[i]).hash_ok()
                implies self.block_admissible(self.spec_blocks()[i]) by {
            let b = self.spec_blocks()[i];
            assert(b.index == i);
            if i > 0 {
                assert(b.previous_hash@ == self.spec_blocks()[i - 1].hash@);
            }
        }
    }
}

} // verus!
