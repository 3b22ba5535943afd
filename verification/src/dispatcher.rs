//! The update dispatcher: turns parsed price updates into one instruction
//! per update, addressed to the record derived from the provider and
//! symbol, and assembles them into a single signed transaction carrying the
//! cached freshness token.

use vstd::prelude::*;
use vstd::bytes::{lemma_auto_spec_u32_to_from_le_bytes, lemma_auto_spec_u64_to_from_le_bytes,
    spec_u32_to_le_bytes, spec_u64_to_le_bytes};
use vstd::utf8::encode_utf8;
use crate::codec::{push_u32_le, push_u64_le};
use crate::price_feed::UpdateData;
use solana_instruction::{AccountMeta, Instruction};
use solana_signer::Signer;
use solana_transaction::Transaction;

verus! {

/// An atomically-processed unit of program invocations. Opaque; built and
/// consumed only by the trusted items below.
#[verifier::external_type_specification]
#[verifier::external_body]
pub struct ExTransaction(Transaction);

/// The address that the ledger's program-derived-address rule gives to the
/// given seeds under the given program, or `None` in the statistically
/// improbable event that no bump seed works (or a seed is over-long). The
/// rule is a pure function of its arguments.
pub uninterp spec fn spec_derived_address(
    seed1: Seq<u8>,
    seed2: Seq<u8>,
    seed3: Seq<u8>,
    program_id: Seq<u8>,
) -> Option<Seq<u8>>;

/// Relies on `solana_pubkey::Pubkey::try_find_program_address`: the derived
/// address is a deterministic function of the seeds and the program id.
#[verifier::external_body]
fn try_derive_address(
    seed1: &[u8],
    seed2: &[u8],
    seed3: &[u8],
    program_id: &[u8; 32],
) -> (result: Option<[u8; 32]>)
    ensures
        result is Some <==> spec_derived_address(seed1@, seed2@, seed3@, program_id@) is Some,
        result matches Some(a) ==> Some(a@) == spec_derived_address(
            seed1@,
            seed2@,
            seed3@,
            program_id@,
        ),
{
    let program = solana_pubkey::Pubkey::new_from_array(*program_id);
    solana_pubkey::Pubkey::try_find_program_address(&[seed1, seed2, seed3], &program).map(
        |found: (solana_pubkey::Pubkey, u8)| found.0.to_bytes(),
    )
}

/// The public key that ed25519 derives from a 32-byte signing secret: a
/// pure function of the secret alone.
pub uninterp spec fn spec_ed25519_pubkey(secret: Seq<u8>) -> Seq<u8>;

/// Relies on `solana_keypair::Keypair::new_from_array` and
/// `solana_signer::Signer::pubkey`: the public key derived from the given
/// secret bytes. Every 32-byte value is a valid secret; the derivation
/// never fails.
#[verifier::external_body]
fn ed25519_public_key(secret: &[u8; 32]) -> (key: [u8; 32])
    ensures
        key@ == spec_ed25519_pubkey(secret@),
{
    solana_keypair::Keypair::new_from_array(*secret).pubkey().to_bytes()
}

/// How many updates one transaction may carry. The ledger message indexes
/// its account keys with one byte and compiles at most 255 distinct keys;
/// the fee payer and the program take two, and each update's record may
/// add one more.
pub const MAX_BATCH_UPDATES: usize = 253;

/// How many bytes one instruction's data may hold: the serialized message
/// prefixes each data field with a two-byte length.
pub const MAX_INSTRUCTION_DATA: usize = 0xFFFF;

/// The transaction that signing the given record entries yields: one
/// instruction per entry under the given program — the secret's public key
/// as writable signer, the entry's record writable, the entry's bytes as
/// data — with the given freshness token recorded and the whole signed by
/// the secret's keypair as fee payer. Message compilation and ed25519
/// signing are pure functions of these arguments.
pub uninterp spec fn spec_update_transaction(
    payer_secret: Seq<u8>,
    program_id: Seq<u8>,
    entries: Seq<(Seq<u8>, Seq<u8>)>,
    blockhash: Seq<u8>,
) -> Transaction;

/// Relies on `solana_instruction::Instruction::new_with_bytes`,
/// `AccountMeta::new`, `solana_transaction::Transaction::new_with_payer`
/// and `try_partial_sign`: converts each entry to one instruction and
/// signs the whole with the secret's keypair as fee payer. Within the
/// bounds below the message always compiles — at most 255 distinct
/// byte-indexed account keys, every data field within its two-byte length
/// prefix — and a local keypair's signing of its own message never fails,
/// so the transaction is always produced.
#[verifier::external_body]
fn sign_update_transaction(
    payer_secret: &[u8; 32],
    program_id: &[u8; 32],
    entries: &Vec<([u8; 32], Vec<u8>)>,
    blockhash: &[u8; 32],
) -> (tx: Option<Transaction>)
    requires
        entries@.len() <= MAX_BATCH_UPDATES,
        forall|i: int| 0 <= i < entries@.len() ==> (#[trigger] entries@[i]).1@.len()
            <= MAX_INSTRUCTION_DATA,
    ensures
        tx == Some(
            spec_update_transaction(
                payer_secret@,
                program_id@,
                entries@.map_values(|e: ([u8; 32], Vec<u8>)| (e.0@, e.1@)),
                blockhash@,
            ),
        ),
{
    let payer = solana_keypair::Keypair::new_from_array(*payer_secret);
    let fee_payer = payer.pubkey();
    let program = solana_pubkey::Pubkey::new_from_array(*program_id);
    let to_instruction = |e: &([u8; 32], Vec<u8>)| {
        let record = solana_pubkey::Pubkey::new_from_array(e.0);
        let metas = vec![AccountMeta::new(fee_payer, true), AccountMeta::new(record, false)];
        Instruction::new_with_bytes(program, e.1.as_slice(), metas)
    };
    let instructions: Vec<Instruction> = entries.iter().map(to_instruction).collect();
    let mut tx = Transaction::new_with_payer(instructions.as_slice(), Some(&fee_payer));
    match tx.try_partial_sign(&[&payer], solana_hash::Hash::new_from_array(*blockhash)) {
        Ok(()) => Some(tx),
        Err(_) => None,
    }
}

/// The seed prefix under which every record address is derived.
pub open spec fn spec_seed_prefix() -> Seq<u8> {
    seq![112u8, 114u8, 105u8, 99u8, 101u8, 95u8, 102u8, 101u8, 101u8, 100u8]
}

fn seed_prefix() -> (out: Vec<u8>)
    ensures
        out@ == spec_seed_prefix(),
{
    let mut out: Vec<u8> = Vec::new();
    out.push(112u8);
    out.push(114u8);
    out.push(105u8);
    out.push(99u8);
    out.push(101u8);
    out.push(95u8);
    out.push(102u8);
    out.push(101u8);
    out.push(101u8);
    out.push(100u8);
    proof {
        assert(out@ =~= spec_seed_prefix());
    }
    out
}

/// The address of the record kept for a provider+symbol pair: derived from
/// the constant seed prefix, the provider and the symbol, so the same pair
/// always yields the same address.
pub fn record_address(provider: &str, symbol: &str, program_id: &[u8; 32]) -> (result: Option<
    [u8; 32],
>)
    ensures
        result is Some <==> spec_derived_address(
            spec_seed_prefix(),
            encode_utf8(provider@),
            encode_utf8(symbol@),
            program_id@,
        ) is Some,
        result matches Some(a) ==> Some(a@) == spec_derived_address(
            spec_seed_prefix(),
            encode_utf8(provider@),
            encode_utf8(symbol@),
            program_id@,
        ),
{
    let prefix = seed_prefix();
    try_derive_address(prefix.as_slice(), provider.as_bytes(), symbol.as_bytes(), program_id)
}

/// The 8-byte discriminator selecting the update instruction.
pub open spec fn spec_ix_discriminator() -> Seq<u8> {
    seq![28u8, 9u8, 93u8, 150u8, 86u8, 153u8, 188u8, 115u8]
}

/// A length-prefixed string as the instruction encoding carries it.
pub open spec fn spec_encoded_string(bytes: Seq<u8>) -> Seq<u8>
    recommends
        bytes.len() < 0x1_0000_0000,
{
    spec_u32_to_le_bytes(bytes.len() as u32) + bytes
}

/// The exact bytes of one update instruction's data: the instruction
/// discriminator, the provider and symbol strings, then the observation's
/// timestamp and quantized value.
pub open spec fn spec_update_instruction_data(
    provider: Seq<u8>,
    symbol: Seq<u8>,
    timestamp_ns: u64,
    quantized_value: u64,
) -> Seq<u8> {
    spec_ix_discriminator() + spec_encoded_string(provider) + spec_encoded_string(symbol)
        + spec_u64_to_le_bytes(timestamp_ns) + spec_u64_to_le_bytes(quantized_value)
}

/// Encodes one update's instruction data.
pub fn update_instruction_data(provider: &str, update: &UpdateData) -> (out: Vec<u8>)
    requires
        encode_utf8(provider@).len() < 0x1_0000_0000,
        encode_utf8(update.symbol@).len() < 0x1_0000_0000,
    ensures
        out@ == spec_update_instruction_data(
            encode_utf8(provider@),
            encode_utf8(update.symbol@),
            update.temporal_numeric_value.timestamp_ns,
            update.temporal_numeric_value.quantized_value,
        ),
        out@.len() == 32 + encode_utf8(provider@).len() + encode_utf8(update.symbol@).len(),
{
    proof {
        lemma_auto_spec_u32_to_from_le_bytes();
        lemma_auto_spec_u64_to_from_le_bytes();
    }
    let mut out: Vec<u8> = Vec::new();
    out.push(28u8);
    out.push(9u8);
    out.push(93u8);
    out.push(150u8);
    out.push(86u8);
    out.push(153u8);
    out.push(188u8);
    out.push(115u8);
    assert(out@ =~= spec_ix_discriminator());
    let provider_bytes = provider.as_bytes();
    push_u32_le(&mut out, provider_bytes.len() as u32);
    out.extend_from_slice(provider_bytes);
    let symbol_bytes = update.symbol.as_str().as_bytes();
    push_u32_le(&mut out, symbol_bytes.len() as u32);
    out.extend_from_slice(symbol_bytes);
    push_u64_le(&mut out, update.temporal_numeric_value.timestamp_ns);
    push_u64_le(&mut out, update.temporal_numeric_value.quantized_value);
    proof {
        assert(out@ =~= spec_update_instruction_data(
            encode_utf8(provider@),
            encode_utf8(update.symbol@),
            update.temporal_numeric_value.timestamp_ns,
            update.temporal_numeric_value.quantized_value,
        ));
    }
    out
}

/// The record entries one batch compiles to: for each update, in batch
/// order, the derived record address and that update's exact instruction
/// data bytes.
pub open spec fn spec_update_entries(
    provider: Seq<char>,
    program_id: Seq<u8>,
    updates: Seq<UpdateData>,
) -> Seq<(Seq<u8>, Seq<u8>)> {
    Seq::new(
        updates.len(),
        |i: int|
            (
                spec_derived_address(
                    spec_seed_prefix(),
                    encode_utf8(provider),
                    encode_utf8(updates[i].symbol@),
                    program_id,
                )->Some_0,
                spec_update_instruction_data(
                    encode_utf8(provider),
                    encode_utf8(updates[i].symbol@),
                    updates[i].temporal_numeric_value.timestamp_ns,
                    updates[i].temporal_numeric_value.quantized_value,
                ),
            ),
    )
}

/// Builds signed update transactions for one provider: the signing
/// secret, its public key, the provider tag, and the oracle program the
/// instructions are addressed to.
pub struct ChainPusher {
    pub payer_secret: [u8; 32],
    pub payer_key: [u8; 32],
    pub provider: String,
    pub program_id: [u8; 32],
}

impl ChainPusher {
    /// Sets up a pusher for the given provider around a signing secret;
    /// the kept public key is the one ed25519 derives from that secret.
    pub fn new(payer_secret: [u8; 32], provider: String, program_id: [u8; 32]) -> (pusher:
        ChainPusher)
        ensures
            pusher.payer_secret@ == payer_secret@,
            pusher.payer_key@ == spec_ed25519_pubkey(payer_secret@),
            pusher.provider@ == provider@,
            pusher.program_id@ == program_id@,
    {
        let payer_key = ed25519_public_key(&payer_secret);
        ChainPusher { payer_secret, payer_key, provider, program_id }
    }

    /// Compiles one batch into record entries: exactly one per update, in
    /// batch order, each pairing the update's derived record address with
    /// its exact data bytes. Entries are produced exactly when every
    /// update's record address derives.
    pub fn build_update_entries(&self, updates: &Vec<UpdateData>) -> (result: Option<
        Vec<([u8; 32], Vec<u8>)>,
    >)
        requires
            forall|i: int|
                0 <= i < updates@.len() ==> 32 + encode_utf8(self.provider@).len() + encode_utf8(
                    #[trigger] updates@[i].symbol@,
                ).len() <= MAX_INSTRUCTION_DATA,
        ensures
            result is Some <==> (forall|i: int|
                0 <= i < updates@.len() ==> spec_derived_address(
                    spec_seed_prefix(),
                    encode_utf8(self.provider@),
                    encode_utf8(#[trigger] updates@[i].symbol@),
                    self.program_id@,
                ) is Some),
            result matches Some(entries) ==> {
                &&& entries@.len() == updates@.len()
                &&& entries@.map_values(|e: ([u8; 32], Vec<u8>)| (e.0@, e.1@))
                    == spec_update_entries(self.provider@, self.program_id@, updates@)
                &&& forall|i: int|
                    0 <= i < entries@.len() ==> (#[trigger] entries@[i]).1@.len()
                        <= MAX_INSTRUCTION_DATA
            },
    {
        proof {
            lemma_auto_spec_u32_to_from_le_bytes();
            lemma_auto_spec_u64_to_from_le_bytes();
        }
        let mut entries: Vec<([u8; 32], Vec<u8>)> = Vec::new();
        let mut i: usize = 0;
        while i < updates.len()
            invariant
                i <= updates@.len(),
                entries@.len() == i,
                forall|j: int|
                    0 <= j < updates@.len() ==> 32 + encode_utf8(self.provider@).len()
                        + encode_utf8(#[trigger] updates@[j].symbol@).len()
                        <= MAX_INSTRUCTION_DATA,
                forall|j: int|
                    0 <= j < i ==> spec_derived_address(
                        spec_seed_prefix(),
                        encode_utf8(self.provider@),
                        encode_utf8(#[trigger] updates@[j].symbol@),
                        self.program_id@,
                    ) is Some,
                forall|j: int|
                    0 <= j < i ==> (#[trigger] entries@[j]).0@ == spec_derived_address(
                        spec_seed_prefix(),
                        encode_utf8(self.provider@),
                        encode_utf8(updates@[j].symbol@),
                        self.program_id@,
                    )->Some_0,
                forall|j: int|
                    0 <= j < i ==> (#[trigger] entries@[j]).1@ == spec_update_instruction_data(
                        encode_utf8(self.provider@),
                        encode_utf8(updates@[j].symbol@),
                        updates@[j].temporal_numeric_value.timestamp_ns,
                        updates@[j].temporal_numeric_value.quantized_value,
                    ),
                forall|j: int|
                    0 <= j < i ==> (#[trigger] entries@[j]).1@.len() <= MAX_INSTRUCTION_DATA,
            decreases updates@.len() - i,
        {
            let update = &updates[i];
            proof {
                assert(32 + encode_utf8(self.provider@).len() + encode_utf8(
                    updates@[i as int].symbol@,
                ).len() <= MAX_INSTRUCTION_DATA);
            }
            let data = update_instruction_data(self.provider.as_str(), update);
            let derived = record_address(
                self.provider.as_str(),
                update.symbol.as_str(),
                &self.program_id,
            );
            match derived {
                Some(address) => {
                    entries.push((address, data));
                },
                None => {
                    return None;
                },
            }
            i += 1;
        }
        proof {
            let mapped = entries@.map_values(|e: ([u8; 32], Vec<u8>)| (e.0@, e.1@));
            let spec_entries = spec_update_entries(self.provider@, self.program_id@, updates@);
            assert forall|j: int| 0 <= j < updates@.len() implies mapped[j] == spec_entries[j] by {
                assert(mapped[j] == (entries@[j].0@, entries@[j].1@));
            }
            assert(mapped =~= spec_entries);
        }
        Some(entries)
    }

    /// Assembles one batch into a single signed transaction: one
    /// instruction per update at its derived record address, signed by
    /// this pusher's identity as fee payer, with the given freshness token
    /// recorded. A transaction is produced exactly when every update's
    /// record address derives, and it is precisely the transaction that
    /// signing this batch's entries with this identity and token yields.
    pub fn build_price_updates_transaction(
        &self,
        updates: &Vec<UpdateData>,
        blockhash: &[u8; 32],
    ) -> (result: Option<Transaction>)
        requires
            updates@.len() <= MAX_BATCH_UPDATES,
            forall|i: int|
                0 <= i < updates@.len() ==> 32 + encode_utf8(self.provider@).len() + encode_utf8(
                    #[trigger] updates@[i].symbol@,
                ).len() <= MAX_INSTRUCTION_DATA,
        ensures
            result is Some <==> (forall|i: int|
                0 <= i < updates@.len() ==> spec_derived_address(
                    spec_seed_prefix(),
                    encode_utf8(self.provider@),
                    encode_utf8(#[trigger] updates@[i].symbol@),
                    self.program_id@,
                ) is Some),
            result is Some ==> result == Some(
                spec_update_transaction(
                    self.payer_secret@,
                    self.program_id@,
                    spec_update_entries(self.provider@, self.program_id@, updates@),
                    blockhash@,
                ),
            ),
    {
        match self.build_update_entries(updates) {
            Some(entries) => sign_update_transaction(
                &self.payer_secret,
                &self.program_id,
                &entries,
                blockhash,
            ),
            None => None,
        }
    }
}

} // verus!
