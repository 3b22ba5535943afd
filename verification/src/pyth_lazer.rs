//! The pyth-lazer provider: its symbol directory, the lookup from symbol
//! names to feed ids, and the exact text of the subscription message.

use vstd::prelude::*;
use crate::args::{chars_to_string, string_to_chars};
use crate::blockhash_cache::BlockhashCache;
use crate::dispatcher::{
    spec_derived_address, spec_ed25519_pubkey, spec_seed_prefix, spec_update_entries,
    spec_update_transaction, ChainPusher, MAX_BATCH_UPDATES, MAX_INSTRUCTION_DATA,
};
use crate::price_feed::UpdateData;
use vstd::utf8::encode_utf8;

verus! {

/// One entry of the provider's symbol directory, as its history endpoint
/// describes it.
#[derive(Clone, PartialEq, Eq, Debug)]
pub struct PythSymbol {
    pub pyth_lazer_id: i32,
    pub name: String,
    pub symbol: String,
    pub description: String,
    pub asset_type: String,
    pub exponent: i32,
    pub cmc_id: Option<i32>,
    pub interval: Option<String>,
}

/// The id of the first directory entry whose name is the given feed name.
pub open spec fn spec_first_id(symbols: Seq<PythSymbol>, feed: Seq<char>) -> Option<i32>
    decreases symbols.len(),
{
    if symbols.len() == 0 {
        None
    } else if symbols[0].name@ == feed {
        Some(symbols[0].pyth_lazer_id)
    } else {
        spec_first_id(symbols.drop_first(), feed)
    }
}

/// The feed ids of the requested feeds, in request order, skipping names
/// the directory does not know.
pub open spec fn spec_feed_ids(feeds: Seq<Seq<char>>, symbols: Seq<PythSymbol>) -> Seq<i32>
    decreases feeds.len(),
{
    if feeds.len() == 0 {
        Seq::empty()
    } else {
        let rest = spec_feed_ids(feeds.drop_first(), symbols);
        match spec_first_id(symbols, feeds[0]) {
            Some(id) => seq![id] + rest,
            None => rest,
        }
    }
}

proof fn lemma_feed_ids_push(feeds: Seq<Seq<char>>, symbols: Seq<PythSymbol>, feed: Seq<char>)
    ensures
        spec_feed_ids(feeds.push(feed), symbols) == spec_feed_ids(feeds, symbols) + (
        match spec_first_id(symbols, feed) {
            Some(id) => seq![id],
            None => Seq::<i32>::empty(),
        }),
    decreases feeds.len(),
{
    let tail = (match spec_first_id(symbols, feed) {
        Some(id) => seq![id],
        None => Seq::<i32>::empty(),
    });
    if feeds.len() == 0 {
        assert(feeds.push(feed)[0] == feed);
        assert(feeds.push(feed).drop_first() =~= feeds);
        assert(spec_feed_ids(feeds, symbols) + tail =~= tail);
        match spec_first_id(symbols, feed) {
            Some(id) => {
                assert(seq![id] + Seq::<i32>::empty() =~= seq![id]);
            },
            None => {},
        }
    } else {
        assert(feeds.push(feed)[0] == feeds[0]);
        assert(feeds.push(feed).drop_first() =~= feeds.drop_first().push(feed));
        lemma_feed_ids_push(feeds.drop_first(), symbols, feed);
        match spec_first_id(symbols, feeds[0]) {
            Some(id) => {
                assert(seq![id] + (spec_feed_ids(feeds.drop_first(), symbols) + tail) =~= (
                seq![id] + spec_feed_ids(feeds.drop_first(), symbols)) + tail);
            },
            None => {},
        }
    }
}

fn first_id(symbols: &Vec<PythSymbol>, feed: &String) -> (found: Option<i32>)
    ensures
        found == spec_first_id(symbols@, feed@),
{
    let mut j: usize = 0;
    proof {
        assert(symbols@.skip(0) =~= symbols@);
    }
    while j < symbols.len()
        invariant
            j <= symbols@.len(),
            spec_first_id(symbols@, feed@) == spec_first_id(symbols@.skip(j as int), feed@),
        decreases symbols@.len() - j,
    {
        proof {
            assert(symbols@.skip(j as int)[0] == symbols@[j as int]);
            assert(symbols@.skip(j as int).drop_first() =~= symbols@.skip(j + 1));
        }
        if symbols[j].name == *feed {
            return Some(symbols[j].pyth_lazer_id);
        }
        j += 1;
    }
    proof {
        assert(symbols@.skip(symbols@.len() as int).len() == 0);
    }
    None
}

/// Resolves the requested feed names against the provider's symbol
/// directory: one id per known name, in request order, unknown names
/// skipped.
pub fn price_feed_ids(price_feeds: &Vec<String>, symbols: &Vec<PythSymbol>) -> (ids: Vec<i32>)
    ensures
        ids@ == spec_feed_ids(price_feeds@.map_values(|f: String| f@), symbols@),
{
    let mut ids: Vec<i32> = Vec::new();
    let mut i: usize = 0;
    while i < price_feeds.len()
        invariant
            i <= price_feeds@.len(),
            ids@ == spec_feed_ids(
                price_feeds@.take(i as int).map_values(|f: String| f@),
                symbols@,
            ),
        decreases price_feeds@.len() - i,
    {
        let ghost done = price_feeds@.take(i as int).map_values(|f: String| f@);
        proof {
            lemma_feed_ids_push(done, symbols@, price_feeds@[i as int]@);
            assert(price_feeds@.take(i + 1).map_values(|f: String| f@) =~= done.push(
                price_feeds@[i as int]@,
            ));
        }
        match first_id(symbols, &price_feeds[i]) {
            Some(id) => {
                ids.push(id);
                proof {
                    assert(ids@ =~= spec_feed_ids(done, symbols@) + seq![id]);
                }
            },
            None => {
                proof {
                    assert(ids@ =~= spec_feed_ids(done, symbols@) + Seq::<i32>::empty());
                }
            },
        }
        i += 1;
    }
    proof {
        assert(price_feeds@.take(price_feeds@.len() as int) =~= price_feeds@);
    }
    ids
}

/// The decimal digits of a number, most significant first.
pub open spec fn spec_dec_digits(n: nat) -> Seq<char>
    decreases n,
{
    if n < 10 {
        seq![((48 + n) as u8) as char]
    } else {
        spec_dec_digits(n / 10).push(((48 + n % 10) as u8) as char)
    }
}

/// The decimal rendering of a signed id.
pub open spec fn spec_dec_i32(x: i32) -> Seq<char> {
    if x < 0 {
        seq!['-'] + spec_dec_digits((0 - x) as nat)
    } else {
        spec_dec_digits(x as nat)
    }
}

fn push_dec_u32(out: &mut Vec<char>, n: u32)
    ensures
        final(out)@ == old(out)@ + spec_dec_digits(n as nat),
    decreases n,
{
    if n < 10 {
        out.push(((48 + n) as u8) as char);
        proof {
            assert(out@ =~= old(out)@ + spec_dec_digits(n as nat));
        }
    } else {
        push_dec_u32(out, n / 10);
        out.push(((48 + n % 10) as u8) as char);
        proof {
            assert(out@ =~= old(out)@ + spec_dec_digits(n as nat));
        }
    }
}

fn push_dec_i32(out: &mut Vec<char>, x: i32)
    ensures
        final(out)@ == old(out)@ + spec_dec_i32(x),
{
    if x < 0 {
        out.push('-');
        let magnitude = (0i64 - (x as i64)) as u32;
        push_dec_u32(out, magnitude);
        proof {
            assert(out@ =~= old(out)@ + spec_dec_i32(x));
        }
    } else {
        push_dec_u32(out, x as u32);
    }
}

/// The ids joined with commas, as a JSON array's inside reads.
pub open spec fn spec_joined_ids(ids: Seq<i32>) -> Seq<char>
    decreases ids.len(),
{
    if ids.len() == 0 {
        Seq::empty()
    } else if ids.len() == 1 {
        spec_dec_i32(ids[0])
    } else {
        spec_dec_i32(ids[0]) + seq![','] + spec_joined_ids(ids.drop_first())
    }
}

proof fn lemma_joined_ids_push(ids: Seq<i32>, id: i32)
    ensures
        spec_joined_ids(ids.push(id)) == if ids.len() == 0 {
            spec_dec_i32(id)
        } else {
            spec_joined_ids(ids) + seq![','] + spec_dec_i32(id)
        },
    decreases ids.len(),
{
    if ids.len() == 0 {
        assert(ids.push(id)[0] == id);
    } else if ids.len() == 1 {
        assert(ids.push(id).drop_first() =~= seq![id]);
        assert(ids.push(id)[0] == ids[0]);
        assert(spec_joined_ids(seq![id]) == spec_dec_i32(id));
    } else {
        assert(ids.push(id).drop_first() =~= ids.drop_first().push(id));
        assert(ids.push(id)[0] == ids[0]);
        lemma_joined_ids_push(ids.drop_first(), id);
        assert(spec_dec_i32(ids[0]) + seq![','] + (spec_joined_ids(ids.drop_first()) + seq![',']
            + spec_dec_i32(id)) =~= (spec_dec_i32(ids[0]) + seq![','] + spec_joined_ids(
            ids.drop_first(),
        )) + seq![','] + spec_dec_i32(id));
    }
}

fn push_joined_ids(out: &mut Vec<char>, ids: &Vec<i32>)
    ensures
        final(out)@ == old(out)@ + spec_joined_ids(ids@),
{
    let mut i: usize = 0;
    while i < ids.len()
        invariant
            i <= ids@.len(),
            out@ == old(out)@ + spec_joined_ids(ids@.take(i as int)),
        decreases ids@.len() - i,
    {
        proof {
            lemma_joined_ids_push(ids@.take(i as int), ids@[i as int]);
            assert(ids@.take(i + 1) =~= ids@.take(i as int).push(ids@[i as int]));
        }
        if i > 0 {
            out.push(',');
        }
        push_dec_i32(out, ids[i]);
        proof {
            if i > 0 {
                assert(out@ =~= old(out)@ + spec_joined_ids(ids@.take(i + 1)));
            } else {
                assert(ids@.take(1).len() == 1);
                assert(out@ =~= old(out)@ + spec_joined_ids(ids@.take(i + 1)));
            }
        }
        i += 1;
    }
    proof {
        assert(ids@.take(ids@.len() as int) =~= ids@);
    }
}

/// The exact subscription message sent for the given feed ids and channel:
/// a subscribe request for those ids, asking for price properties on the
/// solana chain, at the given update rate.
pub open spec fn spec_subscription_message(ids: Seq<i32>, channel: Seq<char>) -> Seq<char> {
    "{\"type\":\"subscribe\",\"subscriptionId\":0,\"priceFeedIds\":["@ + spec_joined_ids(ids)
        + "],\"properties\":[\"price\"],\"chains\":[\"solana\"],\"channel\":\""@ + channel + "\"}"@
}

/// Builds the subscription message for the requested feeds: their ids are
/// resolved against the symbol directory and joined into the provider's
/// subscribe request for the given channel.
pub fn feeds_subscription_msg(
    price_feeds: &Vec<String>,
    channel: &str,
    symbols: &Vec<PythSymbol>,
) -> (msg: String)
    ensures
        msg@ == spec_subscription_message(
            spec_feed_ids(price_feeds@.map_values(|f: String| f@), symbols@),
            channel@,
        ),
{
    let ids = price_feed_ids(price_feeds, symbols);
    let mut out = string_to_chars("{\"type\":\"subscribe\",\"subscriptionId\":0,\"priceFeedIds\":[");
    push_joined_ids(&mut out, &ids);
    let mut mid = string_to_chars("],\"properties\":[\"price\"],\"chains\":[\"solana\"],\"channel\":\"");
    out.append(&mut mid);
    let mut channel_chars = string_to_chars(channel);
    out.append(&mut channel_chars);
    let mut suffix = string_to_chars("\"}");
    out.append(&mut suffix);
    proof {
        assert(out@ =~= spec_subscription_message(
            spec_feed_ids(price_feeds@.map_values(|f: String| f@), symbols@),
            channel@,
        ));
    }
    chars_to_string(&out)
}

/// The pyth-lazer pusher: the transaction builder for the pyth-lazer
/// provider together with the freshness-token cache its submissions draw
/// from.
pub struct PythChainPusher {
    pub pusher: ChainPusher,
    pub blockhash_cache: BlockhashCache,
}

impl PythChainPusher {
    /// Sets up the pusher around a signing secret and the synchronously
    /// fetched first freshness token; the kept public key is the one
    /// ed25519 derives from that secret.
    pub fn new(
        payer_secret: [u8; 32],
        program_id: [u8; 32],
        initial_blockhash: [u8; 32],
    ) -> (pusher: PythChainPusher)
        ensures
            pusher.pusher.payer_secret@ == payer_secret@,
            pusher.pusher.payer_key@ == spec_ed25519_pubkey(payer_secret@),
            pusher.pusher.provider@ == "pyth-lazer"@,
            pusher.pusher.program_id@ == program_id@,
            pusher.blockhash_cache.blockhash@ == initial_blockhash@,
    {
        PythChainPusher {
            pusher: ChainPusher::new(payer_secret, "pyth-lazer".to_owned(), program_id),
            blockhash_cache: BlockhashCache::new(initial_blockhash),
        }
    }

    /// Assembles the parsed updates into one signed transaction — one
    /// instruction per update at its derived record address, signed by
    /// this pusher's identity — carrying the cached freshness token, read
    /// without any fetch; submitting it (fire-and-forget) is the caller's
    /// step. A transaction is produced exactly when every update's record
    /// address derives, and it is precisely the transaction that signing
    /// this batch's entries with this identity and the cached token
    /// yields.
    pub fn build_price_updates_transaction(&self, updates: &Vec<UpdateData>) -> (tx: Option<
        solana_transaction::Transaction,
    >)
        requires
            updates@.len() <= MAX_BATCH_UPDATES,
            forall|i: int|
                0 <= i < updates@.len() ==> 32 + encode_utf8(self.pusher.provider@).len()
                    + encode_utf8(#[trigger] updates@[i].symbol@).len() <= MAX_INSTRUCTION_DATA,
        ensures
            tx is Some <==> (forall|i: int|
                0 <= i < updates@.len() ==> spec_derived_address(
                    spec_seed_prefix(),
                    encode_utf8(self.pusher.provider@),
                    encode_utf8(#[trigger] updates@[i].symbol@),
                    self.pusher.program_id@,
                ) is Some),
            tx is Some ==> tx == Some(
                spec_update_transaction(
                    self.pusher.payer_secret@,
                    self.pusher.program_id@,
                    spec_update_entries(
                        self.pusher.provider@,
                        self.pusher.program_id@,
                        updates@,
                    ),
                    self.blockhash_cache.blockhash@,
                ),
            ),
    {
        let blockhash = self.blockhash_cache.get_blockhash();
        self.pusher.build_price_updates_transaction(updates, &blockhash)
    }
}

} // verus!
