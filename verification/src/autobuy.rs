use vstd::prelude::*;
use crate::decimal::{decimal, push_decimal};

verus! {

broadcast use vstd::std_specs::bits::axiom_u8_leading_zeros;

/// An unsigned event waiting for proof of work.
#[derive(Clone, Debug)]
pub struct PreEvent {
    /// The author's x-only public key.
    pub pubkey: [u8; 32],
    /// Unix time, in seconds.
    pub created_at: i64,
    pub kind: u32,
    /// Each tag as its list of strings.
    pub tags: Vec<Vec<String>>,
    pub content: String,
}

/// A pre-event, as contracts speak of it.
pub struct PreEventView {
    pub pubkey: Seq<u8>,
    pub created_at: i64,
    pub kind: u32,
    pub tags: Seq<Seq<Seq<char>>>,
    pub content: Seq<char>,
}

impl View for PreEvent {
    type V = PreEventView;

    open spec fn view(&self) -> PreEventView {
        PreEventView {
            pubkey: self.pubkey@,
            created_at: self.created_at,
            kind: self.kind,
            tags: self.tags.deep_view(),
            content: self.content@,
        }
    }
}

/// The defaults that an automatic purchase of proof of work uses.
#[derive(Clone, Copy, Debug)]
pub struct TradeConfig {
    /// The most that is paid for one solution, in sats.
    pub default_price_sats: u64,
    /// How long to wait for an offer, in seconds.
    pub default_timeframe_sec: u64,
    /// The proof of work asked for, in leading zero bits.
    pub default_difficulty: u8,
}

/// The request put to proof-of-work providers.
#[derive(Debug)]
pub struct AskStub {
    pub price_sats: u64,
    pub timeframe_sec: u64,
    pub target_difficulty: u8,
    pub ev_pubkey: [u8; 32],
    pub ev_kind: u64,
    pub ev_content: String,
    pub ev_tags: Vec<Vec<String>>,
}

/// What a provider hands back once the work is bought and unblinded.
#[derive(Debug)]
pub struct MinedEvent {
    /// The id of the mined event.
    pub id: [u8; 32],
    /// The time the miner settled on.
    pub created_at: i64,
    /// The event's tags, the nonce tag among them.
    pub tags: Vec<Vec<String>>,
}

/// The outcome of an automatic purchase.
#[derive(Debug)]
pub struct Settlement {
    /// The line for the status queue.
    pub status: String,
    /// The pre-event to sign, or the error message.
    pub result: Result<PreEvent, String>,
}

/// The number of leading zero bits of `bytes`, read as one big-endian
/// number: eight for each leading zero byte, then those of the first byte
/// that is not zero.
pub open spec fn leading_zero_bits(bytes: Seq<u8>) -> nat
    decreases bytes.len(),
{
    if bytes.len() == 0 {
        0
    } else if bytes[0] == 0 {
        8 + leading_zero_bits(bytes.drop_first())
    } else {
        bytes[0].leading_zeros() as nat
    }
}

/// The pre-event that a mined event stands for: the mined time and tags,
/// everything else as it was.
pub open spec fn mined_pre_event(pre: PreEventView, created_at: i64, tags: Seq<Seq<Seq<char>>>) -> PreEventView {
    PreEventView { created_at, tags, ..pre }
}

/// The request for proof of work on `pre` under `config`: the configured
/// price, time frame and difficulty, and the event's author, kind, content
/// and tags.
pub fn ask_for(pre: PreEvent, config: &TradeConfig) -> (ask: AskStub)
    ensures
        ask.price_sats == config.default_price_sats,
        ask.timeframe_sec == config.default_timeframe_sec,
        ask.target_difficulty == config.default_difficulty,
        ask.ev_pubkey@ == pre.pubkey@,
        ask.ev_kind == pre.kind as u64,
        ask.ev_content@ == pre.content@,
        ask.ev_tags.deep_view() == pre.tags.deep_view(),
{
    AskStub {
        price_sats: config.default_price_sats,
        timeframe_sec: config.default_timeframe_sec,
        target_difficulty: config.default_difficulty,
        ev_pubkey: pre.pubkey,
        ev_kind: pre.kind as u64,
        ev_content: pre.content,
        ev_tags: pre.tags,
    }
}

/// The proof of work of an event id, in leading zero bits.
pub fn pow_bits(id: &[u8; 32]) -> (bits: u32)
    ensures
        bits == leading_zero_bits(id@),
{
    let mut bits: u32 = 0;
    let mut i: usize = 0;
    assert(id@.skip(0) =~= id@);
    while i < 32
        invariant
            id@.len() == 32,
            i <= 32,
            bits == 8 * i,
            leading_zero_bits(id@) == bits + leading_zero_bits(id@.skip(i as int)),
        decreases 32 - i,
    {
        let b: u8 = id[i];
        assert(id@.skip(i as int)[0] == b);
        assert(id@.skip(i as int).drop_first() =~= id@.skip(i + 1));
        if b != 0 {
            return bits + b.leading_zeros();
        }
        bits = bits + 8;
        i = i + 1;
    }
    assert(id@.skip(32) =~= Seq::<u8>::empty());
    bits
}

/// Puts the mined time and tags into the pre-event; nothing else changes.
pub fn reconstruct(pre: &PreEvent, mined: MinedEvent) -> (r: PreEvent)
    ensures
        r@ == mined_pre_event(pre@, mined.created_at, mined.tags.deep_view()),
        r.created_at == mined.created_at,
        r.tags.deep_view() == mined.tags.deep_view(),
        r.pubkey@ == pre.pubkey@,
        r.kind == pre.kind,
        r.content@ == pre.content@,
{
    PreEvent {
        pubkey: pre.pubkey,
        created_at: mined.created_at,
        kind: pre.kind,
        tags: mined.tags,
        content: pre.content.clone(),
    }
}

/// Settles an automatic purchase of proof of work on `pre`: a mined event
/// gives the pre-event to sign and a status line with its proof of work; a
/// failure gives its message in the status line and in the error.
pub fn settle_autobuy(pre: &PreEvent, outcome: Result<MinedEvent, String>) -> (s: Settlement)
    ensures
        match outcome {
            Ok(mined) => {
                &&& s.status@ == "Autobuy successful: "@ + decimal(leading_zero_bits(mined.id@))
                    + " bits"@
                &&& s.result matches Ok(r) && r@ == mined_pre_event(
                    pre@,
                    mined.created_at,
                    mined.tags.deep_view(),
                )
                &&& s.result matches Ok(r) && r.created_at == mined.created_at
                    && r.tags.deep_view() == mined.tags.deep_view()
            },
            Err(e) => {
                &&& s.status@ == "Autobuy failed: "@ + e@
                &&& s.result matches Err(m) && m@ == "PoW WoW auto-buy failed: "@ + e@
            },
        },
{
    match outcome {
        Ok(mined) => {
            let pow: u32 = pow_bits(&mined.id);
            let mut status = String::from_str("Autobuy successful: ");
            push_decimal(&mut status, pow as usize);
            status.append(" bits");
            let r = reconstruct(pre, mined);
            Settlement { status, result: Ok(r) }
        },
        Err(e) => {
            let mut status = String::from_str("Autobuy failed: ");
            status.append(e.as_str());
            let mut message = String::from_str("PoW WoW auto-buy failed: ");
            message.append(e.as_str());
            Settlement { status, result: Err(message) }
        },
    }
}

/// The error given when the PoW WoW client cannot be set up.
pub fn client_init_error(cause: &str) -> (m: String)
    ensures
        m@ == "Cannot initialize PoW WoW client: "@ + cause@,
{
    let mut m = String::from_str("Cannot initialize PoW WoW client: ");
    m.append(cause);
    m
}

/// The proof of work of any id is at most its length in bits, and reaches
/// it exactly when every byte is zero.
pub proof fn law_pow_bits_bounded(bytes: Seq<u8>)
    ensures
        leading_zero_bits(bytes) <= 8 * bytes.len(),
        leading_zero_bits(bytes) == 8 * bytes.len() <==> forall|i: int|
            0 <= i < bytes.len() ==> bytes[i] == 0,
    decreases bytes.len(),
{
    if bytes.len() > 0 {
        law_pow_bits_bounded(bytes.drop_first());
        if bytes[0] == 0 {
            assert forall|i: int| 0 <= i < bytes.len() && (forall|j: int|
                0 <= j < bytes.drop_first().len() ==> bytes.drop_first()[j] == 0) implies bytes[i] == 0 by {
                if i > 0 {
                    assert(bytes[i] == bytes.drop_first()[i - 1]);
                }
            }
            if forall|i: int| 0 <= i < bytes.len() ==> bytes[i] == 0 {
                assert forall|j: int| 0 <= j < bytes.drop_first().len() implies bytes.drop_first()[j] == 0 by {
                    assert(bytes.drop_first()[j] == bytes[j + 1]);
                }
            }
        }
    }
}

/// The reconstructed event carries exactly the mined time and tags, for
/// every pre-event; mining that keeps the pre-event's own time and tags
/// gives the pre-event back unchanged; and whatever is mined, the author,
/// kind and content of the event stay as they were.
pub proof fn law_mining_changes_only_time_and_tags(
    pre: PreEventView,
    created_at: i64,
    tags: Seq<Seq<Seq<char>>>,
)
    ensures
        mined_pre_event(pre, created_at, tags).created_at == created_at,
        mined_pre_event(pre, created_at, tags).tags == tags,
        mined_pre_event(pre, pre.created_at, pre.tags) == pre,
        mined_pre_event(pre, created_at, tags).pubkey == pre.pubkey,
        mined_pre_event(pre, created_at, tags).kind == pre.kind,
        mined_pre_event(pre, created_at, tags).content == pre.content,
{
}

} // verus!
