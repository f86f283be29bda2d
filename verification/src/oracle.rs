use vstd::prelude::*;

use anchor_lang::prelude::{Clock, Pubkey as AccountAddress};
use pyth_solana_receiver_sdk::price_update as pyth;
use pyth_solana_receiver_sdk::price_update::{
    PriceFeedMessage as PythMessage, PriceUpdateV2 as PythUpdate, VerificationLevel as PythLevel,
};

use crate::error::PriceError;
use crate::keys::Pubkey;
use vstd::string::StringSliceAdditionalSpecFns;

verus! {

/// How much of a price update the Wormhole guardians' signatures have verified.
#[derive(Debug, Clone, Copy, PartialEq, Eq)]
pub enum VerificationLevel {
    Partial { num_signatures: u8 },
    Full,
}

/// The price message of one Pyth feed.
#[derive(Debug, Clone, Copy, PartialEq, Eq)]
pub struct PriceFeedMessage {
    pub feed_id: [u8; 32],
    pub price: i64,
    pub conf: u64,
    pub exponent: i32,
    pub publish_time: i64,
    pub prev_publish_time: i64,
    pub ema_price: i64,
    pub ema_conf: u64,
}

/// A Pyth price update account.
#[derive(Debug, Clone, Copy, PartialEq, Eq)]
pub struct PriceUpdateV2 {
    pub write_authority: Pubkey,
    pub verification_level: VerificationLevel,
    pub price_message: PriceFeedMessage,
    pub posted_slot: u64,
}

/// A price: `(price ± conf) * 10^exponent`, published at `publish_time`.
#[derive(Debug, Clone, Copy, PartialEq, Eq)]
pub struct Price {
    pub price: i64,
    pub conf: u64,
    pub exponent: i32,
    pub publish_time: i64,
}

/// The value of one hex digit, of either case.
pub open spec fn hex_digit(c: u8) -> Option<u8> {
    if 48 <= c <= 57 {
        Some((c - 48) as u8)
    } else if 97 <= c <= 102 {
        Some((c - 87) as u8)
    } else if 65 <= c <= 70 {
        Some((c - 55) as u8)
    } else {
        None
    }
}

/// The bytes that a hex text of even length spells, two digits each, high digit first.
pub open spec fn hex_decode(text: Seq<u8>) -> Option<Seq<u8>>
    decreases text.len(),
{
    if text.len() % 2 == 1 {
        None
    } else if text.len() == 0 {
        Some(Seq::empty())
    } else {
        match (hex_digit(text[0]), hex_digit(text[1]), hex_decode(text.skip(2))) {
            (Some(high), Some(low), Some(rest)) => Some(seq![(high * 16 + low) as u8] + rest),
            _ => None,
        }
    }
}

/// The feed id that a hex text names: 64 hex digits, or 66 bytes whose first two are
/// skipped (the `0x` prefix, which is not checked).
pub open spec fn feed_id_from_hex(text: Seq<u8>) -> Result<Seq<u8>, PriceError> {
    if text.len() == 66 {
        match hex_decode(text.skip(2)) {
            Some(id) => Ok(id),
            None => Err(PriceError::FeedIdNonHexCharacter),
        }
    } else if text.len() == 64 {
        match hex_decode(text) {
            Some(id) => Ok(id),
            None => Err(PriceError::FeedIdNonHexCharacter),
        }
    } else {
        Err(PriceError::FeedIdMustBe32Bytes)
    }
}

/// The text may be cut after its second byte: that byte does not continue a character.
pub open spec fn feed_text_cuttable(text: Seq<u8>) -> bool {
    text.len() == 66 ==> (text[2] < 0x80 || text[2] >= 0xc0)
}

/// The number that `GetPriceError` of `pyth_solana_receiver_sdk` gives each error as its
/// discriminant (`error as u32`).
pub open spec fn price_error_code(e: PriceError) -> u32 {
    match e {
        PriceError::PriceTooOld => 10000,
        PriceError::InvalidWindowSize => 10001,
        PriceError::MismatchedFeedId => 10002,
        PriceError::InsufficientVerificationLevel => 10003,
        PriceError::FeedIdMustBe32Bytes => 10004,
        PriceError::FeedIdNonHexCharacter => 10005,
    }
}

/// The price error that a `GetPriceError` discriminant stands for.
pub fn price_error_of_code(code: u32) -> (e: PriceError)
    requires
        exists|known: PriceError| #[trigger] price_error_code(known) == code,
    ensures
        price_error_code(e) == code,
{
    if code == 10000 {
        PriceError::PriceTooOld
    } else if code == 10001 {
        PriceError::InvalidWindowSize
    } else if code == 10002 {
        PriceError::MismatchedFeedId
    } else if code == 10003 {
        PriceError::InsufficientVerificationLevel
    } else if code == 10004 {
        PriceError::FeedIdMustBe32Bytes
    } else {
        PriceError::FeedIdNonHexCharacter
    }
}

/// Calls `get_feed_id_from_hex` of `pyth_solana_receiver_sdk`.
/// Claimed, as its source shows: the id that `feed_id_from_hex` spells from the bytes of
/// the text, or the discriminant of its error; it panics where a 66-byte text cannot be
/// cut after two bytes.
#[verifier::external_body]
pub(crate) fn get_feed_id_from_hex(input: &str) -> (r: Result<[u8; 32], u32>)
    requires
        feed_text_cuttable(input.spec_bytes()),
    ensures
        match feed_id_from_hex(input.spec_bytes()) {
            Ok(id) => r matches Ok(bytes) && bytes@ == id,
            Err(e) => r == Err::<[u8; 32], u32>(price_error_code(e)),
        },
{
    match pyth::get_feed_id_from_hex(input) {
        Ok(id) => Ok(id),
        Err(e) => Err(e as u32),
    }
}

/// `a + b`, clamped to the range of `i64`.
pub open spec fn saturating_add_i64(a: i64, b: i64) -> i64 {
    if a + b > i64::MAX {
        i64::MAX
    } else if a + b < i64::MIN {
        i64::MIN
    } else {
        (a + b) as i64
    }
}

/// The price that a fully verified update of the given feed gives, if it was published
/// no more than `maximum_age` seconds before `now`.
pub open spec fn price_no_older_than(
    update: PriceUpdateV2,
    now: i64,
    maximum_age: u64,
    feed_id: Seq<u8>,
) -> Result<Price, PriceError> {
    let message = update.price_message;
    if !(update.verification_level is Full) {
        Err(PriceError::InsufficientVerificationLevel)
    } else if message.feed_id@ != feed_id {
        Err(PriceError::MismatchedFeedId)
    } else if saturating_add_i64(message.publish_time, maximum_age as i64) < now {
        Err(PriceError::PriceTooOld)
    } else {
        Ok(
            Price {
                price: message.price,
                conf: message.conf,
                exponent: message.exponent,
                publish_time: message.publish_time,
            },
        )
    }
}

/// The age check is reached with an age that an `i64` holds.
pub open spec fn price_age_fits(update: PriceUpdateV2, maximum_age: u64, feed_id: Seq<u8>) -> bool {
    (update.verification_level is Full && update.price_message.feed_id@ == feed_id)
        ==> maximum_age <= i64::MAX
}

/// Calls `PriceUpdateV2::get_price_no_older_than` of `pyth_solana_receiver_sdk` on the
/// update built from these fields, with a clock whose `unix_timestamp` is `now`.
/// Claimed, as its source shows: the price that `price_no_older_than` states, or the
/// discriminant of its error; it panics where the age check is reached with an age that
/// does not fit an `i64`.
#[verifier::external_body]
pub(crate) fn get_price_no_older_than(
    update: &PriceUpdateV2,
    now: i64,
    maximum_age: u64,
    feed_id: &[u8; 32],
) -> (r: Result<Price, u32>)
    requires
        price_age_fits(*update, maximum_age, feed_id@),
    ensures
        match price_no_older_than(*update, now, maximum_age, feed_id@) {
            Ok(price) => r == Ok::<Price, u32>(price),
            Err(e) => r == Err::<Price, u32>(price_error_code(e)),
        },
{
    let verification_level = match update.verification_level {
        VerificationLevel::Full => PythLevel::Full,
        VerificationLevel::Partial { num_signatures } => PythLevel::Partial { num_signatures },
    };
    let m = update.price_message;
    let price_message = PythMessage { feed_id: m.feed_id, price: m.price, conf: m.conf, exponent: m.exponent, publish_time: m.publish_time, prev_publish_time: m.prev_publish_time, ema_price: m.ema_price, ema_conf: m.ema_conf };
    let account = PythUpdate { write_authority: AccountAddress::new_from_array(update.write_authority), verification_level, price_message, posted_slot: update.posted_slot };
    let clock = Clock { unix_timestamp: now, ..Default::default() };
    match account.get_price_no_older_than(&clock, maximum_age, feed_id) {
        Ok(p) => Ok(Price { price: p.price, conf: p.conf, exponent: p.exponent, publish_time: p.publish_time }),
        Err(e) => Err(e as u32),
    }
}

} // verus!
