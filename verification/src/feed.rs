use vstd::prelude::*;

use switchboard_on_demand::PullFeedAccountData;

use crate::decimal::{decimal_from_i128_with_scale, max_magnitude, Dec};

verus! {

/// The eight bytes that open a Switchboard pull feed account.
pub open spec fn pull_feed_discriminator() -> Seq<u8> {
    seq![196u8, 27u8, 108u8, 196u8, 10u8, 215u8, 219u8, 40u8]
}

/// The length of a pull feed account: the discriminator and the 3200 bytes of
/// `PullFeedAccountData`, a `#[repr(C)]` struct without padding (it is `bytemuck::Pod`).
pub open spec fn pull_feed_account_len() -> nat {
    3208
}

/// Where the current result's `value` (an `i128`) lies in the account data: the
/// discriminator (8 bytes), 32 oracle submissions of 64 bytes, then 208 bytes of feed
/// fields, then the `CurrentResult`, which opens with `value`.
pub open spec fn result_value_offset() -> int {
    2264
}

/// Where the current result's `slot` (a `u64`) lies in the account data: 104 bytes into
/// the `CurrentResult`, after its six `i128` statistics, two counters and six padding bytes.
pub open spec fn result_slot_offset() -> int {
    2368
}

/// The number that bytes spell with the least significant byte first.
pub open spec fn le_number(bytes: Seq<u8>) -> nat
    decreases bytes.len(),
{
    if bytes.len() == 0 {
        0
    } else {
        bytes[0] as nat + 256 * le_number(bytes.drop_first())
    }
}

/// The number that bytes spell in the machine's byte order: least significant byte
/// first on a little-endian machine, most significant first on a big-endian one.
pub open spec fn native_number(bytes: Seq<u8>, little_endian: bool) -> nat {
    if little_endian {
        le_number(bytes)
    } else {
        le_number(bytes.reverse())
    }
}

/// The `value` of the current result that the account data holds, in the given byte
/// order: its 16 bytes read as a two's complement `i128`.
pub open spec fn feed_result_value(data: Seq<u8>, little_endian: bool) -> i128 {
    let n = native_number(
        data.subrange(result_value_offset(), result_value_offset() + 16),
        little_endian,
    );
    (if n >= 0x8000_0000_0000_0000_0000_0000_0000_0000 {
        n - 0x1_0000_0000_0000_0000_0000_0000_0000_0000
    } else {
        n as int
    }) as i128
}

/// The `slot` of the current result that the account data holds, in the given byte order.
pub open spec fn feed_result_slot(data: Seq<u8>, little_endian: bool) -> u64 {
    native_number(data.subrange(result_slot_offset(), result_slot_offset() + 8), little_endian) as u64
}

/// Calls `PullFeedAccountData::parse` of `switchboard_on_demand` on the account data, in
/// place, and reads the `value` and `slot` fields of the parsed feed's current result.
/// Claimed, as its source shows: the data is left as it was; data that parses opens
/// with the pull feed discriminator and holds a whole `PullFeedAccountData` after it,
/// which `bytemuck` reinterprets in place, so the two fields are the bytes at their
/// offsets in the machine's byte order (stated for either order). Left unsaid: whether
/// parsing succeeds, which also depends on where the data lies in memory (the alignment
/// check of `bytemuck`).
#[verifier::external_body]
pub(crate) fn pull_feed_result(data: &mut [u8]) -> (r: Option<(i128, u64)>)
    ensures
        final(data)@ == old(data)@,
        r is Some ==> old(data)@.len() >= pull_feed_account_len() && old(data)@.subrange(0, 8)
            == pull_feed_discriminator(),
        r matches Some((value, slot)) ==> exists|little_endian: bool|
            #[trigger] feed_result_value(old(data)@, little_endian) == value
                && feed_result_slot(old(data)@, little_endian) == slot,
{
    let cell = std::cell::RefCell::new(data);
    let r = match PullFeedAccountData::parse(cell.borrow()) {
        Ok(feed) => Some((feed.result.value, feed.result.slot)),
        Err(_) => None,
    };
    r
}

/// The oracle value that the account data holds in the given byte order, as
/// `current_result_value` gives it.
pub open spec fn feed_value_of(data: Seq<u8>, little_endian: bool) -> Option<Option<Dec>> {
    current_result_value(feed_result_value(data, little_endian), feed_result_slot(data, little_endian))
}

/// The value of a feed's current result, as `CurrentResult::value` of Switchboard gives
/// it: none before the first result (slot zero), else the value with 18 decimals. The
/// outer `None` marks a value too large for a decimal, where that function panics.
pub open spec fn current_result_value(value: i128, slot: u64) -> Option<Option<Dec>> {
    if slot == 0 {
        Some(None)
    } else if -max_magnitude() <= value <= max_magnitude() {
        Some(
            Some(
                Dec {
                    lo: (if value < 0 { -value } else { value as int } % 0x1_0000_0000) as u32,
                    mid: ((if value < 0 { -value } else { value as int } / 0x1_0000_0000)
                        % 0x1_0000_0000) as u32,
                    hi: (if value < 0 { -value } else { value as int } / 0x1_0000_0000_0000_0000) as u32,
                    negative: value < 0,
                    scale: 18,
                },
            ),
        )
    } else {
        None
    }
}

/// The value of a feed's current result (see `current_result_value`).
pub fn result_value(value: i128, slot: u64) -> (r: Option<Option<Dec>>)
    ensures
        r == current_result_value(value, slot),
        slot == 0 ==> r == Some(None::<Dec>),
        slot != 0 && -max_magnitude() <= value <= max_magnitude() ==> (r matches Some(Some(d))
            && d.numerator() == value && d.scale == 18),
        slot != 0 && !(-max_magnitude() <= value <= max_magnitude()) ==> r is None,
{
    if slot == 0 {
        return Some(None);
    }
    if value < -0xffff_ffff_ffff_ffff_ffff_ffff || value > 0xffff_ffff_ffff_ffff_ffff_ffff {
        return None;
    }
    let d = decimal_from_i128_with_scale(value, 18);
    let ghost m: int = if value < 0 { -value } else { value as int };
    assert(d.lo == m % 0x1_0000_0000 && d.mid == (m / 0x1_0000_0000) % 0x1_0000_0000
        && d.hi == m / 0x1_0000_0000_0000_0000) by {
        assert(d.magnitude() == m);
    }
    Some(Some(d))
}

/// The oracle value that a Switchboard pull feed account holds: `Some(v)` with `v` the
/// value of the current result read from the account data (`feed_value_of`), or `None`
/// where the account does not parse or its value does not fit a decimal (where reading
/// the feed panics).
pub fn pull_feed_value(data: &mut [u8]) -> (r: Option<Option<Dec>>)
    ensures
        final(data)@ == old(data)@,
        r is Some ==> exists|little_endian: bool| #[trigger]
            feed_value_of(old(data)@, little_endian) == r,
        r is Some ==> old(data)@.len() >= pull_feed_account_len() && old(data)@.subrange(0, 8)
            == pull_feed_discriminator(),
{
    let ghost bytes = data@;
    match pull_feed_result(data) {
        None => None,
        Some((value, slot)) => {
            let r = result_value(value, slot);
            proof {
                if r is Some {
                    let le = choose|le: bool|
                        #[trigger] feed_result_value(bytes, le) == value && feed_result_slot(
                            bytes,
                            le,
                        ) == slot;
                    assert(feed_value_of(bytes, le) == r);
                }
            }
            r
        },
    }
}

} // verus!
