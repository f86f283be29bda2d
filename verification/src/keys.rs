use vstd::prelude::*;

verus! {

/// An account address: the 32 bytes of an ed25519 public key.
pub type Pubkey = [u8; 32];

/// Whether two addresses are the same, byte for byte.
pub fn keys_equal(a: &Pubkey, b: &Pubkey) -> (r: bool)
    ensures
        r == (a@ == b@),
{
    let mut i: usize = 0;
    while i < 32
        invariant
            i <= 32,
            a@.len() == 32,
            b@.len() == 32,
            forall|j: int| 0 <= j < i ==> a@[j] == b@[j],
        decreases 32 - i,
    {
        if a[i] != b[i] {
            return false;
        }
        i = i + 1;
    }
    assert(a@ =~= b@);
    true
}

/// The character of the base58 digit `d` (below 58) in the Bitcoin alphabet: the digits
/// and letters without `0`, `O`, `I` and `l`.
pub open spec fn base58_char(d: nat) -> char {
    if d < 9 {
        ('1' as int + d) as char
    } else if d < 17 {
        ('A' as int + (d - 9)) as char
    } else if d < 22 {
        ('J' as int + (d - 17)) as char
    } else if d < 33 {
        ('P' as int + (d - 22)) as char
    } else if d < 44 {
        ('a' as int + (d - 33)) as char
    } else {
        ('m' as int + (d - 44)) as char
    }
}

/// The number that bytes spell with the most significant byte first.
pub open spec fn be_number(bytes: Seq<u8>) -> nat
    decreases bytes.len(),
{
    if bytes.len() == 0 {
        0
    } else {
        be_number(bytes.drop_last()) * 256 + bytes.last() as nat
    }
}

/// How many zero bytes open the sequence.
pub open spec fn leading_zero_bytes(bytes: Seq<u8>) -> nat
    decreases bytes.len(),
{
    if bytes.len() == 0 || bytes[0] != 0 {
        0
    } else {
        1 + leading_zero_bytes(bytes.drop_first())
    }
}

/// The base58 digits of a number, most significant first; none for zero.
pub open spec fn base58_digits(n: nat) -> Seq<char>
    decreases n,
{
    if n == 0 {
        seq![]
    } else {
        base58_digits(n / 58).push(base58_char(n % 58))
    }
}

/// The base58 text of bytes: a `1` for each leading zero byte, then the base58 digits of
/// the number that the bytes spell.
pub open spec fn base58_text(bytes: Seq<u8>) -> Seq<char> {
    Seq::new(leading_zero_bytes(bytes), |i: int| '1') + base58_digits(be_number(bytes))
}

/// Calls `Pubkey::to_string` of `anchor_lang`, which writes the 32 bytes with
/// `five8::encode_32`. Claimed, as its source and tests (checked against `bs58`) show:
/// the text is the base58 text of the bytes.
#[verifier::external_body]
pub(crate) fn pubkey_to_string(key: &Pubkey) -> (r: String)
    ensures
        r@ == base58_text(key@),
{
    anchor_lang::prelude::Pubkey::new_from_array(*key).to_string()
}

} // verus!
