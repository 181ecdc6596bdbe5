use vstd::prelude::*;
use vstd::utf8::{decode_utf8, encode_utf8, encode_utf8_decode_utf8, encode_utf8_valid_utf8, valid_utf8};
use crate::text::{chars_of, substring};

verus! {

/// The prefix of the keys under which candle histories are stored.
pub open spec fn key_prefix() -> Seq<char> {
    seq!['c', 'a', 'n', 'd', 'l', 'e', 's', ':']
}

/// The key under which the candle history of `symbol` is stored.
pub open spec fn candle_key_of(symbol: Seq<char>) -> Seq<char> {
    key_prefix() + symbol
}

/// The symbol whose candle history a stored key holds: the text of the key
/// after the prefix, when the key is UTF-8 text that starts with it.
pub open spec fn symbol_of_key_bytes(key: Seq<u8>) -> Option<Seq<char>> {
    if valid_utf8(key) {
        let text = decode_utf8(key);
        if text.len() >= 8 && text.subrange(0, 8) == key_prefix() {
            Some(text.subrange(8, text.len() as int))
        } else {
            None
        }
    } else {
        None
    }
}

/// `std::str::from_utf8`: the text that `bytes` encode, or `None` when
/// they are not valid UTF-8.
#[verifier::external_body]
fn utf8_str(bytes: &[u8]) -> (r: Option<&str>)
    ensures
        r is Some <==> valid_utf8(bytes@),
        r matches Some(s) ==> s@ == decode_utf8(bytes@),
{
    match std::str::from_utf8(bytes) {
        Ok(s) => Some(s),
        Err(_) => None,
    }
}

/// The key under which the candle history of `symbol` is stored.
pub fn candle_key(symbol: &str) -> (k: String)
    ensures
        k@ == candle_key_of(symbol@),
{
    let mut k = String::new();
    k.append("candles:");
    proof {
        reveal_strlit("candles:");
    }
    assert("candles:"@ =~= key_prefix());
    k.append(symbol);
    k
}

/// The symbol whose candle history is stored under `key`, or `None` when
/// the key is not one of those keys.
pub fn symbol_of_key(key: &[u8]) -> (r: Option<String>)
    ensures
        r matches Some(s) ==> symbol_of_key_bytes(key@) == Some(s@),
        r is None ==> symbol_of_key_bytes(key@) is None,
{
    match utf8_str(key) {
        None => None,
        Some(text) => {
            let v = chars_of(text);
            let prefix = vec!['c', 'a', 'n', 'd', 'l', 'e', 's', ':'];
            assert(prefix@ =~= key_prefix());
            if v.len() < 8 {
                return None;
            }
            let mut i: usize = 0;
            while i < 8
                invariant
                    v@ == text@,
                    valid_utf8(key@),
                    text@ == decode_utf8(key@),
                    prefix@ == key_prefix(),
                    8 <= v@.len(),
                    i <= 8,
                    forall|k: int| 0 <= k < i ==> v@[k] == prefix@[k],
                decreases 8 - i,
            {
                if v[i] != prefix[i] {
                    assert(text@.subrange(0, 8)[i as int] != key_prefix()[i as int]);
                    return None;
                }
                i = i + 1;
            }
            assert(text@.subrange(0, 8) =~= key_prefix());
            Some(substring(text, 8, v.len()))
        },
    }
}

/// Reading back the key written for a symbol gives that symbol: listing the
/// stored symbols finds every symbol whose history was saved.
pub proof fn lemma_key_round_trip(symbol: Seq<char>)
    ensures
        symbol_of_key_bytes(encode_utf8(candle_key_of(symbol))) == Some(symbol),
{
    encode_utf8_valid_utf8(candle_key_of(symbol));
    encode_utf8_decode_utf8(candle_key_of(symbol));
    assert(candle_key_of(symbol).subrange(0, 8) =~= key_prefix());
    assert(candle_key_of(symbol).subrange(8, candle_key_of(symbol).len() as int) =~= symbol);
}

} // verus!
