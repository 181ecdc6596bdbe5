use vstd::prelude::*;
use std::collections::VecDeque;

verus! {

/// The number of candles kept per symbol.
pub const MAX_CANDLES: usize = 500;

/// `str::to_lowercase`: the lowercase mapping of a text, character by
/// character, as Unicode defines it.
pub uninterp spec fn lowercase(s: Seq<char>) -> Seq<char>;

/// Whether every character of `s` is ASCII.
pub open spec fn is_ascii_text(s: Seq<char>) -> bool {
    forall|i: int| 0 <= i < s.len() ==> (#[trigger] s[i]) <= '\u{7F}'
}

/// The ASCII lowercase of a character: `A` to `Z` become `a` to `z`, every
/// other character stays.
pub open spec fn ascii_lower_char(c: char) -> char {
    if 'A' <= c && c <= 'Z' {
        ((c as u32) + 32) as char
    } else {
        c
    }
}

/// The ASCII lowercase of a text, character by character.
pub open spec fn ascii_lowercase(s: Seq<char>) -> Seq<char> {
    s.map_values(|c: char| ascii_lower_char(c))
}

/// `str::to_lowercase`: the text with every character mapped to lowercase.
/// What the Unicode mapping gives is named, not written out; on ASCII text
/// it is the ASCII mapping, `A` to `Z` lowered and the rest kept, as the
/// Unicode lowercase mapping of those characters is.
#[verifier::external_body]
pub(crate) fn to_lowercase(s: &str) -> (r: String)
    ensures
        r@ == lowercase(s@),
        is_ascii_text(s@) ==> r@ == ascii_lowercase(s@),
{
    s.to_lowercase()
}

/// A request for candles: which symbol and which interval, both optional.
pub struct MarketQuery {
    pub symbol: Option<String>,
    pub interval: Option<String>,
}

/// The symbol a query asks for, lowercased; `btcusdt` when it names none.
pub open spec fn query_symbol(q: MarketQuery) -> Seq<char> {
    match q.symbol {
        Some(s) => lowercase(s@),
        None => lowercase("btcusdt"@),
    }
}

/// The interval a query asks for; `1m` when it names none.
pub open spec fn query_interval(q: MarketQuery) -> Seq<char> {
    match q.interval {
        Some(i) => i@,
        None => "1m"@,
    }
}

impl MarketQuery {
    /// The symbol asked for, lowercased; `btcusdt` when none is named.
    pub fn symbol(&self) -> (s: String)
        ensures
            s@ == query_symbol(*self),
            self.symbol is None ==> s@ == "btcusdt"@,
            self.symbol matches Some(x) ==> (is_ascii_text(x@) ==> s@ == ascii_lowercase(x@)),
    {
        match &self.symbol {
            Some(s) => to_lowercase(s.as_str()),
            None => {
                let d = "btcusdt";
                proof {
                    reveal_strlit("btcusdt");
                    assert(is_ascii_text(d@));
                    assert(ascii_lowercase(d@) =~= d@);
                }
                to_lowercase(d)
            },
        }
    }

    /// The interval asked for; `1m` when none is named.
    pub fn interval(&self) -> (i: String)
        ensures
            i@ == query_interval(*self),
    {
        match &self.interval {
            Some(i) => i.clone(),
            None => "1m".to_string(),
        }
    }

    /// The key under which the query's candles are cached: symbol and
    /// interval, separated by a colon.
    pub fn cache_key(&self) -> (k: String)
        ensures
            k@ == query_symbol(*self) + ":"@ + query_interval(*self),
            self.symbol is None ==> k@ == "btcusdt"@ + ":"@ + query_interval(*self),
            self.symbol matches Some(x) ==> (is_ascii_text(x@) ==> k@ == ascii_lowercase(x@) + ":"@
                + query_interval(*self)),
    {
        let s = self.symbol();
        let i = self.interval();
        let k = s.concat(":");
        k.concat(i.as_str())
    }
}

/// Drops the oldest entries of `candles` until at most `max` remain; the
/// newest are kept, in order.
pub fn keep_newest<T>(candles: &mut VecDeque<T>, max: usize)
    ensures
        old(candles)@.len() > max ==> final(candles)@ == old(candles)@.subrange(
            old(candles)@.len() - max,
            old(candles)@.len() as int,
        ),
        old(candles)@.len() <= max ==> final(candles)@ == old(candles)@,
{
    let ghost start = candles@;
    assert(start.subrange(0, start.len() as int) =~= start);
    while candles.len() > max
        invariant
            candles@.len() <= start.len(),
            candles@ == start.subrange(start.len() - candles@.len(), start.len() as int),
            start.len() > max ==> candles@.len() >= max,
            start.len() <= max ==> candles@ == start,
        decreases candles@.len(),
    {
        let ghost before = candles@;
        candles.pop_front();
        assert(candles@ =~= start.subrange(start.len() - candles@.len(), start.len() as int));
    }
    assert(start.subrange(0, start.len() as int) =~= start);
}

/// Appends `candle` to the cache and then keeps only the newest `max`
/// candles.
pub fn push_bounded<T>(candles: &mut VecDeque<T>, candle: T, max: usize)
    ensures
        ({
            let pushed = old(candles)@.push(candle);
            &&& pushed.len() > max ==> final(candles)@ == pushed.subrange(
                pushed.len() - max,
                pushed.len() as int,
            )
            &&& pushed.len() <= max ==> final(candles)@ == pushed
        }),
{
    candles.push_back(candle);
    keep_newest(candles, max);
}

} // verus!
