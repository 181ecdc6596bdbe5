use vstd::prelude::*;
use vstd::string::*;
use crate::string_map::StringMap;

verus! {

/// `fastrand::u64(0..bound)`: a random number below `bound`.
#[verifier::external_body]
fn random_below(bound: u64) -> (r: u64)
    requires
        bound > 0,
    ensures
        r < bound,
{
    fastrand::u64(0..bound)
}

/// Two to the power `n`.
pub open spec fn pow2(n: nat) -> nat
    decreases n,
{
    if n == 0 {
        1
    } else {
        2 * pow2((n - 1) as nat)
    }
}

/// The delay before reconnection attempt `attempt`, in whole seconds and
/// without jitter: 1 s, doubling with each attempt, at most 60 s.
pub open spec fn backoff_base_secs(attempt: u32) -> nat {
    let e: nat = if attempt < 6 { attempt as nat } else { 6 };
    if pow2(e) < 60 {
        pow2(e)
    } else {
        60
    }
}

/// The delay before reconnection attempt `attempt`, in whole seconds and
/// without jitter.
pub fn backoff_secs(attempt: u32) -> (s: u64)
    ensures
        s == backoff_base_secs(attempt),
{
    let e: u32 = if attempt < 6 { attempt } else { 6 };
    let mut p: u64 = 1;
    let mut i: u32 = 0;
    while i < e
        invariant
            i <= e <= 6,
            p == pow2(i as nat),
            p <= 64,
        decreases e - i,
    {
        assert(pow2((i + 1) as nat) == 2 * pow2(i as nat));
        assert(i < 6);
        assert(p <= 32) by {
            reveal_with_fuel(pow2, 7);
        }
        p = p * 2;
        i = i + 1;
    }
    assert(e as nat == (if attempt < 6 { attempt as nat } else { 6nat }));
    if p < 60 {
        p
    } else {
        60
    }
}

/// The delay in milliseconds before reconnection attempt `attempt`, given
/// the random jitter (in milliseconds) to add to the base delay.
pub fn backoff_with_jitter(attempt: u32, jitter_ms: u64) -> (ms: u64)
    requires
        jitter_ms <= u64::MAX - 60_000,
    ensures
        ms == backoff_base_secs(attempt) * 1000 + jitter_ms,
{
    backoff_secs(attempt) * 1000 + jitter_ms
}

/// The delay in milliseconds before reconnection attempt `attempt`:
/// exponential backoff (1 s, 2 s, 4 s, ... at most 60 s) plus a random
/// jitter below one second.
pub fn calculate_backoff(attempt: u32) -> (ms: u64)
    ensures
        backoff_base_secs(attempt) * 1000 <= ms < backoff_base_secs(attempt) * 1000 + 1000,
{
    let jitter = random_below(1000);
    backoff_with_jitter(attempt, jitter)
}

/// Counts the failed connection attempts since the last successful one and
/// chooses the delay before the next attempt.
pub struct ReconnectPolicy {
    attempt: u32,
}

impl ReconnectPolicy {
    /// A policy with no failed attempt counted.
    pub fn new() -> (p: Self)
        ensures
            p.attempt() == 0,
    {
        ReconnectPolicy { attempt: 0 }
    }

    /// The number of failed attempts counted.
    pub closed spec fn attempt(&self) -> u32 {
        self.attempt
    }

    /// The number of failed attempts counted.
    pub fn current_attempt(&self) -> (a: u32)
        ensures
            a == self.attempt(),
    {
        self.attempt
    }

    /// A connection succeeded: the count starts over.
    pub fn on_connected(&mut self)
        ensures
            final(self).attempt() == 0,
    {
        self.attempt = 0;
    }

    /// A connection failed or was lost: gives the delay in milliseconds
    /// before trying again, and counts the attempt (saturating).
    pub fn on_connection_lost(&mut self) -> (delay_ms: u64)
        ensures
            backoff_base_secs(old(self).attempt()) * 1000 <= delay_ms < backoff_base_secs(
                old(self).attempt(),
            ) * 1000 + 1000,
            final(self).attempt() == if old(self).attempt() == u32::MAX {
                u32::MAX as int
            } else {
                old(self).attempt() + 1
            },
    {
        let delay = calculate_backoff(self.attempt);
        self.attempt = if self.attempt == u32::MAX {
            u32::MAX
        } else {
            self.attempt + 1
        };
        delay
    }
}

/// Hands out per-symbol sequence numbers: each symbol counts its own
/// messages, starting at 1.
pub struct SequenceTracker {
    counters: StringMap<u64>,
}

/// The last sequence number handed out for `symbol` (0 when none was).
pub open spec fn last_sequence(m: Map<Seq<char>, u64>, symbol: Seq<char>) -> u64 {
    if m.contains_key(symbol) {
        m[symbol]
    } else {
        0
    }
}

impl SequenceTracker {
    /// A tracker that has handed out no numbers.
    pub fn new() -> (t: Self)
        ensures
            t@ == Map::<Seq<char>, u64>::empty(),
    {
        SequenceTracker { counters: StringMap::new() }
    }

    /// The last sequence number handed out for `symbol` (0 when none was).
    pub fn current(&self, symbol: &str) -> (n: u64)
        ensures
            n == last_sequence(self@, symbol@),
    {
        match self.counters.get(symbol) {
            Some(n) => *n,
            None => 0,
        }
    }

    /// The next sequence number for `symbol`: one more than the last one
    /// handed out for it; other symbols are not affected.
    pub fn next(&mut self, symbol: &str) -> (n: u64)
        requires
            last_sequence(old(self)@, symbol@) < u64::MAX,
        ensures
            n == last_sequence(old(self)@, symbol@) + 1,
            final(self)@ == old(self)@.insert(symbol@, n),
    {
        let n = self.current(symbol) + 1;
        self.counters.insert(symbol, n);
        n
    }
}

impl View for SequenceTracker {
    type V = Map<Seq<char>, u64>;

    closed spec fn view(&self) -> Map<Seq<char>, u64> {
        self.counters@
    }
}

/// Numbers handed out for one symbol increase by one with each call, and
/// handing out a number for one symbol leaves every other symbol's count as
/// it was.
pub proof fn lemma_sequences_independent(
    m: Map<Seq<char>, u64>,
    symbol: Seq<char>,
    other: Seq<char>,
    n: u64,
)
    requires
        n == last_sequence(m, symbol) + 1,
        other != symbol,
    ensures
        last_sequence(m.insert(symbol, n), symbol) == last_sequence(m, symbol) + 1,
        last_sequence(m.insert(symbol, n), other) == last_sequence(m, other),
{
}

/// The base of Binance's combined-stream endpoint.
pub open spec fn stream_base() -> Seq<char> {
    "wss://stream.binance.com:9443/stream?streams="@
}

/// The one-minute kline stream of a symbol.
pub open spec fn kline_stream(symbol: Seq<char>) -> Seq<char> {
    symbol + "@kline_1m"@
}

/// The kline streams of `symbols`, joined by `/`.
pub open spec fn joined_streams(symbols: Seq<Seq<char>>) -> Seq<char>
    decreases symbols.len(),
{
    if symbols.len() == 0 {
        Seq::empty()
    } else if symbols.len() == 1 {
        kline_stream(symbols[0])
    } else {
        joined_streams(symbols.drop_last()) + "/"@ + kline_stream(symbols.last())
    }
}

/// The URL of the combined one-minute kline stream of `symbols`.
pub fn stream_url(symbols: &Vec<String>) -> (url: String)
    ensures
        url@ == stream_base() + joined_streams(symbols@.map_values(|s: String| s@)),
{
    let ghost names = symbols@.map_values(|s: String| s@);
    let mut joined = String::new();
    let mut i: usize = 0;
    while i < symbols.len()
        invariant
            i <= symbols@.len(),
            names == symbols@.map_values(|s: String| s@),
            joined@ == joined_streams(names.subrange(0, i as int)),
        decreases symbols.len() - i,
    {
        assert(names.subrange(0, i + 1).drop_last() =~= names.subrange(0, i as int));
        if i > 0 {
            joined.append("/");
        }
        joined.append(symbols[i].as_str());
        joined.append("@kline_1m");
        assert(joined@ =~= joined_streams(names.subrange(0, i + 1)));
        i = i + 1;
    }
    assert(names.subrange(0, symbols@.len() as int) =~= names);
    let url = "wss://stream.binance.com:9443/stream?streams=".to_string();
    url.concat(joined.as_str())
}

/// The symbols whose klines the listener follows.
pub fn tracked_symbols() -> (v: Vec<String>)
    ensures
        v@.map_values(|s: String| s@) == seq!["btcusdt"@, "ethusdt"@, "solusdt"@],
{
    let v = vec!["btcusdt".to_string(), "ethusdt".to_string(), "solusdt".to_string()];
    assert(v@.map_values(|s: String| s@) =~= seq!["btcusdt"@, "ethusdt"@, "solusdt"@]);
    v
}

/// Whether a kline update is to be processed: only closed klines are, so
/// that each candle is counted once.
pub fn should_process_kline(is_closed: bool) -> (b: bool)
    ensures
        b == is_closed,
{
    is_closed
}

/// A kline's start time, given in milliseconds, in whole seconds.
pub fn kline_time_secs(start_time_ms: u64) -> (t: u64)
    ensures
        t == start_time_ms / 1000,
{
    start_time_ms / 1000
}

} // verus!

verus! {

/// The delay before a reconnection starts at one second and doubles with
/// each failed attempt until it reaches the 60-second ceiling, where it
/// stays.
pub proof fn lemma_backoff_doubles_until_cap(attempt: u32)
    ensures
        1 <= backoff_base_secs(attempt) <= 60,
        attempt == 0 ==> backoff_base_secs(attempt) == 1,
        attempt < 5 ==> backoff_base_secs((attempt + 1) as u32) == 2 * backoff_base_secs(attempt),
        attempt >= 6 ==> backoff_base_secs(attempt) == 60,
{
    reveal_with_fuel(pow2, 8);
    if attempt < 5 {
        assert(pow2((attempt + 1) as nat) == 2 * pow2(attempt as nat));
    }
}

/// What to do with a closed kline for the cache of its symbol.
#[derive(Debug, Clone, Copy, PartialEq, Eq, Structural)]
pub enum CacheAction {
    /// The kline updates the newest cached candle, which has the same time.
    ReplaceLast,
    /// The kline is a new candle, appended after the newest one.
    Append,
}

/// Decides how a closed kline starting at `time` enters a symbol's cache
/// whose newest candle starts at `last_time` (`None` when the cache is
/// empty): a kline with the newest candle's time replaces it, any other is
/// appended.
pub fn cache_action(last_time: Option<u64>, time: u64) -> (a: CacheAction)
    ensures
        a == (if last_time == Some(time) {
            CacheAction::ReplaceLast
        } else {
            CacheAction::Append
        }),
{
    match last_time {
        Some(t) => {
            if t == time {
                CacheAction::ReplaceLast
            } else {
                CacheAction::Append
            }
        },
        None => CacheAction::Append,
    }
}

} // verus!
