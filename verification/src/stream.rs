//! Real-time quote streaming: transport choice, polling configuration, and
//! the per-symbol volume bookkeeping.
//!
//! Yahoo reports cumulative intraday volume (`day_volume`). The stream turns
//! that into per-update **deltas**:
//! - First tick per symbol → `volume = None`.
//! - Subsequent ticks → `volume = Some(current - previous)`.
//! - Detected resets (current < previous, e.g. midnight rollover) → `volume =
//!   Some(current)` so the new session starts fresh.

use vstd::prelude::*;

use crate::isin::strings_view;
use crate::request::{join_with, json_quoted, json_string};
use crate::text::{chars_eq, chars_of, trim, trim_chars, string_of};

verus! {

/// Transport for the stream.
#[derive(Debug, Clone, Copy, PartialEq, Eq, Structural)]
pub enum StreamMethod {
    /// WebSocket (default).
    WebSocket,
    /// HTTP polling against `/v7/finance/quote`.
    HttpPolling,
}

impl Default for StreamMethod {
    fn default() -> (r: Self)
        ensures
            r == StreamMethod::WebSocket,
    {
        StreamMethod::WebSocket
    }
}

/// `Duration::from_secs` of std.
#[verifier::external_body]
fn seconds(secs: u64) -> std::time::Duration {
    std::time::Duration::from_secs(secs)
}

/// `Clone` of std's `Duration`, a `Copy` type: the clone is the value itself.
/// The derived `Clone` of [`StreamConfig`] calls it.
pub assume_specification[ <std::time::Duration as std::clone::Clone>::clone ](
    d: &std::time::Duration,
) -> (r: std::time::Duration)
    ensures
        r == *d,
;

/// Polling-mode configuration. Ignored for WebSocket transport.
#[derive(Debug, Clone)]
pub struct StreamConfig {
    /// How often to poll. Default: 1s.
    pub interval: std::time::Duration,
    /// Only emit when price *or* cumulative volume changes. Default: true.
    pub diff_only: bool,
}

impl Default for StreamConfig {
    fn default() -> (r: Self)
        ensures
            r.diff_only,
    {
        StreamConfig { interval: seconds(1), diff_only: true }
    }
}

/// Whether a polled quote is sent on: always unless `diff_only`, otherwise
/// when the price moved or some volume traded since the last poll.
pub fn should_emit(diff_only: bool, price_changed: bool, volume_delta: Option<i64>) -> (r: bool)
    ensures
        r == (!diff_only || price_changed || (volume_delta matches Some(v) && v != 0)),
{
    let volume_changed = match volume_delta {
        Some(v) => v != 0,
        None => false,
    };
    !diff_only || price_changed || volume_changed
}

/// The bytes standard base64 (`base64::engine::general_purpose::STANDARD`)
/// decodes `s` to, `None` when it rejects the text.
pub uninterp spec fn base64_standard(s: Seq<char>) -> Option<Seq<u8>>;

/// `Engine::decode` of the standard base64 engine.
#[verifier::external_body]
fn decode_base64(s: &str) -> (r: Option<Vec<u8>>)
    ensures
        match r {
            Some(v) => base64_standard(s@) == Some(v@),
            None => base64_standard(s@) is None,
        },
{
    match base64::Engine::decode(&base64::engine::general_purpose::STANDARD, s) {
        Ok(v) => Some(v),
        Err(_) => None,
    }
}

/// The protobuf bytes of a WebSocket text frame: the trimmed text, base64
/// decoded; `None` when it is not base64.
pub fn frame_bytes(text: &str) -> (r: Option<Vec<u8>>)
    ensures
        match r {
            Some(v) => base64_standard(trim(text@)) == Some(v@),
            None => base64_standard(trim(text@)) is None,
        },
{
    let cs = chars_of(text);
    let t = string_of(&trim_chars(&cs));
    decode_base64(t.as_str())
}

/// The subscription message sent when a WebSocket opens.
pub open spec fn subscribe_text(symbols: Seq<Seq<char>>) -> Seq<char> {
    "{\"subscribe\":["@ + join_with(symbols.map_values(|s: Seq<char>| json_quoted(s)), ',') + "]}"@
}

/// `{"subscribe":[...]}` for `symbols`, as JSON text.
pub fn subscribe_message(symbols: &[String]) -> (r: String)
    ensures
        r@ == subscribe_text(strings_view(symbols@)),
{
    let ghost parts = strings_view(symbols@).map_values(|s: Seq<char>| json_quoted(s));
    let mut out: Vec<char> = Vec::new();
    let mut i: usize = 0;
    while i < symbols.len()
        invariant
            i <= symbols@.len(),
            parts == strings_view(symbols@).map_values(|s: Seq<char>| json_quoted(s)),
            out@ == join_with(parts.take(i as int), ','),
        decreases symbols@.len() - i,
    {
        if i > 0 {
            out.push(',');
        }
        let ghost start = out@;
        let q = json_string(symbols[i].as_str());
        for c in it: q.as_str().chars()
            invariant
                it.seq() == q@,
                out@ == start + it.seq().take(it.index() as int),
        {
            out.push(c);
            assert(out@ =~= start + it.seq().take(it.index() + 1));
        }
        assert(out@ =~= start + q@);
        assert(parts.take(i + 1).drop_last() =~= parts.take(i as int));
        assert(parts[i as int] == json_quoted(symbols@[i as int]@));
        if i == 0 {
            assert(out@ =~= parts.take(1)[0]);
        }
        i += 1;
    }
    assert(parts.take(symbols@.len() as int) =~= parts);
    let mut r = "{\"subscribe\":[".to_string();
    let body = string_of(&out);
    r.append(body.as_str());
    r.append("]}");
    r
}

/// The cumulative volume a WebSocket frame reports: protobuf's default `0`
/// means the frame carries none.
pub fn frame_volume(day_volume: i64) -> (r: Option<i64>)
    ensures
        r == (if day_volume == 0 {
            None
        } else {
            Some(day_volume)
        }),
{
    if day_volume == 0 {
        None
    } else {
        Some(day_volume)
    }
}

/// The cumulative volume a polled quote reports, when it fits in `i64`
/// (`i64::try_from`).
pub fn quote_volume(volume: Option<u64>) -> (r: Option<i64>)
    ensures
        r == (match volume {
            Some(v) => if v <= i64::MAX {
                Some(v as i64)
            } else {
                None
            },
            None => None,
        }),
{
    match volume {
        Some(v) => if v <= i64::MAX as u64 {
            Some(v as i64)
        } else {
            None
        },
        None => None,
    }
}

/// `None` for an empty string (protobuf's "unset"), the string otherwise.
pub fn opt_str(s: String) -> (r: Option<String>)
    ensures
        s@.len() == 0 ==> r is None,
        s@.len() > 0 ==> r == Some(s),
{
    if s.as_str().is_empty() {
        None
    } else {
        Some(s)
    }
}

/// Last cumulative volume seen per symbol.
pub struct VolumeTracker {
    last: Vec<(String, i64)>,
}

/// The map that a list of `(symbol, volume)` entries stands for.
pub open spec fn entries_map(e: Seq<(String, i64)>) -> Map<Seq<char>, i64>
    decreases e.len(),
{
    if e.len() == 0 {
        Map::empty()
    } else {
        entries_map(e.drop_last()).insert(e.last().0@, e.last().1)
    }
}

/// No symbol occurs twice.
pub open spec fn keys_unique(e: Seq<(String, i64)>) -> bool {
    forall|i: int, j: int| 0 <= i < j < e.len() ==> #[trigger] e[i].0@ != #[trigger] e[j].0@
}

/// The volume that `delta` reports for a tick of cumulative volume `current`
/// after `prev` was last seen.
pub open spec fn spec_delta(prev: Option<i64>, current: i64) -> Option<i64> {
    match prev {
        None => None,
        Some(p) => if current < p {
            Some(current)
        } else {
            Some((current - p) as i64)
        },
    }
}

proof fn lemma_map_absent(e: Seq<(String, i64)>, k: Seq<char>)
    requires
        forall|i: int| 0 <= i < e.len() ==> #[trigger] e[i].0@ != k,
    ensures
        !entries_map(e).contains_key(k),
    decreases e.len(),
{
    if e.len() > 0 {
        lemma_map_absent(e.drop_last(), k);
    }
}

proof fn lemma_map_at(e: Seq<(String, i64)>, i: int)
    requires
        keys_unique(e),
        0 <= i < e.len(),
    ensures
        entries_map(e).contains_key(e[i].0@),
        entries_map(e)[e[i].0@] == e[i].1,
    decreases e.len(),
{
    if i < e.len() - 1 {
        lemma_map_at(e.drop_last(), i);
    }
}

proof fn lemma_map_update(e: Seq<(String, i64)>, i: int, v: i64)
    requires
        keys_unique(e),
        0 <= i < e.len(),
    ensures
        entries_map(e.update(i, (e[i].0, v))) == entries_map(e).insert(e[i].0@, v),
    decreases e.len(),
{
    let u = e.update(i, (e[i].0, v));
    if i == e.len() - 1 {
        assert(u.drop_last() =~= e.drop_last());
        assert(entries_map(e.drop_last()).insert(e[i].0@, e[i].1).insert(e[i].0@, v)
            =~= entries_map(e.drop_last()).insert(e[i].0@, v));
    } else {
        lemma_map_update(e.drop_last(), i, v);
        assert(u.drop_last() =~= e.drop_last().update(i, (e[i].0, v)));
        assert(e.last().0@ != e[i].0@);
        assert(entries_map(e.drop_last()).insert(e[i].0@, v).insert(e.last().0@, e.last().1)
            =~= entries_map(e.drop_last()).insert(e.last().0@, e.last().1).insert(e[i].0@, v));
    }
}

impl VolumeTracker {
    /// The last cumulative volume seen for each symbol.
    pub closed spec fn view(&self) -> Map<Seq<char>, i64> {
        entries_map(self.last@)
    }

    /// The tracker keeps one entry per symbol.
    pub closed spec fn wf(&self) -> bool {
        keys_unique(self.last@)
    }

    /// A tracker that has seen no symbol.
    pub fn new() -> (r: VolumeTracker)
        ensures
            r.wf(),
            r.view() == Map::<Seq<char>, i64>::empty(),
    {
        VolumeTracker { last: Vec::new() }
    }

    /// Record the cumulative volume `current` of `symbol` and return the
    /// per-update delta: `None` on the first tick of a symbol, the
    /// difference from the previous tick, or `current` itself after a reset
    /// (when it fell below the previous value). A tick without volume
    /// changes nothing and yields `None`.
    pub fn delta(&mut self, symbol: &str, current: Option<i64>) -> (r: Option<i64>)
        requires
            old(self).wf(),
            current matches Some(c) ==> (old(self).view().contains_key(symbol@) && c >= old(
                self,
            ).view()[symbol@] ==> c - old(self).view()[symbol@] <= i64::MAX),
        ensures
            final(self).wf(),
            match current {
                None => r is None && final(self).view() == old(self).view(),
                Some(c) => {
                    &&& r == spec_delta(
                        if old(self).view().contains_key(symbol@) {
                            Some(old(self).view()[symbol@])
                        } else {
                            None
                        },
                        c,
                    )
                    &&& final(self).view() == old(self).view().insert(symbol@, c)
                },
            },
    {
        let c = match current {
            Some(c) => c,
            None => {
                return None;
            },
        };
        let key = chars_of(symbol);
        let mut i: usize = 0;
        while i < self.last.len()
            invariant
                i <= self.last@.len(),
                key@ == symbol@,
                current == Some(c),
                old(self).view().contains_key(symbol@) && c >= old(self).view()[symbol@] ==> c
                    - old(self).view()[symbol@] <= i64::MAX,
                keys_unique(self.last@),
                self.last@ == old(self).last@,
                forall|j: int| 0 <= j < i ==> #[trigger] self.last@[j].0@ != symbol@,
            decreases self.last@.len() - i,
        {
            let name = chars_of(self.last[i].0.as_str());
            if chars_eq(&name, &key) {
                let prev = self.last[i].1;
                proof {
                    lemma_map_at(self.last@, i as int);
                    lemma_map_update(self.last@, i as int, c);
                }
                let ghost before = self.last@;
                let entry_name = self.last[i].0.clone();
                self.last.set(i, (entry_name, c));
                assert(self.last@ =~= before.update(i as int, (before[i as int].0, c)));
                assert(keys_unique(self.last@)) by {
                    assert forall|a: int, b: int| 0 <= a < b < self.last@.len() implies #[trigger] self.last@[a].0@
                        != #[trigger] self.last@[b].0@ by {
                        assert(before[a].0@ != before[b].0@);
                    }
                }
                if c < prev {
                    return Some(c);
                } else {
                    return Some(c - prev);
                }
            }
            i += 1;
        }
        proof {
            lemma_map_absent(self.last@, symbol@);
        }
        let ghost before = self.last@;
        self.last.push((symbol.to_string(), c));
        assert(self.last@.drop_last() =~= before);
        assert(keys_unique(self.last@)) by {
            assert forall|a: int, b: int| 0 <= a < b < self.last@.len() implies #[trigger] self.last@[a].0@
                != #[trigger] self.last@[b].0@ by {
                if b == self.last@.len() - 1 {
                    assert(before[a].0@ != symbol@);
                } else {
                    assert(before[a].0@ != before[b].0@);
                }
            }
        }
        None
    }
}

impl VolumeTracker {
    /// The last cumulative volume recorded for `symbol`, if any.
    pub fn previous(&self, symbol: &str) -> (r: Option<i64>)
        requires
            self.wf(),
        ensures
            r == (if self.view().contains_key(symbol@) {
                Some(self.view()[symbol@])
            } else {
                None
            }),
    {
        let key = chars_of(symbol);
        let mut i: usize = 0;
        while i < self.last.len()
            invariant
                i <= self.last@.len(),
                key@ == symbol@,
                keys_unique(self.last@),
                forall|j: int| 0 <= j < i ==> #[trigger] self.last@[j].0@ != symbol@,
            decreases self.last@.len() - i,
        {
            let name = chars_of(self.last[i].0.as_str());
            if chars_eq(&name, &key) {
                proof {
                    lemma_map_at(self.last@, i as int);
                }
                return Some(self.last[i].1);
            }
            i += 1;
        }
        proof {
            lemma_map_absent(self.last@, symbol@);
        }
        None
    }
}

impl Default for VolumeTracker {
    fn default() -> (r: Self)
        ensures
            r.wf(),
            r.view() == Map::<Seq<char>, i64>::empty(),
    {
        VolumeTracker::new()
    }
}

} // verus!
