//! Aggregator state: the single consumer that folds worker reports into a
//! cumulative attempt counter, a rolling one-second throughput window and
//! the per-pattern match records.
//!
//! All mutation happens here, on the consumer's side of the channel; the
//! window's running sum always equals the sum of its entries, and entries
//! older than the window are evicted eagerly on every update.

use vstd::prelude::*;

use crate::keypair::KeyPair;
use crate::pattern::{
    expected_attempts_spec, spec_estimate_text, spec_filename, spec_render, Pattern, PatternView,
};
use crate::text::{first_two_tokens, first_two_tokens_of, spec_grouped_decimal, u64_to_grouped_decimal};
use crate::worker::WorkerMessage;
use std::collections::VecDeque;

verus! {

/// Length of the rolling throughput window, in milliseconds.
pub const RATE_WINDOW_MS: u64 = 1000;

/// Sum of the attempt counts of the window's entries.
pub open spec fn sum_attempts(s: Seq<(u64, u64)>) -> int
    decreases s.len(),
{
    if s.len() == 0 {
        0
    } else {
        s[0].1 + sum_attempts(s.drop_first())
    }
}

pub proof fn lemma_sum_attempts_nonneg(s: Seq<(u64, u64)>)
    ensures
        sum_attempts(s) >= 0,
    decreases s.len(),
{
    if s.len() > 0 {
        lemma_sum_attempts_nonneg(s.drop_first());
    }
}

pub proof fn lemma_sum_attempts_push(s: Seq<(u64, u64)>, e: (u64, u64))
    ensures
        sum_attempts(s.push(e)) == sum_attempts(s) + e.1,
    decreases s.len(),
{
    if s.len() == 0 {
        assert(s.push(e)[0] == e);
        assert(s.push(e).drop_first() =~= Seq::<(u64, u64)>::empty());
        assert(sum_attempts(Seq::<(u64, u64)>::empty()) == 0);
    } else {
        assert(s.push(e)[0] == s[0]);
        assert(s.push(e).drop_first() =~= s.drop_first().push(e));
        lemma_sum_attempts_push(s.drop_first(), e);
    }
}

/// Whether an entry stamped `ts` still lies within the window at `now`.
pub open spec fn in_window(ts: u64, now: u64) -> bool {
    now - ts <= RATE_WINDOW_MS
}

/// Eager front eviction: entries are dropped from the front for as long
/// as the front entry has aged out of the window.
pub open spec fn pruned(s: Seq<(u64, u64)>, now: u64) -> Seq<(u64, u64)>
    decreases s.len(),
{
    if s.len() == 0 {
        s
    } else if !in_window(s[0].0, now) {
        pruned(s.drop_first(), now)
    } else {
        s
    }
}

/// Timestamps in non-decreasing order: how entries arrive, since the
/// aggregator stamps each message as it is received.
pub open spec fn ts_sorted(s: Seq<(u64, u64)>) -> bool {
    forall|i: int, j: int| 0 <= i <= j < s.len() ==> (#[trigger] s[i]).0 <= (#[trigger] s[j]).0
}

/// All timestamps at or before `now`.
pub open spec fn ts_bounded(s: Seq<(u64, u64)>, now: u64) -> bool {
    forall|i: int| 0 <= i < s.len() ==> (#[trigger] s[i]).0 <= now
}

proof fn lemma_all_pos_filter_id(s: Seq<(u64, u64)>, pred: spec_fn((u64, u64)) -> bool)
    requires
        forall|i: int| 0 <= i < s.len() ==> pred(#[trigger] s[i]),
    ensures
        s.filter(pred) == s,
    decreases s.len(),
{
    reveal(Seq::filter);
    if s.len() > 0 {
        lemma_all_pos_filter_id(s.drop_last(), pred);
        assert(s.filter(pred) =~= s);
    }
}

/// On a window whose timestamps arrive in non-decreasing order, eager
/// front eviction keeps exactly the entries that still lie within the
/// window, in their original order.
pub proof fn lemma_pruned_is_filter(s: Seq<(u64, u64)>, now: u64)
    requires
        ts_sorted(s),
    ensures
        pruned(s, now) == s.filter(|e: (u64, u64)| in_window(e.0, now)),
    decreases s.len(),
{
    let pred = |e: (u64, u64)| in_window(e.0, now);
    if s.len() == 0 {
        reveal(Seq::filter);
    } else if !in_window(s[0].0, now) {
        let head = seq![s[0]];
        let tail = s.drop_first();
        assert(s =~= head + tail);
        Seq::filter_distributes_over_add(head, tail, pred);
        head.lemma_all_neg_filter_empty(pred);
        assert(head.filter(pred) =~= Seq::<(u64, u64)>::empty());
        lemma_pruned_is_filter(tail, now);
        assert(pruned(s, now) =~= s.filter(pred));
    } else {
        lemma_all_pos_filter_id(s, pred);
    }
}

/// The aggregator's state: the lifetime attempt counter, the per-pattern
/// match records (one slot per pattern, in the order the patterns were
/// supplied; hits in insertion order), and the rolling window with its
/// running sum.
pub struct ManagerState {
    pub total_attempts: u64,
    pub pattern_hits: Vec<Vec<KeyPair>>,
    pub attempt_history: VecDeque<(u64, u64)>,
    pub attempt_history_total: u64,
}

impl ManagerState {
    /// The window's running sum equals the sum of its entries, which are
    /// in arrival order; and nothing was ever summed that was not also
    /// counted in the lifetime total.
    pub open spec fn wf(self) -> bool {
        &&& ts_sorted(self.attempt_history@)
        &&& self.attempt_history_total as int == sum_attempts(self.attempt_history@)
        &&& self.attempt_history_total <= self.total_attempts
    }

    /// Fresh state for a run over `n_patterns` patterns: all counters
    /// zero, one empty hit list per pattern.
    pub fn new(n_patterns: usize) -> (s: ManagerState)
        ensures
            s.wf(),
            s.total_attempts == 0,
            s.attempt_history@ =~= Seq::<(u64, u64)>::empty(),
            s.attempt_history_total == 0,
            s.pattern_hits@.len() == n_patterns,
            forall|i: int|
                0 <= i < n_patterns ==> (#[trigger] s.pattern_hits@[i])@ =~= Seq::<
                    KeyPair,
                >::empty(),
    {
        let mut pattern_hits: Vec<Vec<KeyPair>> = Vec::new();
        let mut i: usize = 0;
        while i < n_patterns
            invariant
                i <= n_patterns,
                pattern_hits@.len() == i,
                forall|k: int|
                    0 <= k < i ==> (#[trigger] pattern_hits@[k])@ =~= Seq::<KeyPair>::empty(),
            decreases n_patterns - i,
        {
            pattern_hits.push(Vec::new());
            i = i + 1;
        }
        ManagerState {
            total_attempts: 0,
            pattern_hits,
            attempt_history: VecDeque::new(),
            attempt_history_total: 0,
        }
    }

    /// Evicts every entry older than the window, oldest first, keeping the
    /// running sum equal to the sum of what remains.
    pub fn prune_attempt_history(&mut self, now_ms: u64)
        requires
            old(self).wf(),
            ts_bounded(old(self).attempt_history@, now_ms),
        ensures
            final(self).wf(),
            final(self).attempt_history@ == pruned(old(self).attempt_history@, now_ms),
            final(self).total_attempts == old(self).total_attempts,
            final(self).pattern_hits == old(self).pattern_hits,
            ts_bounded(final(self).attempt_history@, now_ms),
    {
        let ghost orig = self.attempt_history@;
        let ghost orig_total = self.total_attempts;
        let ghost orig_hits = self.pattern_hits;
        loop
            invariant
                self.wf(),
                ts_bounded(self.attempt_history@, now_ms),
                pruned(orig, now_ms) == pruned(self.attempt_history@, now_ms),
                self.total_attempts == orig_total,
                self.pattern_hits == orig_hits,
            ensures
                self.attempt_history@.len() == 0 || in_window(self.attempt_history@[0].0, now_ms),
            decreases self.attempt_history@.len(),
        {
            let ghost before = self.attempt_history@;
            match self.attempt_history.pop_front() {
                None => {
                    break;
                },
                Some((time, attempts)) => {
                    if now_ms - time > RATE_WINDOW_MS {
                        proof {
                            assert(self.attempt_history@ =~= before.drop_first());
                            lemma_sum_attempts_nonneg(before.drop_first());
                        }
                        self.attempt_history_total = self.attempt_history_total - attempts;
                    } else {
                        self.attempt_history.push_front((time, attempts));
                        proof {
                            assert(self.attempt_history@ =~= before);
                        }
                        break;
                    }
                },
            }
        }
        proof {
            assert(pruned(self.attempt_history@, now_ms) == self.attempt_history@);
        }
    }

    /// Records a report: adds its attempts to the lifetime total, stamps
    /// it into the window, and evicts what has aged out.
    pub fn update_attempts(&mut self, attempts: u64, now_ms: u64)
        requires
            old(self).wf(),
            ts_bounded(old(self).attempt_history@, now_ms),
            old(self).total_attempts + attempts <= u64::MAX,
        ensures
            final(self).wf(),
            final(self).total_attempts == old(self).total_attempts + attempts,
            final(self).attempt_history@ == pruned(
                old(self).attempt_history@.push((now_ms, attempts)),
                now_ms,
            ),
            final(self).pattern_hits == old(self).pattern_hits,
            ts_bounded(final(self).attempt_history@, now_ms),
    {
        proof {
            lemma_sum_attempts_push(self.attempt_history@, (now_ms, attempts));
        }
        self.total_attempts = self.total_attempts + attempts;
        self.attempt_history.push_back((now_ms, attempts));
        self.attempt_history_total = self.attempt_history_total + attempts;
        self.prune_attempt_history(now_ms);
    }

    /// The rolling one-second rate: the sum of the attempts still in the
    /// window.  With a one-second window, the sum per window is the rate
    /// per second.
    pub fn rolling_rate(&self) -> (r: u64)
        requires
            self.wf(),
        ensures
            r as int == sum_attempts(self.attempt_history@),
    {
        if self.attempt_history.len() == 0 {
            0
        } else {
            self.attempt_history_total
        }
    }

    /// Stores a matched keypair under its pattern's slot, in insertion
    /// order.
    pub fn add_key_pair(&mut self, pattern_index: usize, key_pair: KeyPair)
        requires
            pattern_index < old(self).pattern_hits@.len(),
        ensures
            final(self).pattern_hits@.len() == old(self).pattern_hits@.len(),
            final(self).pattern_hits@[pattern_index as int]@ == old(self).pattern_hits@[
                pattern_index as int]@.push(key_pair),
            forall|j: int|
                0 <= j < old(self).pattern_hits@.len() && j != pattern_index
                    ==> #[trigger] final(self).pattern_hits@[j] == old(self).pattern_hits@[j],
            final(self).total_attempts == old(self).total_attempts,
            final(self).attempt_history == old(self).attempt_history,
            final(self).attempt_history_total == old(self).attempt_history_total,
    {
        let mut slot = self.pattern_hits.remove(pattern_index);
        slot.push(key_pair);
        self.pattern_hits.insert(pattern_index, slot);
    }

    /// How many matches have been stored for the pattern at this index;
    /// zero for an index outside the run's pattern list.
    pub fn get_pattern_hits(&self, pattern_index: usize) -> (r: usize)
        ensures
            r == if pattern_index < self.pattern_hits@.len() {
                self.pattern_hits@[pattern_index as int]@.len()
            } else {
                0
            },
    {
        if pattern_index < self.pattern_hits.len() {
            self.pattern_hits[pattern_index].len()
        } else {
            0
        }
    }
}

/// The lifetime-average rate: attempts per second over the elapsed wall
/// time, rounded to the nearest whole rate, zero when no time has
/// elapsed, saturated at `u64::MAX`.
pub open spec fn spec_avg_rate(total: u64, elapsed_ms: u64) -> nat {
    if elapsed_ms == 0 {
        0
    } else {
        let r = (total as int * 1000 + elapsed_ms as int / 2) / (elapsed_ms as int);
        if r > u64::MAX {
            u64::MAX as nat
        } else {
            r as nat
        }
    }
}

/// Computes the lifetime-average rate in attempts per second.
pub fn avg_rate(total_attempts: u64, elapsed_ms: u64) -> (r: u64)
    ensures
        r as nat == spec_avg_rate(total_attempts, elapsed_ms),
{
    if elapsed_ms == 0 {
        0
    } else {
        let x = ((total_attempts as u128) * 1000 + (elapsed_ms as u128) / 2) / (elapsed_ms
            as u128);
        if x > (u64::MAX as u128) {
            u64::MAX
        } else {
            x as u64
        }
    }
}

/// The headline of the progress display.
pub open spec fn spec_progress_line(total: u64, rolling: u64, avg: u64) -> Seq<char> {
    "Attempts: "@ + spec_grouped_decimal(total as nat) + " | "@ + spec_grouped_decimal(
        rolling as nat,
    ) + " keys/sec (1s) | "@ + spec_grouped_decimal(avg as nat) + " keys/sec (avg)"@
}

/// One pattern's statistics line: the expected number of attempts and the
/// time estimate at the given rate for a suffix; a fixed note for a
/// regular expression, which has no estimate.
pub open spec fn spec_pattern_stats(v: PatternView, rate: u64) -> Seq<char> {
    match v {
        PatternView::Suffix(s) => "Pattern '"@ + s + "': 1 in "@ + spec_grouped_decimal(
            expected_attempts_spec(s.len()),
        ) + " (est. "@ + first_two_tokens(spec_estimate_text(s.len(), rate as nat)) + ")"@,
        PatternView::Regex(src) => "Pattern '"@ + src + "': regex pattern (no estimate)"@,
    }
}

/// The hit counter shown once a pattern has stored matches, with its
/// plural s on any count but one.
pub open spec fn spec_hits_message(n: nat) -> Seq<char> {
    spec_grouped_decimal(n) + " key"@ + (if n == 1 {
        Seq::<char>::empty()
    } else {
        seq!['s']
    }) + " found"@
}

/// The views of a pattern list, in order.
pub open spec fn spec_views_of(patterns: Seq<Pattern>) -> Seq<PatternView> {
    patterns.map_values(|p: Pattern| p@)
}

/// The per-pattern hit counts, in order.
pub open spec fn spec_counts_of(hits: Seq<Vec<KeyPair>>) -> Seq<nat> {
    hits.map_values(|v: Vec<KeyPair>| v@.len())
}

/// The first `upto` per-pattern lines, each on its own line after the
/// headline: the pattern's statistics, then its hit counter once it has
/// stored matches.
pub open spec fn spec_pattern_lines(
    patterns: Seq<PatternView>,
    counts: Seq<nat>,
    rate: u64,
    upto: int,
) -> Seq<char>
    decreases upto,
{
    if upto <= 0 {
        Seq::<char>::empty()
    } else {
        spec_pattern_lines(patterns, counts, rate, upto - 1) + seq!['\n'] + spec_pattern_stats(
            patterns[upto - 1],
            rate,
        ) + (if counts[upto - 1] > 0 {
            " | "@ + spec_hits_message(counts[upto - 1])
        } else {
            Seq::<char>::empty()
        })
    }
}

/// The whole progress message: the headline, then one line per pattern in
/// supplied order.  The estimates use the lifetime-average rate.
pub open spec fn spec_progress_message(
    total: u64,
    rolling: u64,
    avg: u64,
    patterns: Seq<PatternView>,
    counts: Seq<nat>,
) -> Seq<char> {
    spec_progress_line(total, rolling, avg) + spec_pattern_lines(
        patterns,
        counts,
        avg,
        patterns.len() as int,
    )
}

/// Renders one pattern's statistics line.
pub fn format_pattern_stats(pattern: &Pattern, rate: u64) -> (r: String)
    ensures
        r@ == spec_pattern_stats(pattern@, rate),
{
    match pattern {
        Pattern::Suffix(s) => {
            let mut r = String::from_str("Pattern '");
            r.append(s.as_str());
            r.append("': 1 in ");
            let expected = match pattern.expected_attempts() {
                Some(n) => n,
                None => 0,
            };
            let g = u64_to_grouped_decimal(expected);
            r.append(g.as_str());
            r.append(" (est. ");
            let est = match pattern.estimate_time(rate) {
                Some(t) => t,
                None => String::new(),
            };
            let short = first_two_tokens_of(est.as_str());
            r.append(short.as_str());
            r.append(")");
            r
        },
        Pattern::Regex(compiled) => {
            let mut r = String::from_str("Pattern '");
            r.append(compiled.source());
            r.append("': regex pattern (no estimate)");
            r
        },
    }
}

/// Renders the hit counter fragment.
pub fn format_hits_message(n_hits: u64) -> (r: String)
    ensures
        r@ == spec_hits_message(n_hits as nat),
{
    let mut r = u64_to_grouped_decimal(n_hits);
    r.append(" key");
    if n_hits != 1 {
        r.append("s");
        proof {
            reveal_strlit("s");
            assert(r@ =~= spec_grouped_decimal(n_hits as nat) + " key"@ + seq!['s']);
        }
    }
    r.append(" found");
    proof {
        assert(r@ =~= spec_hits_message(n_hits as nat));
    }
    r
}

impl ManagerState {
    /// Renders the whole progress message for the current state: the
    /// lifetime total, the rolling rate and the lifetime-average rate,
    /// then one line per pattern.
    pub fn progress_message(&self, patterns: &Vec<Pattern>, elapsed_ms: u64) -> (r: String)
        requires
            self.wf(),
            self.pattern_hits@.len() == patterns@.len(),
        ensures
            r@ == spec_progress_message(
                self.total_attempts,
                sum_attempts(self.attempt_history@) as u64,
                spec_avg_rate(self.total_attempts, elapsed_ms) as u64,
                spec_views_of(patterns@),
                spec_counts_of(self.pattern_hits@),
            ),
    {
        let ghost views = spec_views_of(patterns@);
        let ghost counts = spec_counts_of(self.pattern_hits@);
        let rolling = self.rolling_rate();
        let avg = avg_rate(self.total_attempts, elapsed_ms);
        let mut r = String::from_str("Attempts: ");
        let g_total = u64_to_grouped_decimal(self.total_attempts);
        r.append(g_total.as_str());
        r.append(" | ");
        let g_rolling = u64_to_grouped_decimal(rolling);
        r.append(g_rolling.as_str());
        r.append(" keys/sec (1s) | ");
        let g_avg = u64_to_grouped_decimal(avg);
        r.append(g_avg.as_str());
        r.append(" keys/sec (avg)");
        let ghost headline = spec_progress_line(
            self.total_attempts,
            sum_attempts(self.attempt_history@) as u64,
            spec_avg_rate(self.total_attempts, elapsed_ms) as u64,
        );
        proof {
            assert(r@ =~= headline);
        }
        let mut i: usize = 0;
        while i < patterns.len()
            invariant
                self.wf(),
                self.pattern_hits@.len() == patterns@.len(),
                i <= patterns@.len(),
                views == spec_views_of(patterns@),
                counts == spec_counts_of(self.pattern_hits@),
                avg as nat == spec_avg_rate(self.total_attempts, elapsed_ms),
                r@ == headline + spec_pattern_lines(views, counts, avg, i as int),
            decreases patterns@.len() - i,
        {
            r.append("\n");
            let stats = format_pattern_stats(&patterns[i], avg);
            r.append(stats.as_str());
            let n = self.get_pattern_hits(i);
            if n > 0 {
                r.append(" | ");
                let hm = format_hits_message(n as u64);
                r.append(hm.as_str());
            }
            proof {
                reveal_strlit("\n");
                assert(r@ =~= headline + spec_pattern_lines(views, counts, avg, i + 1));
            }
            i = i + 1;
        }
        r
    }
}

/// A stored match handed outward for persistence and notification.  The
/// keypair is already recorded in the aggregator's state; a failure of
/// either collaborator must not touch that record.
pub struct HitDirective {
    pub pattern_index: usize,
    pub key_pair: KeyPair,
    pub filename: String,
    pub found_message: String,
    pub saved_message: String,
    pub notify_message: String,
}

/// What the aggregator's driver does after one message: show the progress
/// message; if the message carried a match, persist and announce it; and
/// stop the run when it is configured to stop on the first match.
pub struct ManagerDirective {
    pub progress_message: String,
    pub hit: Option<HitDirective>,
    pub stop: bool,
}

/// The announcement printed when a pattern matches.
pub open spec fn spec_found_message(v: PatternView) -> Seq<char> {
    "\u{2728} Found matching key for pattern '"@ + spec_render(v) + "'"@
}

/// The line printed after the keypair was persisted.
pub open spec fn spec_saved_message(v: PatternView, secs: u64) -> Seq<char> {
    "Key saved to 'out/"@ + spec_filename(v, secs) + "'"@
}

/// The notification text sent to the configured endpoint.
pub open spec fn spec_notify_message(v: PatternView) -> Seq<char> {
    "Found key matching pattern '"@ + spec_render(v) + "'"@
}

impl ManagerState {
    /// Handles one worker message: records its attempts (updating the
    /// lifetime total and the rolling window), renders the progress
    /// message, and, when the message carries a match, stores the keypair
    /// under its pattern and hands the persistence and notification texts
    /// outward.  The progress message reflects the state before the new
    /// hit is counted, as the display is refreshed before the hit is
    /// handled.  `now_ms` stamps the window entry, `elapsed_ms` is the
    /// wall time since the run started, and `unix_secs` stamps the
    /// filename.
    pub fn handle_message(
        &mut self,
        msg: WorkerMessage,
        now_ms: u64,
        elapsed_ms: u64,
        unix_secs: u64,
        patterns: &Vec<Pattern>,
        stop_after_match: bool,
    ) -> (r: ManagerDirective)
        requires
            old(self).wf(),
            ts_bounded(old(self).attempt_history@, now_ms),
            old(self).total_attempts + msg.attempts <= u64::MAX,
            old(self).pattern_hits@.len() == patterns@.len(),
            msg.search_hit matches Some(h) ==> h.pattern_index < patterns@.len(),
        ensures
            final(self).wf(),
            final(self).total_attempts == old(self).total_attempts + msg.attempts,
            final(self).attempt_history@ == pruned(
                old(self).attempt_history@.push((now_ms, msg.attempts)),
                now_ms,
            ),
            final(self).pattern_hits@.len() == old(self).pattern_hits@.len(),
            r.progress_message@ == spec_progress_message(
                (old(self).total_attempts + msg.attempts) as u64,
                sum_attempts(final(self).attempt_history@) as u64,
                spec_avg_rate((old(self).total_attempts + msg.attempts) as u64, elapsed_ms) as u64,
                spec_views_of(patterns@),
                spec_counts_of(old(self).pattern_hits@),
            ),
            match msg.search_hit {
                Some(h) => {
                    &&& final(self).pattern_hits@[h.pattern_index as int]@ == old(
                        self,
                    ).pattern_hits@[h.pattern_index as int]@.push(h.key_pair)
                    &&& forall|j: int|
                        0 <= j < old(self).pattern_hits@.len() && j != h.pattern_index
                            ==> #[trigger] final(self).pattern_hits@[j] == old(
                            self,
                        ).pattern_hits@[j]
                    &&& r.stop == stop_after_match
                    &&& r.hit matches Some(d) && {
                        &&& d.pattern_index == h.pattern_index
                        &&& d.key_pair == h.key_pair
                        &&& d.filename@ == spec_filename(
                            patterns@[h.pattern_index as int]@,
                            unix_secs,
                        )
                        &&& d.found_message@ == spec_found_message(
                            patterns@[h.pattern_index as int]@,
                        )
                        &&& d.saved_message@ == spec_saved_message(
                            patterns@[h.pattern_index as int]@,
                            unix_secs,
                        )
                        &&& d.notify_message@ == spec_notify_message(
                            patterns@[h.pattern_index as int]@,
                        )
                    }
                },
                None => {
                    &&& final(self).pattern_hits == old(self).pattern_hits
                    &&& r.hit is None
                    &&& !r.stop
                },
            },
    {
        self.update_attempts(msg.attempts, now_ms);
        let progress_message = self.progress_message(patterns, elapsed_ms);
        match msg.search_hit {
            None => ManagerDirective { progress_message, hit: None, stop: false },
            Some(h) => {
                self.add_key_pair(h.pattern_index, h.key_pair);
                let pattern = &patterns[h.pattern_index];
                let filename = pattern.to_filename_at(unix_secs);
                let rendered = pattern.render();
                let mut found_message = String::from_str(
                    "\u{2728} Found matching key for pattern '",
                );
                found_message.append(rendered.as_str());
                found_message.append("'");
                let mut saved_message = String::from_str("Key saved to 'out/");
                saved_message.append(filename.as_str());
                saved_message.append("'");
                let mut notify_message = String::from_str("Found key matching pattern '");
                notify_message.append(rendered.as_str());
                notify_message.append("'");
                ManagerDirective {
                    progress_message,
                    hit: Some(
                        HitDirective {
                            pattern_index: h.pattern_index,
                            key_pair: h.key_pair,
                            filename,
                            found_message,
                            saved_message,
                            notify_message,
                        },
                    ),
                    stop: stop_after_match,
                }
            },
        }
    }
}

} // verus!
