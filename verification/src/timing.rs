//! Execution time recording.
//!
//! A timer's state (`TimerState`) is meant to be written to disk so that it
//! survives process boundaries; this module holds the state, its updates and
//! the arithmetic on it, while reading and writing the state file is left to
//! the caller.

use vstd::prelude::*;
use crate::binary64::{pow10, push_seconds_text, seconds_text};
use crate::clock::{clock_millis, compact_millis_stamp, read_clock, rfc3339_text, MAX_CLOCK_MILLIS, MAX_CLOCK_SECS};
use crate::entropy::random_u32;
use crate::text::{
    alnum_digit, nat_to_decimal, push_str_chars, push_u64_decimal, string_from_chars,
};

verus! {

/// Persistent timer state that can be written to disk and read back.
#[derive(Debug, Clone)]
pub struct TimerState {
    /// Unique identifier for this timer
    pub id: String,
    /// When the timer was started (RFC3339)
    pub start_time: String,
    /// Unix timestamp when started (for precise duration calculation)
    pub start_timestamp_ms: i64,
    /// Optional description of what is being timed
    pub description: Option<String>,
    /// Optional bead ID associated with this timer
    pub bead_id: Option<String>,
    /// Whether the timer is currently running
    pub running: bool,
    /// Accumulated duration from previous runs (in milliseconds)
    pub accumulated_ms: u64,
    /// When this state was last updated
    pub updated_at: String,
}

/// Whether `text` is the RFC 3339 text of an instant read from the clock.
pub open spec fn is_clock_text(text: Seq<char>) -> bool {
    exists|secs: i64, nanos: u32| text == #[trigger] rfc3339_text(secs, nanos)
}

/// Whether `text` and `ms` are the RFC 3339 text and the milliseconds since
/// the Unix epoch of one instant read from the clock.
pub open spec fn is_clock_reading(text: Seq<char>, ms: int) -> bool {
    exists|secs: i64, nanos: u32|
        nanos < 1_000_000_000 && text == #[trigger] rfc3339_text(secs, nanos) && ms == clock_millis(
            secs,
            nanos,
        )
}

/// Whether `id` is a timer id made of the `YYYYMMDD-HHMMSS-mmm` stamp of an
/// instant read from the clock and a random number.
pub open spec fn is_fresh_timer_id(id: Seq<char>) -> bool {
    exists|secs: i64, nanos: u32, random: u32|
        id == #[trigger] timer_id_spec(compact_millis_stamp(secs, nanos), random)
}

impl TimerState {
    /// Create a new, running timer state that starts now.
    pub fn new(id: String, description: Option<String>, bead_id: Option<String>) -> (s: Self)
        ensures
            s.id == id,
            s.description == description,
            s.bead_id == bead_id,
            s.running,
            s.accumulated_ms == 0,
            s.updated_at@ == s.start_time@,
            is_clock_reading(s.start_time@, s.start_timestamp_ms as int),
    {
        let now = read_clock();
        let start_time = now.rfc3339;
        let updated_at = start_time.clone();
        TimerState {
            id,
            start_time,
            start_timestamp_ms: now.millis,
            description,
            bead_id,
            running: true,
            accumulated_ms: 0,
            updated_at,
        }
    }

    /// Mark the timer as stopped with a final duration.
    pub fn stop(&mut self, duration_ms: u64)
        ensures
            !final(self).running,
            final(self).accumulated_ms == duration_ms,
            final(self).id == old(self).id,
            final(self).start_time == old(self).start_time,
            final(self).start_timestamp_ms == old(self).start_timestamp_ms,
            final(self).description == old(self).description,
            final(self).bead_id == old(self).bead_id,
            is_clock_text(final(self).updated_at@),
    {
        self.running = false;
        self.accumulated_ms = duration_ms;
        self.updated_at = read_clock().rfc3339;
    }

    /// Add more accumulated time (for multi-phase timing).
    pub fn add_accumulated(&mut self, additional_ms: u64)
        requires
            old(self).accumulated_ms + additional_ms <= u64::MAX,
        ensures
            final(self).accumulated_ms == old(self).accumulated_ms + additional_ms,
            final(self).running == old(self).running,
            final(self).id == old(self).id,
            final(self).start_time == old(self).start_time,
            final(self).start_timestamp_ms == old(self).start_timestamp_ms,
            final(self).description == old(self).description,
            final(self).bead_id == old(self).bead_id,
            is_clock_text(final(self).updated_at@),
    {
        self.accumulated_ms = self.accumulated_ms + additional_ms;
        self.updated_at = read_clock().rfc3339;
    }
}

/// Milliseconds from `start_ms` to `now_ms`, zero when `now_ms` is earlier.
pub open spec fn elapsed_between_spec(start_ms: int, now_ms: int) -> int {
    if now_ms - start_ms > 0 {
        now_ms - start_ms
    } else {
        0
    }
}

/// Milliseconds from `start_ms` to `now_ms`, never negative.
pub fn elapsed_between(start_ms: i64, now_ms: i64) -> (d: u64)
    requires
        i64::MIN <= now_ms - start_ms <= i64::MAX,
    ensures
        d == elapsed_between_spec(start_ms as int, now_ms as int),
{
    let diff = now_ms - start_ms;
    if diff > 0 {
        diff as u64
    } else {
        0
    }
}

/// The total elapsed time of a timer read at `now_ms`: the time since its
/// persisted start plus what it accumulated before; `None` when that is out
/// of the range of the machine integers that hold it.
pub open spec fn timer_elapsed_spec(state: TimerState, now_ms: int) -> Option<int> {
    let diff = now_ms - state.start_timestamp_ms;
    if diff < i64::MIN || diff > i64::MAX {
        None
    } else if elapsed_between_spec(state.start_timestamp_ms as int, now_ms)
        + state.accumulated_ms > u64::MAX {
        None
    } else {
        Some(elapsed_between_spec(state.start_timestamp_ms as int, now_ms) + state.accumulated_ms)
    }
}

/// Whether every reading the clock can give yields an elapsed time: the
/// start is not before the Unix epoch, and the accumulated time leaves room
/// for the latest instant the clock can read.
pub open spec fn clock_cannot_overflow(state: TimerState) -> bool {
    state.start_timestamp_ms >= 0 && state.accumulated_ms <= u64::MAX - MAX_CLOCK_MILLIS
}

/// Execution timer: a timer state and the path of the file that persists it.
pub struct ExecutionTimer {
    state: TimerState,
    state_path: String,
}

impl ExecutionTimer {
    /// The state of this timer.
    pub closed spec fn state_spec(&self) -> TimerState {
        self.state
    }

    /// The path where this timer's state is persisted.
    pub closed spec fn state_path_spec(&self) -> Seq<char> {
        self.state_path@
    }

    /// Start a new execution timer whose state is to be persisted at
    /// `state_path`.
    pub fn start(state_path: &str) -> (t: Self)
        ensures
            t.state_spec().running,
            t.state_spec().description is None,
            t.state_spec().bead_id is None,
            t.state_spec().accumulated_ms == 0,
            t.state_spec().updated_at@ == t.state_spec().start_time@,
            is_fresh_timer_id(t.state_spec().id@),
            is_clock_reading(t.state_spec().start_time@, t.state_spec().start_timestamp_ms as int),
            t.state_path_spec() == state_path@,
    {
        Self::start_with_metadata(state_path, None, None)
    }

    /// Start a new execution timer with metadata, under a fresh timer id.
    pub fn start_with_metadata(
        state_path: &str,
        description: Option<String>,
        bead_id: Option<String>,
    ) -> (t: Self)
        ensures
            t.state_spec().running,
            t.state_spec().description == description,
            t.state_spec().bead_id == bead_id,
            t.state_spec().accumulated_ms == 0,
            t.state_spec().updated_at@ == t.state_spec().start_time@,
            is_fresh_timer_id(t.state_spec().id@),
            is_clock_reading(t.state_spec().start_time@, t.state_spec().start_timestamp_ms as int),
            t.state_path_spec() == state_path@,
    {
        let id = generate_timer_id();
        let state = TimerState::new(id, description, bead_id);
        ExecutionTimer { state, state_path: crate::text::to_owned_string(state_path) }
    }

    /// Resume a timer from a state read back from `state_path`: the state is
    /// kept, only its `updated_at` is moved to now.
    pub fn resume(state: TimerState, state_path: &str) -> (t: Self)
        ensures
            t.state_spec().id == state.id,
            t.state_spec().start_time == state.start_time,
            t.state_spec().start_timestamp_ms == state.start_timestamp_ms,
            t.state_spec().description == state.description,
            t.state_spec().bead_id == state.bead_id,
            t.state_spec().running == state.running,
            t.state_spec().accumulated_ms == state.accumulated_ms,
            is_clock_text(t.state_spec().updated_at@),
            t.state_path_spec() == state_path@,
    {
        let mut state = state;
        state.updated_at = read_clock().rfc3339;
        ExecutionTimer { state, state_path: crate::text::to_owned_string(state_path) }
    }

    /// The elapsed time in milliseconds if the clock reads `now_ms`: the time
    /// since the persisted start (never negative) plus the time accumulated
    /// in earlier runs.
    pub fn elapsed_ms_at(&self, now_ms: i64) -> (r: Result<u64, String>)
        ensures
            match timer_elapsed_spec(self.state_spec(), now_ms as int) {
                Some(e) => r == Ok::<u64, String>(e as u64),
                None => r is Err,
            },
    {
        let start = self.state.start_timestamp_ms;
        if (now_ms as i128) - (start as i128) < (i64::MIN as i128) || (now_ms as i128) - (
        start as i128) > (i64::MAX as i128) {
            return Err(string_from_chars(chars_of_out_of_range().as_slice()));
        }
        let since = elapsed_between(start, now_ms);
        if since > u64::MAX - self.state.accumulated_ms {
            return Err(string_from_chars(chars_of_out_of_range().as_slice()));
        }
        Ok(since + self.state.accumulated_ms)
    }

    /// Get the elapsed time in milliseconds, reading the clock now.
    pub fn elapsed_ms(&self) -> (r: Result<u64, String>)
        ensures
            exists|secs: i64, nanos: u32|
                nanos < 1_000_000_000 && match timer_elapsed_spec(
                    self.state_spec(),
                    #[trigger] clock_millis(secs, nanos),
                ) {
                    Some(e) => r == Ok::<u64, String>(e as u64),
                    None => r is Err,
                },
            r matches Ok(e) ==> e >= self.state_spec().accumulated_ms,
            clock_cannot_overflow(self.state_spec()) ==> r is Ok,
    {
        let now = read_clock();
        proof {
            assert(now.millis <= MAX_CLOCK_MILLIS) by (nonlinear_arith)
                requires
                    now.millis == now.secs * 1000 + now.nanos / 1_000_000,
                    0 <= now.secs <= MAX_CLOCK_SECS,
                    now.nanos < 1_000_000_000,
            ;
        }
        self.elapsed_ms_at(now.millis)
    }

    /// Get the elapsed time as a human-readable string.
    pub fn elapsed_display(&self) -> (r: Result<String, String>)
        ensures
            r matches Ok(s) ==> exists|secs: i64, nanos: u32|
                nanos < 1_000_000_000 && (timer_elapsed_spec(
                    self.state_spec(),
                    #[trigger] clock_millis(secs, nanos),
                ) matches Some(ms) && s@ == format_duration_spec(ms as nat)),
            r is Err ==> exists|secs: i64, nanos: u32|
                nanos < 1_000_000_000 && timer_elapsed_spec(
                    self.state_spec(),
                    #[trigger] clock_millis(secs, nanos),
                ) is None,
            clock_cannot_overflow(self.state_spec()) ==> r is Ok,
    {
        match self.elapsed_ms() {
            Ok(ms) => Ok(format_duration(ms)),
            Err(e) => Err(e),
        }
    }

    /// Stop the timer: the elapsed time is computed and recorded as the
    /// final duration. Returns that duration and the final state, which is
    /// what is to be persisted.
    pub fn stop(self) -> (r: Result<(u64, TimerState), String>)
        ensures
            r is Err ==> exists|secs: i64, nanos: u32|
                nanos < 1_000_000_000 && timer_elapsed_spec(
                    self.state_spec(),
                    #[trigger] clock_millis(secs, nanos),
                ) is None,
            r matches Ok((d, s)) ==> {
                &&& exists|secs: i64, nanos: u32|
                    nanos < 1_000_000_000 && timer_elapsed_spec(
                        self.state_spec(),
                        #[trigger] clock_millis(secs, nanos),
                    ) == Some(d as int)
                &&& is_clock_text(s.updated_at@)
                &&& d >= self.state_spec().accumulated_ms
                &&& !s.running
                &&& s.accumulated_ms == d
                &&& s.id == self.state_spec().id
                &&& s.start_time == self.state_spec().start_time
                &&& s.description == self.state_spec().description
                &&& s.bead_id == self.state_spec().bead_id
            },
            clock_cannot_overflow(self.state_spec()) ==> r is Ok,
    {
        let duration_ms = match self.elapsed_ms() {
            Ok(d) => d,
            Err(e) => return Err(e),
        };
        let mut state = self.state;
        state.stop(duration_ms);
        Ok((duration_ms, state))
    }

    /// Get a reference to the timer state.
    pub fn state(&self) -> (s: &TimerState)
        ensures
            *s == self.state_spec(),
    {
        &self.state
    }

    /// Get the timer ID.
    pub fn id(&self) -> (s: &str)
        ensures
            s@ == self.state_spec().id@,
    {
        self.state.id.as_str()
    }

    /// Get the start time (RFC3339 format).
    pub fn start_time(&self) -> (s: &str)
        ensures
            s@ == self.state_spec().start_time@,
    {
        self.state.start_time.as_str()
    }

    /// Check if the timer is currently running.
    pub fn is_running(&self) -> (b: bool)
        ensures
            b == self.state_spec().running,
    {
        self.state.running
    }

    /// The path where this timer's state is persisted.
    pub fn state_path(&self) -> (s: &str)
        ensures
            s@ == self.state_path_spec(),
    {
        self.state_path.as_str()
    }
}

/// The message of an elapsed time that does not fit the machine integers.
pub open spec fn out_of_range_message() -> Seq<char> {
    "elapsed time out of range"@
}

/// The characters of [`out_of_range_message`].
fn chars_of_out_of_range() -> (v: Vec<char>)
    ensures
        v@ == out_of_range_message(),
{
    let mut v: Vec<char> = Vec::new();
    push_str_chars(&mut v, "elapsed time out of range");
    v
}

/// The last `k` hexadecimal digits of `n`, zero-padded.
pub open spec fn padded_hex(n: nat, k: nat) -> Seq<char>
    decreases k,
{
    if k == 0 {
        Seq::empty()
    } else {
        padded_hex(n / 16, (k - 1) as nat).push(alnum_digit((n % 16) as int))
    }
}

fn push_padded_hex(v: &mut Vec<char>, n: u32, k: u32)
    ensures
        final(v)@ == old(v)@ + padded_hex(n as nat, k as nat),
    decreases k,
{
    if k == 0 {
        assert(final(v)@ =~= old(v)@ + padded_hex(n as nat, k as nat));
    } else {
        push_padded_hex(v, n / 16, k - 1);
        let d = (n % 16) as u8;
        if d < 10 {
            v.push((d + 48) as char);
        } else {
            v.push((d - 10 + 97) as char);
        }
        assert(v@ =~= old(v)@ + padded_hex(n as nat, k as nat));
    }
}

/// The timer id made of a timestamp and a random number:
/// `timer-{stamp}-{random as 8 lower-case hex digits}`.
pub open spec fn timer_id_spec(stamp: Seq<char>, random: u32) -> Seq<char> {
    "timer-"@ + stamp + "-"@ + padded_hex(random as nat, 8)
}

/// Every id a timer is started under begins with "timer-"; since resuming
/// keeps the id, so does every timer read back from its state file.
pub proof fn lemma_fresh_timer_id_prefix(id: Seq<char>)
    requires
        is_fresh_timer_id(id),
    ensures
        id.len() >= 6,
        id.take(6) == "timer-"@,
{
    reveal_strlit("timer-");
    let (secs, nanos, random) = choose|secs: i64, nanos: u32, random: u32|
        id == #[trigger] timer_id_spec(compact_millis_stamp(secs, nanos), random);
    let rest = compact_millis_stamp(secs, nanos) + "-"@ + padded_hex(random as nat, 8);
    assert(id =~= "timer-"@ + rest);
    assert(id.take(6) =~= "timer-"@);
}

/// The timer id for the given timestamp text and random number.
pub fn timer_id_from(stamp: &str, random: u32) -> (s: String)
    ensures
        s@ == timer_id_spec(stamp@, random),
{
    let mut v: Vec<char> = Vec::new();
    push_str_chars(&mut v, "timer-");
    push_str_chars(&mut v, stamp);
    push_str_chars(&mut v, "-");
    push_padded_hex(&mut v, random, 8);
    string_from_chars(v.as_slice())
}

/// Generate a unique timer ID from the current time (`YYYYMMDD-HHMMSS-mmm`)
/// and a random number.
pub fn generate_timer_id() -> (s: String)
    ensures
        is_fresh_timer_id(s@),
{
    let now = read_clock();
    let random = random_u32();
    let s = timer_id_from(now.compact_millis.as_str(), random);
    assert(s@ == timer_id_spec(compact_millis_stamp(now.secs, now.nanos), random));
    s
}

/// A duration in milliseconds as a human-readable string: milliseconds below
/// a second, seconds with two decimals below a minute, seconds with one
/// decimal plus minutes and seconds below an hour, and hours and minutes
/// plus seconds with one decimal beyond. Seconds are shown as std shows
/// `ms as f64 / 1000.0` at that precision.
pub open spec fn format_duration_spec(ms: nat) -> Seq<char> {
    if ms < 1000 {
        nat_to_decimal(ms) + "ms"@
    } else if ms < 60_000 {
        seconds_text(ms, 2) + "s"@
    } else if ms < 3_600_000 {
        seconds_text(ms, 1) + "s ("@ + nat_to_decimal(ms / 60_000) + "m "@ + nat_to_decimal(
            (ms / 1000) % 60,
        ) + "s)"@
    } else {
        nat_to_decimal(ms / 3_600_000) + "h "@ + nat_to_decimal((ms / 60_000) % 60) + "m ("@
            + seconds_text(ms, 1) + "s)"@
    }
}

/// Format a duration in milliseconds as a human-readable string, e.g.
/// `100ms`, `1.50s`, `65.0s (1m 5s)`, `1h 1m (3700.0s)`.
pub fn format_duration(ms: u64) -> (s: String)
    ensures
        s@ == format_duration_spec(ms as nat),
{
    proof {
        reveal_with_fuel(pow10, 3);
    }
    let mut v: Vec<char> = Vec::new();
    if ms < 1000 {
        push_u64_decimal(&mut v, ms);
        push_str_chars(&mut v, "ms");
    } else if ms < 60_000 {
        push_seconds_text(&mut v, ms, 2, 100);
        push_str_chars(&mut v, "s");
    } else if ms < 3_600_000 {
        push_seconds_text(&mut v, ms, 1, 10);
        push_str_chars(&mut v, "s (");
        push_u64_decimal(&mut v, ms / 60_000);
        push_str_chars(&mut v, "m ");
        push_u64_decimal(&mut v, (ms / 1000) % 60);
        push_str_chars(&mut v, "s)");
    } else {
        push_u64_decimal(&mut v, ms / 3_600_000);
        push_str_chars(&mut v, "h ");
        push_u64_decimal(&mut v, (ms / 60_000) % 60);
        push_str_chars(&mut v, "m (");
        push_seconds_text(&mut v, ms, 1, 10);
        push_str_chars(&mut v, "s)");
    }
    assert(v@ =~= format_duration_spec(ms as nat));
    string_from_chars(v.as_slice())
}

/// Completion record of a timed run.
#[derive(Debug, Clone)]
pub struct CompletionRecord {
    /// Start time (RFC3339)
    pub start_time: Option<String>,
    /// End time (RFC3339)
    pub end_time: String,
    /// Start timestamp (milliseconds since epoch)
    pub start_timestamp_ms: i64,
    /// End timestamp (milliseconds since epoch)
    pub end_timestamp_ms: i64,
    /// Duration in milliseconds
    pub duration_ms: u64,
    /// Exit code (if applicable)
    pub exit_code: Option<i32>,
    /// When this record was written
    pub recorded_at: String,
}

/// The completion record of a run that started at `start_timestamp_ms`
/// (with the start time text read back, if any) and ended at
/// `end_timestamp_ms`: the duration is the time between them, never negative.
pub fn completion_record(
    start_time: Option<String>,
    start_timestamp_ms: i64,
    end_time: String,
    end_timestamp_ms: i64,
    exit_code: Option<i32>,
    recorded_at: String,
) -> (r: CompletionRecord)
    requires
        i64::MIN <= end_timestamp_ms - start_timestamp_ms <= i64::MAX,
    ensures
        r.start_time == start_time,
        r.end_time == end_time,
        r.start_timestamp_ms == start_timestamp_ms,
        r.end_timestamp_ms == end_timestamp_ms,
        r.duration_ms == elapsed_between_spec(start_timestamp_ms as int, end_timestamp_ms as int),
        r.exit_code == exit_code,
        r.recorded_at == recorded_at,
{
    CompletionRecord {
        start_time,
        end_time,
        start_timestamp_ms,
        end_timestamp_ms,
        duration_ms: elapsed_between(start_timestamp_ms, end_timestamp_ms),
        exit_code,
        recorded_at,
    }
}

} // verus!
