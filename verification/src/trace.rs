//! Trace file layout: where the traces of a workspace live, how trace files
//! and bead trace directories are named, and what a cargo test log holds.
//!
//! Creating directories and writing the files is left to the caller; this
//! module decides the names, the paths and the contents.

use vstd::prelude::*;
use crate::binary64::{pow10, push_seconds_text, seconds_text};
use crate::clock::{compact_stamp, read_clock};
use crate::entropy::{random_bytes16, sha256, sha256_digest};
use crate::paths::{join_path, path_join};
use crate::sorting::{lex_le, sort_strings, string_views};
use crate::text::{
    alnum_digit, chars_of, int_to_decimal, nat_to_decimal, push_i64_decimal, push_str_chars,
    push_u64_decimal, string_from_chars, to_owned_string,
};

verus! {

/// 256^k.
pub open spec fn pow256(k: nat) -> nat
    decreases k,
{
    if k == 0 {
        1
    } else {
        256 * pow256((k - 1) as nat)
    }
}

/// The number whose big-endian bytes are `bytes`.
pub open spec fn big_endian_value(bytes: Seq<u8>) -> nat
    decreases bytes.len(),
{
    if bytes.len() == 0 {
        0
    } else {
        big_endian_value(bytes.drop_last()) * 256 + bytes.last() as nat
    }
}

/// The base-36 digits of `n` (0-9 then a-z), most significant first,
/// without leading zeros ("0" for zero).
pub open spec fn base36_text(n: nat) -> Seq<char>
    decreases n,
{
    if n < 36 {
        seq![alnum_digit(n as int)]
    } else {
        base36_text(n / 36).push(alnum_digit((n % 36) as int))
    }
}

/// The base-36 text of the number held big-endian in the first 16 bytes of
/// `data`; "0" when there are fewer than 16 bytes.
pub open spec fn base36_encode_spec(data: Seq<u8>) -> Seq<char> {
    if data.len() >= 16 {
        base36_text(big_endian_value(data.take(16)))
    } else {
        base36_text(0)
    }
}

/// The value of a base-36 digit (for '0'-'9' and 'a'-'z').
pub open spec fn base36_digit_value(c: char) -> int {
    if (c as int) < 58 {
        (c as int) - 48
    } else {
        (c as int) - 87
    }
}

/// The number that base-36 digits stand for.
pub open spec fn base36_value(s: Seq<char>) -> nat
    decreases s.len(),
{
    if s.len() == 0 {
        0
    } else {
        (base36_value(s.drop_last()) * 36 + base36_digit_value(s.last())) as nat
    }
}

/// Whether `c` is an ASCII digit or lower-case letter.
pub open spec fn is_lower_alnum(c: char) -> bool {
    ('0' as int <= c as int <= '9' as int) || ('a' as int <= c as int <= 'z' as int)
}

proof fn lemma_alnum_digit(d: int)
    requires
        0 <= d < 36,
    ensures
        base36_digit_value(alnum_digit(d)) == d,
        is_lower_alnum(alnum_digit(d)),
{
    if d < 10 {
        assert(((d + 48) as u8) as char as int == d + 48);
    } else {
        assert(((d - 10 + 97) as u8) as char as int == d + 87);
    }
}

/// Base-36 text can be read back: every character is a digit or a
/// lower-case letter, and the digits stand for the number encoded. So
/// distinct numbers get distinct texts.
pub proof fn lemma_base36_round_trip(n: nat)
    ensures
        base36_value(base36_text(n)) == n,
        forall|i: int| 0 <= i < base36_text(n).len() ==> is_lower_alnum(#[trigger] base36_text(n)[i]),
        base36_text(n).len() >= 1,
    decreases n,
{
    if n < 36 {
        lemma_alnum_digit(n as int);
        assert(base36_text(n).drop_last() =~= Seq::<char>::empty());
        assert(base36_value(Seq::<char>::empty()) == 0);
        assert(base36_text(n).last() == alnum_digit(n as int));
    } else {
        lemma_alnum_digit((n % 36) as int);
        lemma_base36_round_trip(n / 36);
        assert(base36_text(n).drop_last() =~= base36_text(n / 36));
        assert(base36_text(n).last() == alnum_digit((n % 36) as int));
        assert((n / 36) * 36 + n % 36 == n);
        let t = base36_text(n);
        assert forall|i: int| 0 <= i < t.len() implies is_lower_alnum(#[trigger] t[i]) by {
            if i < t.len() - 1 {
                assert(t[i] == base36_text(n / 36)[i]);
            }
        }
    }
}

proof fn lemma_big_endian_value_bound(bytes: Seq<u8>)
    ensures
        big_endian_value(bytes) < pow256(bytes.len()),
    decreases bytes.len(),
{
    if bytes.len() > 0 {
        lemma_big_endian_value_bound(bytes.drop_last());
        let v = big_endian_value(bytes.drop_last());
        let p = pow256((bytes.len() - 1) as nat);
        assert(v * 256 + 255 < p * 256) by (nonlinear_arith)
            requires
                v < p,
        ;
    }
}

fn push_base36(v: &mut Vec<char>, n: u128)
    ensures
        final(v)@ == old(v)@ + base36_text(n as nat),
    decreases n,
{
    if n < 36 {
        push_alnum_digit(v, n as u8);
        assert(final(v)@ =~= old(v)@ + base36_text(n as nat));
    } else {
        push_base36(v, n / 36);
        push_alnum_digit(v, (n % 36) as u8);
        assert(v@ =~= old(v)@ + base36_text(n as nat));
    }
}

fn push_alnum_digit(v: &mut Vec<char>, d: u8)
    requires
        d < 36,
    ensures
        final(v)@ == old(v)@.push(alnum_digit(d as int)),
{
    if d < 10 {
        v.push((d + 48) as char);
    } else {
        v.push((d - 10 + 97) as char);
    }
}

/// Base-36 encoding of the number held big-endian in the first 16 bytes of
/// `data` ("0" when there are fewer than 16).
pub fn base36_encode(data: &[u8]) -> (s: String)
    ensures
        s@ == base36_encode_spec(data@),
{
    let mut num: u128 = 0;
    if data.len() >= 16 {
        let mut i: usize = 0;
        while i < 16
            invariant
                data@.len() >= 16,
                0 <= i <= 16,
                num == big_endian_value(data@.take(i as int)),
            decreases 16 - i,
        {
            proof {
                lemma_big_endian_value_bound(data@.take(i as int));
                reveal_with_fuel(pow256, 17);
                assert(pow256(i as nat) <= pow256(15)) by {
                    lemma_pow256_monotone(i as nat, 15);
                }
                assert(data@.take(i + 1).drop_last() =~= data@.take(i as int));
                assert(num * 256 + 255 < pow256(15) * 256) by (nonlinear_arith)
                    requires
                        num < pow256(i as nat),
                        pow256(i as nat) <= pow256(15),
                ;
            }
            num = num * 256 + data[i] as u128;
            i = i + 1;
        }
    }
    let mut v: Vec<char> = Vec::new();
    push_base36(&mut v, num);
    string_from_chars(v.as_slice())
}

proof fn lemma_pow256_monotone(a: nat, b: nat)
    requires
        a <= b,
    ensures
        pow256(a) <= pow256(b),
    decreases b,
{
    if a < b {
        lemma_pow256_monotone(a, (b - 1) as nat);
    }
}

/// The trace name minted from a digest: `bf-` and the first eight base-36
/// characters of the digest's encoding.
pub open spec fn trace_name_spec(digest: Seq<u8>) -> Seq<char> {
    "bf-"@ + first_chars(base36_encode_spec(digest), 8)
}

/// The first `k` characters of `s` (all of them when it is shorter).
pub open spec fn first_chars(s: Seq<char>, k: nat) -> Seq<char> {
    if s.len() <= k {
        s
    } else {
        s.take(k as int)
    }
}

/// The trace name for `digest` (see [`trace_name_spec`]).
pub fn trace_name_from_digest(digest: &[u8]) -> (s: String)
    ensures
        s@ == trace_name_spec(digest@),
{
    let enc = base36_encode(digest);
    let cs = chars_of(enc.as_str());
    let mut v: Vec<char> = Vec::new();
    push_str_chars(&mut v, "bf-");
    let mut i: usize = 0;
    while i < 8 && i < cs.len()
        invariant
            0 <= i <= 8,
            i <= cs@.len(),
            cs@ == base36_encode_spec(digest@),
            v@ == "bf-"@ + cs@.take(i as int),
        decreases 8 - i,
    {
        v.push(cs[i]);
        i = i + 1;
        assert(v@ =~= "bf-"@ + cs@.take(i as int));
    }
    assert(cs@.take(i as int) =~= first_chars(cs@, 8));
    string_from_chars(v.as_slice())
}

/// A trace name is `bf-` followed by at most eight digits and lower-case
/// letters.
pub proof fn lemma_trace_name_shape(digest: Seq<u8>)
    ensures
        trace_name_spec(digest).len() <= 11,
        trace_name_spec(digest).take(3) == "bf-"@,
        forall|i: int|
            3 <= i < trace_name_spec(digest).len() ==> is_lower_alnum(
                #[trigger] trace_name_spec(digest)[i],
            ),
{
    let n: nat = if digest.len() >= 16 {
        big_endian_value(digest.take(16))
    } else {
        0
    };
    lemma_base36_round_trip(n);
    let t = trace_name_spec(digest);
    assert("bf-"@.len() == 3) by {
        reveal_strlit("bf-");
    }
    assert(t.take(3) =~= "bf-"@);
    assert forall|i: int| 3 <= i < t.len() implies is_lower_alnum(#[trigger] t[i]) by {
        assert(t[i] == base36_text(n)[i - 3]);
    }
}

/// Trace file manager: the traces directory of a workspace.
pub struct TraceManager {
    traces_dir: String,
}

impl TraceManager {
    /// The traces directory.
    pub closed spec fn traces_dir_spec(&self) -> Seq<char> {
        self.traces_dir@
    }

    /// A manager for the traces of the workspace at `base_dir`: its traces
    /// live in `.beads/traces` under it.
    pub fn new(base_dir: &str) -> (m: Self)
        ensures
            m.traces_dir_spec() == path_join(path_join(base_dir@, ".beads"@), "traces"@),
    {
        let beads = join_path(base_dir, ".beads");
        TraceManager { traces_dir: join_path(beads.as_str(), "traces") }
    }

    /// The traces directory.
    pub fn traces_dir(&self) -> (s: &str)
        ensures
            s@ == self.traces_dir_spec(),
    {
        self.traces_dir.as_str()
    }

    /// Generate a trace file name: `bf-` and eight base-36 characters taken
    /// from the SHA-256 digest of sixteen random bytes.
    pub fn generate_trace_name() -> (s: String)
        ensures
            exists|bytes: Seq<u8>| bytes.len() == 16 && s@ == trace_name_spec(sha256(bytes)),
    {
        let bytes = random_bytes16();
        Self::trace_name_of_seed(bytes.as_slice())
    }

    /// The trace name drawn from the given seed bytes: `bf-` and the first
    /// eight base-36 characters of the seed's SHA-256 digest.
    pub fn trace_name_of_seed(seed: &[u8]) -> (s: String)
        ensures
            s@ == trace_name_spec(sha256(seed@)),
    {
        let digest = sha256_digest(seed);
        trace_name_from_digest(digest.as_slice())
    }

    /// The path of the trace file with the given name.
    pub fn trace_path_for_name(&self, trace_name: &str) -> (p: String)
        ensures
            p@ == path_join(self.traces_dir_spec(), trace_name@),
    {
        join_path(self.traces_dir.as_str(), trace_name)
    }

    /// The file name of a cargo test log written at the given stamp
    /// (`YYYYMMDD-HHMMSS`).
    pub fn cargo_test_filename_at(stamp: &str) -> (s: String)
        ensures
            s@ == "cargo-test-"@ + stamp@ + ".log"@,
    {
        let mut v: Vec<char> = Vec::new();
        push_str_chars(&mut v, "cargo-test-");
        push_str_chars(&mut v, stamp);
        push_str_chars(&mut v, ".log");
        string_from_chars(v.as_slice())
    }

    /// A timestamped filename for cargo test logs:
    /// `cargo-test-YYYYMMDD-HHMMSS.log`, at the current time.
    pub fn cargo_test_filename() -> (s: String)
        ensures
            exists|secs: i64, nanos: u32|
                s@ == "cargo-test-"@ + #[trigger] compact_stamp(secs, nanos) + ".log"@,
    {
        let now = read_clock();
        let s = Self::cargo_test_filename_at(now.compact.as_str());
        assert(s@ == "cargo-test-"@ + compact_stamp(now.secs, now.nanos) + ".log"@);
        s
    }

    /// The path for a cargo test log written now (the traces directory is
    /// to exist before the log is written).
    pub fn cargo_test_path(&self) -> (p: String)
        ensures
            exists|secs: i64, nanos: u32|
                p@ == path_join(
                    self.traces_dir_spec(),
                    "cargo-test-"@ + #[trigger] compact_stamp(secs, nanos) + ".log"@,
                ),
    {
        let name = Self::cargo_test_filename();
        join_path(self.traces_dir.as_str(), name.as_str())
    }

    /// The path of the "latest" cargo test log link.
    pub fn cargo_test_latest_path(&self) -> (p: String)
        ensures
            p@ == path_join(self.traces_dir_spec(), "cargo-test-latest.log"@),
    {
        join_path(self.traces_dir.as_str(), "cargo-test-latest.log")
    }

    /// The trace directory of a bead: `{traces}/{bead_id}`.
    pub fn bead_trace_path(&self, bead_id: &str) -> (p: String)
        ensures
            p@ == path_join(self.traces_dir_spec(), bead_id@),
    {
        join_path(self.traces_dir.as_str(), bead_id)
    }

    /// The candidate path of a bead trace directory made unique by a
    /// timestamp, and by a counter when that one is taken.
    pub fn unique_bead_trace_path(&self, bead_id: &str, stamp: &str, counter: u32) -> (p: String)
        ensures
            p@ == path_join(self.traces_dir_spec(), unique_trace_dir_name_spec(bead_id@, stamp@, counter as nat)),
    {
        let name = unique_trace_dir_name(bead_id, stamp, counter);
        join_path(self.traces_dir.as_str(), name.as_str())
    }

    /// The path to a bead's metadata file.
    pub fn bead_metadata_path(&self, bead_id: &str) -> (p: String)
        ensures
            p@ == path_join(path_join(self.traces_dir_spec(), bead_id@), "metadata.json"@),
    {
        let d = join_path(self.traces_dir.as_str(), bead_id);
        join_path(d.as_str(), "metadata.json")
    }

    /// The path to a bead's stdout file.
    pub fn bead_stdout_path(&self, bead_id: &str) -> (p: String)
        ensures
            p@ == path_join(path_join(self.traces_dir_spec(), bead_id@), "stdout.txt"@),
    {
        let d = join_path(self.traces_dir.as_str(), bead_id);
        join_path(d.as_str(), "stdout.txt")
    }

    /// The path to a bead's stderr file.
    pub fn bead_stderr_path(&self, bead_id: &str) -> (p: String)
        ensures
            p@ == path_join(path_join(self.traces_dir_spec(), bead_id@), "stderr.txt"@),
    {
        let d = join_path(self.traces_dir.as_str(), bead_id);
        join_path(d.as_str(), "stderr.txt")
    }
}

/// At least two decimal digits: a leading zero below ten.
pub open spec fn two_digit_min(n: nat) -> Seq<char> {
    if n < 10 {
        seq!['0'] + nat_to_decimal(n)
    } else {
        nat_to_decimal(n)
    }
}

/// The name of a unique bead trace directory: `{bead_id}-{stamp}`, or
/// `{bead_id}-{stamp}-{counter, at least two digits}` for a counter above
/// zero.
pub open spec fn unique_trace_dir_name_spec(bead_id: Seq<char>, stamp: Seq<char>, counter: nat) -> Seq<char> {
    if counter == 0 {
        bead_id + "-"@ + stamp
    } else {
        bead_id + "-"@ + stamp + "-"@ + two_digit_min(counter)
    }
}

/// The name of a unique bead trace directory (see
/// [`unique_trace_dir_name_spec`]).
pub fn unique_trace_dir_name(bead_id: &str, stamp: &str, counter: u32) -> (s: String)
    ensures
        s@ == unique_trace_dir_name_spec(bead_id@, stamp@, counter as nat),
{
    let mut v: Vec<char> = Vec::new();
    push_str_chars(&mut v, bead_id);
    push_str_chars(&mut v, "-");
    push_str_chars(&mut v, stamp);
    if counter > 0 {
        push_str_chars(&mut v, "-");
        if counter < 10 {
            v.push('0');
        }
        push_u64_decimal(&mut v, counter as u64);
    }
    assert(v@ =~= unique_trace_dir_name_spec(bead_id@, stamp@, counter as nat));
    string_from_chars(v.as_slice())
}

/// Whether a directory name looks like a bead trace: it starts with `bf-`
/// or `needle-`.
pub open spec fn is_bead_trace_name(name: Seq<char>) -> bool {
    (name.len() >= 3 && name.take(3) == "bf-"@) || (name.len() >= 7 && name.take(7) == "needle-"@)
}

fn starts_with(s: &str, prefix: &str) -> (b: bool)
    ensures
        b == (s@.len() >= prefix@.len() && s@.take(prefix@.len() as int) == prefix@),
{
    let x = chars_of(s);
    let p = chars_of(prefix);
    if x.len() < p.len() {
        return false;
    }
    let mut i: usize = 0;
    while i < p.len()
        invariant
            x@ == s@,
            p@ == prefix@,
            p@.len() <= x@.len(),
            0 <= i <= p@.len(),
            forall|j: int| 0 <= j < i ==> x@[j] == p@[j],
        decreases p@.len() - i,
    {
        if x[i] != p[i] {
            assert(s@.take(prefix@.len() as int)[i as int] != prefix@[i as int]);
            return false;
        }
        i = i + 1;
    }
    assert(s@.take(prefix@.len() as int) =~= prefix@);
    true
}

/// The bead trace directories among the entries of the traces directory,
/// sorted.
pub fn select_bead_trace_names(names: &Vec<String>) -> (r: Vec<String>)
    ensures
        string_views(r@) == string_views(names@).filter(|n: Seq<char>| is_bead_trace_name(n)).sort_by(lex_le()),
{
    let ghost pred = |n: Seq<char>| is_bead_trace_name(n);
    let mut kept: Vec<String> = Vec::new();
    let mut i: usize = 0;
    while i < names.len()
        invariant
            0 <= i <= names@.len(),
            pred == (|n: Seq<char>| is_bead_trace_name(n)),
            string_views(kept@) == string_views(names@.take(i as int)).filter(pred),
        decreases names@.len() - i,
    {
        let name = names[i].as_str();
        let keep = starts_with(name, "bf-") || starts_with(name, "needle-");
        proof {
            reveal_strlit("bf-");
            reveal_strlit("needle-");
            assert("bf-"@.len() == 3);
            assert("needle-"@.len() == 7);
            assert(keep == is_bead_trace_name(names@[i as int]@));
            assert(string_views(names@.take(i + 1)) =~= string_views(names@.take(i as int)).push(
                names@[i as int]@,
            ));
            string_views(names@.take(i as int)).lemma_filter_push(names@[i as int]@, pred);
        }
        if keep {
            let ghost old_kept = kept@;
            kept.push(names[i].clone());
            assert(string_views(kept@) =~= string_views(old_kept).push(names@[i as int]@));
        }
        i = i + 1;
    }
    assert(names@.take(names@.len() as int) =~= names@);
    sort_strings(&kept)
}

/// The log of a cargo test run: stdout, stderr, exit code, start and end
/// times, and the duration in milliseconds and in seconds (two decimals, as
/// std shows `ms as f64 / 1000.0`).
pub open spec fn cargo_test_log_spec(
    stdout: Seq<char>,
    stderr: Seq<char>,
    exit_code: int,
    start_time: Seq<char>,
    end_time: Seq<char>,
    duration_ms: nat,
) -> Seq<char> {
    "=== STDOUT ===\n"@ + stdout + "\n=== STDERR ===\n"@ + stderr + "\n=== EXIT CODE: "@
        + int_to_decimal(exit_code) + " ===\n"@ + "=== START TIME: "@ + start_time + " ===\n"@
        + "=== END TIME: "@ + end_time + " ===\n"@ + "=== DURATION: "@ + nat_to_decimal(
        duration_ms,
    ) + "ms ("@ + seconds_text(duration_ms, 2) + "s) ===\n"@
}

/// The log of a cargo test run (see [`cargo_test_log_spec`]).
pub fn cargo_test_log(
    stdout: &str,
    stderr: &str,
    exit_code: i32,
    start_time: &str,
    end_time: &str,
    duration_ms: u64,
) -> (s: String)
    ensures
        s@ == cargo_test_log_spec(
            stdout@,
            stderr@,
            exit_code as int,
            start_time@,
            end_time@,
            duration_ms as nat,
        ),
{
    proof {
        reveal_with_fuel(pow10, 3);
    }
    let mut v: Vec<char> = Vec::new();
    push_str_chars(&mut v, "=== STDOUT ===\n");
    push_str_chars(&mut v, stdout);
    push_str_chars(&mut v, "\n=== STDERR ===\n");
    push_str_chars(&mut v, stderr);
    push_str_chars(&mut v, "\n=== EXIT CODE: ");
    push_i64_decimal(&mut v, exit_code as i64);
    push_str_chars(&mut v, " ===\n");
    push_str_chars(&mut v, "=== START TIME: ");
    push_str_chars(&mut v, start_time);
    push_str_chars(&mut v, " ===\n");
    push_str_chars(&mut v, "=== END TIME: ");
    push_str_chars(&mut v, end_time);
    push_str_chars(&mut v, " ===\n");
    push_str_chars(&mut v, "=== DURATION: ");
    push_u64_decimal(&mut v, duration_ms);
    push_str_chars(&mut v, "ms (");
    push_seconds_text(&mut v, duration_ms, 2, 100);
    push_str_chars(&mut v, "s) ===\n");
    assert(v@ =~= cargo_test_log_spec(
        stdout@,
        stderr@,
        exit_code as int,
        start_time@,
        end_time@,
        duration_ms as nat,
    ));
    string_from_chars(v.as_slice())
}

/// The outcome recorded for a test run with the given exit code.
pub fn outcome_for_exit_code(exit_code: i32) -> (s: String)
    ensures
        s@ == (if exit_code == 0 {
            "success"@
        } else {
            "failure"@
        }),
{
    if exit_code == 0 {
        to_owned_string("success")
    } else {
        to_owned_string("failure")
    }
}

/// Result from running cargo test
#[derive(Debug)]
pub struct CargoTestResult {
    /// Exit code from cargo test (0 = success, non-zero = tests failed or error)
    pub exit_code: i32,
    /// Execution start time (RFC3339 format)
    pub start_time: Option<String>,
    /// Execution end time (RFC3339 format)
    pub end_time: Option<String>,
    /// Duration in milliseconds
    pub duration_ms: u64,
    /// Path to the trace file containing captured output
    pub trace_path: String,
}

/// Result from running cargo test to a bead-specific trace directory
#[derive(Debug)]
pub struct BeadTestResult {
    /// Exit code from cargo test (0 = success, non-zero = tests failed or error)
    pub exit_code: i32,
    /// Execution start time (RFC3339 format)
    pub start_time: Option<String>,
    /// Execution end time (RFC3339 format)
    pub end_time: Option<String>,
    /// Duration in milliseconds
    pub duration_ms: u64,
    /// Path to the bead trace directory containing captured output
    pub bead_trace_dir: String,
    /// Captured stdout content
    pub stdout: String,
    /// Captured stderr content
    pub stderr: String,
}

} // verus!
