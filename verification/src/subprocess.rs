//! Subprocess execution: the configuration of a run and what is kept of its
//! outcome. Spawning the process and reading its pipes is left to the caller,
//! which hands the raw outcome to [`SubprocessResult::from_raw`].

use vstd::prelude::*;
use vstd::string::StrSliceExecFns;
use crate::text::{
    chars_of, contains_str, has_substring, int_to_decimal, line_bounds, lines_spec,
    nat_to_decimal, push_i64_decimal, push_str_chars, push_u64_decimal, string_from_chars,
    to_owned_string,
};

verus! {

/// Configuration for subprocess execution
#[derive(Debug, Clone)]
pub struct SubprocessConfig {
    /// Working directory for the command (default: current directory)
    pub working_dir: Option<String>,
    /// Environment variables to set (default: inherit parent process)
    pub env: Vec<(String, String)>,
    /// Timeout in seconds (None = no timeout)
    pub timeout_seconds: Option<u64>,
    /// Whether to capture stdout (default: true)
    pub capture_stdout: bool,
    /// Whether to capture stderr (default: true)
    pub capture_stderr: bool,
}

/// The default configuration: no working directory, no environment
/// variables, no timeout, both streams captured.
pub open spec fn is_default_config(c: SubprocessConfig) -> bool {
    &&& c.working_dir is None
    &&& c.env@.len() == 0
    &&& c.timeout_seconds is None
    &&& c.capture_stdout
    &&& c.capture_stderr
}

impl Default for SubprocessConfig {
    fn default() -> (c: Self)
        ensures
            is_default_config(c),
    {
        SubprocessConfig {
            working_dir: None,
            env: Vec::new(),
            timeout_seconds: None,
            capture_stdout: true,
            capture_stderr: true,
        }
    }
}

impl SubprocessConfig {
    /// Create a new subprocess configuration with defaults
    pub fn new() -> (c: Self)
        ensures
            is_default_config(c),
    {
        Self::default()
    }

    /// Set the working directory for the command
    pub fn working_dir(self, dir: &str) -> (c: Self)
        ensures
            c.working_dir matches Some(d) && d@ == dir@,
            c.env@ == self.env@,
            c.timeout_seconds == self.timeout_seconds,
            c.capture_stdout == self.capture_stdout,
            c.capture_stderr == self.capture_stderr,
    {
        let mut c = self;
        c.working_dir = Some(to_owned_string(dir));
        c
    }

    /// Add an environment variable
    pub fn env(self, key: &str, value: &str) -> (c: Self)
        ensures
            c.env@.len() == self.env@.len() + 1,
            forall|i: int| 0 <= i < self.env@.len() ==> c.env@[i] == self.env@[i],
            c.env@.last().0@ == key@,
            c.env@.last().1@ == value@,
            c.working_dir == self.working_dir,
            c.timeout_seconds == self.timeout_seconds,
            c.capture_stdout == self.capture_stdout,
            c.capture_stderr == self.capture_stderr,
    {
        let mut c = self;
        c.env.push((to_owned_string(key), to_owned_string(value)));
        c
    }

    /// Set timeout in seconds
    pub fn timeout(self, seconds: u64) -> (c: Self)
        ensures
            c.timeout_seconds == Some(seconds),
            c.working_dir == self.working_dir,
            c.env@ == self.env@,
            c.capture_stdout == self.capture_stdout,
            c.capture_stderr == self.capture_stderr,
    {
        let mut c = self;
        c.timeout_seconds = Some(seconds);
        c
    }

    /// Configure stdout capture
    pub fn capture_stdout(self, capture: bool) -> (c: Self)
        ensures
            c.capture_stdout == capture,
            c.working_dir == self.working_dir,
            c.env@ == self.env@,
            c.timeout_seconds == self.timeout_seconds,
            c.capture_stderr == self.capture_stderr,
    {
        let mut c = self;
        c.capture_stdout = capture;
        c
    }

    /// Configure stderr capture
    pub fn capture_stderr(self, capture: bool) -> (c: Self)
        ensures
            c.capture_stderr == capture,
            c.working_dir == self.working_dir,
            c.env@ == self.env@,
            c.timeout_seconds == self.timeout_seconds,
            c.capture_stdout == self.capture_stdout,
    {
        let mut c = self;
        c.capture_stderr = capture;
        c
    }
}

/// Result from executing a subprocess command
#[derive(Debug)]
pub struct SubprocessResult {
    /// Exit code from the command (0 = success, non-zero = failure)
    pub exit_code: i32,
    /// Whether the command terminated successfully
    pub success: bool,
    /// Captured stdout content (if capture_stdout was enabled)
    pub stdout: String,
    /// Captured stderr content (if capture_stderr was enabled)
    pub stderr: String,
    /// Execution duration in milliseconds
    pub duration_ms: u64,
    /// Whether the command timed out
    pub timed_out: bool,
    /// The command that was executed
    pub command: String,
    /// The arguments that were passed
    pub args: Vec<String>,
}

/// The one-line summary of a run.
pub open spec fn summary_spec(command: Seq<char>, success: bool, exit_code: int, duration_ms: nat) -> Seq<char> {
    "Command '"@ + command + "' "@ + (if success {
        "SUCCESS"@
    } else {
        "FAILURE"@
    }) + " (exit code: "@ + int_to_decimal(exit_code) + ", duration: "@ + nat_to_decimal(
        duration_ms,
    ) + "ms)"@
}

impl SubprocessResult {
    /// The result kept of a finished run: the exit code (-1 when the process
    /// was ended by a signal and has none), success exactly when the exit code
    /// is 0, the streams that were captured
    /// (empty when not), and the command with its arguments.
    pub fn from_raw(
        command: &str,
        args: &Vec<String>,
        config: &SubprocessConfig,
        exit_code: Option<i32>,
        raw_stdout: String,
        raw_stderr: String,
        duration_ms: u64,
    ) -> (r: Self)
        ensures
            r.exit_code == (match exit_code {
                Some(c) => c as int,
                None => -1,
            }),
            r.success == (exit_code == Some(0i32)),
            r.stdout@ == (if config.capture_stdout {
                raw_stdout@
            } else {
                Seq::empty()
            }),
            r.stderr@ == (if config.capture_stderr {
                raw_stderr@
            } else {
                Seq::empty()
            }),
            r.duration_ms == duration_ms,
            !r.timed_out,
            r.command@ == command@,
            r.args@ == args@,
    {
        SubprocessResult {
            exit_code: match exit_code {
                Some(c) => c,
                None => -1,
            },
            success: match exit_code {
                Some(c) => c == 0,
                None => false,
            },
            stdout: if config.capture_stdout {
                raw_stdout
            } else {
                String::new()
            },
            stderr: if config.capture_stderr {
                raw_stderr
            } else {
                String::new()
            },
            duration_ms,
            timed_out: false,
            command: to_owned_string(command),
            args: args.clone(),
        }
    }

    /// Check if the command exited with code 0
    pub fn is_success(&self) -> (b: bool)
        ensures
            b == self.success,
    {
        self.success
    }

    /// Get a human-readable summary of the result
    pub fn summary(&self) -> (s: String)
        ensures
            s@ == summary_spec(self.command@, self.success, self.exit_code as int, self.duration_ms as nat),
    {
        let mut v: Vec<char> = Vec::new();
        push_str_chars(&mut v, "Command '");
        push_str_chars(&mut v, self.command.as_str());
        push_str_chars(&mut v, "' ");
        if self.success {
            push_str_chars(&mut v, "SUCCESS");
        } else {
            push_str_chars(&mut v, "FAILURE");
        }
        push_str_chars(&mut v, " (exit code: ");
        push_i64_decimal(&mut v, self.exit_code as i64);
        push_str_chars(&mut v, ", duration: ");
        push_u64_decimal(&mut v, self.duration_ms);
        push_str_chars(&mut v, "ms)");
        assert(v@ =~= summary_spec(self.command@, self.success, self.exit_code as int, self.duration_ms as nat));
        string_from_chars(v.as_slice())
    }

    /// Get the stdout lines as a vector
    pub fn stdout_lines(&self) -> (r: Vec<&str>)
        ensures
            r@.map_values(|l: &str| l@) == lines_spec(self.stdout@),
    {
        lines_of(self.stdout.as_str())
    }

    /// Get the stderr lines as a vector
    pub fn stderr_lines(&self) -> (r: Vec<&str>)
        ensures
            r@.map_values(|l: &str| l@) == lines_spec(self.stderr@),
    {
        lines_of(self.stderr.as_str())
    }

    /// Check if stderr contains a specific pattern
    pub fn stderr_contains(&self, pattern: &str) -> (b: bool)
        ensures
            b == has_substring(self.stderr@, pattern@),
    {
        contains_str(self.stderr.as_str(), pattern)
    }

    /// Check if stdout contains a specific pattern
    pub fn stdout_contains(&self, pattern: &str) -> (b: bool)
        ensures
            b == has_substring(self.stdout@, pattern@),
    {
        contains_str(self.stdout.as_str(), pattern)
    }
}

/// The lines of `s` (see [`lines_spec`]), as slices of it.
pub fn lines_of(s: &str) -> (r: Vec<&str>)
    ensures
        r@.map_values(|l: &str| l@) == lines_spec(s@),
{
    let cs = chars_of(s);
    let b = line_bounds(&cs);
    let mut r: Vec<&str> = Vec::new();
    let mut i: usize = 0;
    while i < b.len()
        invariant
            cs@ == s@,
            b@.len() == lines_spec(cs@).len(),
            forall|j: int|
                0 <= j < b@.len() ==> {
                    &&& (#[trigger] b@[j]).0 <= b@[j].1 <= cs@.len()
                    &&& cs@.subrange(b@[j].0 as int, b@[j].1 as int) == lines_spec(cs@)[j]
                },
            0 <= i <= b@.len(),
            r@.len() == i,
            forall|j: int| 0 <= j < i ==> (#[trigger] r@[j])@ == lines_spec(s@)[j],
        decreases b@.len() - i,
    {
        let (lo, hi) = b[i];
        let piece = s.substring_char(lo, hi);
        r.push(piece);
        i = i + 1;
    }
    assert(r@.map_values(|l: &str| l@) =~= lines_spec(s@));
    r
}

/// `parts` joined with `sep` between consecutive ones.
pub open spec fn join_spec(parts: Seq<Seq<char>>, sep: Seq<char>) -> Seq<char>
    decreases parts.len(),
{
    if parts.len() == 0 {
        Seq::empty()
    } else if parts.len() == 1 {
        parts[0]
    } else {
        join_spec(parts.drop_last(), sep) + sep + parts.last()
    }
}

/// The characters of each string.
pub open spec fn views(s: Seq<String>) -> Seq<Seq<char>> {
    s.map_values(|x: String| x@)
}

/// `parts` joined with `sep` between consecutive ones.
pub fn join_strings(parts: &Vec<String>, sep: &str) -> (s: String)
    ensures
        s@ == join_spec(views(parts@), sep@),
{
    let mut v: Vec<char> = Vec::new();
    let mut i: usize = 0;
    while i < parts.len()
        invariant
            0 <= i <= parts@.len(),
            v@ == join_spec(views(parts@.take(i as int)), sep@),
        decreases parts@.len() - i,
    {
        let ghost before = v@;
        if i > 0 {
            push_str_chars(&mut v, sep);
        }
        push_str_chars(&mut v, parts[i].as_str());
        proof {
            let t = views(parts@.take(i + 1));
            assert(t.drop_last() =~= views(parts@.take(i as int)));
            assert(t.last() == parts@[i as int]@);
            if i == 0 {
                assert(t =~= seq![parts@[0]@]);
            }
        }
        i = i + 1;
    }
    assert(parts@.take(parts@.len() as int) =~= parts@);
    string_from_chars(v.as_slice())
}

/// The result of a run whose output was read line by line: the lines read
/// from each stream are joined with '\n', the exit code is -1 when the
/// process has none, and the run succeeded exactly when its exit code is 0.
pub fn streamed_result(
    command: &str,
    args: &Vec<String>,
    exit_code: Option<i32>,
    stdout_lines: &Vec<String>,
    stderr_lines: &Vec<String>,
    duration_ms: u64,
) -> (r: SubprocessResult)
    ensures
        r.exit_code == (match exit_code {
            Some(c) => c as int,
            None => -1,
        }),
        r.success == (exit_code == Some(0i32)),
        r.stdout@ == join_spec(views(stdout_lines@), "\n"@),
        r.stderr@ == join_spec(views(stderr_lines@), "\n"@),
        r.duration_ms == duration_ms,
        !r.timed_out,
        r.command@ == command@,
        r.args@ == args@,
{
    SubprocessResult {
        exit_code: match exit_code {
            Some(c) => c,
            None => -1,
        },
        success: match exit_code {
            Some(c) => c == 0,
            None => false,
        },
        stdout: join_strings(stdout_lines, "\n"),
        stderr: join_strings(stderr_lines, "\n"),
        duration_ms,
        timed_out: false,
        command: to_owned_string(command),
        args: args.clone(),
    }
}

/// The command line shown in error messages: the command and its
/// arguments, separated by spaces.
pub fn command_line(command: &str, args: &Vec<String>) -> (s: String)
    ensures
        s@ == command@ + " "@ + join_spec(views(args@), " "@),
{
    let joined = join_strings(args, " ");
    let mut v: Vec<char> = Vec::new();
    push_str_chars(&mut v, command);
    push_str_chars(&mut v, " ");
    push_str_chars(&mut v, joined.as_str());
    string_from_chars(v.as_slice())
}

} // verus!
