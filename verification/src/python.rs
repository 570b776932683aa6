//! The Python runtime executor: the version gate, and the classification
//! of the dependency-install and script-run outcomes.
//!
//! The processes themselves (`poetry install`, `poetry run python ...`)
//! are spawned by the embedding program inside the fetched module
//! directory; this module decides whether a requested version is
//! acceptable and what each process outcome means.

use crate::text::{digit_val, digits_to_u32, digits_val, is_digit_char};
use vstd::prelude::*;
use vstd::string::{StrSliceExecFns, StringExecFns};

verus! {

#[derive(Debug)]
pub enum Error {
    /// The requested version is below the compatibility floor `3.7`, or
    /// no `major.minor` pair can be read from it at all.
    InvalidPythonVersion { version: String },
    /// The external process could not even be spawned; `message` carries
    /// the underlying cause.
    InvalidCommand { message: String },
    /// The process ran and exited non-zero during dependency install; the
    /// raw captured streams are preserved for diagnostics.
    CommandFailed { stdout: String, stderr: String },
}

impl Error {
    pub open spec fn message_spec(&self) -> Seq<char> {
        match self {
            Error::InvalidPythonVersion { version } => "Invalid Python version: "@ + version@
                + ", must be >= 3.7!"@,
            Error::InvalidCommand { .. } => "Invalid command"@,
            Error::CommandFailed { stdout, stderr } => "Command failed with: "@ + stdout@ + ", "@
                + stderr@,
        }
    }

    /// The human-readable description of this failure; an invalid version
    /// is named together with the floor `3.7`.
    pub fn message(&self) -> (m: String)
        ensures
            m@ == self.message_spec(),
    {
        match self {
            Error::InvalidPythonVersion { version } => {
                let m = String::from_str("Invalid Python version: ").concat(version.as_str())
                    .concat(", must be >= 3.7!");
                proof {
                    assert(m@ =~= self.message_spec());
                }
                m
            },
            Error::InvalidCommand { .. } => String::from_str("Invalid command"),
            Error::CommandFailed { stdout, stderr } => {
                let m = String::from_str("Command failed with: ").concat(stdout.as_str()).concat(
                    ", ",
                ).concat(stderr.as_str());
                proof {
                    assert(m@ =~= self.message_spec());
                }
                m
            },
        }
    }
}

/// The first index at or after `i` that does not continue a digit run.
pub open spec fn digit_run_end(s: Seq<char>, i: int) -> int
    decreases s.len() - i,
{
    if i < 0 || i >= s.len() || !is_digit_char(s[i]) {
        i
    } else {
        digit_run_end(s, i + 1)
    }
}

/// Everything before the end of a digit run is a digit.
proof fn lemma_digit_run(s: Seq<char>, i: int)
    requires
        0 <= i <= s.len(),
    ensures
        i <= digit_run_end(s, i) <= s.len(),
        forall|k: int| i <= k < digit_run_end(s, i) ==> is_digit_char(s[k]),
    decreases s.len() - i,
{
    if i < s.len() && is_digit_char(s[i]) {
        lemma_digit_run(s, i + 1);
    }
}

/// Whether a `major.minor` pair starts at index `i`: a digit run, then a
/// dot, then at least one more digit.
pub open spec fn version_match_at(s: Seq<char>, i: int) -> bool {
    &&& 0 <= i < s.len()
    &&& is_digit_char(s[i])
    &&& digit_run_end(s, i) < s.len()
    &&& s[digit_run_end(s, i)] == '.'
    &&& digit_run_end(s, i) + 1 < s.len()
    &&& is_digit_char(s[digit_run_end(s, i) + 1])
}

/// The least index at or after `i` where a `major.minor` pair starts, or
/// `-1` if there is none.
pub open spec fn first_version_match(s: Seq<char>, i: int) -> int
    decreases s.len() - i,
{
    if i < 0 || i >= s.len() {
        -1
    } else if version_match_at(s, i) {
        i
    } else {
        first_version_match(s, i + 1)
    }
}

/// The major number of the first `major.minor` pair read from `s`.
pub open spec fn version_major(s: Seq<char>) -> nat {
    let i = first_version_match(s, 0);
    digits_val(s.subrange(i, digit_run_end(s, i)))
}

/// The minor number of the first `major.minor` pair read from `s`.
pub open spec fn version_minor(s: Seq<char>) -> nat {
    let i = first_version_match(s, 0);
    let e = digit_run_end(s, i);
    digits_val(s.subrange(e + 1, digit_run_end(s, e + 1)))
}

/// The version gate: some `major.minor` pair can be read from `s`, its
/// major is exactly 3 and its minor at least 7. Numbers too large for a
/// 32-bit signed integer are rejected as unreadable.
pub open spec fn version_accepted(s: Seq<char>) -> bool {
    &&& first_version_match(s, 0) >= 0
    &&& version_major(s) == 3
    &&& 7 <= version_minor(s) <= 0x7fffffff
}

/// A run of digits reaching the end of the string ends the run there.
proof fn lemma_run_over_digits(s: Seq<char>, i: int)
    requires
        0 <= i <= s.len(),
        forall|k: int| i <= k < s.len() ==> is_digit_char(s[k]),
    ensures
        digit_run_end(s, i) == s.len(),
    decreases s.len() - i,
{
    if i < s.len() {
        lemma_run_over_digits(s, i + 1);
    }
}

/// The version gate on plain `3.minor` strings: `"3."` followed by one or
/// more digits is accepted exactly when the digits write a number of at
/// least 7 that fits a 32-bit signed integer.
pub proof fn lemma_version_gate_three_dot(ds: Seq<char>)
    requires
        ds.len() > 0,
        forall|k: int| 0 <= k < ds.len() ==> is_digit_char(ds[k]),
    ensures
        version_accepted(seq!['3', '.'] + ds) <==> 7 <= digits_val(ds) <= 0x7fffffff,
{
    let s = seq!['3', '.'] + ds;
    assert(s[0] == '3' && s[1] == '.' && s[2] == ds[0]);
    assert(is_digit_char(s[0]) && !is_digit_char(s[1]));
    assert(digit_run_end(s, 0) == 1) by {
        assert(digit_run_end(s, 1) == 1);
    }
    assert(version_match_at(s, 0));
    assert(first_version_match(s, 0) == 0);
    assert(s.subrange(0, 1) =~= seq!['3']);
    assert(version_major(s) == 3) by {
        let one = seq!['3'];
        assert(one.len() == 1 && one.last() == '3');
        assert(digit_val('3') == 3);
        assert(one.drop_last() =~= Seq::<char>::empty());
        assert(digits_val(one.drop_last()) == 0);
        assert(digits_val(one) == 3);
    }
    assert(forall|k: int| 2 <= k < s.len() ==> is_digit_char(s[k]));
    lemma_run_over_digits(s, 2);
    assert(s.subrange(2, s.len() as int) =~= ds);
    assert(version_minor(s) == digits_val(ds));
}

/// The executor for modules that run under a Python interpreter.
#[derive(Debug)]
pub struct PythonRuntime {
    /// The accepted Python version string, `"3.10"` for example.
    pub version: String,
}

impl PythonRuntime {
    /// Gates the requested version: only `3.minor` with `minor >= 7` is
    /// accepted, anything else — a lower minor, another major, or a string
    /// holding no `major.minor` pair — is rejected, naming the offending
    /// version.
    pub fn new(version: &str) -> (r: Result<Self, Error>)
        ensures
            match r {
                Ok(rt) => version_accepted(version@) && rt.version@ == version@,
                Err(e) => !version_accepted(version@) && (e matches Error::InvalidPythonVersion {
                    version: v,
                } && v@ == version@),
            },
    {
        let n = version.unicode_len();
        let mut i: usize = 0;
        let mut found: bool = false;
        while i < n && !found
            invariant
                i <= n,
                n == version@.len(),
                first_version_match(version@, 0) == (if found {
                    i as int
                } else {
                    first_version_match(version@, i as int)
                }),
                found ==> version_match_at(version@, i as int),
            decreases 2 * (n - i) + (if found {
                0int
            } else {
                1int
            }),
        {
            if match_at(version, i) {
                found = true;
            } else {
                i = i + 1;
            }
        }
        if !found {
            proof {
                assert(first_version_match(version@, n as int) == -1);
            }
            return Err(Error::InvalidPythonVersion { version: version.to_owned() });
        }
        let e = run_end(version, i);
        let f = run_end(version, e + 1);
        proof {
            lemma_digit_run(version@, i as int);
            lemma_digit_run(version@, e + 1);
        }
        let major = digits_to_u32(version, i, e);
        let minor = digits_to_u32(version, e + 1, f);
        let ok = match (major, minor) {
            (Some(ma), Some(mi)) => ma == 3 && mi >= 7,
            _ => false,
        };
        if ok {
            Ok(PythonRuntime { version: version.to_owned() })
        } else {
            Err(Error::InvalidPythonVersion { version: version.to_owned() })
        }
    }
}

/// Whether a `major.minor` pair starts at `i`, as `version_match_at` says.
fn match_at(s: &str, i: usize) -> (r: bool)
    requires
        i < s@.len(),
    ensures
        r == version_match_at(s@, i as int),
{
    let n = s.unicode_len();
    if !is_digit_exec(s.get_char(i)) {
        return false;
    }
    let e = run_end(s, i);
    e < n && s.get_char(e) == '.' && e + 1 < n && is_digit_exec(s.get_char(e + 1))
}

/// The end of the digit run starting at `i`, as `digit_run_end` says.
fn run_end(s: &str, i: usize) -> (e: usize)
    requires
        i <= s@.len(),
    ensures
        e == digit_run_end(s@, i as int),
        i <= e <= s@.len(),
{
    let n = s.unicode_len();
    let mut e: usize = i;
    while e < n && is_digit_exec(s.get_char(e))
        invariant
            i <= e <= n,
            n == s@.len(),
            digit_run_end(s@, i as int) == digit_run_end(s@, e as int),
        decreases n - e,
    {
        e = e + 1;
    }
    e
}

/// Whether `c` is an ASCII digit, as `is_digit_char` says.
fn is_digit_exec(c: char) -> (r: bool)
    ensures
        r == is_digit_char(c),
{
    let u = c as u32;
    48 <= u && u <= 57
}

/// What an invoked external process came to: its exit code if it ran to
/// an exit, and its captured output streams where they were valid text.
pub struct ExecutionOutcome {
    pub exit_code: Option<i32>,
    pub stdout: Option<String>,
    pub stderr: Option<String>,
}

/// The text of a captured stream, empty where none was captured.
pub open spec fn stream_text(o: Option<String>) -> Seq<char> {
    match o {
        Some(s) => s@,
        None => Seq::<char>::empty(),
    }
}

/// Classifies the outcome of the dependency-install step: anything but a
/// clean zero exit is a hard failure that preserves the captured streams.
pub fn check_install(outcome: ExecutionOutcome) -> (r: Result<(), Error>)
    ensures
        match r {
            Ok(_) => outcome.exit_code == Some(0i32),
            Err(e) => outcome.exit_code != Some(0i32) && (e matches Error::CommandFailed {
                stdout,
                stderr,
            } && stdout@ == stream_text(outcome.stdout) && stderr@ == stream_text(outcome.stderr)),
        },
{
    let ok = match &outcome.exit_code {
        Some(c) => *c == 0,
        None => false,
    };
    if ok {
        Ok(())
    } else {
        let stdout = match outcome.stdout {
            Some(s) => s,
            None => String::new(),
        };
        let stderr = match outcome.stderr {
            Some(s) => s,
            None => String::new(),
        };
        proof {
            assert(stdout@ =~= stream_text(outcome.stdout));
            assert(stderr@ =~= stream_text(outcome.stderr));
        }
        Err(Error::CommandFailed { stdout, stderr })
    }
}

} // verus!
