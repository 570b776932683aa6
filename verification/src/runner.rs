//! Runtime dispatch: resolving the opaque `"name-version"` runtime
//! identifier of a request to a concrete executor.

use crate::argo::ExecuteTemplateArgs;
use crate::python::{version_accepted, PythonRuntime};
use crate::text::{find_char, find_char_from, lower_seq, to_lower, trim, trim_seq};
use crate::{git, python};
use vstd::prelude::*;
use vstd::string::{StrSliceExecFns, StringExecFns};

verus! {

#[derive(Debug)]
pub enum Error {
    /// A VCS operation failed while fetching the module.
    GitFailed { source: git::Error },
    /// The Python executor failed: version gate, dependency install, or
    /// process invocation.
    PythonOperationFailed { source: python::Error },
    /// The runtime family is not recognized at all.
    RuntimeNotFound { runtime: String },
    /// The runtime family is recognized but has no implementation yet.
    RuntimeNotSupported { runtime: String },
}

impl Error {
    pub open spec fn message_spec(&self) -> Seq<char> {
        match self {
            Error::GitFailed { .. } => "Git operation failed"@,
            Error::PythonOperationFailed { .. } => "Python operations failed"@,
            Error::RuntimeNotFound { runtime } => "Runtime not found "@ + runtime@,
            Error::RuntimeNotSupported { runtime } => "Runtime not yet supported "@ + runtime@,
        }
    }

    /// The human-readable description of this failure.
    pub fn message(&self) -> (m: String)
        ensures
            m@ == self.message_spec(),
    {
        match self {
            Error::GitFailed { .. } => String::from_str("Git operation failed"),
            Error::PythonOperationFailed { .. } => String::from_str("Python operations failed"),
            Error::RuntimeNotFound { runtime } => String::from_str("Runtime not found ").concat(
                runtime.as_str(),
            ),
            Error::RuntimeNotSupported { runtime } => String::from_str(
                "Runtime not yet supported ",
            ).concat(runtime.as_str()),
        }
    }
}

/// The closed set of supported executors, one variant per runtime family.
/// A new family plugs in as a further variant; the dispatch contract of
/// `extract_runtime` is unchanged beyond the added case.
#[derive(Debug)]
pub enum RuntimeExecutor {
    Python(PythonRuntime),
}

/// The runtime family requested by an identifier: what stands before the
/// first `-` (or the whole identifier without one), trimmed and
/// lower-cased.
pub open spec fn family_of(s: Seq<char>) -> Seq<char> {
    let d = find_char_from(s, '-', 0);
    if d >= 0 {
        lower_seq(trim_seq(s.subrange(0, d)))
    } else {
        lower_seq(trim_seq(s))
    }
}

/// The version requested by an identifier: what follows the first `-`,
/// trimmed and lower-cased; empty without one.
pub open spec fn version_of(s: Seq<char>) -> Seq<char> {
    let d = find_char_from(s, '-', 0);
    if d >= 0 {
        lower_seq(trim_seq(s.subrange(d + 1, s.len() as int)))
    } else {
        Seq::<char>::empty()
    }
}

pub open spec fn python_family() -> Seq<char> {
    seq!['p', 'y', 't', 'h', 'o', 'n']
}

pub open spec fn node_family() -> Seq<char> {
    seq!['n', 'o', 'd', 'e']
}

/// Picks the executor for the request's runtime identifier. The `python`
/// family is dispatched through the version gate; the `node` family is
/// recognized but not yet supported and fails cleanly; anything else is
/// not found. A malformed identifier without `-` is handled as an empty
/// version, never as a crash.
pub fn extract_runtime(req: &ExecuteTemplateArgs) -> (r: Result<RuntimeExecutor, Error>)
    ensures
        ({
            let s = req.template.plugin.containerless.runtime@;
            match r {
                Ok(exec) => (exec matches RuntimeExecutor::Python(p) && {
                    &&& family_of(s) == python_family()
                    &&& version_accepted(version_of(s))
                    &&& p.version@ == version_of(s)
                }),
                Err(e) => match e {
                    Error::PythonOperationFailed { source } => {
                        &&& family_of(s) == python_family()
                        &&& !version_accepted(version_of(s))
                        &&& (source matches python::Error::InvalidPythonVersion { version } &&
                        version@ == version_of(s))
                    },
                    Error::RuntimeNotSupported { runtime } => family_of(s) == node_family()
                        && runtime@ == family_of(s),
                    Error::RuntimeNotFound { runtime } => {
                        &&& family_of(s) != python_family()
                        &&& family_of(s) != node_family()
                        &&& runtime@ == family_of(s)
                    },
                    _ => false,
                },
            }
        }),
{
    let rt = req.template.plugin.containerless.runtime.as_str();
    let ghost s = rt@;
    let n = rt.unicode_len();
    let (family, version) = match find_char(rt, '-') {
        Some(d) => (
            to_lower(trim(rt.substring_char(0, d))),
            to_lower(trim(rt.substring_char(d + 1, n))),
        ),
        None => (to_lower(trim(rt)), String::new()),
    };
    proof {
        assert(family@ == family_of(s));
        assert(version@ == version_of(s));
        reveal_strlit("python");
        reveal_strlit("node");
        assert("python"@ =~= python_family());
        assert("node"@ =~= node_family());
    }
    if family == String::from_str("python") {
        match PythonRuntime::new(version.as_str()) {
            Ok(p) => Ok(RuntimeExecutor::Python(p)),
            Err(e) => Err(Error::PythonOperationFailed { source: e }),
        }
    } else if family == String::from_str("node") {
        Err(Error::RuntimeNotSupported { runtime: family })
    } else {
        Err(Error::RuntimeNotFound { runtime: family })
    }
}

} // verus!
