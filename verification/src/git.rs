//! Module fetching: parsing the repository URL and driving the VCS steps
//! that materialize a module at its target revision.
//!
//! The VCS operations themselves (clone, revision lookup, checkout, head
//! update) are network and disk work performed by the embedding program;
//! [`ModuleFetcher`] decides which operation comes next and how each
//! outcome is classified, so the ordering rules — the tree is checked out
//! before the head is moved, a symbolic head is set exactly when the
//! revision resolved to a true reference, every VCS failure is wrapped
//! uniformly as `GitFailed` — are part of its contract.

use crate::argo::PluginParameters;
use crate::text::{lemma_rfind_char_charac, rfind_char, rfind_char_before};
use vstd::prelude::*;
use vstd::string::{StrSliceExecFns, StringExecFns};

verus! {

#[derive(Debug)]
pub enum Error {
    /// The repository URL does not have the supported HTTPS shape.
    InvalidGitReference,
    /// A VCS operation (clone, revision lookup, checkout, head update)
    /// failed; `message` carries the underlying cause.
    GitFailed { message: String },
}

impl Error {
    pub open spec fn message_spec(&self) -> Seq<char> {
        match self {
            Error::InvalidGitReference => "Cannot parse Git reference, we only support HTTPS at the moment"@,
            Error::GitFailed { .. } => "Git operation failed"@,
        }
    }

    /// The human-readable description of this failure.
    pub fn message(&self) -> (m: String)
        ensures
            m@ == self.message_spec(),
    {
        match self {
            Error::InvalidGitReference => String::from_str(
                "Cannot parse Git reference, we only support HTTPS at the moment",
            ),
            Error::GitFailed { .. } => String::from_str("Git operation failed"),
        }
    }
}

/// The parts of a module URL `https://<host>/<repo>/<module>.git`.
pub struct ModuleInfo {
    /// The module host, `"github.com"` for example.
    pub host: String,
    /// The owning user or organization, `"promaton"` for example.
    pub repo: String,
    /// The module name, `"example-project"` for example.
    pub module: String,
}

/// The scheme every supported URL starts with.
pub open spec fn https_prefix() -> Seq<char> {
    seq!['h', 't', 't', 'p', 's', ':', '/', '/']
}

/// The extension every supported URL ends with.
pub open spec fn git_suffix() -> Seq<char> {
    seq!['.', 'g', 'i', 't']
}

/// What stands between the scheme and the extension.
pub open spec fn url_body(u: Seq<char>) -> Seq<char> {
    u.subrange(8, u.len() - 4)
}

/// Whether `u` has the shape `https://<host>/<repo>/<module>.git`: the
/// module part is what follows the last slash of the body, the repo part
/// what stands between the last two slashes, the host all the rest.
pub open spec fn is_module_url(u: Seq<char>) -> bool {
    &&& u.len() >= 14
    &&& u.subrange(0, 8) == https_prefix()
    &&& u.subrange(u.len() - 4, u.len() as int) == git_suffix()
    &&& rfind_char(url_body(u), '/') >= 0
    &&& rfind_char(url_body(u).subrange(0, rfind_char(url_body(u), '/')), '/') >= 0
}

pub open spec fn url_host(u: Seq<char>) -> Seq<char> {
    let b = url_body(u);
    let k = rfind_char(b, '/');
    let j = rfind_char(b.subrange(0, k), '/');
    b.subrange(0, j)
}

pub open spec fn url_repo(u: Seq<char>) -> Seq<char> {
    let b = url_body(u);
    let k = rfind_char(b, '/');
    let j = rfind_char(b.subrange(0, k), '/');
    b.subrange(j + 1, k)
}

pub open spec fn url_module(u: Seq<char>) -> Seq<char> {
    let b = url_body(u);
    let k = rfind_char(b, '/');
    b.subrange(k + 1, b.len() as int)
}

/// Splits the repository URL into host, repo and module; any URL without
/// the supported HTTPS shape is rejected.
pub fn extract_module_info(plugin: &PluginParameters) -> (r: Result<ModuleInfo, Error>)
    ensures
        match r {
            Ok(m) => is_module_url(plugin.repo_url@) && m.host@ == url_host(plugin.repo_url@)
                && m.repo@ == url_repo(plugin.repo_url@) && m.module@ == url_module(
                plugin.repo_url@,
            ),
            Err(e) => e is InvalidGitReference && !is_module_url(plugin.repo_url@),
        },
{
    let s = plugin.repo_url.as_str();
    let ghost u = s@;
    let n = s.unicode_len();
    if n < 14 {
        return Err(Error::InvalidGitReference);
    }
    let prefix_ok = s.get_char(0) == 'h' && s.get_char(1) == 't' && s.get_char(2) == 't'
        && s.get_char(3) == 'p' && s.get_char(4) == 's' && s.get_char(5) == ':' && s.get_char(6)
        == '/' && s.get_char(7) == '/';
    if !prefix_ok {
        proof {
            assert(u.subrange(0, 8) != https_prefix()) by {
                if u.subrange(0, 8) == https_prefix() {
                    assert(forall|i: int| 0 <= i < 8 ==> u[i] == #[trigger] u.subrange(0, 8)[i]);
                }
            }
        }
        return Err(Error::InvalidGitReference);
    }
    let suffix_ok = s.get_char(n - 4) == '.' && s.get_char(n - 3) == 'g' && s.get_char(n - 2)
        == 'i' && s.get_char(n - 1) == 't';
    if !suffix_ok {
        proof {
            assert(u.subrange(u.len() - 4, u.len() as int) != git_suffix()) by {
                if u.subrange(u.len() - 4, u.len() as int) == git_suffix() {
                    assert(forall|i: int|
                        0 <= i < 4 ==> u[u.len() - 4 + i] == #[trigger] u.subrange(
                            u.len() - 4,
                            u.len() as int,
                        )[i]);
                }
            }
        }
        return Err(Error::InvalidGitReference);
    }
    proof {
        assert(u.subrange(0, 8) =~= https_prefix());
        assert(u.subrange(u.len() - 4, u.len() as int) =~= git_suffix());
    }
    let ghost b = url_body(u);
    // The last slash of the body, found as the last slash of the whole URL
    // before the extension; the scheme guarantees one at index 6 and 7, so
    // a result below 8 means the body itself has none.
    let k_abs = match rfind_char_before(s, '/', n - 4) {
        Some(k) => k,
        None => {
            proof {
                lemma_rfind_char_charac(u.subrange(0, n - 4), '/');
                assert(u.subrange(0, n - 4)[6] == '/');
            }
            return Err(Error::InvalidGitReference);
        },
    };
    proof {
        lemma_rfind_char_charac(u.subrange(0, n - 4), '/');
        lemma_rfind_char_charac(b, '/');
        assert(forall|i: int| 0 <= i < b.len() ==> b[i] == u[8 + i]);
    }
    if k_abs < 8 {
        proof {
            assert(rfind_char(b, '/') == -1) by {
                if rfind_char(b, '/') >= 0 {
                    assert(u.subrange(0, n - 4)[rfind_char(b, '/') + 8] == '/');
                }
            }
        }
        return Err(Error::InvalidGitReference);
    }
    proof {
        assert(rfind_char(b, '/') == k_abs - 8) by {
            assert(b[k_abs - 8] == '/');
            if rfind_char(b, '/') > k_abs - 8 {
                assert(u.subrange(0, n - 4)[rfind_char(b, '/') + 8] == '/');
            }
        }
    }
    let ghost bk = b.subrange(0, k_abs - 8);
    let j_abs = match rfind_char_before(s, '/', k_abs) {
        Some(j) => j,
        None => {
            proof {
                lemma_rfind_char_charac(u.subrange(0, k_abs as int), '/');
                assert(u.subrange(0, k_abs as int)[6] == '/');
            }
            return Err(Error::InvalidGitReference);
        },
    };
    proof {
        lemma_rfind_char_charac(u.subrange(0, k_abs as int), '/');
        lemma_rfind_char_charac(bk, '/');
        assert(forall|i: int| 0 <= i < bk.len() ==> bk[i] == u[8 + i]);
    }
    if j_abs < 8 {
        proof {
            assert(rfind_char(bk, '/') == -1) by {
                if rfind_char(bk, '/') >= 0 {
                    assert(u.subrange(0, k_abs as int)[rfind_char(bk, '/') + 8] == '/');
                }
            }
        }
        return Err(Error::InvalidGitReference);
    }
    proof {
        assert(rfind_char(bk, '/') == j_abs - 8) by {
            assert(bk[j_abs - 8] == '/');
            if rfind_char(bk, '/') > j_abs - 8 {
                assert(u.subrange(0, k_abs as int)[rfind_char(bk, '/') + 8] == '/');
            }
        }
    }
    let host = s.substring_char(8, j_abs).to_owned();
    let repo = s.substring_char(j_abs + 1, k_abs).to_owned();
    let module = s.substring_char(k_abs + 1, n - 4).to_owned();
    proof {
        assert(host@ =~= url_host(u));
        assert(repo@ =~= url_repo(u));
        assert(module@ =~= url_module(u));
    }
    Ok(ModuleInfo { host, repo, module })
}

/// Parsing recovers every URL built from its parts: whatever host, repo
/// and module stand in `https://<host>/<repo>/<module>.git`, the URL has
/// the supported shape and parses back to exactly those parts — provided
/// repo and module contain no slash of their own, which would move the
/// split; the host may contain any characters, slashes included.
pub proof fn lemma_url_round_trip(h: Seq<char>, o: Seq<char>, m: Seq<char>)
    requires
        forall|k: int| 0 <= k < o.len() ==> o[k] != '/',
        forall|k: int| 0 <= k < m.len() ==> m[k] != '/',
    ensures
        ({
            let u = https_prefix() + h + seq!['/'] + o + seq!['/'] + m + git_suffix();
            &&& is_module_url(u)
            &&& url_host(u) == h
            &&& url_repo(u) == o
            &&& url_module(u) == m
        }),
{
    let u = https_prefix() + h + seq!['/'] + o + seq!['/'] + m + git_suffix();
    let b = url_body(u);
    assert(b =~= h + seq!['/'] + o + seq!['/'] + m);
    assert(u.subrange(0, 8) =~= https_prefix());
    assert(u.subrange(u.len() - 4, u.len() as int) =~= git_suffix());
    let k = h.len() + 1 + o.len();
    assert(b[k as int] == '/');
    lemma_rfind_char_charac(b, '/');
    assert(rfind_char(b, '/') == k) by {
        if rfind_char(b, '/') > k {
            assert(m[rfind_char(b, '/') - k - 1] == '/');
        }
    }
    let bk = b.subrange(0, k as int);
    assert(bk =~= h + seq!['/'] + o);
    assert(bk[h.len() as int] == '/');
    lemma_rfind_char_charac(bk, '/');
    assert(rfind_char(bk, '/') == h.len()) by {
        if rfind_char(bk, '/') > h.len() {
            assert(o[rfind_char(bk, '/') - h.len() - 1] == '/');
        }
    }
    assert(url_host(u) =~= h);
    assert(url_repo(u) =~= o);
    assert(url_module(u) =~= m);
}

/// Where the fetch of one module stands: which VCS operation the embedding
/// program is expected to perform next.
#[derive(Clone, Copy, PartialEq, Eq, Structural, Debug)]
pub enum FetchPhase {
    /// Awaiting the clone of the repository into the working directory.
    Cloning,
    /// Awaiting the resolution of the target revision.
    Resolving,
    /// Awaiting the checkout of the resolved tree; `symbolic` records
    /// whether the revision resolved to a true reference (branch or tag)
    /// rather than a raw commit.
    CheckingOut { symbolic: bool },
    /// Awaiting the head update that follows the checkout.
    SettingHead { symbolic: bool },
    /// The module is materialized at the target revision.
    Complete,
    /// A VCS operation failed; the fetch is over.
    Failed,
}

/// The outcome of one VCS operation, reported by the embedding program.
/// A failure carries the underlying VCS error text.
pub enum FetchEvent {
    Cloned(Result<(), String>),
    /// `Ok(true)` when the revision resolved to a symbolic reference
    /// (branch or tag), `Ok(false)` when it named a raw commit.
    Resolved(Result<bool, String>),
    CheckedOut(Result<(), String>),
    HeadSet(Result<(), String>),
}

/// What the embedding program must do next.
pub enum FetchAction {
    /// Clone the repository into the working directory.
    Clone,
    /// Resolve the target revision against the clone.
    ResolveRevision,
    /// Apply the resolved tree to the working directory.
    CheckoutTree,
    /// Point the head at the resolved reference, which it will track.
    SetHeadSymbolic,
    /// Detach the head, pinned to the resolved commit object.
    SetHeadDetached,
    /// The fetch is over, well or badly.
    Finish(Result<(), Error>),
}

/// Which event a fetch in phase `p` is waiting for.
pub open spec fn fetch_awaiting(p: FetchPhase, e: FetchEvent) -> bool {
    match (p, e) {
        (FetchPhase::Cloning, FetchEvent::Cloned(_)) => true,
        (FetchPhase::Resolving, FetchEvent::Resolved(_)) => true,
        (FetchPhase::CheckingOut { .. }, FetchEvent::CheckedOut(_)) => true,
        (FetchPhase::SettingHead { .. }, FetchEvent::HeadSet(_)) => true,
        _ => false,
    }
}

/// The fetch failed and the cause `m` was wrapped as `GitFailed`.
pub open spec fn fetch_failed_with(p: FetchPhase, a: FetchAction, m: Seq<char>) -> bool {
    &&& p is Failed
    &&& a matches FetchAction::Finish(Err(Error::GitFailed { message })) && message@ == m
}

/// Resolves a repository URL and target revision into a local, checked-out
/// working directory, one VCS operation at a time: construction validates
/// the URL and asks for a clone; each reported outcome yields the next
/// operation, ending in `Finish`.
pub struct ModuleFetcher {
    pub phase: FetchPhase,
    pub info: ModuleInfo,
}

impl ModuleFetcher {
    /// Starts the fetch described by the plugin parameters; the first
    /// operation to perform is the clone. URLs without the supported
    /// HTTPS shape are rejected up front.
    pub fn new(plugin: &PluginParameters) -> (r: Result<ModuleFetcher, Error>)
        ensures
            match r {
                Ok(f) => {
                    &&& is_module_url(plugin.repo_url@)
                    &&& f.phase is Cloning
                    &&& f.info.host@ == url_host(plugin.repo_url@)
                    &&& f.info.repo@ == url_repo(plugin.repo_url@)
                    &&& f.info.module@ == url_module(plugin.repo_url@)
                },
                Err(e) => e is InvalidGitReference && !is_module_url(plugin.repo_url@),
            },
    {
        let info = extract_module_info(plugin)?;
        Ok(ModuleFetcher { phase: FetchPhase::Cloning, info })
    }

    /// Takes the outcome of the operation the fetch was waiting for and
    /// says what to do next. The tree is checked out before any head
    /// update; the head is set symbolic exactly when the revision resolved
    /// to a true reference, detached when it named a raw commit; every
    /// VCS failure is wrapped uniformly as `GitFailed` and ends the fetch.
    pub fn on_event(&mut self, e: FetchEvent) -> (a: FetchAction)
        requires
            fetch_awaiting(old(self).phase, e),
        ensures
            final(self).info == old(self).info,
            match (old(self).phase, e) {
                (FetchPhase::Cloning, FetchEvent::Cloned(res)) => match res {
                    Ok(_) => final(self).phase is Resolving && a is ResolveRevision,
                    Err(m) => fetch_failed_with(final(self).phase, a, m@),
                },
                (FetchPhase::Resolving, FetchEvent::Resolved(res)) => match res {
                    Ok(sym) => final(self).phase == (FetchPhase::CheckingOut { symbolic: sym })
                        && a is CheckoutTree,
                    Err(m) => fetch_failed_with(final(self).phase, a, m@),
                },
                (FetchPhase::CheckingOut { symbolic }, FetchEvent::CheckedOut(res)) => match res {
                    Ok(_) => final(self).phase == (FetchPhase::SettingHead { symbolic }) && (if symbolic {
                        a is SetHeadSymbolic
                    } else {
                        a is SetHeadDetached
                    }),
                    Err(m) => fetch_failed_with(final(self).phase, a, m@),
                },
                (FetchPhase::SettingHead { .. }, FetchEvent::HeadSet(res)) => match res {
                    Ok(_) => final(self).phase is Complete && a matches FetchAction::Finish(
                        Ok(_),
                    ),
                    Err(m) => fetch_failed_with(final(self).phase, a, m@),
                },
                _ => false,
            },
    {
        let p = self.phase;
        match (p, e) {
            (FetchPhase::Cloning, FetchEvent::Cloned(Ok(_))) => {
                self.phase = FetchPhase::Resolving;
                FetchAction::ResolveRevision
            },
            (FetchPhase::Cloning, FetchEvent::Cloned(Err(m))) => {
                self.phase = FetchPhase::Failed;
                FetchAction::Finish(Err(Error::GitFailed { message: m }))
            },
            (FetchPhase::Resolving, FetchEvent::Resolved(Ok(sym))) => {
                self.phase = FetchPhase::CheckingOut { symbolic: sym };
                FetchAction::CheckoutTree
            },
            (FetchPhase::Resolving, FetchEvent::Resolved(Err(m))) => {
                self.phase = FetchPhase::Failed;
                FetchAction::Finish(Err(Error::GitFailed { message: m }))
            },
            (FetchPhase::CheckingOut { symbolic }, FetchEvent::CheckedOut(Ok(_))) => {
                self.phase = FetchPhase::SettingHead { symbolic };
                if symbolic {
                    FetchAction::SetHeadSymbolic
                } else {
                    FetchAction::SetHeadDetached
                }
            },
            (FetchPhase::CheckingOut { .. }, FetchEvent::CheckedOut(Err(m))) => {
                self.phase = FetchPhase::Failed;
                FetchAction::Finish(Err(Error::GitFailed { message: m }))
            },
            (FetchPhase::SettingHead { .. }, FetchEvent::HeadSet(Ok(_))) => {
                self.phase = FetchPhase::Complete;
                FetchAction::Finish(Ok(()))
            },
            (FetchPhase::SettingHead { .. }, FetchEvent::HeadSet(Err(m))) => {
                self.phase = FetchPhase::Failed;
                FetchAction::Finish(Err(Error::GitFailed { message: m }))
            },
            _ => vstd::pervasive::unreached(),
        }
    }
}

/// A finished fetch, well or badly, waits for nothing: no VCS operation
/// follows `Complete` or `Failed`.
pub proof fn lemma_finished_fetch_waits_for_nothing(e: FetchEvent)
    ensures
        !fetch_awaiting(FetchPhase::Complete, e),
        !fetch_awaiting(FetchPhase::Failed, e),
{
}

} // verus!
