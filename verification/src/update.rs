//! The update reminder: a best-effort decision, never an error.
//!
//! The caller probes the filesystem and the mirror — the age of the
//! last check, the local and remote head commits, whether the remote
//! head descends from the local one — and the decision itself is
//! made here.

use vstd::prelude::*;

verus! {

/// One day, in seconds: how often the reminder may run.
pub const UPDATE_CHECK_PERIOD_SECS: u64 = 86400;

/// What probing for an update found.
pub struct UpdateProbe {
    /// Seconds since the last check, or `None` when none is recorded.
    pub last_check_age_secs: Option<u64>,
    /// The hash of the local head commit, when the mirror exists.
    pub local_commit: Option<String>,
    /// The hash of the remote head commit, when it could be read.
    pub remote_commit: Option<String>,
    /// Whether the remote head descends from the local one.
    pub remote_descends_from_local: bool,
}

/// The mathematical shape of an [`UpdateProbe`].
pub struct UpdateProbeModel {
    pub last_check_age_secs: Option<u64>,
    pub local_commit: Option<Seq<char>>,
    pub remote_commit: Option<Seq<char>>,
    pub remote_descends_from_local: bool,
}

impl View for UpdateProbe {
    type V = UpdateProbeModel;

    open spec fn view(&self) -> UpdateProbeModel {
        UpdateProbeModel {
            last_check_age_secs: self.last_check_age_secs,
            local_commit: match self.local_commit {
                Some(ref c) => Some(c@),
                None => None,
            },
            remote_commit: match self.remote_commit {
                Some(ref c) => Some(c@),
                None => None,
            },
            remote_descends_from_local: self.remote_descends_from_local,
        }
    }
}

/// A check is due when none is recorded, or the last lies more than
/// a day back.
pub open spec fn spec_update_check_due(age: Option<u64>) -> bool {
    match age {
        None => true,
        Some(a) => a > UPDATE_CHECK_PERIOD_SECS,
    }
}

/// Decides [`spec_update_check_due`].
pub fn update_check_due(age: Option<u64>) -> (r: bool)
    ensures
        r == spec_update_check_due(age),
{
    match age {
        None => true,
        Some(a) => a > UPDATE_CHECK_PERIOD_SECS,
    }
}

/// A reminder is shown when a check is due, both heads are known,
/// they differ, and the remote head descends from the local one.
pub open spec fn spec_check_for_updates(p: UpdateProbeModel) -> bool {
    &&& spec_update_check_due(p.last_check_age_secs)
    &&& p.local_commit is Some
    &&& p.remote_commit is Some
    &&& p.local_commit != p.remote_commit
    &&& p.remote_descends_from_local
}

/// Decides whether to remind the user of an update. Never fails:
/// whatever the probe could not read simply yields no reminder.
pub fn check_for_updates(p: &UpdateProbe) -> (r: bool)
    ensures
        r == spec_check_for_updates(p@),
{
    if !update_check_due(p.last_check_age_secs) {
        return false;
    }
    let local = match &p.local_commit {
        Some(c) => c,
        None => {
            return false;
        },
    };
    let remote = match &p.remote_commit {
        Some(c) => c,
        None => {
            return false;
        },
    };
    if crate::strutil::str_eq(local.as_str(), remote.as_str()) {
        return false;
    }
    p.remote_descends_from_local
}

} // verus!
