//! The local persistence mirror's bookkeeping: where an event is filed on
//! disk, and the once-per-identity load guard. The mirror is a cache: the
//! ledger stays the source of truth, and the file operations themselves
//! live outside the verified core, against the paths derived here.

use vstd::prelude::*;
use vstd::string::StringExecFns;

use crate::ledger::ProfileId;

verus! {

/// Marks an identity as loaded: the grant is fresh exactly when the
/// identity was not yet in the loaded set, and only a fresh grant grows
/// the set.
pub open spec fn mark_loaded(loaded: Seq<Seq<char>>, p: Seq<char>) -> (bool, Seq<Seq<char>>) {
    let fresh = !loaded.contains(p);
    (
        fresh,
        if fresh {
            loaded.push(p)
        } else {
            loaded
        },
    )
}

/// Once an identity has been granted a load, every further request for the
/// same identity is refused, whatever the prior state: loading is
/// memoized.
pub proof fn lemma_second_load_refused(loaded: Seq<Seq<char>>, p: Seq<char>)
    ensures
        !mark_loaded(mark_loaded(loaded, p).1, p).0,
{
    if !loaded.contains(p) {
        assert(loaded.push(p)[loaded.len() as int] == p);
    }
}

/// The views of the loaded identities.
pub open spec fn loaded_views(s: Seq<ProfileId>) -> Seq<Seq<char>> {
    s.map_values(|p: ProfileId| p@)
}

/// The mirror's local state: its directory, and which identities have
/// already been loaded from disk in this process.
pub struct LocalMirror {
    base_path: String,
    loaded_profiles: Vec<ProfileId>,
}

impl LocalMirror {
    /// The mirror's directory.
    pub closed spec fn spec_base(&self) -> Seq<char> {
        self.base_path@
    }

    /// The identities already loaded.
    pub closed spec fn spec_loaded(&self) -> Seq<Seq<char>> {
        loaded_views(self.loaded_profiles@)
    }

    /// A mirror rooted in the `local_mirror` directory under `base_dir`,
    /// with nothing loaded yet.
    pub fn new(base_dir: &str) -> (r: Self)
        ensures
            r.spec_base() == base_dir@ + "/local_mirror"@,
            r.spec_loaded() =~= Seq::<Seq<char>>::empty(),
    {
        let mut path = String::from_str(base_dir);
        path.append("/local_mirror");
        let r = LocalMirror { base_path: path, loaded_profiles: Vec::new() };
        assert(r.spec_loaded() =~= Seq::<Seq<char>>::empty());
        r
    }

    /// The file an event is persisted at: one file per event, under the
    /// emitting identity's directory.
    pub fn event_path(&self, profile: &ProfileId, event_id: &str) -> (r: String)
        ensures
            r@ == self.spec_base() + "/"@ + profile@ + "/"@ + event_id@ + ".json"@,
    {
        let mut path = self.base_path.clone();
        path.append("/");
        path.append(profile.0.as_str());
        path.append("/");
        path.append(event_id);
        path.append(".json");
        path
    }

    /// The directory an identity's events are persisted under.
    pub fn profile_dir(&self, profile: &ProfileId) -> (r: String)
        ensures
            r@ == self.spec_base() + "/"@ + profile@,
    {
        let mut path = self.base_path.clone();
        path.append("/");
        path.append(profile.0.as_str());
        path
    }

    /// Whether an identity has already been loaded.
    pub fn is_loaded(&self, profile: &ProfileId) -> (r: bool)
        ensures
            r == self.spec_loaded().contains(profile@),
    {
        let mut i: usize = 0;
        while i < self.loaded_profiles.len()
            invariant
                0 <= i <= self.spec_loaded().len(),
                self.spec_loaded().len() == self.loaded_profiles@.len(),
                forall|k: int| 0 <= k < i ==> self.spec_loaded()[k] != profile@,
            decreases self.spec_loaded().len() - i,
        {
            if crate::text::str_eq(self.loaded_profiles[i].0.as_str(), profile.0.as_str()) {
                assert(self.spec_loaded()[i as int] == profile@);
                return true;
            }
            i += 1;
        }
        false
    }

    /// Grants at most one load per identity and process: the first request
    /// for an identity is granted and remembered, every later one is
    /// refused, so that events are never re-ingested twice. This guard is
    /// memoization, not protection against external file mutation.
    pub fn begin_profile_load(&mut self, profile: &ProfileId) -> (fresh: bool)
        ensures
            (fresh, final(self).spec_loaded()) == mark_loaded(old(self).spec_loaded(), profile@),
            final(self).spec_base() == old(self).spec_base(),
    {
        if self.is_loaded(profile) {
            false
        } else {
            let ghost olds = self.loaded_profiles@;
            self.loaded_profiles.push(profile.clone());
            proof {
                let s1 = loaded_views(olds.push(self.loaded_profiles@.last()));
                let s2 = loaded_views(olds).push(profile@);
                assert forall|k: int| 0 <= k < s1.len() implies s1[k] == s2[k] by {
                    if k < olds.len() {
                        assert(olds.push(self.loaded_profiles@.last())[k] == olds[k]);
                    }
                }
                assert(s1 =~= s2);
            }
            true
        }
    }
}

} // verus!
