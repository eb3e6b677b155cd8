//! The identity-invariant registry: the closed set of permissible actor
//! identities and their immutable descriptive records. Loaded once at
//! process start and read-only thereafter; a partial registry is never
//! usable, so a failed load leaves the registry untouched.

use vstd::prelude::*;

use crate::text;
use crate::REGISTRY_SIZE;

verus! {

/// The views of a list of strings.
pub open spec fn string_views(s: Seq<String>) -> Seq<Seq<char>> {
    s.map_values(|x: String| x@)
}

/// The perceptual-trait group of an identity record.
#[derive(Debug)]
pub struct PerceptualModality {
    pub zodiac_sign: String,
    pub element: String,
    pub modality: String,
    pub traits: Vec<String>,
    pub cognitive_bias: String,
}

/// Mathematical model of a perceptual-trait group.
#[verifier::ext_equal]
pub struct PerceptualView {
    pub zodiac_sign: Seq<char>,
    pub element: Seq<char>,
    pub modality: Seq<char>,
    pub traits: Seq<Seq<char>>,
    pub cognitive_bias: Seq<char>,
}

impl View for PerceptualModality {
    type V = PerceptualView;

    open spec fn view(&self) -> PerceptualView {
        PerceptualView {
            zodiac_sign: self.zodiac_sign@,
            element: self.element@,
            modality: self.modality@,
            traits: string_views(self.traits@),
            cognitive_bias: self.cognitive_bias@,
        }
    }
}

/// The behavioral-trait group of an identity record.
#[derive(Debug)]
pub struct BehavioralElement {
    pub chinese_element: String,
    pub chinese_animal: String,
    pub yin_yang: String,
    pub season: String,
    pub traits: Vec<String>,
    pub decision_style: String,
}

/// Mathematical model of a behavioral-trait group.
#[verifier::ext_equal]
pub struct BehavioralView {
    pub chinese_element: Seq<char>,
    pub chinese_animal: Seq<char>,
    pub yin_yang: Seq<char>,
    pub season: Seq<char>,
    pub traits: Seq<Seq<char>>,
    pub decision_style: Seq<char>,
}

impl View for BehavioralElement {
    type V = BehavioralView;

    open spec fn view(&self) -> BehavioralView {
        BehavioralView {
            chinese_element: self.chinese_element@,
            chinese_animal: self.chinese_animal@,
            yin_yang: self.yin_yang@,
            season: self.season@,
            traits: string_views(self.traits@),
            decision_style: self.decision_style@,
        }
    }
}

/// An immutable identity record: the identity token, its two trait groups,
/// and a content-derived integrity hash.
#[derive(Debug)]
pub struct Onto144Profile {
    pub id: String,
    pub perceptual_modality: PerceptualModality,
    pub behavioral_element: BehavioralElement,
    pub invariant_hash: String,
}

/// Mathematical model of an identity record.
#[verifier::ext_equal]
pub struct ProfileRecView {
    pub id: Seq<char>,
    pub perceptual: PerceptualView,
    pub behavioral: BehavioralView,
    pub hash: Seq<char>,
}

impl View for Onto144Profile {
    type V = ProfileRecView;

    open spec fn view(&self) -> ProfileRecView {
        ProfileRecView {
            id: self.id@,
            perceptual: self.perceptual_modality@,
            behavioral: self.behavioral_element@,
            hash: self.invariant_hash@,
        }
    }
}

/// One record as read from the identity source: the raw file text beside
/// the parsed record, so that the structural ban on scoring fields can be
/// enforced on the text itself.
#[derive(Debug)]
pub struct RawRecord {
    pub source_text: String,
    pub profile: Onto144Profile,
}

/// Mathematical model of a raw record.
#[verifier::ext_equal]
pub struct RawRecordView {
    pub text: Seq<char>,
    pub profile: ProfileRecView,
}

impl View for RawRecord {
    type V = RawRecordView;

    open spec fn view(&self) -> RawRecordView {
        RawRecordView { text: self.source_text@, profile: self.profile@ }
    }
}

/// The view map distributes over pushing one string.
pub proof fn lemma_string_views_push(s: Seq<String>, e: String)
    ensures
        string_views(s.push(e)) == string_views(s).push(e@),
{
    let s1 = string_views(s.push(e));
    let s2 = string_views(s).push(e@);
    assert forall|k: int| 0 <= k < s1.len() implies s1[k] == s2[k] by {
        if k < s.len() {
            assert(s.push(e)[k] == s[k]);
        } else {
            assert(s.push(e)[k] == e);
        }
    }
    assert(s1 =~= s2);
}

/// An element-wise copy of a list of strings.
fn clone_strings(v: &Vec<String>) -> (r: Vec<String>)
    ensures
        string_views(r@) == string_views(v@),
{
    let mut r: Vec<String> = Vec::new();
    let mut i: usize = 0;
    while i < v.len()
        invariant
            0 <= i <= v@.len(),
            string_views(r@) == string_views(v@.take(i as int)),
        decreases v@.len() - i,
    {
        let ghost old_r = r@;
        r.push(v[i].clone());
        proof {
            lemma_string_views_push(old_r, v@[i as int]);
            assert(v@.take(i + 1).drop_last() =~= v@.take(i as int));
            lemma_string_views_push(v@.take(i as int), v@[i as int]);
            assert(v@.take(i + 1) =~= v@.take(i as int).push(v@[i as int]));
        }
        i += 1;
    }
    assert(v@.take(v@.len() as int) =~= v@);
    r
}

impl Clone for PerceptualModality {
    fn clone(&self) -> (r: Self)
        ensures
            r@ == self@,
    {
        let r = PerceptualModality {
            zodiac_sign: self.zodiac_sign.clone(),
            element: self.element.clone(),
            modality: self.modality.clone(),
            traits: clone_strings(&self.traits),
            cognitive_bias: self.cognitive_bias.clone(),
        };
        assert(r@ =~= self@);
        r
    }
}

impl Clone for BehavioralElement {
    fn clone(&self) -> (r: Self)
        ensures
            r@ == self@,
    {
        let r = BehavioralElement {
            chinese_element: self.chinese_element.clone(),
            chinese_animal: self.chinese_animal.clone(),
            yin_yang: self.yin_yang.clone(),
            season: self.season.clone(),
            traits: clone_strings(&self.traits),
            decision_style: self.decision_style.clone(),
        };
        assert(r@ =~= self@);
        r
    }
}

impl Clone for Onto144Profile {
    fn clone(&self) -> (r: Self)
        ensures
            r@ == self@,
    {
        let r = Onto144Profile {
            id: self.id.clone(),
            perceptual_modality: self.perceptual_modality.clone(),
            behavioral_element: self.behavioral_element.clone(),
            invariant_hash: self.invariant_hash.clone(),
        };
        assert(r@ =~= self@);
        r
    }
}

/// The views of a list of raw records.
pub open spec fn raw_views(s: Seq<RawRecord>) -> Seq<RawRecordView> {
    s.map_values(|r: RawRecord| r@)
}

/// Why a registry load fails. Each is fatal: the load aborts entirely.
#[derive(Clone, Copy, Debug, PartialEq, Eq, Structural)]
pub enum RegistryError {
    /// A record contains a forbidden scoring field.
    Corrupt,
    /// A record's stored integrity hash does not have the required form.
    HashMismatch,
    /// The source did not hold exactly the full closed set of records.
    Incomplete,
}

/// A record text contains one of the banned scoring markers. Records must
/// not encode any numeric value, energy or attractiveness scoring field;
/// this is a structural ban enforced on the raw text at load time.
pub open spec fn forbidden_content(text: Seq<char>) -> bool {
    text::contains_seq(text, "energy"@) || text::contains_seq(text, "value"@)
        || text::contains_seq(text, "score"@) || text::contains_seq(text, "attract"@)
        || text::contains_seq(text, "monetize"@)
}

/// A well-formed integrity hash: the fixed algorithm tag followed by the
/// encoded digest, 71 characters in all.
pub open spec fn hash_wf(h: Seq<char>) -> bool {
    h.len() == 71 && text::starts_with(h, "sha3-256:"@)
}

/// Some record in `s` carries the id `id`.
pub open spec fn rec_id_in(s: Seq<ProfileRecView>, id: Seq<char>) -> bool {
    exists|i: int| 0 <= i < s.len() && s[i].id == id
}

/// The position of the record carrying `id`, when ids are unique.
pub open spec fn rec_id_at(s: Seq<ProfileRecView>, id: Seq<char>) -> int {
    choose|i: int| 0 <= i < s.len() && s[i].id == id
}

/// Record ids are pairwise distinct.
pub open spec fn rec_ids_unique(s: Seq<ProfileRecView>) -> bool {
    forall|i: int, j: int| 0 <= i < j < s.len() ==> s[i].id != s[j].id
}

/// The registry contents after taking in one record: a record with the same
/// id is replaced in place, a new id is appended.
pub open spec fn upsert(s: Seq<ProfileRecView>, p: ProfileRecView) -> Seq<ProfileRecView> {
    if rec_id_in(s, p.id) {
        s.update(rec_id_at(s, p.id), p)
    } else {
        s.push(p)
    }
}

/// The registry contents after loading `recs` on top of `s`, or the error
/// of the first record that fails a check: a forbidden scoring field fails
/// the whole load as corrupt, a malformed integrity hash as a hash
/// mismatch.
pub open spec fn load_spec(s: Seq<ProfileRecView>, recs: Seq<RawRecordView>) -> Result<
    Seq<ProfileRecView>,
    RegistryError,
>
    decreases recs.len(),
{
    if recs.len() == 0 {
        Ok(s)
    } else if forbidden_content(recs[0].text) {
        Err(RegistryError::Corrupt)
    } else if !hash_wf(recs[0].profile.hash) {
        Err(RegistryError::HashMismatch)
    } else {
        load_spec(upsert(s, recs[0].profile), recs.drop_first())
    }
}

/// The closed registry of identity records.
pub struct InvariantRegistry {
    profiles: Vec<Onto144Profile>,
}

/// The views of a list of identity records.
pub open spec fn rec_views(s: Seq<Onto144Profile>) -> Seq<ProfileRecView> {
    s.map_values(|p: Onto144Profile| p@)
}

impl View for InvariantRegistry {
    type V = Seq<ProfileRecView>;

    closed spec fn view(&self) -> Seq<ProfileRecView> {
        rec_views(self.profiles@)
    }
}

impl InvariantRegistry {
    /// Record ids in the registry are pairwise distinct.
    pub open spec fn wf(&self) -> bool {
        rec_ids_unique(self@)
    }

    /// An empty registry.
    pub fn new() -> (r: Self)
        ensures
            r@ =~= Seq::<ProfileRecView>::empty(),
            r.wf(),
    {
        let r = InvariantRegistry { profiles: Vec::new() };
        assert(r@ =~= Seq::<ProfileRecView>::empty());
        r
    }

    /// Whether a record text contains a banned scoring marker.
    pub fn contains_forbidden_fields(content: &str) -> (r: bool)
        ensures
            r == forbidden_content(content@),
    {
        text::str_contains(content, "energy") || text::str_contains(content, "value")
            || text::str_contains(content, "score") || text::str_contains(content, "attract")
            || text::str_contains(content, "monetize")
    }

    /// Whether a record's stored integrity hash has the required form.
    pub fn validate_hash(profile: &Onto144Profile) -> (r: bool)
        ensures
            r == hash_wf(profile@.hash),
    {
        profile.invariant_hash.as_str().unicode_len() == 71 && text::str_starts_with(
            profile.invariant_hash.as_str(),
            "sha3-256:",
        )
    }

    /// The position of the record carrying `id`, when the registry holds
    /// one.
    fn find_index(&self, id: &str) -> (r: Option<usize>)
        ensures
            match r {
                Some(i) => i < self@.len() && self@[i as int].id == id@,
                None => !rec_id_in(self@, id@),
            },
    {
        let mut i: usize = 0;
        while i < self.profiles.len()
            invariant
                0 <= i <= self@.len(),
                self@.len() == self.profiles@.len(),
                forall|k: int| 0 <= k < i ==> self@[k].id != id@,
            decreases self@.len() - i,
        {
            if text::str_eq(self.profiles[i].id.as_str(), id) {
                assert(self@[i as int].id == id@);
                return Some(i);
            }
            i += 1;
        }
        None
    }

    /// Takes one record in, replacing the record of the same id when one is
    /// already present.
    fn take_record(&mut self, profile: Onto144Profile)
        requires
            old(self).wf(),
        ensures
            final(self)@ == upsert(old(self)@, profile@),
            final(self).wf(),
    {
        let found = self.find_index(profile.id.as_str());
        match found {
            Some(k) => {
                proof {
                    let s = self@;
                    let i = rec_id_at(s, profile@.id);
                    assert(rec_id_in(s, profile@.id));
                    assert(0 <= i < s.len() && s[i].id == profile@.id);
                    if i != k {
                        if i < k {
                            assert(s[i].id != s[k as int].id);
                        } else {
                            assert(s[k as int].id != s[i].id);
                        }
                        assert(false);
                    }
                }
                let ghost olds = self@;
                self.profiles[k] = profile;
                proof {
                    assert(self@ =~= olds.update(k as int, self.profiles@[k as int]@));
                    assert forall|a: int, b: int| 0 <= a < b < self@.len() implies self@[a].id
                        != self@[b].id by {
                        assert(olds[a].id != olds[b].id);
                    }
                }
            },
            None => {
                let ghost olds = self@;
                self.profiles.push(profile);
                proof {
                    assert(self@ =~= olds.push(self.profiles@[olds.len() as int]@));
                    assert forall|a: int, b: int| 0 <= a < b < self@.len() implies self@[a].id
                        != self@[b].id by {
                        if b < olds.len() {
                            assert(olds[a].id != olds[b].id);
                        } else {
                            assert(!rec_id_in(olds, self@[b].id));
                        }
                    }
                }
            },
        }
    }

    /// Loads the closed set of identity records into a fresh registry.
    /// Any record with a forbidden scoring field fails the whole load as
    /// corrupt; any record with a malformed integrity hash fails it as a
    /// hash mismatch; and unless exactly the full closed set of records was
    /// loaded, the load fails as incomplete. On failure the registry is
    /// left untouched: a partial registry is never usable.
    pub fn load_from_records(&mut self, records: &Vec<RawRecord>) -> (r: Result<
        (),
        RegistryError,
    >)
        requires
            old(self)@.len() == 0,
        ensures
            final(self).wf(),
            match load_spec(Seq::<ProfileRecView>::empty(), raw_views(records@)) {
                Ok(s) => if s.len() == REGISTRY_SIZE {
                    r == Ok::<(), RegistryError>(()) && final(self)@ == s
                } else {
                    r == Err::<(), RegistryError>(RegistryError::Incomplete) && final(self)@
                        == old(self)@
                },
                Err(e) => r == Err::<(), RegistryError>(e) && final(self)@ == old(self)@,
            },
    {
        let ghost all = raw_views(records@);
        let mut staged = InvariantRegistry { profiles: Vec::new() };
        assert(staged@ =~= Seq::<ProfileRecView>::empty());
        proof {
            assert(old(self)@ =~= Seq::<ProfileRecView>::empty());
            assert(all.skip(0) =~= all);
        }
        let mut i: usize = 0;
        while i < records.len()
            invariant
                self@ == old(self)@,
                old(self)@.len() == 0,
                0 <= i <= records@.len(),
                all == raw_views(records@),
                all.len() == records@.len(),
                staged.wf(),
                load_spec(Seq::<ProfileRecView>::empty(), all) == load_spec(
                    staged@,
                    all.skip(i as int),
                ),
            decreases records@.len() - i,
        {
            let ghost pre = all.skip(i as int);
            let rec = &records[i];
            proof {
                assert(pre.len() > 0);
                assert(pre[0] == records@[i as int]@);
                assert(pre.drop_first() =~= all.skip(i + 1));
            }
            if Self::contains_forbidden_fields(rec.source_text.as_str()) {
                proof {
                    assert(load_spec(staged@, pre) == Err::<Seq<ProfileRecView>, RegistryError>(
                        RegistryError::Corrupt,
                    ));
                }
                return Err(RegistryError::Corrupt);
            }
            if !Self::validate_hash(&rec.profile) {
                proof {
                    assert(load_spec(staged@, pre) == Err::<Seq<ProfileRecView>, RegistryError>(
                        RegistryError::HashMismatch,
                    ));
                }
                return Err(RegistryError::HashMismatch);
            }
            let ghost staged_pre = staged@;
            staged.take_record(rec.profile.clone());
            proof {
                assert(load_spec(staged_pre, pre) == load_spec(
                    upsert(staged_pre, pre[0].profile),
                    pre.drop_first(),
                ));
            }
            i += 1;
        }
        proof {
            assert(all.skip(records@.len() as int) =~= Seq::<RawRecordView>::empty());
            assert(load_spec(Seq::<ProfileRecView>::empty(), all) == Ok::<
                Seq<ProfileRecView>,
                RegistryError,
            >(staged@));
        }
        if staged.profiles.len() == REGISTRY_SIZE {
            self.profiles = staged.profiles;
            Ok(())
        } else {
            Err(RegistryError::Incomplete)
        }
    }

    /// The record of the given identity, when the registry holds one.
    pub fn get_profile(&self, id: &str) -> (r: Option<&Onto144Profile>)
        ensures
            match r {
                Some(p) => p@.id == id@ && self@.contains(p@),
                None => !rec_id_in(self@, id@),
            },
    {
        let found = self.find_index(id);
        match found {
            Some(i) => {
                assert(self@[i as int] == self.profiles[i as int]@);
                Some(&self.profiles[i])
            },
            None => None,
        }
    }

    /// The identity bound to the given integrity hash, when the registry
    /// holds a record with that hash; the first such record decides.
    pub fn verify_hash(&self, hash: &str) -> (r: Option<&str>)
        ensures
            match r {
                Some(s) => exists|i: int|
                    0 <= i < self@.len() && self@[i].hash == hash@ && self@[i].id == s@,
                None => forall|i: int| 0 <= i < self@.len() ==> self@[i].hash != hash@,
            },
    {
        let mut i: usize = 0;
        while i < self.profiles.len()
            invariant
                0 <= i <= self@.len(),
                self@.len() == self.profiles@.len(),
                forall|k: int| 0 <= k < i ==> self@[k].hash != hash@,
            decreases self@.len() - i,
        {
            if text::str_eq(self.profiles[i].invariant_hash.as_str(), hash) {
                assert(self@[i as int].hash == hash@ && self@[i as int].id
                    == self.profiles[i as int].id@);
                return Some(self.profiles[i].id.as_str());
            }
            i += 1;
        }
        None
    }

    /// The ids of the identity records.
    pub open spec fn ids_of(s: Seq<ProfileRecView>) -> Seq<Seq<char>> {
        s.map_values(|p: ProfileRecView| p.id)
    }

    /// Every registered identity, in registry order.
    pub fn all_ids(&self) -> (r: Vec<String>)
        ensures
            string_views(r@) == Self::ids_of(self@),
    {
        let mut r: Vec<String> = Vec::new();
        let mut i: usize = 0;
        while i < self.profiles.len()
            invariant
                0 <= i <= self@.len(),
                self@.len() == self.profiles@.len(),
                string_views(r@) == Self::ids_of(self@.take(i as int)),
            decreases self@.len() - i,
        {
            let ghost old_r = r@;
            r.push(self.profiles[i].id.clone());
            proof {
                assert(self@.take(i + 1).drop_last() =~= self@.take(i as int));
                assert(string_views(r@) =~= string_views(old_r).push(self@[i as int].id));
                assert(Self::ids_of(self@.take(i + 1)) =~= Self::ids_of(self@.take(i as int)).push(
                    self@[i as int].id,
                ));
            }
            i += 1;
        }
        assert(self@.take(self@.len() as int) =~= self@);
        r
    }

    /// The number of records the registry holds.
    pub fn len(&self) -> (r: usize)
        ensures
            r == self@.len(),
    {
        self.profiles.len()
    }
}

} // verus!
