//! The event data model and the append-only, idempotent activity ledger.
//!
//! Each executable type has a mathematical view (`EntryView`, `PayloadView`,
//! `EventView`); every contract in the crate speaks of those views.

use vstd::prelude::*;

use crate::text;

verus! {

/// The view of an optional string.
pub open spec fn str_opt_view(o: Option<String>) -> Option<Seq<char>> {
    match o {
        Some(ref s) => Some(s@),
        None => None,
    }
}

/// An actor identity: an opaque token with a three-part shape
/// (`Category-Subcategory-Variant`), drawn from the identity registry.
#[derive(Debug)]
pub struct ProfileId(pub String);

impl View for ProfileId {
    type V = Seq<char>;

    open spec fn view(&self) -> Seq<char> {
        self.0@
    }
}

/// The lifecycle phase an actor is in when it emits an event.
/// Exactly one phase is active per actor at any instant.
#[derive(Clone, Copy, Debug, PartialEq, Eq, Structural)]
pub enum OntoPhase {
    /// Reactive mode.
    Fast,
    /// Deconstructive mode.
    Decline,
    /// Reflective, tracing mode.
    Slow,
    /// Generative synthesis.
    Heyday,
}

/// One top-level entry of a structured payload: a key, and the entry's text
/// when the entry holds a string value.
#[derive(Debug)]
pub struct PayloadEntry {
    pub key: String,
    pub text_value: Option<String>,
}

/// Mathematical model of a payload entry.
#[verifier::ext_equal]
pub struct EntryView {
    pub key: Seq<char>,
    pub text_value: Option<Seq<char>>,
}

impl View for PayloadEntry {
    type V = EntryView;

    open spec fn view(&self) -> EntryView {
        EntryView {
            key: self.key@,
            text_value: match self.text_value {
                Some(s) => Some(s@),
                None => None,
            },
        }
    }
}

/// An event payload, semantically neutral to the core: the serialized text of
/// the structured data, and its top-level entries when the data is an object
/// (`None` when it is not).
#[derive(Debug)]
pub struct Payload {
    pub text: String,
    pub entries: Option<Vec<PayloadEntry>>,
}

/// The views of a list of payload entries.
pub open spec fn entry_views(s: Seq<PayloadEntry>) -> Seq<EntryView> {
    s.map_values(|e: PayloadEntry| e@)
}

/// Mathematical model of a payload.
#[verifier::ext_equal]
pub struct PayloadView {
    pub text: Seq<char>,
    pub entries: Option<Seq<EntryView>>,
}

impl View for Payload {
    type V = PayloadView;

    open spec fn view(&self) -> PayloadView {
        PayloadView {
            text: self.text@,
            entries: match &self.entries {
                Some(v) => Some(entry_views(v@)),
                None => None,
            },
        }
    }
}

/// The first entry of `es` carrying the key `k`, if any.
pub open spec fn find_entry(es: Seq<EntryView>, k: Seq<char>) -> Option<EntryView>
    decreases es.len(),
{
    if es.len() == 0 {
        None
    } else if es[0].key == k {
        Some(es[0])
    } else {
        find_entry(es.drop_first(), k)
    }
}

/// The payload is an object with an entry for the key `k`.
pub open spec fn payload_has_key(p: PayloadView, k: Seq<char>) -> bool {
    match p.entries {
        Some(es) => exists|i: int| 0 <= i < es.len() && es[i].key == k,
        None => false,
    }
}

/// The string value the payload holds under the key `k`: `None` when the
/// payload is not an object, holds no such key, or holds a non-string
/// value there.
pub open spec fn payload_str_value(p: PayloadView, k: Seq<char>) -> Option<Seq<char>> {
    match p.entries {
        Some(es) => match find_entry(es, k) {
            Some(e) => e.text_value,
            None => None,
        },
        None => None,
    }
}

impl Payload {
    /// Whether the payload is an object with an entry for the key.
    pub fn has_key(&self, key: &str) -> (r: bool)
        ensures
            r == payload_has_key(self@, key@),
    {
        match &self.entries {
            None => false,
            Some(es) => {
                let mut i: usize = 0;
                while i < es.len()
                    invariant
                        0 <= i <= es@.len(),
                        forall|k: int| 0 <= k < i ==> es@[k]@.key != key@,
                        self@.entries == Some(entry_views(es@)),
                    decreases es@.len() - i,
                {
                    if text::str_eq(es[i].key.as_str(), key) {
                        assert(entry_views(es@)[i as int].key == key@);
                        return true;
                    }
                    i += 1;
                }
                assert(forall|k: int|
                    0 <= k < entry_views(es@).len() ==> entry_views(es@)[k].key != key@);
                false
            },
        }
    }

    /// The string value under the key, when the payload holds one.
    pub fn get_str(&self, key: &str) -> (r: Option<String>)
        ensures
            str_opt_view(r) == payload_str_value(self@, key@),
    {
        match &self.entries {
            None => None,
            Some(es) => {
                let ghost views = entry_views(es@);
                assert(views.skip(0) =~= views);
                let mut i: usize = 0;
                while i < es.len()
                    invariant
                        0 <= i <= es@.len(),
                        views == entry_views(es@),
                        views.len() == es@.len(),
                        self@.entries == Some(views),
                        find_entry(views, key@) == find_entry(views.skip(i as int), key@),
                    decreases es@.len() - i,
                {
                    proof {
                        assert(views.skip(i as int).drop_first() =~= views.skip(i + 1));
                        assert(views.skip(i as int)[0] == views[i as int]);
                    }
                    if text::str_eq(es[i].key.as_str(), key) {
                        proof {
                            assert(find_entry(views, key@) == Some(views[i as int]));
                            assert(views[i as int].text_value == es@[i as int]@.text_value);
                        }
                        return match &es[i].text_value {
                            Some(v) => Some(v.clone()),
                            None => None,
                        };
                    }
                    i += 1;
                }
                proof {
                    assert(views.skip(views.len() as int) =~= Seq::<EntryView>::empty());
                }
                None
            },
        }
    }
}

/// The atomic unit of record: immutable once created, attributed,
/// phase-stamped, and causally linked to a prior event when one exists.
#[derive(Debug)]
pub struct OntoEvent {
    /// Globally unique id.
    pub id: String,
    /// The emitting identity; mandatory (Law I).
    pub profile_id: ProfileId,
    /// The phase active at emission time (Law II).
    pub phase: OntoPhase,
    /// Opaque structured data.
    pub payload: Payload,
    /// Social-proximity scalar in 0..=100; 0 means "no context".
    pub social_proximity: u8,
    /// Id of the predecessor event, when the event has one.
    pub causal_hash: Option<String>,
    /// Creation time, milliseconds since the epoch.
    pub timestamp: u64,
}

/// Mathematical model of an event.
#[verifier::ext_equal]
pub struct EventView {
    pub id: Seq<char>,
    pub profile: Seq<char>,
    pub phase: OntoPhase,
    pub payload: PayloadView,
    pub proximity: u8,
    pub causal: Option<Seq<char>>,
    pub timestamp: u64,
}

impl View for OntoEvent {
    type V = EventView;

    open spec fn view(&self) -> EventView {
        EventView {
            id: self.id@,
            profile: self.profile_id@,
            phase: self.phase,
            payload: self.payload@,
            proximity: self.social_proximity,
            causal: str_opt_view(self.causal_hash),
            timestamp: self.timestamp,
        }
    }
}

impl Clone for ProfileId {
    fn clone(&self) -> (r: Self)
        ensures
            r@ == self@,
    {
        ProfileId(self.0.clone())
    }
}

impl Clone for PayloadEntry {
    fn clone(&self) -> (r: Self)
        ensures
            r@ == self@,
    {
        let r = PayloadEntry {
            key: self.key.clone(),
            text_value: match &self.text_value {
                Some(s) => Some(s.clone()),
                None => None,
            },
        };
        assert(r@ =~= self@);
        r
    }
}

/// The view map distributes over pushing one entry.
proof fn lemma_entry_views_push(s: Seq<PayloadEntry>, e: PayloadEntry)
    ensures
        entry_views(s.push(e)) == entry_views(s).push(e@),
{
    let s1 = entry_views(s.push(e));
    let s2 = entry_views(s).push(e@);
    assert forall|k: int| 0 <= k < s1.len() implies s1[k] == s2[k] by {
        if k < s.len() {
            assert(s.push(e)[k] == s[k]);
        } else {
            assert(s.push(e)[k] == e);
        }
    }
    assert(s1 =~= s2);
}

/// An element-wise copy of a list of payload entries.
fn clone_entries(v: &Vec<PayloadEntry>) -> (r: Vec<PayloadEntry>)
    ensures
        entry_views(r@) == entry_views(v@),
{
    let mut r: Vec<PayloadEntry> = Vec::new();
    let mut i: usize = 0;
    while i < v.len()
        invariant
            0 <= i <= v@.len(),
            entry_views(r@) == entry_views(v@.take(i as int)),
        decreases v@.len() - i,
    {
        let c = v[i].clone();
        let ghost old_r = r@;
        r.push(c);
        proof {
            lemma_entry_views_push(old_r, c);
            assert(v@.take(i + 1) =~= v@.take(i as int).push(v@[i as int]));
            lemma_entry_views_push(v@.take(i as int), v[i as int]);
        }
        i += 1;
    }
    assert(v@.take(v@.len() as int) =~= v@);
    r
}

impl Clone for Payload {
    fn clone(&self) -> (r: Self)
        ensures
            r@ == self@,
    {
        let r = Payload {
            text: self.text.clone(),
            entries: match &self.entries {
                Some(v) => Some(clone_entries(v)),
                None => None,
            },
        };
        assert(r@ =~= self@);
        r
    }
}

impl Clone for OntoEvent {
    fn clone(&self) -> (r: Self)
        ensures
            r@ == self@,
    {
        let r = OntoEvent {
            id: self.id.clone(),
            profile_id: self.profile_id.clone(),
            phase: self.phase,
            payload: self.payload.clone(),
            social_proximity: self.social_proximity,
            causal_hash: match &self.causal_hash {
                Some(s) => Some(s.clone()),
                None => None,
            },
            timestamp: self.timestamp,
        };
        assert(r@ =~= self@);
        r
    }
}

/// The views of a list of events.
pub open spec fn seq_views(s: Seq<OntoEvent>) -> Seq<EventView> {
    s.map_values(|e: OntoEvent| e@)
}

/// The events of `s` whose identity is `p`, in order.
pub open spec fn by_profile(s: Seq<EventView>, p: Seq<char>) -> Seq<EventView> {
    s.filter(|e: EventView| e.profile == p)
}

/// The events of `s` emitted in phase `ph`, in order.
pub open spec fn by_phase(s: Seq<EventView>, ph: OntoPhase) -> Seq<EventView> {
    s.filter(|e: EventView| e.phase == ph)
}

/// The view map distributes over pushing one event.
pub proof fn lemma_seq_views_push(s: Seq<OntoEvent>, e: OntoEvent)
    ensures
        seq_views(s.push(e)) == seq_views(s).push(e@),
{
    let s1 = seq_views(s.push(e));
    let s2 = seq_views(s).push(e@);
    assert forall|k: int| 0 <= k < s1.len() implies s1[k] == s2[k] by {
        if k < s.len() {
            assert(s.push(e)[k] == s[k]);
        } else {
            assert(s.push(e)[k] == e);
        }
    }
    assert(s1 =~= s2);
}

/// Some event in `s` carries the id `id`.
pub open spec fn id_in(s: Seq<EventView>, id: Seq<char>) -> bool {
    exists|k: int| 0 <= k < s.len() && s[k].id == id
}

/// Event ids are pairwise distinct.
pub open spec fn ids_unique(s: Seq<EventView>) -> bool {
    forall|i: int, j: int| 0 <= i < j < s.len() ==> s[i].id != s[j].id
}

/// The ledger state after appending `e`: unchanged when the id is already
/// present, extended at the end otherwise.
pub open spec fn spec_append(s: Seq<EventView>, e: EventView) -> Seq<EventView> {
    if id_in(s, e.id) {
        s
    } else {
        s.push(e)
    }
}

/// Appending an event twice yields the same ledger state as appending it
/// once, whatever the event and whatever the prior state.
pub proof fn lemma_append_idempotent(s: Seq<EventView>, e: EventView)
    ensures
        spec_append(spec_append(s, e), e) == spec_append(s, e),
{
    if !id_in(s, e.id) {
        assert(s.push(e)[s.len() as int] == e);
        assert(id_in(s.push(e), e.id));
    }
}

/// An append-only store of events, safe as a merge target for duplicate
/// delivery: re-appending an id already present is a no-op. Events are held
/// in admission order; the by-identity and by-phase projections preserve it.
pub struct ActivityLedger {
    events: Vec<OntoEvent>,
}

impl View for ActivityLedger {
    type V = Seq<EventView>;

    closed spec fn view(&self) -> Seq<EventView> {
        seq_views(self.events@)
    }
}

impl ActivityLedger {
    /// Event ids in the ledger are pairwise distinct.
    pub open spec fn wf(&self) -> bool {
        ids_unique(self@)
    }

    /// An empty ledger.
    pub fn new() -> (r: Self)
        ensures
            r@ =~= Seq::<EventView>::empty(),
            r.wf(),
    {
        let r = ActivityLedger { events: Vec::new() };
        assert(r@ =~= Seq::<EventView>::empty());
        r
    }

    /// Whether the ledger holds an event with the given id.
    pub fn contains_id(&self, id: &str) -> (r: bool)
        ensures
            r == id_in(self@, id@),
    {
        let mut i: usize = 0;
        while i < self.events.len()
            invariant
                0 <= i <= self@.len(),
                self@.len() == self.events@.len(),
                forall|k: int| 0 <= k < i ==> self@[k].id != id@,
            decreases self@.len() - i,
        {
            if text::str_eq(self.events[i].id.as_str(), id) {
                assert(self@[i as int].id == id@);
                return true;
            }
            i += 1;
        }
        false
    }

    /// Idempotent append: a no-op when an event with the same id is already
    /// present, otherwise the event is admitted at the end.
    pub fn append(&mut self, event: OntoEvent)
        requires
            old(self).wf(),
        ensures
            final(self)@ == spec_append(old(self)@, event@),
            final(self).wf(),
    {
        if !self.contains_id(event.id.as_str()) {
            proof {
                let s = self@;
                let t = s.push(event@);
                assert forall|i: int, j: int| 0 <= i < j < t.len() implies t[i].id != t[j].id by {
                    if j < s.len() {
                    } else {
                        assert(s[i].id != event@.id);
                    }
                }
            }
            let ghost evs = self.events@;
            self.events.push(event);
            proof {
                lemma_seq_views_push(evs, event);
            }
        }
    }

    /// The event with the given id, when the ledger holds one.
    pub fn get(&self, id: &str) -> (r: Option<&OntoEvent>)
        ensures
            match r {
                Some(e) => e@.id == id@ && self@.contains(e@),
                None => !id_in(self@, id@),
            },
    {
        let mut i: usize = 0;
        while i < self.events.len()
            invariant
                0 <= i <= self@.len(),
                self@.len() == self.events@.len(),
                forall|k: int| 0 <= k < i ==> self@[k].id != id@,
            decreases self@.len() - i,
        {
            if text::str_eq(self.events[i].id.as_str(), id) {
                assert(self@[i as int] == self.events[i as int]@);
                return Some(&self.events[i]);
            }
            i += 1;
        }
        None
    }

    /// All events of one identity, in admission order.
    pub fn events_by_profile(&self, profile: &ProfileId) -> (r: Vec<OntoEvent>)
        ensures
            seq_views(r@) == by_profile(self@, profile@),
    {
        let mut r: Vec<OntoEvent> = Vec::new();
        let mut i: usize = 0;
        while i < self.events.len()
            invariant
                0 <= i <= self@.len(),
                self@.len() == self.events@.len(),
                seq_views(r@) == by_profile(self@.take(i as int), profile@),
            decreases self@.len() - i,
        {
            proof {
                reveal(Seq::filter);
                assert(self@.take(i + 1).drop_last() =~= self@.take(i as int));
                assert(self@.take(i + 1).last() == self@[i as int]);
            }
            if text::str_eq(self.events[i].profile_id.0.as_str(), profile.0.as_str()) {
                let c = self.events[i].clone();
                let ghost old_r = r@;
                r.push(c);
                proof {
                    lemma_seq_views_push(old_r, c);
                }
            }
            i += 1;
        }
        assert(self@.take(self@.len() as int) =~= self@);
        r
    }

    /// All events emitted in one phase, in admission order.
    pub fn events_by_phase(&self, phase: &OntoPhase) -> (r: Vec<OntoEvent>)
        ensures
            seq_views(r@) == by_phase(self@, *phase),
    {
        let mut r: Vec<OntoEvent> = Vec::new();
        let mut i: usize = 0;
        while i < self.events.len()
            invariant
                0 <= i <= self@.len(),
                self@.len() == self.events@.len(),
                seq_views(r@) == by_phase(self@.take(i as int), *phase),
            decreases self@.len() - i,
        {
            proof {
                reveal(Seq::filter);
                assert(self@.take(i + 1).drop_last() =~= self@.take(i as int));
                assert(self@.take(i + 1).last() == self@[i as int]);
            }
            if self.events[i].phase == *phase {
                let c = self.events[i].clone();
                let ghost old_r = r@;
                r.push(c);
                proof {
                    lemma_seq_views_push(old_r, c);
                }
            }
            i += 1;
        }
        assert(self@.take(self@.len() as int) =~= self@);
        r
    }

    /// The number of events admitted so far.
    pub fn len(&self) -> (r: usize)
        ensures
            r == self@.len(),
    {
        self.events.len()
    }

    /// All events in admission order.
    pub fn all_events(&self) -> (r: &Vec<OntoEvent>)
        ensures
            seq_views(r@) == self@,
    {
        &self.events
    }
}

} // verus!
