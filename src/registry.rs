use vstd::prelude::*;

use crate::health::{status_raises_alert, status_text, HealthStatus};
use crate::records::{
    copy_animals, new_record, views, Event, EventLog, HealthAlert, Livestock, LivestockView,
    Medication, ParentIds,
};

verus! {

/// Identifiers strictly increase along the sequence, so no two are equal.
pub open spec fn ids_ascending(s: Seq<LivestockView>) -> bool {
    forall|i: int, j: int| 0 <= i < j < s.len() ==> s[i].id < s[j].id
}

/// Every recorded parent identifier is smaller than its offspring's.
pub open spec fn parents_precede(s: Seq<LivestockView>) -> bool {
    forall|i: int|
        0 <= i < s.len() ==> match #[trigger] s[i].parent_ids {
            Some(p) => p.parent1_id < s[i].id && p.parent2_id < s[i].id,
            None => true,
        }
}

/// The records of a registry whose allocator stands at `next`: identifiers
/// ascend, start at 1 and are all below `next`, and parents come first.
pub open spec fn registry_wf(s: Seq<LivestockView>, next: u64) -> bool {
    &&& next >= 1
    &&& ids_ascending(s)
    &&& parents_precede(s)
    &&& forall|i: int| 0 <= i < s.len() ==> 1 <= #[trigger] s[i].id < next
}

/// Some record carries identifier `id`.
pub open spec fn has_id(s: Seq<LivestockView>, id: u64) -> bool {
    exists|i: int| 0 <= i < s.len() && s[i].id == id
}

/// A position of a record with identifier `id` (the only one when
/// identifiers ascend).
pub open spec fn index_of(s: Seq<LivestockView>, id: u64) -> int {
    choose|i: int| 0 <= i < s.len() && s[i].id == id
}

/// The record with identifier `id`, if there is one.
pub open spec fn lookup(s: Seq<LivestockView>, id: u64) -> Option<LivestockView> {
    if has_id(s, id) {
        Some(s[index_of(s, id)])
    } else {
        None
    }
}

/// The pedigree of `id`: its record, then the pedigree of its first parent,
/// then that of its second, depth first. An identifier without a record
/// contributes nothing. In a well-formed registry parents always have
/// smaller identifiers, so the comparisons below never cut a branch; they
/// only make the recursion's end plain.
pub open spec fn pedigree(s: Seq<LivestockView>, id: u64) -> Seq<LivestockView>
    decreases id,
{
    match lookup(s, id) {
        None => Seq::empty(),
        Some(a) => seq![a] + match a.parent_ids {
            None => Seq::empty(),
            Some(p) => (if p.parent1_id < id {
                pedigree(s, p.parent1_id)
            } else {
                Seq::empty()
            }) + (if p.parent2_id < id {
                pedigree(s, p.parent2_id)
            } else {
                Seq::empty()
            }),
        },
    }
}

/// The record stands at position `i`.
pub proof fn lemma_lookup_at(s: Seq<LivestockView>, i: int)
    requires
        ids_ascending(s),
        0 <= i < s.len(),
    ensures
        has_id(s, s[i].id),
        index_of(s, s[i].id) == i,
        lookup(s, s[i].id) == Some(s[i]),
{
    assert(has_id(s, s[i].id));
    let k = index_of(s, s[i].id);
    assert(s[k].id == s[i].id);
    if k < i {
        assert(s[k].id < s[i].id);
    } else if k > i {
        assert(s[i].id < s[k].id);
    }
}

/// Appending a record with a larger identifier changes no other lookup.
pub proof fn lemma_lookup_push(s: Seq<LivestockView>, x: LivestockView, k: u64)
    requires
        ids_ascending(s.push(x)),
        k != x.id,
    ensures
        lookup(s.push(x), k) == lookup(s, k),
        has_id(s.push(x), k) == has_id(s, k),
{
    let t = s.push(x);
    assert(ids_ascending(s)) by {
        assert forall|i: int, j: int| 0 <= i < j < s.len() implies s[i].id < s[j].id by {
            assert(t[i] == s[i] && t[j] == s[j]);
        }
    }
    if has_id(s, k) {
        let i = index_of(s, k);
        assert(t[i] == s[i]);
        lemma_lookup_at(s, i);
        lemma_lookup_at(t, i);
    } else {
        assert forall|j: int| 0 <= j < t.len() implies t[j].id != k by {
            if j < s.len() {
                assert(t[j] == s[j]);
            }
        }
    }
}

/// The pedigree of an identifier below that of an appended record is the
/// same before and after the append.
pub proof fn lemma_pedigree_push(s: Seq<LivestockView>, x: LivestockView, k: u64)
    requires
        ids_ascending(s.push(x)),
        k < x.id,
    ensures
        pedigree(s.push(x), k) == pedigree(s, k),
    decreases k,
{
    lemma_lookup_push(s, x, k);
    match lookup(s, k) {
        None => {},
        Some(a) => {
            match a.parent_ids {
                None => {},
                Some(p) => {
                    if p.parent1_id < k {
                        lemma_pedigree_push(s, x, p.parent1_id);
                    }
                    if p.parent2_id < k {
                        lemma_pedigree_push(s, x, p.parent2_id);
                    }
                },
            }
        },
    }
}

/// Replacing a record by one with the same identifier changes only the
/// lookup of that identifier.
pub proof fn lemma_lookup_update(s: Seq<LivestockView>, i: int, y: LivestockView, k: u64)
    requires
        ids_ascending(s),
        0 <= i < s.len(),
        y.id == s[i].id,
    ensures
        ids_ascending(s.update(i, y)),
        lookup(s.update(i, y), k) == if k == y.id {
            Some(y)
        } else {
            lookup(s, k)
        },
{
    let t = s.update(i, y);
    assert(ids_ascending(t)) by {
        assert forall|a: int, b: int| 0 <= a < b < t.len() implies t[a].id < t[b].id by {
            assert(s[a].id < s[b].id);
        }
    }
    lemma_lookup_at(t, i);
    if k != y.id {
        if has_id(s, k) {
            let j = index_of(s, k);
            lemma_lookup_at(s, j);
            assert(j != i);
            assert(t[j] == s[j]);
            lemma_lookup_at(t, j);
        } else {
            assert forall|j: int| 0 <= j < t.len() implies t[j].id != k by {
                if j != i {
                    assert(t[j] == s[j]);
                }
            }
        }
    }
}

/// Removing the record at `i` takes away its identifier and no other.
pub proof fn lemma_lookup_remove(s: Seq<LivestockView>, i: int, k: u64)
    requires
        ids_ascending(s),
        0 <= i < s.len(),
    ensures
        ids_ascending(s.remove(i)),
        lookup(s.remove(i), k) == if k == s[i].id {
            None
        } else {
            lookup(s, k)
        },
{
    let t = s.remove(i);
    assert(ids_ascending(t)) by {
        assert forall|a: int, b: int| 0 <= a < b < t.len() implies t[a].id < t[b].id by {
            let sa = if a < i { a } else { a + 1 };
            let sb = if b < i { b } else { b + 1 };
            assert(t[a] == s[sa] && t[b] == s[sb]);
        }
    }
    if k == s[i].id {
        assert forall|j: int| 0 <= j < t.len() implies t[j].id != k by {
            if j < i {
                assert(t[j] == s[j]);
                assert(s[j].id < s[i].id);
            } else {
                assert(t[j] == s[j + 1]);
                assert(s[i].id < s[j + 1].id);
            }
        }
    } else if has_id(s, k) {
        let j = index_of(s, k);
        lemma_lookup_at(s, j);
        assert(j != i);
        let tj = if j < i { j } else { j - 1 };
        assert(t[tj] == s[j]);
        lemma_lookup_at(t, tj);
    } else {
        assert forall|j: int| 0 <= j < t.len() implies t[j].id != k by {
            if j < i {
                assert(t[j] == s[j]);
            } else {
                assert(t[j] == s[j + 1]);
            }
        }
    }
}

/// The records whose health status is `status`, in their order.
pub open spec fn in_status(s: Seq<LivestockView>, status: HealthStatus) -> Seq<LivestockView> {
    s.filter(|a: LivestockView| a.health_status == status)
}

proof fn lemma_in_status_step(s: Seq<LivestockView>, i: int, status: HealthStatus)
    requires
        0 <= i < s.len(),
    ensures
        in_status(s.subrange(0, i + 1), status) == if s[i].health_status == status {
            in_status(s.subrange(0, i), status).push(s[i])
        } else {
            in_status(s.subrange(0, i), status)
        },
{
    reveal(Seq::filter);
    assert(s.subrange(0, i + 1).drop_last() =~= s.subrange(0, i));
}

/// Length of a treatment course: one day, in nanoseconds.
pub const ONE_DAY: u64 = 86_400_000_000_000;

/// The record after `update_animal`.
pub open spec fn revised_record(
    a: LivestockView,
    breed: Seq<char>,
    age: u8,
    height_bits: u32,
    health_notes: Seq<char>,
    now: u64,
) -> LivestockView {
    LivestockView { breed, age, height_bits, health_notes, updated_at: Some(now), ..a }
}

/// The record after a move into `status`.
pub open spec fn record_in_status(a: LivestockView, status: HealthStatus, now: u64) -> LivestockView {
    LivestockView {
        health_status: status,
        health_notes: status_text(status),
        updated_at: Some(now),
        ..a
    }
}

/// The course that `track_medication` appends: numbered after the courses
/// already recorded, running one day from `now`.
pub open spec fn next_course(a: LivestockView, name: String, dosage: String, now: u64) -> Medication {
    Medication {
        id: (a.medical_records.len() + 1) as u64,
        name,
        dosage,
        start_date: now,
        end_date: (now + ONE_DAY) as u64,
    }
}

/// The record after `track_medication`.
pub open spec fn record_with_course(
    a: LivestockView,
    name: String,
    dosage: String,
    now: u64,
) -> LivestockView {
    LivestockView { medical_records: a.medical_records.push(next_course(a, name, dosage, now)), ..a }
}

/// The registry: its animals in order of registration (hence of
/// identifier), the identifier allocator, the health alerts and the event
/// log, both oldest first.
pub struct LivestockManagementSystem {
    animals: Vec<Livestock>,
    next_id: u64,
    health_alerts: Vec<HealthAlert>,
    event_logs: Vec<EventLog>,
}

impl LivestockManagementSystem {
    /// The animals, in order of registration.
    pub closed spec fn records(&self) -> Seq<LivestockView> {
        views(self.animals@)
    }

    /// The identifier that the next registration receives.
    pub closed spec fn next_free_id(&self) -> u64 {
        self.next_id
    }

    /// The health alerts raised so far, oldest first.
    pub closed spec fn alerts(&self) -> Seq<HealthAlert> {
        self.health_alerts@
    }

    /// The event log, oldest first.
    pub closed spec fn events(&self) -> Seq<EventLog> {
        self.event_logs@
    }

    /// The registry's invariant: see `registry_wf`.
    pub open spec fn wf(&self) -> bool {
        registry_wf(self.records(), self.next_free_id())
    }

    /// An empty registry whose first identifier is 1.
    pub fn new() -> (r: Self)
        ensures
            r.wf(),
            r.records() == Seq::<LivestockView>::empty(),
            r.next_free_id() == 1,
            r.alerts() == Seq::<HealthAlert>::empty(),
            r.events() == Seq::<EventLog>::empty(),
    {
        let r = LivestockManagementSystem {
            animals: Vec::new(),
            next_id: 1,
            health_alerts: Vec::new(),
            event_logs: Vec::new(),
        };
        assert(r.records() =~= Seq::<LivestockView>::empty());
        r
    }

    /// The identifier that the next registration receives.
    pub fn next_id(&self) -> (r: u64)
        ensures
            r == self.next_free_id(),
    {
        self.next_id
    }

    /// The position of the animal with identifier `id`.
    fn find(&self, id: u64) -> (r: Option<usize>)
        requires
            self.wf(),
        ensures
            match r {
                Some(i) => {
                    &&& i < self.records().len()
                    &&& self.records()[i as int].id == id
                    &&& index_of(self.records(), id) == i
                    &&& lookup(self.records(), id) == Some(self.records()[i as int])
                },
                None => !has_id(self.records(), id) && lookup(self.records(), id) is None,
            },
    {
        let mut i: usize = 0;
        while i < self.animals.len()
            invariant
                self.wf(),
                i <= self.animals.len(),
                forall|j: int| 0 <= j < i ==> #[trigger] self.records()[j].id != id,
            decreases self.animals.len() - i,
        {
            if self.animals[i].id == id {
                proof {
                    assert(self.records()[i as int] == self.animals@[i as int]@);
                    lemma_lookup_at(self.records(), i as int);
                }
                return Some(i);
            }
            assert(self.records()[i as int] == self.animals@[i as int]@);
            i = i + 1;
        }
        None
    }

    /// Registers an animal and logs its creation.
    fn register(
        &mut self,
        age: u8,
        breed: String,
        height_bits: u32,
        parent_ids: Option<ParentIds>,
        now: u64,
    ) -> (id: u64)
        requires
            old(self).wf(),
            old(self).next_free_id() < u64::MAX,
            match parent_ids {
                Some(p) => p.parent1_id < old(self).next_free_id() && p.parent2_id < old(
                    self,
                ).next_free_id(),
                None => true,
            },
        ensures
            final(self).wf(),
            id == old(self).next_free_id(),
            final(self).next_free_id() == id + 1,
            final(self).records() == old(self).records().push(
                new_record(id, breed@, age, height_bits, parent_ids, now),
            ),
            lookup(final(self).records(), id) == Some(
                new_record(id, breed@, age, height_bits, parent_ids, now),
            ),
            forall|k: u64|
                k != id ==> #[trigger] lookup(final(self).records(), k) == lookup(
                    old(self).records(),
                    k,
                ),
            final(self).alerts() == old(self).alerts(),
            final(self).events() == old(self).events().push(
                (EventLog { event: Event::Created { id, breed, age, height_bits }, timestamp: now }),
            ),
    {
        let id = self.next_id;
        let logged_breed = breed.clone();
        let animal = Livestock {
            id,
            breed,
            age,
            height_bits,
            health_notes: HealthStatus::Healthy.to_string(),
            health_status: HealthStatus::Healthy,
            medical_records: Vec::new(),
            parent_ids,
            created_at: now,
            updated_at: None,
        };
        let ghost before = self.records();
        self.animals.push(animal);
        let ghost x = new_record(id, logged_breed@, age, height_bits, parent_ids, now);
        assert(self.records() =~= before.push(x));
        proof {
            lemma_lookup_at(self.records(), self.records().len() - 1);
            assert forall|k: u64| k != id implies #[trigger] lookup(self.records(), k) == lookup(
                before,
                k,
            ) by {
                lemma_lookup_push(before, x, k);
            }
        }
        self.event_logs.push(
            EventLog {
                event: Event::Created { id, breed: logged_breed, age, height_bits },
                timestamp: now,
            },
        );
        self.next_id = self.next_id + 1;
        id
    }

    /// Registers a new, healthy animal and returns its identifier.
    pub fn create_animal(&mut self, age: u8, breed: String, height_bits: u32, now: u64) -> (id:
        u64)
        requires
            old(self).wf(),
            old(self).next_free_id() < u64::MAX,
        ensures
            final(self).wf(),
            id == old(self).next_free_id(),
            final(self).next_free_id() == id + 1,
            final(self).records() == old(self).records().push(
                new_record(id, breed@, age, height_bits, None, now),
            ),
            lookup(final(self).records(), id) == Some(
                new_record(id, breed@, age, height_bits, None, now),
            ),
            forall|k: u64|
                k != id ==> #[trigger] lookup(final(self).records(), k) == lookup(
                    old(self).records(),
                    k,
                ),
            final(self).alerts() == old(self).alerts(),
            final(self).events() == old(self).events().push(
                (EventLog { event: Event::Created { id, breed, age, height_bits }, timestamp: now }),
            ),
    {
        self.register(age, breed, height_bits, None, now)
    }

    /// Breeds two registered animals: registers an offspring of age 0 and
    /// height 0 linked to both, and logs its creation and the breeding.
    /// Nothing changes unless both parents are registered.
    pub fn breed_animals(&mut self, parent1_id: u64, parent2_id: u64, breed: String, now: u64) -> (r:
        Option<u64>)
        requires
            old(self).wf(),
            old(self).next_free_id() < u64::MAX,
        ensures
            final(self).wf(),
            r is Some <==> (lookup(old(self).records(), parent1_id) is Some && lookup(
                old(self).records(),
                parent2_id,
            ) is Some),
            r is None ==> {
                &&& final(self).records() == old(self).records()
                &&& final(self).next_free_id() == old(self).next_free_id()
                &&& final(self).alerts() == old(self).alerts()
                &&& final(self).events() == old(self).events()
            },
            r matches Some(id) ==> {
                let parents = ParentIds { parent1_id, parent2_id };
                let offspring = new_record(id, breed@, 0, 0, Some(parents), now);
                &&& id == old(self).next_free_id()
                &&& final(self).next_free_id() == id + 1
                &&& final(self).records() == old(self).records().push(offspring)
                &&& lookup(final(self).records(), id) == Some(offspring)
                &&& forall|k: u64|
                    k != id ==> #[trigger] lookup(final(self).records(), k) == lookup(
                        old(self).records(),
                        k,
                    )
                &&& final(self).alerts() == old(self).alerts()
                &&& final(self).events() == old(self).events().push(
                    (EventLog {
                        event: Event::Created { id, breed, age: 0, height_bits: 0 },
                        timestamp: now,
                    }),
                ).push(
                    (EventLog {
                        event: Event::Bred { parent1_id, parent2_id, offspring_id: id, breed },
                        timestamp: now,
                    }),
                )
                &&& pedigree(final(self).records(), id) == seq![offspring] + pedigree(
                    old(self).records(),
                    parent1_id,
                ) + pedigree(old(self).records(), parent2_id)
                &&& pedigree(final(self).records(), parent1_id) == pedigree(
                    old(self).records(),
                    parent1_id,
                )
                &&& pedigree(final(self).records(), parent2_id) == pedigree(
                    old(self).records(),
                    parent2_id,
                )
            },
    {
        let first = self.find(parent1_id);
        let second = self.find(parent2_id);
        if first.is_none() || second.is_none() {
            return None;
        }
        proof {
            let s = self.records();
            assert(s[index_of(s, parent1_id)].id < self.next_id);
            assert(s[index_of(s, parent2_id)].id < self.next_id);
        }
        let ghost before = self.records();
        let parents = ParentIds { parent1_id, parent2_id };
        let logged_breed = breed.clone();
        let id = self.register(0, breed, 0, Some(parents), now);
        self.event_logs.push(
            EventLog {
                event: Event::Bred { parent1_id, parent2_id, offspring_id: id, breed: logged_breed },
                timestamp: now,
            },
        );
        proof {
            let s = self.records();
            let x = new_record(id, logged_breed@, 0, 0, Some(parents), now);
            lemma_lookup_at(s, s.len() - 1);
            lemma_pedigree_push(before, x, parent1_id);
            lemma_pedigree_push(before, x, parent2_id);
        }
        Some(id)
    }

    /// The animal with identifier `id`, if it is registered.
    pub fn get_animal(&self, id: u64) -> (r: Option<Livestock>)
        requires
            self.wf(),
        ensures
            match r {
                Some(a) => lookup(self.records(), id) == Some(a@),
                None => lookup(self.records(), id) is None,
            },
    {
        match self.find(id) {
            Some(i) => Some(self.animals[i].duplicate()),
            None => None,
        }
    }

    /// The pedigree of `id`, depth first: the animal, then the pedigree of
    /// its first parent, then that of its second. Empty when `id` is not
    /// registered; a parent that is no longer registered ends its branch.
    pub fn get_pedigree(&self, id: u64) -> (r: Vec<Livestock>)
        requires
            self.wf(),
        ensures
            views(r@) == pedigree(self.records(), id),
        decreases id,
    {
        let mut out: Vec<Livestock> = Vec::new();
        match self.find(id) {
            None => {
                assert(views(out@) =~= pedigree(self.records(), id));
            },
            Some(i) => {
                let animal = self.animals[i].duplicate();
                let parents = animal.parent_ids;
                out.push(animal);
                assert(views(out@) =~= seq![self.records()[i as int]]);
                match parents {
                    None => {},
                    Some(p) => {
                        assert(p.parent1_id < id && p.parent2_id < id) by {
                            assert(self.records()[i as int].parent_ids == parents);
                        }
                        let mut left = self.get_pedigree(p.parent1_id);
                        let mut right = self.get_pedigree(p.parent2_id);
                        let ghost head = out@;
                        let ghost l = left@;
                        let ghost rr = right@;
                        out.append(&mut left);
                        out.append(&mut right);
                        assert(out@ == head + l + rr);
                        assert(views(out@) =~= views(head) + views(l) + views(rr));
                    },
                }
            },
        }
        out
    }

    /// All registered animals, in order of registration.
    pub fn get_all_animals(&self) -> (r: Vec<Livestock>)
        ensures
            views(r@) == self.records(),
    {
        copy_animals(&self.animals)
    }

    /// Overwrites the breed, age, height and health notes of animal `id`,
    /// stamps the update and logs it. `false`, with nothing changed, when
    /// `id` is not registered.
    pub fn update_animal(
        &mut self,
        id: u64,
        age: u8,
        breed: String,
        height_bits: u32,
        health_notes: String,
        now: u64,
    ) -> (r: bool)
        requires
            old(self).wf(),
        ensures
            final(self).wf(),
            r == lookup(old(self).records(), id) is Some,
            forall|k: u64|
                k != id ==> #[trigger] lookup(final(self).records(), k) == lookup(
                    old(self).records(),
                    k,
                ),
            final(self).next_free_id() == old(self).next_free_id(),
            final(self).alerts() == old(self).alerts(),
            r ==> {
                let i = index_of(old(self).records(), id);
                let a = old(self).records()[i];
                let revised = revised_record(a, breed@, age, height_bits, health_notes@, now);
                &&& final(self).records() == old(self).records().update(i, revised)
                &&& lookup(final(self).records(), id) == Some(revised)
                &&& final(self).events() == old(self).events().push(
                    (EventLog { event: Event::Updated { id, breed, age, height_bits }, timestamp: now }),
                )
            },
            !r ==> final(self).records() == old(self).records() && final(self).events() == old(
                self,
            ).events(),
    {
        match self.find(id) {
            None => false,
            Some(i) => {
                let ghost before = self.records();
                let logged_breed = breed.clone();
                let mut a = self.animals[i].duplicate();
                a.age = age;
                a.breed = breed;
                a.height_bits = height_bits;
                a.health_notes = health_notes;
                a.updated_at = Some(now);
                let ghost y = a@;
                self.animals.set(i, a);
                assert(self.records() =~= before.update(i as int, y));
                proof {
                    lemma_lookup_update(before, i as int, y, id);
                    assert forall|k: u64| k != id implies #[trigger] lookup(self.records(), k)
                        == lookup(before, k) by {
                        lemma_lookup_update(before, i as int, y, k);
                    }
                }
                self.event_logs.push(
                    EventLog {
                        event: Event::Updated { id, breed: logged_breed, age, height_bits },
                        timestamp: now,
                    },
                );
                true
            },
        }
    }

    /// Moves animal `id` into `new_status`, rewrites its health notes to
    /// the status's text and stamps the update. A move into any status but
    /// `Healthy` appends one health alert. `false`, with nothing changed,
    /// when `id` is not registered.
    pub fn update_health_status(&mut self, id: u64, new_status: HealthStatus, now: u64) -> (r:
        bool)
        requires
            old(self).wf(),
        ensures
            final(self).wf(),
            r == lookup(old(self).records(), id) is Some,
            forall|k: u64|
                k != id ==> #[trigger] lookup(final(self).records(), k) == lookup(
                    old(self).records(),
                    k,
                ),
            final(self).next_free_id() == old(self).next_free_id(),
            final(self).events() == old(self).events(),
            r ==> {
                let i = index_of(old(self).records(), id);
                let moved = record_in_status(old(self).records()[i], new_status, now);
                &&& final(self).records() == old(self).records().update(i, moved)
                &&& lookup(final(self).records(), id) == Some(moved)
                &&& final(self).alerts() == if status_raises_alert(new_status) {
                    old(self).alerts().push(
                        (HealthAlert { animal_id: id, status: new_status, timestamp: now }),
                    )
                } else {
                    old(self).alerts()
                }
            },
            !r ==> final(self).records() == old(self).records() && final(self).alerts() == old(
                self,
            ).alerts(),
    {
        match self.find(id) {
            None => false,
            Some(i) => {
                let ghost before = self.records();
                let mut a = self.animals[i].duplicate();
                a.health_status = new_status;
                a.health_notes = new_status.to_string();
                a.updated_at = Some(now);
                let ghost y = a@;
                self.animals.set(i, a);
                assert(self.records() =~= before.update(i as int, y));
                proof {
                    lemma_lookup_update(before, i as int, y, id);
                    assert forall|k: u64| k != id implies #[trigger] lookup(self.records(), k)
                        == lookup(before, k) by {
                        lemma_lookup_update(before, i as int, y, k);
                    }
                }
                if new_status.raises_alert() {
                    self.health_alerts.push(
                        HealthAlert { animal_id: id, status: new_status, timestamp: now },
                    );
                }
                true
            },
        }
    }

    /// Appends a one-day course of `medication_name` to the ledger of
    /// animal `animal_id`. `false`, with nothing changed, when the animal
    /// is not registered.
    pub fn track_medication(
        &mut self,
        animal_id: u64,
        medication_name: String,
        dosage: String,
        now: u64,
    ) -> (r: bool)
        requires
            old(self).wf(),
            now <= u64::MAX - ONE_DAY,
            lookup(old(self).records(), animal_id) matches Some(a) ==> a.medical_records.len()
                < u64::MAX,
        ensures
            final(self).wf(),
            r == lookup(old(self).records(), animal_id) is Some,
            forall|k: u64|
                k != animal_id ==> #[trigger] lookup(final(self).records(), k) == lookup(
                    old(self).records(),
                    k,
                ),
            final(self).next_free_id() == old(self).next_free_id(),
            final(self).alerts() == old(self).alerts(),
            final(self).events() == old(self).events(),
            r ==> {
                let i = index_of(old(self).records(), animal_id);
                let treated = record_with_course(
                    old(self).records()[i],
                    medication_name,
                    dosage,
                    now,
                );
                &&& final(self).records() == old(self).records().update(i, treated)
                &&& lookup(final(self).records(), animal_id) == Some(treated)
            },
            !r ==> final(self).records() == old(self).records(),
    {
        match self.find(animal_id) {
            None => false,
            Some(i) => {
                let ghost before = self.records();
                let mut a = self.animals[i].duplicate();
                let course = Medication {
                    id: a.medical_records.len() as u64 + 1,
                    name: medication_name,
                    dosage,
                    start_date: now,
                    end_date: now + ONE_DAY,
                };
                a.medical_records.push(course);
                let ghost y = a@;
                self.animals.set(i, a);
                assert(self.records() =~= before.update(i as int, y));
                proof {
                    lemma_lookup_update(before, i as int, y, animal_id);
                    assert forall|k: u64| k != animal_id implies #[trigger] lookup(self.records(), k)
                        == lookup(before, k) by {
                        lemma_lookup_update(before, i as int, y, k);
                    }
                }
                true
            },
        }
    }

    /// Removes animal `id` and logs the deletion. Records of its offspring
    /// keep their link to it. `false`, with nothing changed, when `id` is
    /// not registered.
    pub fn delete_animal(&mut self, id: u64, now: u64) -> (r: bool)
        requires
            old(self).wf(),
        ensures
            final(self).wf(),
            r == lookup(old(self).records(), id) is Some,
            forall|k: u64|
                k != id ==> #[trigger] lookup(final(self).records(), k) == lookup(
                    old(self).records(),
                    k,
                ),
            final(self).next_free_id() == old(self).next_free_id(),
            final(self).alerts() == old(self).alerts(),
            r ==> {
                &&& final(self).records() == old(self).records().remove(
                    index_of(old(self).records(), id),
                )
                &&& lookup(final(self).records(), id) is None
                &&& final(self).events() == old(self).events().push(
                    (EventLog { event: Event::Deleted { id }, timestamp: now }),
                )
            },
            !r ==> final(self).records() == old(self).records() && final(self).events() == old(
                self,
            ).events(),
    {
        match self.find(id) {
            None => false,
            Some(i) => {
                let ghost before = self.records();
                let _removed = self.animals.remove(i);
                assert(self.records() =~= before.remove(i as int));
                proof {
                    lemma_lookup_remove(before, i as int, id);
                    assert forall|k: u64| k != id implies #[trigger] lookup(self.records(), k)
                        == lookup(before, k) by {
                        lemma_lookup_remove(before, i as int, k);
                    }
                    assert forall|j: int| 0 <= j < self.records().len() implies 1 <= #[trigger] self.records()[j].id < self.next_id by {
                        if j < i {
                            assert(self.records()[j] == before[j]);
                        } else {
                            assert(self.records()[j] == before[j + 1]);
                        }
                    }
                    assert(parents_precede(self.records())) by {
                        assert forall|j: int| 0 <= j < self.records().len() implies match #[trigger] self.records()[j].parent_ids {
                            Some(p) => p.parent1_id < self.records()[j].id && p.parent2_id < self.records()[j].id,
                            None => true,
                        } by {
                            if j < i {
                                assert(self.records()[j] == before[j]);
                            } else {
                                assert(self.records()[j] == before[j + 1]);
                            }
                        }
                    }
                }
                self.event_logs.push(EventLog { event: Event::Deleted { id }, timestamp: now });
                true
            },
        }
    }

    /// The animals whose health status is `status`, in order of
    /// registration.
    pub fn animals_with_status(&self, status: HealthStatus) -> (r: Vec<Livestock>)
        ensures
            views(r@) == in_status(self.records(), status),
    {
        let mut out: Vec<Livestock> = Vec::new();
        let mut i: usize = 0;
        while i < self.animals.len()
            invariant
                i <= self.animals.len(),
                views(out@) == in_status(self.records().subrange(0, i as int), status),
            decreases self.animals.len() - i,
        {
            proof {
                lemma_in_status_step(self.records(), i as int, status);
            }
            assert(self.records()[i as int] == self.animals@[i as int]@);
            if self.animals[i].health_status == status {
                let ghost prev = out@;
                out.push(self.animals[i].duplicate());
                assert(views(out@) =~= views(prev).push(self.records()[i as int]));
            }
            i = i + 1;
        }
        assert(self.records().subrange(0, self.animals.len() as int) =~= self.records());
        out
    }

    /// The animals in critical condition.
    pub fn get_critical_animals(&self) -> (r: Vec<Livestock>)
        ensures
            views(r@) == in_status(self.records(), HealthStatus::Critical),
    {
        self.animals_with_status(HealthStatus::Critical)
    }

    /// The sick animals.
    pub fn get_sick_animals(&self) -> (r: Vec<Livestock>)
        ensures
            views(r@) == in_status(self.records(), HealthStatus::Sick),
    {
        self.animals_with_status(HealthStatus::Sick)
    }

    /// The recovering animals.
    pub fn get_recovering_animals(&self) -> (r: Vec<Livestock>)
        ensures
            views(r@) == in_status(self.records(), HealthStatus::Recovering),
    {
        self.animals_with_status(HealthStatus::Recovering)
    }

    /// The healthy animals.
    pub fn get_healthy_animals(&self) -> (r: Vec<Livestock>)
        ensures
            views(r@) == in_status(self.records(), HealthStatus::Healthy),
    {
        self.animals_with_status(HealthStatus::Healthy)
    }

    /// Every health alert raised so far, oldest first.
    pub fn get_health_alerts(&self) -> (r: Vec<HealthAlert>)
        ensures
            r@ == self.alerts(),
    {
        let mut out: Vec<HealthAlert> = Vec::new();
        let mut i: usize = 0;
        while i < self.health_alerts.len()
            invariant
                i <= self.health_alerts.len(),
                out@ == self.alerts().subrange(0, i as int),
            decreases self.health_alerts.len() - i,
        {
            out.push(self.health_alerts[i]);
            i = i + 1;
        }
        out
    }

    /// The event log, oldest first.
    pub fn get_event_logs(&self) -> (r: Vec<EventLog>)
        ensures
            r@ == self.events(),
    {
        let mut out: Vec<EventLog> = Vec::new();
        let mut i: usize = 0;
        while i < self.event_logs.len()
            invariant
                i <= self.event_logs.len(),
                out@ == self.events().subrange(0, i as int),
            decreases self.event_logs.len() - i,
        {
            out.push(self.event_logs[i].clone());
            i = i + 1;
        }
        out
    }
}

} // verus!
