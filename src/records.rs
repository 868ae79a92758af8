use vstd::prelude::*;

use crate::health::{status_text, HealthStatus};

verus! {

/// One course of treatment. `id` numbers the courses of one animal from 1.
#[derive(Debug)]
pub struct Medication {
    pub id: u64,
    pub name: String,
    pub dosage: String,
    pub start_date: u64,
    pub end_date: u64,
}

impl Clone for Medication {
    fn clone(&self) -> (r: Self)
        ensures
            r == *self,
    {
        Medication {
            id: self.id,
            name: self.name.clone(),
            dosage: self.dosage.clone(),
            start_date: self.start_date,
            end_date: self.end_date,
        }
    }
}

/// The two animals an offspring was bred from. The link is by identifier
/// only: it may outlive either parent.
#[derive(Clone, Copy, Debug, PartialEq, Eq, Structural)]
pub struct ParentIds {
    pub parent1_id: u64,
    pub parent2_id: u64,
}

/// An animal of the registry. `height_bits` holds the IEEE-754 bit pattern
/// of the height (an `f32`), which the registry stores and never reads.
#[derive(Debug)]
pub struct Livestock {
    pub id: u64,
    pub breed: String,
    pub age: u8,
    pub height_bits: u32,
    pub health_notes: String,
    pub health_status: HealthStatus,
    pub medical_records: Vec<Medication>,
    pub parent_ids: Option<ParentIds>,
    pub created_at: u64,
    pub updated_at: Option<u64>,
}

/// What a `Livestock` value holds, with its text as character sequences
/// and its medication ledger as a sequence.
pub struct LivestockView {
    pub id: u64,
    pub breed: Seq<char>,
    pub age: u8,
    pub height_bits: u32,
    pub health_notes: Seq<char>,
    pub health_status: HealthStatus,
    pub medical_records: Seq<Medication>,
    pub parent_ids: Option<ParentIds>,
    pub created_at: u64,
    pub updated_at: Option<u64>,
}

impl View for Livestock {
    type V = LivestockView;

    open spec fn view(&self) -> LivestockView {
        LivestockView {
            id: self.id,
            breed: self.breed@,
            age: self.age,
            height_bits: self.height_bits,
            health_notes: self.health_notes@,
            health_status: self.health_status,
            medical_records: self.medical_records@,
            parent_ids: self.parent_ids,
            created_at: self.created_at,
            updated_at: self.updated_at,
        }
    }
}

/// A newly registered animal: healthy, without medication, not yet
/// updated, linked to the given parents (none unless it was bred).
pub open spec fn new_record(
    id: u64,
    breed: Seq<char>,
    age: u8,
    height_bits: u32,
    parent_ids: Option<ParentIds>,
    now: u64,
) -> LivestockView {
    LivestockView {
        id,
        breed,
        age,
        height_bits,
        health_notes: status_text(HealthStatus::Healthy),
        health_status: HealthStatus::Healthy,
        medical_records: Seq::empty(),
        parent_ids,
        created_at: now,
        updated_at: None,
    }
}

/// The views of a sequence of animals, in the same order.
pub open spec fn views(s: Seq<Livestock>) -> Seq<LivestockView> {
    s.map_values(|a: Livestock| a@)
}

/// Copies a medication ledger entry by entry.
fn copy_ledger(v: &Vec<Medication>) -> (r: Vec<Medication>)
    ensures
        r@ == v@,
{
    let mut r: Vec<Medication> = Vec::new();
    let mut i: usize = 0;
    while i < v.len()
        invariant
            i <= v.len(),
            r@ == v@.subrange(0, i as int),
        decreases v.len() - i,
    {
        r.push(v[i].clone());
        i = i + 1;
    }
    r
}

impl Livestock {
    /// A copy of the record, field for field.
    pub fn duplicate(&self) -> (r: Livestock)
        ensures
            r@ == self@,
    {
        Livestock {
            id: self.id,
            breed: self.breed.clone(),
            age: self.age,
            height_bits: self.height_bits,
            health_notes: self.health_notes.clone(),
            health_status: self.health_status,
            medical_records: copy_ledger(&self.medical_records),
            parent_ids: self.parent_ids,
            created_at: self.created_at,
            updated_at: self.updated_at,
        }
    }
}

/// Copies a sequence of animals, keeping the order.
pub fn copy_animals(v: &Vec<Livestock>) -> (r: Vec<Livestock>)
    ensures
        views(r@) == views(v@),
{
    let mut r: Vec<Livestock> = Vec::new();
    let mut i: usize = 0;
    while i < v.len()
        invariant
            i <= v.len(),
            r@.len() == i,
            views(r@) == views(v@).subrange(0, i as int),
        decreases v.len() - i,
    {
        let d = v[i].duplicate();
        let ghost prev = r@;
        r.push(d);
        assert(views(r@) =~= views(v@).subrange(0, i + 1)) by {
            assert forall|j: int| 0 <= j < i implies #[trigger] views(r@)[j] == views(v@)[j] by {
                assert(views(prev)[j] == views(v@).subrange(0, i as int)[j]);
            }
        }
        i = i + 1;
    }
    r
}

/// An alert raised when an animal moves into a status other than `Healthy`.
#[derive(Clone, Copy, Debug, PartialEq, Eq, Structural)]
pub struct HealthAlert {
    pub animal_id: u64,
    pub status: HealthStatus,
    pub timestamp: u64,
}

/// A change to the registry, with the values it was made with.
#[derive(Debug)]
pub enum Event {
    Created { id: u64, breed: String, age: u8, height_bits: u32 },
    Updated { id: u64, breed: String, age: u8, height_bits: u32 },
    Bred { parent1_id: u64, parent2_id: u64, offspring_id: u64, breed: String },
    Deleted { id: u64 },
}

impl Clone for Event {
    fn clone(&self) -> (r: Self)
        ensures
            r == *self,
    {
        match self {
            Event::Created { id, breed, age, height_bits } => Event::Created {
                id: *id,
                breed: breed.clone(),
                age: *age,
                height_bits: *height_bits,
            },
            Event::Updated { id, breed, age, height_bits } => Event::Updated {
                id: *id,
                breed: breed.clone(),
                age: *age,
                height_bits: *height_bits,
            },
            Event::Bred { parent1_id, parent2_id, offspring_id, breed } => Event::Bred {
                parent1_id: *parent1_id,
                parent2_id: *parent2_id,
                offspring_id: *offspring_id,
                breed: breed.clone(),
            },
            Event::Deleted { id } => Event::Deleted { id: *id },
        }
    }
}

/// The tag under which an event is logged.
pub open spec fn event_type_text(e: Event) -> Seq<char> {
    match e {
        Event::Created { .. } => "Animal Created"@,
        Event::Updated { .. } => "Animal Updated"@,
        Event::Bred { .. } => "Animal Bred"@,
        Event::Deleted { .. } => "Animal Deleted"@,
    }
}

/// An entry of the audit trail.
#[derive(Debug)]
pub struct EventLog {
    pub event: Event,
    pub timestamp: u64,
}

impl Clone for EventLog {
    fn clone(&self) -> (r: Self)
        ensures
            r == *self,
    {
        EventLog { event: self.event.clone(), timestamp: self.timestamp }
    }
}

impl EventLog {
    /// The tag of the entry: "Animal Created", "Animal Updated",
    /// "Animal Bred" or "Animal Deleted".
    pub fn event_type(&self) -> (r: String)
        ensures
            r@ == event_type_text(self.event),
    {
        match &self.event {
            Event::Created { .. } => "Animal Created".to_owned(),
            Event::Updated { .. } => "Animal Updated".to_owned(),
            Event::Bred { .. } => "Animal Bred".to_owned(),
            Event::Deleted { .. } => "Animal Deleted".to_owned(),
        }
    }
}

} // verus!
