use livestock_management::{
    Event, HealthStatus, LivestockManagementSystem, ParentIds,
};

fn height(h: f32) -> u32 {
    h.to_bits()
}

#[test]
fn round_trip_of_a_created_animal() {
    let mut reg = LivestockManagementSystem::new();
    let id = reg.create_animal(2, "Angus".to_string(), height(120.5), 1_000);
    let a = reg.get_animal(id).expect("registered animal");
    assert_eq!(a.id, id);
    assert_eq!(a.breed, "Angus");
    assert_eq!(a.age, 2);
    assert_eq!(f32::from_bits(a.height_bits), 120.5);
    assert_eq!(a.health_status, HealthStatus::Healthy);
    assert_eq!(a.health_notes, "Healthy");
    assert!(a.medical_records.is_empty());
    assert!(a.parent_ids.is_none());
    assert_eq!(a.created_at, 1_000);
    assert_eq!(a.updated_at, None);
}

#[test]
fn identifiers_start_at_one_and_increase() {
    let mut reg = LivestockManagementSystem::new();
    assert_eq!(reg.next_id(), 1);
    let a = reg.create_animal(1, "Angus".to_string(), 0, 1);
    let b = reg.create_animal(1, "Angus".to_string(), 0, 2);
    let c = reg.breed_animals(a, b, "Cross".to_string(), 3).unwrap();
    assert!(reg.delete_animal(c, 4));
    let d = reg.create_animal(1, "Angus".to_string(), 0, 5);
    assert_eq!((a, b, c, d), (1, 2, 3, 4));
    assert_eq!(reg.next_id(), 5);
}

#[test]
fn breeding_scenario_and_pedigree() {
    let mut reg = LivestockManagementSystem::new();
    let a = reg.create_animal(3, "Holstein".to_string(), height(140.0), 10);
    let b = reg.create_animal(4, "Holstein".to_string(), height(150.0), 11);
    let c = reg.breed_animals(a, b, "Holstein".to_string(), 12).expect("both parents exist");
    let child = reg.get_animal(c).unwrap();
    assert_eq!(child.age, 0);
    assert_eq!(child.height_bits, 0);
    assert_eq!(f32::from_bits(child.height_bits), 0.0);
    assert_eq!(child.parent_ids, Some(ParentIds { parent1_id: a, parent2_id: b }));
    let ids: Vec<u64> = reg.get_pedigree(c).iter().map(|x| x.id).collect();
    assert_eq!(ids, vec![c, a, b]);
}

#[test]
fn pedigree_goes_depth_first() {
    let mut reg = LivestockManagementSystem::new();
    let a = reg.create_animal(5, "Angus".to_string(), 0, 1);
    let b = reg.create_animal(5, "Angus".to_string(), 0, 1);
    let c = reg.create_animal(5, "Angus".to_string(), 0, 1);
    let ab = reg.breed_animals(a, b, "Angus".to_string(), 2).unwrap();
    let x = reg.breed_animals(ab, c, "Angus".to_string(), 3).unwrap();
    let ids: Vec<u64> = reg.get_pedigree(x).iter().map(|r| r.id).collect();
    assert_eq!(ids, vec![x, ab, a, b, c]);
}

#[test]
fn breeding_with_a_missing_parent_changes_nothing() {
    let mut reg = LivestockManagementSystem::new();
    let a = reg.create_animal(3, "Holstein".to_string(), 0, 10);
    let events_before = reg.get_event_logs().len();
    assert_eq!(reg.breed_animals(a, 42, "Cross".to_string(), 11), None);
    assert_eq!(reg.breed_animals(42, a, "Cross".to_string(), 11), None);
    assert_eq!(reg.get_all_animals().len(), 1);
    assert_eq!(reg.get_event_logs().len(), events_before);
    assert_eq!(reg.next_id(), 2);
}

#[test]
fn breeding_an_animal_with_itself_is_allowed() {
    let mut reg = LivestockManagementSystem::new();
    let a = reg.create_animal(3, "Holstein".to_string(), 0, 10);
    let c = reg.breed_animals(a, a, "Holstein".to_string(), 11).unwrap();
    let ids: Vec<u64> = reg.get_pedigree(c).iter().map(|x| x.id).collect();
    assert_eq!(ids, vec![c, a, a]);
}

#[test]
fn alert_on_sick_and_none_on_healthy() {
    let mut reg = LivestockManagementSystem::new();
    let id = reg.create_animal(2, "Angus".to_string(), 0, 1);
    assert!(reg.update_health_status(id, HealthStatus::Sick, 7));
    let alerts = reg.get_health_alerts();
    assert_eq!(alerts.len(), 1);
    assert_eq!(alerts[0].animal_id, id);
    assert_eq!(alerts[0].status, HealthStatus::Sick);
    assert_eq!(alerts[0].timestamp, 7);
    let a = reg.get_animal(id).unwrap();
    assert_eq!(a.health_status, HealthStatus::Sick);
    assert_eq!(a.health_notes, "Sick");
    assert_eq!(a.updated_at, Some(7));
    assert!(reg.update_health_status(id, HealthStatus::Healthy, 8));
    assert_eq!(reg.get_health_alerts().len(), 1);
    assert_eq!(reg.get_animal(id).unwrap().health_notes, "Healthy");
}

#[test]
fn critical_and_recovering_raise_alerts_in_order() {
    let mut reg = LivestockManagementSystem::new();
    let id = reg.create_animal(2, "Angus".to_string(), 0, 1);
    assert!(reg.update_health_status(id, HealthStatus::Critical, 2));
    assert!(reg.update_health_status(id, HealthStatus::Recovering, 3));
    let statuses: Vec<HealthStatus> = reg.get_health_alerts().iter().map(|a| a.status).collect();
    assert_eq!(statuses, vec![HealthStatus::Critical, HealthStatus::Recovering]);
}

#[test]
fn status_change_of_a_missing_animal_fails() {
    let mut reg = LivestockManagementSystem::new();
    assert!(!reg.update_health_status(9, HealthStatus::Sick, 1));
    assert!(reg.get_health_alerts().is_empty());
}

#[test]
fn deleting_a_parent_keeps_the_link_and_cuts_the_branch() {
    let mut reg = LivestockManagementSystem::new();
    let a = reg.create_animal(3, "Holstein".to_string(), 0, 10);
    let b = reg.create_animal(4, "Holstein".to_string(), 0, 11);
    let c = reg.breed_animals(a, b, "Holstein".to_string(), 12).unwrap();
    assert!(reg.delete_animal(a, 13));
    assert!(reg.get_animal(a).is_none());
    let child = reg.get_animal(c).unwrap();
    assert_eq!(child.parent_ids, Some(ParentIds { parent1_id: a, parent2_id: b }));
    let ids: Vec<u64> = reg.get_pedigree(c).iter().map(|x| x.id).collect();
    assert_eq!(ids, vec![c, b]);
    assert!(reg.get_pedigree(a).is_empty());
}

#[test]
fn deleting_twice_fails_the_second_time() {
    let mut reg = LivestockManagementSystem::new();
    let a = reg.create_animal(3, "Holstein".to_string(), 0, 10);
    assert!(reg.delete_animal(a, 11));
    assert!(!reg.delete_animal(a, 12));
    let events = reg.get_event_logs();
    assert_eq!(events.len(), 2);
    assert_eq!(events[1].event_type(), "Animal Deleted");
}

#[test]
fn listing_twice_gives_the_same_animals() {
    let mut reg = LivestockManagementSystem::new();
    reg.create_animal(1, "Angus".to_string(), 0, 1);
    reg.create_animal(2, "Jersey".to_string(), 0, 2);
    let first: Vec<u64> = reg.get_all_animals().iter().map(|a| a.id).collect();
    let second: Vec<u64> = reg.get_all_animals().iter().map(|a| a.id).collect();
    assert_eq!(first, second);
    assert_eq!(first, vec![1, 2]);
}

#[test]
fn empty_registry_lists_nothing() {
    let reg = LivestockManagementSystem::new();
    assert!(reg.get_all_animals().is_empty());
    assert!(reg.get_pedigree(1).is_empty());
    assert!(reg.get_animal(1).is_none());
    assert!(reg.get_health_alerts().is_empty());
    assert!(reg.get_event_logs().is_empty());
    assert!(reg.get_healthy_animals().is_empty());
}

#[test]
fn update_overwrites_fields_and_logs() {
    let mut reg = LivestockManagementSystem::new();
    let id = reg.create_animal(2, "Angus".to_string(), height(100.0), 1);
    assert!(reg.update_animal(id, 3, "Hereford".to_string(), height(110.25), "limping".to_string(), 50));
    let a = reg.get_animal(id).unwrap();
    assert_eq!(a.age, 3);
    assert_eq!(a.breed, "Hereford");
    assert_eq!(f32::from_bits(a.height_bits), 110.25);
    assert_eq!(a.health_notes, "limping");
    assert_eq!(a.updated_at, Some(50));
    assert_eq!(a.health_status, HealthStatus::Healthy);
    let events = reg.get_event_logs();
    assert_eq!(events.len(), 2);
    assert_eq!(events[1].event_type(), "Animal Updated");
    assert_eq!(events[1].timestamp, 50);
    match &events[1].event {
        Event::Updated { id: eid, breed, age, .. } => {
            assert_eq!(*eid, id);
            assert_eq!(breed, "Hereford");
            assert_eq!(*age, 3);
        }
        other => panic!("unexpected event {:?}", other),
    }
    assert!(!reg.update_animal(id + 1, 3, "X".to_string(), 0, "n".to_string(), 51));
    assert_eq!(reg.get_event_logs().len(), 2);
}

#[test]
fn medication_courses_are_numbered_and_last_a_day() {
    let mut reg = LivestockManagementSystem::new();
    let id = reg.create_animal(2, "Angus".to_string(), 0, 1);
    assert!(reg.track_medication(id, "Penicillin".to_string(), "5ml".to_string(), 100));
    assert!(reg.track_medication(id, "Ivermectin".to_string(), "2ml".to_string(), 200));
    let a = reg.get_animal(id).unwrap();
    assert_eq!(a.medical_records.len(), 2);
    assert_eq!(a.medical_records[0].id, 1);
    assert_eq!(a.medical_records[0].name, "Penicillin");
    assert_eq!(a.medical_records[0].dosage, "5ml");
    assert_eq!(a.medical_records[0].start_date, 100);
    assert_eq!(a.medical_records[0].end_date, 100 + 86_400_000_000_000);
    assert_eq!(a.medical_records[1].id, 2);
    assert!(!reg.track_medication(id + 1, "X".to_string(), "1ml".to_string(), 300));
}

#[test]
fn filters_by_status() {
    let mut reg = LivestockManagementSystem::new();
    let a = reg.create_animal(1, "A".to_string(), 0, 1);
    let b = reg.create_animal(1, "B".to_string(), 0, 1);
    let c = reg.create_animal(1, "C".to_string(), 0, 1);
    let d = reg.create_animal(1, "D".to_string(), 0, 1);
    assert!(reg.update_health_status(a, HealthStatus::Critical, 2));
    assert!(reg.update_health_status(b, HealthStatus::Sick, 2));
    assert!(reg.update_health_status(c, HealthStatus::Recovering, 2));
    let ids = |v: Vec<livestock_management::Livestock>| v.iter().map(|x| x.id).collect::<Vec<u64>>();
    assert_eq!(ids(reg.get_critical_animals()), vec![a]);
    assert_eq!(ids(reg.get_sick_animals()), vec![b]);
    assert_eq!(ids(reg.get_recovering_animals()), vec![c]);
    assert_eq!(ids(reg.get_healthy_animals()), vec![d]);
    assert_eq!(ids(reg.animals_with_status(HealthStatus::Sick)), vec![b]);
}

#[test]
fn event_log_records_creation_and_breeding() {
    let mut reg = LivestockManagementSystem::new();
    let a = reg.create_animal(3, "Holstein".to_string(), height(1.5), 10);
    let b = reg.create_animal(4, "Holstein".to_string(), 0, 11);
    let c = reg.breed_animals(a, b, "Cross".to_string(), 12).unwrap();
    let events = reg.get_event_logs();
    let types: Vec<String> = events.iter().map(|e| e.event_type()).collect();
    assert_eq!(types, vec!["Animal Created", "Animal Created", "Animal Created", "Animal Bred"]);
    match &events[0].event {
        Event::Created { id, breed, age, height_bits } => {
            assert_eq!((*id, breed.as_str(), *age, f32::from_bits(*height_bits)), (a, "Holstein", 3, 1.5));
        }
        other => panic!("unexpected event {:?}", other),
    }
    match &events[3].event {
        Event::Bred { parent1_id, parent2_id, offspring_id, breed } => {
            assert_eq!((*parent1_id, *parent2_id, *offspring_id, breed.as_str()), (a, b, c, "Cross"));
        }
        other => panic!("unexpected event {:?}", other),
    }
    assert_eq!(events[3].timestamp, 12);
}

#[test]
fn status_texts() {
    assert_eq!(HealthStatus::Healthy.to_string(), "Healthy");
    assert_eq!(HealthStatus::Sick.to_string(), "Sick");
    assert_eq!(HealthStatus::Critical.to_string(), "Critical");
    assert_eq!(HealthStatus::Recovering.to_string(), "Recovering");
    assert!(!HealthStatus::Healthy.raises_alert());
    assert!(HealthStatus::Sick.raises_alert());
    assert_eq!(HealthStatus::default(), HealthStatus::Healthy);
}
