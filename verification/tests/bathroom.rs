use bathroom_simulation::bathroom::{bathroom_with_id, new_bathroom, Bathroom};
use bathroom_simulation::person::{new_person, person_with_id, Gender, Person};

fn ids(queue: &[Person]) -> Vec<u128> {
    queue.iter().map(|p| p.id).collect()
}

fn occupant_ids(b: &Bathroom) -> Vec<Option<u128>> {
    b.cabins.iter().map(|c| c.map(|p| p.id)).collect()
}

fn nobody_queued_and_inside(b: &Bathroom) -> bool {
    b.cabins.iter().flatten().all(|inside| {
        b.male_queue.iter().chain(b.female_queue.iter()).all(|queued| queued.id != inside.id)
    })
}

#[test]
fn new_bathroom_is_empty() {
    let b = new_bathroom(Gender::Female, 12, 1200);
    assert_eq!(b.cabins.len(), 12);
    assert!(b.cabins.iter().all(|c| c.is_none()));
    assert_eq!(b.allowed_gender, Gender::Female);
    assert_eq!(b.use_count, 0);
    assert_eq!(b.first_user_entered_at, None);
    assert!(b.male_queue.is_empty());
    assert!(b.female_queue.is_empty());
    assert_eq!(b.max_use_time, 1200);
    assert_eq!(b.capacity(), 12);
    assert_eq!(b.occupied_cabins(), 0);
    assert!(b.is_empty());
}

#[test]
fn new_bathrooms_get_random_version_four_ids() {
    let a = new_bathroom(Gender::Male, 1, 1);
    let b = new_bathroom(Gender::Male, 1, 1);
    assert_ne!(a.id, b.id);
    for id in [a.id, b.id] {
        assert_eq!((id >> 76) & 0xf, 4);
        assert_eq!((id >> 62) & 0x3, 2);
    }
}

#[test]
fn new_people_get_random_version_four_ids() {
    let p = new_person(Gender::Female);
    let q = new_person(Gender::Female);
    assert_ne!(p.id, q.id);
    assert_eq!((p.id >> 76) & 0xf, 4);
    assert_eq!((p.id >> 62) & 0x3, 2);
    assert_eq!(p.gender, Gender::Female);
    assert_eq!((p.joined_queue_at, p.entered_bathroom_at, p.left_bathroom_at), (None, None, None));
}

#[test]
fn capacity_two_serves_two_and_refuses_the_third() {
    let mut b = bathroom_with_id(1000, Gender::Male, 2, 3600);
    b.enqueue(person_with_id(1, Gender::Male), 10);
    b.enqueue(person_with_id(2, Gender::Male), 11);
    b.enqueue(person_with_id(3, Gender::Male), 12);
    assert_eq!(b.allowed_gender, Gender::Male);
    assert_eq!(ids(&b.male_queue), vec![1, 2, 3]);

    let first = b.allocate_cabin(Gender::Male, 20).unwrap();
    assert_eq!(first.id, 1);
    assert_eq!(first.joined_queue_at, Some(10));
    assert_eq!(first.entered_bathroom_at, Some(20));
    assert_eq!(occupant_ids(&b), vec![Some(1), None]);
    assert_eq!(b.use_count, 1);
    assert_eq!(b.first_user_entered_at, Some(20));

    let second = b.allocate_cabin(Gender::Male, 21).unwrap();
    assert_eq!(second.id, 2);
    assert_eq!(occupant_ids(&b), vec![Some(1), Some(2)]);
    assert_eq!(b.use_count, 2);
    assert_eq!(b.first_user_entered_at, Some(20));

    assert_eq!(b.allocate_cabin(Gender::Male, 22), None);
    assert_eq!(ids(&b.male_queue), vec![3]);
    assert_eq!(b.use_count, 2);
    assert_eq!(occupant_ids(&b), vec![Some(1), Some(2)]);
    assert_eq!(b.occupied_cabins(), 2);
}

#[test]
fn only_the_other_gender_waiting_means_switch() {
    let mut b = bathroom_with_id(1000, Gender::Male, 2, 3600);
    b.female_queue.push(person_with_id(7, Gender::Female));
    b.use_count = 1;
    b.first_user_entered_at = Some(3);
    assert!(b.should_switch_genders());
    b.switch_genders();
    assert_eq!(b.allowed_gender, Gender::Female);
    assert_eq!(b.use_count, 0);
    assert_eq!(b.first_user_entered_at, None);
    assert_eq!(ids(&b.female_queue), vec![7]);
}

#[test]
fn after_the_switch_the_other_gender_is_served() {
    let mut b = bathroom_with_id(1000, Gender::Male, 3, 3600);
    b.female_queue.push(person_with_id(7, Gender::Female));
    assert_eq!(b.allocate_cabin(Gender::Male, 5), None);
    assert_eq!(b.allocate_cabin(Gender::Female, 5), None);
    assert!(b.apply_policy());
    let served = b.allocate_cabin(b.allowed_gender, 6).unwrap();
    assert_eq!(served.id, 7);
    assert_eq!(served.gender, Gender::Female);
    assert_eq!(occupant_ids(&b), vec![Some(7), None, None]);
}

#[test]
fn enqueue_of_the_other_gender_switches_an_idle_bathroom() {
    let mut b = bathroom_with_id(1000, Gender::Male, 2, 3600);
    b.enqueue(person_with_id(7, Gender::Female), 1);
    assert_eq!(b.allowed_gender, Gender::Female);
    assert_eq!(b.female_queue[0].joined_queue_at, Some(1));
    // With nobody of the other gender waiting the turn now stays.
    assert!(!b.should_switch_genders());
}

#[test]
fn no_switch_while_a_cabin_is_occupied() {
    let mut b = bathroom_with_id(1000, Gender::Male, 2, 3600);
    b.enqueue(person_with_id(1, Gender::Male), 0);
    assert_eq!(b.allocate_cabin(Gender::Male, 1).map(|p| p.id), Some(1));
    b.enqueue(person_with_id(7, Gender::Female), 2);
    assert_eq!(b.allowed_gender, Gender::Male);
    assert!(!b.should_switch_genders());
    assert_eq!(b.allocate_cabin(Gender::Female, 3), None);
    b.free_cabin(1);
    assert_eq!(b.allowed_gender, Gender::Female);
    assert_eq!((b.use_count, b.first_user_entered_at), (0, None));
    assert_eq!(b.allocate_cabin(Gender::Female, 4).map(|p| p.id), Some(7));
}

#[test]
fn idle_competition_resets_the_window() {
    let mut b = bathroom_with_id(1000, Gender::Male, 2, 3600);
    b.enqueue(person_with_id(1, Gender::Male), 0);
    b.enqueue(person_with_id(2, Gender::Male), 0);
    b.enqueue(person_with_id(3, Gender::Male), 0);
    assert!(b.allocate_cabin(Gender::Male, 1).is_some());
    assert!(b.allocate_cabin(Gender::Male, 1).is_some());
    assert_eq!((b.use_count, b.first_user_entered_at), (2, Some(1)));
    // Nobody of the other gender waits: the window is reset, the turn stays.
    assert!(!b.should_switch_genders());
    assert_eq!((b.use_count, b.first_user_entered_at), (0, None));
    // The count allows another use, but no cabin is free.
    assert_eq!(b.allocate_cabin(Gender::Male, 2), None);
    b.free_cabin(1);
    let third = b.allocate_cabin(Gender::Male, 3).unwrap();
    assert_eq!(third.id, 3);
    assert_eq!(occupant_ids(&b), vec![Some(3), Some(2)]);
    assert_eq!((b.use_count, b.first_user_entered_at), (1, Some(3)));
}

#[test]
fn the_window_runs_out_of_time() {
    let mut b = bathroom_with_id(1000, Gender::Male, 3, 100);
    b.enqueue(person_with_id(1, Gender::Male), 0);
    b.enqueue(person_with_id(2, Gender::Male), 0);
    b.enqueue(person_with_id(3, Gender::Male), 0);
    b.female_queue.push(person_with_id(7, Gender::Female));
    assert_eq!(b.allocate_cabin(Gender::Male, 50).map(|p| p.id), Some(1));
    assert_eq!(b.elapsed(149), 99);
    assert_eq!(b.allocate_cabin(Gender::Male, 149).map(|p| p.id), Some(2));
    assert_eq!(b.elapsed(150), 100);
    assert_eq!(b.allocate_cabin(Gender::Male, 150), None);
    assert_eq!(b.allocate_cabin(Gender::Male, 10_000), None);
    assert_eq!(ids(&b.male_queue), vec![3]);
    assert_eq!(b.use_count, 2);
}

#[test]
fn a_window_of_no_length_lets_nobody_in() {
    let mut b = bathroom_with_id(1000, Gender::Male, 3, 0);
    b.enqueue(person_with_id(1, Gender::Male), 0);
    assert_eq!(b.allocate_cabin(Gender::Male, 0), None);
    assert_eq!(ids(&b.male_queue), vec![1]);
}

#[test]
fn a_bathroom_without_cabins_lets_nobody_in() {
    let mut b = bathroom_with_id(1000, Gender::Male, 0, 100);
    b.enqueue(person_with_id(1, Gender::Male), 0);
    assert_eq!(b.allocate_cabin(Gender::Male, 0), None);
    assert_eq!(b.occupied_cabins(), 0);
}

#[test]
fn allocate_on_an_empty_queue_changes_nothing() {
    let mut b = bathroom_with_id(1000, Gender::Male, 2, 100);
    assert_eq!(b.allocate_cabin(Gender::Male, 0), None);
    assert_eq!(b.allocate_cabin(Gender::Female, 0), None);
    assert_eq!((b.use_count, b.first_user_entered_at), (0, None));
    assert!(b.is_empty());
}

#[test]
fn the_lowest_free_cabin_is_taken() {
    let mut b = bathroom_with_id(1000, Gender::Female, 3, 1000);
    for id in 1..=4u128 {
        b.enqueue(person_with_id(id, Gender::Female), 0);
    }
    for _ in 0..3 {
        assert!(b.allocate_cabin(Gender::Female, 1).is_some());
    }
    assert_eq!(b.first_free_cabin(), 3);
    b.free_cabin(2);
    assert_eq!(occupant_ids(&b), vec![Some(1), None, Some(3)]);
    assert_eq!(b.first_free_cabin(), 1);
    assert_eq!(b.cabin_of(3), 2);
    assert_eq!(b.cabin_of(2), 3);
    assert!(b.holds(3));
    assert!(!b.holds(2));
    assert_eq!(b.allocate_cabin(Gender::Female, 2).map(|p| p.id), Some(4));
    assert_eq!(occupant_ids(&b), vec![Some(1), Some(4), Some(3)]);
}

#[test]
fn people_are_served_in_the_order_of_arrival() {
    let mut b = bathroom_with_id(1000, Gender::Female, 5, 1000);
    for id in [30u128, 10, 20, 50, 40] {
        b.enqueue(person_with_id(id, Gender::Female), 0);
    }
    let mut served = Vec::new();
    while let Some(p) = b.allocate_cabin(Gender::Female, 1) {
        served.push(p.id);
    }
    assert_eq!(served, vec![30, 10, 20, 50, 40]);
}

#[test]
fn occupied_cabins_never_exceed_the_capacity() {
    let mut b = bathroom_with_id(1000, Gender::Male, 3, 50);
    let mut inside: Vec<u128> = Vec::new();
    for step in 0..200u64 {
        let gender = if step % 3 == 0 { Gender::Female } else { Gender::Male };
        b.enqueue(person_with_id(step as u128, gender), step);
        b.apply_policy();
        if let Some(p) = b.allocate_cabin(b.allowed_gender, step) {
            inside.push(p.id);
        }
        if step % 2 == 1 && !inside.is_empty() {
            let leaving = inside.remove(0);
            assert!(b.holds(leaving));
            b.free_cabin(leaving);
        }
        assert!(b.occupied_cabins() <= b.capacity());
        assert_eq!(b.capacity(), 3);
        assert_eq!(b.occupied_cabins(), inside.len());
        assert!(b.use_count <= b.capacity());
        assert!(nobody_queued_and_inside(&b));
        assert!(b.cabins.iter().flatten().all(|p| p.gender == b.allowed_gender));
    }
}

#[test]
fn snapshot_is_an_equal_and_independent_copy() {
    let mut b = bathroom_with_id(1000, Gender::Male, 2, 100);
    b.enqueue(person_with_id(1, Gender::Male), 0);
    b.enqueue(person_with_id(2, Gender::Male), 0);
    assert!(b.allocate_cabin(Gender::Male, 1).is_some());
    let copy = b.snapshot();
    assert_eq!(copy.id, 1000);
    assert_eq!(occupant_ids(&copy), vec![Some(1), None]);
    assert_eq!(ids(&copy.male_queue), vec![2]);
    assert_eq!((copy.use_count, copy.first_user_entered_at, copy.max_use_time), (1, Some(1), 100));
    assert!(b.allocate_cabin(Gender::Male, 2).is_some());
    assert_eq!(ids(&copy.male_queue), vec![2]);
    assert_eq!(b.queue_len(Gender::Male), 0);
}

#[test]
fn gender_helpers() {
    assert_eq!(Gender::Male.other(), Gender::Female);
    assert_eq!(Gender::Female.other(), Gender::Male);
    assert_eq!(Gender::Male.label(), "Male");
    assert_eq!(Gender::Female.label(), "Female");
    assert_eq!(Gender::from_coin(true), Gender::Female);
    assert_eq!(Gender::from_coin(false), Gender::Male);
}
