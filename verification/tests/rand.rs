use helpers::modules::rand::generate_random_between_limits;
use helpers::rand::{min_max, random_bool, random_choice, shuffle};

#[test]
fn mod_it_works() {
    println!("{}", generate_random_between_limits(1..10));
}

#[test]
fn rand_it_works() {
    println!("{}", min_max(1, 10));
    println!("{}", random_bool());
    if let Some(choice) = random_choice(&vec![1, 2, 3, 4, 5]) {
        println!("Random choice: {}", choice);
    }
    let mut nums = vec![1, 2, 3, 4, 5];
    shuffle(&mut nums);
    println!("Shuffled array: {:?}", nums);
}

#[test]
fn min_max_stays_in_range() {
    for _ in 0..200 {
        let value = min_max(-3, 4);
        assert!((-3..=4).contains(&value));
    }
    assert_eq!(min_max(7, 7), 7);
    assert_eq!(min_max(i32::MIN, i32::MIN), i32::MIN);
    let wide = min_max(i32::MIN, i32::MAX);
    assert!(i32::MIN <= wide);
}

#[test]
fn generate_random_between_limits_excludes_the_end() {
    for _ in 0..200 {
        let value = generate_random_between_limits(1..10);
        assert!((1..10).contains(&value));
    }
    assert_eq!(generate_random_between_limits(5..6), 5);
}

#[test]
fn random_bool_gives_both_values() {
    let mut seen_true = false;
    let mut seen_false = false;
    for _ in 0..400 {
        if random_bool() {
            seen_true = true;
        } else {
            seen_false = true;
        }
    }
    assert!(seen_true && seen_false);
}

#[test]
fn random_choice_picks_an_element() {
    let fruits = vec!["apple", "banana", "cherry"];
    for _ in 0..50 {
        let chosen = random_choice(&fruits).unwrap();
        assert!(fruits.contains(chosen));
    }
    let empty: Vec<i32> = Vec::new();
    assert_eq!(random_choice(&empty), None);
    assert_eq!(random_choice(&[9]), Some(&9));
}

#[test]
fn shuffle_keeps_the_values() {
    let mut nums: Vec<u32> = (0..100).collect();
    shuffle(&mut nums);
    assert_eq!(nums.len(), 100);
    let mut sorted = nums.clone();
    sorted.sort();
    assert_eq!(sorted, (0..100).collect::<Vec<u32>>());
    assert_ne!(nums, (0..100).collect::<Vec<u32>>());
    let mut repeated = vec![1, 1, 2, 2, 2];
    shuffle(&mut repeated);
    repeated.sort();
    assert_eq!(repeated, vec![1, 1, 2, 2, 2]);
    let mut empty: Vec<u8> = Vec::new();
    shuffle(&mut empty);
    assert!(empty.is_empty());
    let mut one = vec![5];
    shuffle(&mut one);
    assert_eq!(one, vec![5]);
}
