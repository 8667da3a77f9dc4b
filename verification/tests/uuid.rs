use helpers::uuid::{
    is_valid_alphabet, join_segments, nanoid, nanoid_segmented, uuid_v4, uuid_v5, Alphabet, Uuid,
    NAMESPACE_DNS,
};

#[test]
fn test_nanoid() {
    // test pure number
    let numbers = nanoid(&Alphabet::NUMBERS, 8);
    println!("Numbers only: {}", numbers);

    // test lowercase
    let lower = nanoid(&Alphabet::LOWER, 8);
    println!("Lowercase only: {}", lower);

    // test uppercase
    let upper = nanoid(&Alphabet::UPPER, 8);
    println!("Uppercase only: {}", upper);

    // numbers + lowercase
    let numbers_lower = nanoid(&Alphabet::NUMBERS_LOWER, 8);
    println!("Numbers and Lowercase: {}", numbers_lower);

    // test safety character
    let safe = nanoid(&Alphabet::SAFE, 8);
    println!("Safe chars: {}", safe);

    // test the default character set
    let default = nanoid(&Alphabet::DEFAULT, 8);
    println!("Default chars: {}", default);

    // test the delimited UUID
    let segmented1 = nanoid_segmented(&Alphabet::DEFAULT, 15, '-', 3);
    println!("Segmented UUID (3 parts): {}", segmented1);

    let segmented2 = nanoid_segmented(&Alphabet::SAFE, 16, '~', 5);
    println!("Segmented UUID (5 parts): {}", segmented2);
}

#[test]
fn test_uuid_v4() {
    let uuid = uuid_v4();
    let outside = uuid::Uuid::from_bytes(uuid.into_bytes());
    assert_eq!(Some(uuid::Version::Random), outside.get_version());
    println!("{}", uuid.hyphenated());
}

#[test]
fn test_uuid_v5() {
    let name = b"example.com";
    let uuid = uuid_v5(name);
    assert_eq!(uuid_v5(name), uuid);
}

#[test]
fn alphabets_hold_the_documented_symbols() {
    assert_eq!(Alphabet::NUMBERS.iter().collect::<String>(), "0123456789");
    assert_eq!(Alphabet::LOWER.iter().collect::<String>(), "abcdefghijklmnopqrstuvwxyz");
    assert_eq!(Alphabet::UPPER.iter().collect::<String>(), "ABCDEFGHIJKLMNOPQRSTUVWXYZ");
    assert_eq!(
        Alphabet::NUMBERS_LOWER.iter().collect::<String>(),
        "0123456789abcdefghijklmnopqrstuvwxyz"
    );
    assert_eq!(
        Alphabet::NUMBERS_UPPER.iter().collect::<String>(),
        "0123456789ABCDEFGHIJKLMNOPQRSTUVWXYZ"
    );
    assert_eq!(
        Alphabet::NUMBERS_LOWER_UPPER.iter().collect::<String>(),
        "0123456789abcdefghijklmnopqrstuvwxyzABCDEFGHIJKLMNOPQRSTUVWXYZ"
    );
    assert_eq!(Alphabet::SAFE.iter().collect::<String>(), "23456789ABCDEFGHJKMNPQRSTWXYZabc");
    assert_eq!(Alphabet::DEFAULT, Alphabet::NUMBERS_LOWER_UPPER);
}

#[test]
fn is_valid_alphabet_asks_for_one_to_255_symbols() {
    assert!(is_valid_alphabet(&Alphabet::NUMBERS));
    assert!(is_valid_alphabet(&Alphabet::LOWER));
    assert!(is_valid_alphabet(&Alphabet::UPPER));
    assert!(is_valid_alphabet(&Alphabet::NUMBERS_LOWER));
    assert!(is_valid_alphabet(&Alphabet::NUMBERS_UPPER));
    assert!(is_valid_alphabet(&Alphabet::NUMBERS_LOWER_UPPER));
    assert!(is_valid_alphabet(&Alphabet::SAFE));
    assert!(is_valid_alphabet(&Alphabet::DEFAULT));
    assert!(is_valid_alphabet(&['\0']));
    assert!(is_valid_alphabet(&['a', 'é', '語', '🦀']));
    assert!(!is_valid_alphabet(&[]));
    assert!(is_valid_alphabet(&vec!['a'; 255]));
    assert!(!is_valid_alphabet(&vec!['a'; 256]));
}

#[test]
fn nanoid_of_no_symbols_is_empty() {
    assert_eq!(nanoid(&['a'], 0), "");
    assert_eq!(nanoid(&Alphabet::DEFAULT, 0), "");
    assert_eq!(nanoid(&[], 0), "");
    assert_eq!(nanoid(&vec!['x'; 300], 0), "");
}

#[test]
fn nanoid_counts_symbols_of_any_length() {
    assert_eq!(nanoid(&['é'], 2), "éé");
    assert_eq!(nanoid(&['é'], 1), "é");
    assert_eq!(nanoid(&['🦀'], 3), "🦀🦀🦀");
    let mixed = ['a', 'é', '語', '🦀'];
    for length in [1usize, 2, 3, 7, 40] {
        let id = nanoid(&mixed, length);
        assert_eq!(id.chars().count(), length);
        assert!(id.chars().all(|c| mixed.contains(&c)));
    }
    let mut seen = std::collections::BTreeSet::new();
    for _ in 0..200 {
        seen.extend(nanoid(&mixed, 8).chars());
    }
    assert_eq!(seen.len(), 4);
}

#[test]
fn nanoid_draws_from_every_position_of_a_large_alphabet() {
    let large: Vec<char> = (0..255u32).map(|k| char::from_u32(0x4e00 + k).unwrap()).collect();
    let id = nanoid(&large, 50);
    assert_eq!(id.chars().count(), 50);
    assert!(id.chars().all(|c| large.contains(&c)));
    let mut seen = std::collections::BTreeSet::new();
    for _ in 0..100 {
        seen.extend(nanoid(&large, 200).chars());
    }
    assert_eq!(seen.len(), 255);
    assert!(seen.contains(&large[0]) && seen.contains(&large[254]));
    let edge: Vec<char> = (0..129u32).map(|k| char::from_u32(0x100 + k).unwrap()).collect();
    let mut seen = std::collections::BTreeSet::new();
    for _ in 0..100 {
        seen.extend(nanoid(&edge, 200).chars());
    }
    assert_eq!(seen.len(), 129);
    let full: Vec<char> = (0..128u32).map(|k| char::from_u32(0x100 + k).unwrap()).collect();
    let mut seen = std::collections::BTreeSet::new();
    for _ in 0..100 {
        seen.extend(nanoid(&full, 200).chars());
    }
    assert_eq!(seen.len(), 128);
    let repeated = vec!['z'; 200];
    assert_eq!(nanoid(&repeated, 5), "zzzzz");
}

#[test]
fn nanoid_segmented_with_more_groups_than_symbols() {
    assert_eq!(nanoid_segmented(&['a'], 2, '-', 3), "--aa");
    assert_eq!(nanoid_segmented(&['a'], 0, '-', 3), "--");
    assert_eq!(nanoid_segmented(&['a'], 0, '-', 1), "");
    assert_eq!(nanoid_segmented(&[], 0, '/', 2), "/");
    assert_eq!(nanoid_segmented(&['é'], 5, '-', 2), "éé-ééé");
    assert_eq!(nanoid_segmented(&['b'], 1, '.', 4), "...b");
    assert_eq!(nanoid_segmented(&['-'], 3, '-', 2), "----");
}

#[test]
fn nanoid_has_the_length_and_the_symbols_asked_for() {
    for length in [1usize, 2, 5, 8, 21, 64, 255] {
        let id = nanoid(&Alphabet::SAFE, length);
        assert_eq!(id.chars().count(), length);
        assert!(id.chars().all(|c| Alphabet::SAFE.contains(&c)));
    }
    let ones = nanoid(&['x'], 12);
    assert_eq!(ones, "xxxxxxxxxxxx");
    let pair = nanoid(&['a', 'b'], 40);
    assert_eq!(pair.len(), 40);
    assert!(pair.chars().all(|c| c == 'a' || c == 'b'));
}

#[test]
fn nanoid_segmented_splits_with_remainder_in_last_group() {
    let id = nanoid_segmented(&Alphabet::SAFE, 16, '~', 5);
    let groups: Vec<&str> = id.split('~').collect();
    assert_eq!(groups.len(), 5);
    assert_eq!(groups.iter().map(|g| g.len()).collect::<Vec<usize>>(), vec![3, 3, 3, 3, 4]);
    assert_eq!(groups.iter().map(|g| g.len()).sum::<usize>(), 16);
    assert_eq!(id.chars().count(), 16 + 4);
    assert!(groups.iter().all(|g| g.chars().all(|c| Alphabet::SAFE.contains(&c))));
}

#[test]
fn nanoid_segmented_even_split() {
    let id = nanoid_segmented(&Alphabet::DEFAULT, 15, '-', 3);
    let groups: Vec<&str> = id.split('-').collect();
    assert_eq!(groups.iter().map(|g| g.len()).collect::<Vec<usize>>(), vec![5, 5, 5]);
    assert_eq!(id.len(), 17);
}

#[test]
fn nanoid_segmented_edges() {
    let single = nanoid_segmented(&Alphabet::NUMBERS, 7, '-', 1);
    assert_eq!(single.len(), 7);
    assert!(single.chars().all(|c| c.is_ascii_digit()));
    let ones = nanoid_segmented(&Alphabet::NUMBERS, 4, '-', 4);
    assert_eq!(ones.len(), 7);
    assert_eq!(ones.split('-').map(|g| g.len()).collect::<Vec<usize>>(), vec![1, 1, 1, 1]);
    let tail = nanoid_segmented(&Alphabet::LOWER, 7, '/', 4);
    assert_eq!(tail.split('/').map(|g| g.len()).collect::<Vec<usize>>(), vec![1, 1, 1, 4]);
}

#[test]
fn join_segments_puts_separator_between_neighbours() {
    let parts = vec!["ab".to_string(), "c".to_string(), "".to_string(), "def".to_string()];
    assert_eq!(join_segments(&parts, '-'), "ab-c--def");
    assert_eq!(join_segments(&vec!["solo".to_string()], '-'), "solo");
    assert_eq!(join_segments(&Vec::new(), '-'), "");
    assert_eq!(join_segments(&parts, '-'), parts.join("-"));
}

#[test]
fn namespace_is_that_of_the_wrapped_crate() {
    assert_eq!(&NAMESPACE_DNS, uuid::Uuid::NAMESPACE_DNS.as_bytes());
}

#[test]
fn uuid_v5_known_identifiers() {
    let id = uuid_v5(b"example.org");
    assert_eq!(
        uuid::Uuid::from_bytes(id.into_bytes()).to_string(),
        "aad03681-8b63-5304-89e0-8ca8f49461b5"
    );
    assert_eq!(id.get_version_num(), 5);
    assert_eq!(id.bytes[8] & 0xc0, 0x80);
    assert_ne!(uuid_v5(b"example.org"), uuid_v5(b"example.com"));
    let lang = uuid_v5(b"rust-lang.org");
    assert_eq!(
        uuid::Uuid::from_bytes(lang.into_bytes()).to_string(),
        "c66bbb60-d62e-5f17-a399-3a0bd237c503"
    );
}

#[test]
fn uuid_v4_differs_from_call_to_call() {
    let first = uuid_v4();
    let second = uuid_v4();
    assert_ne!(first, second);
    assert_eq!(first.get_version_num(), 4);
    assert_eq!(first.bytes[8] & 0xc0, 0x80);
    assert_eq!(second.bytes[6] & 0xf0, 0x40);
}

#[test]
fn hyphenated_writes_five_groups() {
    let bytes = [
        0x6b, 0xa7, 0xb8, 0x10, 0x9d, 0xad, 0x11, 0xd1, 0x80, 0xb4, 0x00, 0xc0, 0x4f, 0xd4, 0x30,
        0xc8,
    ];
    assert_eq!(Uuid::from_bytes(bytes).hyphenated(), "6ba7b810-9dad-11d1-80b4-00c04fd430c8");
    assert_eq!(uuid_v5(b"42").hyphenated(), "7c411b5e-9d3f-50b5-9c28-62096e41c4ed");
    let random = uuid_v4();
    assert_eq!(random.hyphenated(), uuid::Uuid::from_bytes(random.into_bytes()).to_string());
    assert_eq!(random.hyphenated().len(), 36);
}

#[test]
fn uuid_bytes_round_trip() {
    let bytes = [0u8, 1, 2, 3, 4, 5, 0x6f, 7, 8, 9, 10, 11, 12, 13, 14, 15];
    let id = Uuid::from_bytes(bytes);
    assert_eq!(id.into_bytes(), bytes);
    assert_eq!(id.get_version_num(), 6);
    assert_eq!(id.get_version_num(), uuid::Uuid::from_bytes(bytes).get_version_num());
}
