use lrs::filesystem::order::stable_order;
use lrs::filesystem::{FileInfo, FileType, SortType, SortedFileInfoCollection};

fn entry(name: &str) -> FileInfo {
    FileInfo::new(name.to_string(), None, None, None, 0, FileType::Normal)
}

fn sorted_names(names: &[&str]) -> Vec<String> {
    let files: Vec<FileInfo> = names.iter().map(|n| entry(n)).collect();
    let order = files.sorted_files(SortType::Name);
    order.iter().map(|i| files[*i].name.clone()).collect()
}

#[test]
fn sort_ignores_case() {
    assert_eq!(sorted_names(&["b.txt", "A.txt", "c"]), vec!["A.txt", "b.txt", "c"]);
    assert_eq!(sorted_names(&["Zeta", "alpha", "Beta"]), vec!["alpha", "Beta", "Zeta"]);
}

#[test]
fn sort_keeps_equal_keys_in_order() {
    assert_eq!(sorted_names(&["readme", "README", "ReadMe"]), vec!["readme", "README", "ReadMe"]);
    assert_eq!(sorted_names(&["README", "a", "readme"]), vec!["a", "README", "readme"]);
    assert_eq!(sorted_names(&["b", "B", "a", "A"]), vec!["a", "A", "b", "B"]);
}

#[test]
fn sort_is_a_permutation() {
    let files: Vec<FileInfo> =
        ["d", "a", "c", "b", "a", "D"].iter().map(|n| entry(n)).collect();
    let order = files.sorted_files(SortType::Name);
    assert_eq!(order, vec![1, 4, 3, 2, 0, 5]);
    let mut seen = order.clone();
    seen.sort();
    assert_eq!(seen, vec![0, 1, 2, 3, 4, 5]);
}

#[test]
fn sort_of_nothing_is_nothing() {
    let files: Vec<FileInfo> = Vec::new();
    assert!(files.sorted_files(SortType::Name).is_empty());
}

#[test]
fn sort_lowers_letters_beyond_ascii() {
    assert_eq!(sorted_names(&["\u{c9}b", "\u{e9}a"]), vec!["\u{e9}a", "\u{c9}b"]);
    assert_eq!(sorted_names(&["_x", "X", "a"]), vec!["_x", "a", "X"]);
}

#[test]
fn positions_are_ordered_by_their_keys() {
    let keys: Vec<Vec<char>> =
        ["pear", "apple", "fig", "apple", ""].iter().map(|k| k.chars().collect()).collect();
    assert_eq!(stable_order(&keys), vec![4, 1, 3, 2, 0]);
    let mut seed: u64 = 7;
    let mut keys: Vec<Vec<char>> = Vec::new();
    for _ in 0..200 {
        seed = seed.wrapping_mul(6364136223846793005).wrapping_add(1442695040888963407);
        let len = (seed >> 60) as usize % 4;
        let key: Vec<char> =
            (0..len).map(|i| (b'a' + ((seed >> (8 * i)) % 3) as u8) as char).collect();
        keys.push(key);
    }
    let order = stable_order(&keys);
    let mut expected: Vec<usize> = (0..keys.len()).collect();
    expected.sort_by_key(|i| keys[*i].iter().collect::<String>());
    assert_eq!(order, expected);
}
