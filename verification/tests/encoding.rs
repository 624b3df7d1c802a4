use qbit::encode::{bool_str, i64_text, join_strings, u64_text};

#[test]
fn decimal_values() {
    assert_eq!(u64_text(0), "0");
    assert_eq!(u64_text(7), "7");
    assert_eq!(u64_text(10), "10");
    assert_eq!(u64_text(1234567890), "1234567890");
    assert_eq!(u64_text(u64::MAX), "18446744073709551615");
    assert_eq!(i64_text(0), "0");
    assert_eq!(i64_text(-1), "-1");
    assert_eq!(i64_text(-2), "-2");
    assert_eq!(i64_text(i64::MAX), "9223372036854775807");
    assert_eq!(i64_text(i64::MIN), "-9223372036854775808");
}

#[test]
fn decimal_reads_back_as_the_same_number() {
    for n in [0u64, 1, 9, 10, 99, 100, 65535, 4294967296, u64::MAX] {
        assert_eq!(u64_text(n).parse::<u64>().unwrap(), n);
    }
    for n in [0i64, -1, 1, -10, 123456, i64::MIN, i64::MAX] {
        assert_eq!(i64_text(n).parse::<i64>().unwrap(), n);
    }
}

#[test]
fn bools_as_words() {
    assert_eq!(bool_str(true), "true");
    assert_eq!(bool_str(false), "false");
}

#[test]
fn join_values() {
    let v: Vec<String> = vec![];
    assert_eq!(join_strings(&v, "|"), "");
    assert_eq!(join_strings(&vec!["a".to_string()], "|"), "a");
    assert_eq!(join_strings(&vec!["a".to_string(), "".to_string(), "c".to_string()], ", "), "a, , c");
}

#[test]
fn joined_hashes_split_back() {
    let hashes: Vec<String> = vec!["8c2a".into(), "".into(), "ff00".into()];
    let joined = join_strings(&hashes, "|");
    let back: Vec<String> = joined.split('|').map(|s| s.to_string()).collect();
    assert_eq!(back, hashes);
    let one: Vec<String> = vec!["abc".into()];
    let back: Vec<String> = join_strings(&one, "|").split('|').map(|s| s.to_string()).collect();
    assert_eq!(back, one);
}
