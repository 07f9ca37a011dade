use stellar::english::{all_of, one_of, ordinal, PluralizeExt};

#[test]
fn test_display() {
    let test_cases = vec![
        (-4, "-4th"),
        (-3, "-3rd"),
        (-2, "-2nd"),
        (-1, "-1st"),
        (0, "0th"),
        (1, "1st"),
        (2, "2nd"),
        (3, "3rd"),
        (4, "4th"),
        (10, "10th"),
        (11, "11th"),
        (12, "12th"),
        (13, "13th"),
        (14, "14th"),
        (20, "20th"),
        (21, "21st"),
        (22, "22nd"),
        (23, "23rd"),
        (24, "24th"),
        (100, "100th"),
        (101, "101st"),
        (102, "102nd"),
        (103, "103rd"),
        (104, "104th"),
        (110, "110th"),
        (111, "111th"),
        (112, "112th"),
        (113, "113th"),
        (114, "114th"),
        (120, "120th"),
        (121, "121st"),
        (122, "122nd"),
        (123, "123rd"),
        (124, "124th"),
    ];

    for case in test_cases {
        assert_eq!(ordinal(case.0).to_string(), case.1);
    }
}

#[test]
fn ordinal_suffix_alone() {
    assert_eq!(ordinal(2).suffix(), "nd");
    assert_eq!(ordinal(12).suffix(), "th");
    assert_eq!(ordinal(-21).suffix(), "st");
}

#[test]
fn pluralize_examples() {
    assert_eq!("cat".pluralize(), "cats".to_owned());
    assert_eq!("bee".to_owned().pluralize(), "bees".to_owned());
    assert_eq!("index".pluralize(), "indices".to_owned());
}

#[test]
fn enumerations() {
    let one = vec!["a".to_owned()];
    let two = vec!["a".to_owned(), "b".to_owned()];
    let three = vec!["a".to_owned(), "b".to_owned(), "c".to_owned()];
    assert_eq!(one_of(&one), "a");
    assert_eq!(one_of(&two), "a or b");
    assert_eq!(one_of(&three), "a, b, or c");
    assert_eq!(all_of(&two), "a and b");
    assert_eq!(all_of(&three), "a, b, and c");
}
