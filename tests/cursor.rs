use litho::text::{parse_i32, parse_u32};
use litho::{date_from_names, last_entry, CursorStep, DateCursor, YearMonthDay};

/// The names directly under `dir` in a tree given as paths of directories;
/// `None` where `dir` is not in the tree.
fn list(tree: &[&str], dir: &[String]) -> Option<Vec<String>> {
    let prefix: Vec<&str> = dir.iter().map(|s| s.as_str()).collect();
    let mut found = dir.is_empty();
    let mut names: Vec<String> = Vec::new();
    for path in tree {
        let parts: Vec<&str> = path.split('/').collect();
        if parts.len() >= prefix.len() && parts[..prefix.len()] == prefix[..] {
            found = true;
            if parts.len() > prefix.len() {
                let n = parts[prefix.len()].to_string();
                if !names.contains(&n) {
                    names.push(n);
                }
            }
        }
    }
    if found {
        Some(names)
    } else {
        None
    }
}

fn most_recent(tree: &[&str], root: Option<()>) -> Option<YearMonthDay> {
    let mut cursor = DateCursor::new();
    let mut dir: Vec<String> = Vec::new();
    loop {
        let listing = match root {
            Some(()) => list(tree, &dir),
            None => None,
        };
        match cursor.step(listing) {
            CursorStep::Descend(name) => dir.push(name),
            CursorStep::Found(d) => return Some(d),
            CursorStep::Missing => return None,
        }
    }
}

#[test]
fn test_most_recent() {
    let tree = ["2023/09/30", "2023/09/29", "2023/08/30", "2022/07/28"];
    let result = most_recent(&tree, Some(())).unwrap();
    let expected = YearMonthDay { year: 2023, month: 9, day: 30 };
    assert_eq!(expected, result);
}

#[test]
fn test_most_recent_empty() {
    let result = most_recent(&[], Some(()));
    assert_eq!(None, result);
}

#[test]
fn most_recent_of_missing_root() {
    assert_eq!(None, most_recent(&["2023/09/30"], None));
}

#[test]
fn most_recent_with_an_empty_month() {
    assert_eq!(None, most_recent(&["2023/09/30", "2023/10"], Some(())));
}

#[test]
fn most_recent_of_non_numeric_names() {
    assert_eq!(None, most_recent(&["2023/09/notes"], Some(())));
}

#[test]
fn cursor_descends_year_then_month() {
    let mut cursor = DateCursor::new();
    let years = vec![String::from("2021"), String::from("2023"), String::from("2022")];
    match cursor.step(Some(years)) {
        CursorStep::Descend(n) => assert_eq!("2023", n),
        _ => panic!("expected to descend"),
    }
    match cursor.step(Some(vec![String::from("01"), String::from("12")])) {
        CursorStep::Descend(n) => assert_eq!("12", n),
        _ => panic!("expected to descend"),
    }
    match cursor.step(Some(vec![String::from("31"), String::from("05")])) {
        CursorStep::Found(d) => assert_eq!(YearMonthDay { year: 2023, month: 12, day: 31 }, d),
        _ => panic!("expected a day"),
    }
}

#[test]
fn last_entry_is_lexicographic_max() {
    let names = vec![
        String::from("2022"),
        String::from("2023"),
        String::from("2023-old"),
        String::from("1999"),
    ];
    assert_eq!(Some(&String::from("2023-old")), last_entry(&names));
    assert_eq!(None, last_entry(&Vec::new()));
    let single = vec![String::from("07")];
    assert_eq!(Some(&String::from("07")), last_entry(&single));
}

#[test]
fn date_names_parse_as_numbers() {
    assert_eq!(
        Some(YearMonthDay { year: 2023, month: 9, day: 30 }),
        date_from_names("2023", "09", "30")
    );
    assert_eq!(
        Some(YearMonthDay { year: -44, month: 3, day: 15 }),
        date_from_names("-44", "03", "15")
    );
    assert_eq!(
        Some(YearMonthDay { year: 2023, month: 2, day: 31 }),
        date_from_names("2023", "02", "31")
    );
    assert_eq!(None, date_from_names("2023", "x", "30"));
    assert_eq!(None, date_from_names("", "09", "30"));
}

#[test]
fn integer_text_like_from_str() {
    for s in ["0", "+7", "4294967295", "4294967296", "-1", "", "+", "12a", "007"] {
        assert_eq!(s.parse::<u32>().ok(), parse_u32(s), "u32 {}", s);
    }
    for s in [
        "0", "-0", "+7", "-7", "2147483647", "2147483648", "-2147483648", "-2147483649", "-", "+-1",
        "99999999999",
    ] {
        assert_eq!(s.parse::<i32>().ok(), parse_i32(s), "i32 {}", s);
    }
}
