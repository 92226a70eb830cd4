use suggested_issues::decimal::usize_to_decimal;
use suggested_issues::model::Issue;
use suggested_issues::model::Repository;

#[test]
fn repository_displays_as_owner_slash_name() {
    assert_eq!(Repository::new("a", "b").to_string(), "a/b");
}

#[test]
fn repository_display_keeps_full_components() {
    assert_eq!(Repository::new("rust-lang", "rust").to_string(), "rust-lang/rust");
}

#[test]
fn issue_displays_with_repo_number_and_title() {
    let issue = Issue {
        repo: Repository { owner: "rust-lang".to_string(), name: "rust".to_string() },
        number: 42,
        title: "Fix bug".to_string(),
    };
    assert_eq!(issue.to_string(), "[rust-lang/rust] #42: Fix bug");
}

#[test]
fn issue_display_single_digit_number() {
    let issue = Issue {
        repo: Repository { owner: "o".to_string(), name: "n".to_string() },
        number: 1,
        title: "t".to_string(),
    };
    assert_eq!(issue.to_string(), "[o/n] #1: t");
}

#[test]
fn decimal_renders_zero() {
    assert_eq!(usize_to_decimal(0), "0");
}

#[test]
fn decimal_renders_multi_digit_numbers() {
    assert_eq!(usize_to_decimal(42), "42");
    assert_eq!(usize_to_decimal(10), "10");
    assert_eq!(usize_to_decimal(1234567890), "1234567890");
}

#[test]
fn decimal_renders_largest_value() {
    assert_eq!(usize_to_decimal(usize::MAX), usize::MAX.to_string());
}
