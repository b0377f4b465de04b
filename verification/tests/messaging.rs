use duel_bot::messaging::{format_list, list_with_title, separator_str, ItemSeparator};

#[test]
fn test_format_list() {
    assert_eq!("None", format_list::<String>(&vec![], ItemSeparator::Dash));
    assert_eq!(
        "a b c",
        format_list(&vec!["a", "b", "c"], ItemSeparator::Space)
    );
    assert_eq!(
        "a, b, c",
        format_list(&vec!["a", "b", "c"], ItemSeparator::Comma)
    );
    assert_eq!(
        " - a - b - c",
        format_list(&vec!["a", "b", "c"], ItemSeparator::Dash)
    );
}

#[test]
fn test_list_with_title() {
    assert_eq!(
        "Entries: None",
        list_with_title::<String>("Entries:", &vec![], ItemSeparator::Space)
    );
    assert_eq!(
        "Entries: a b c",
        list_with_title("Entries:", &vec!["a", "b", "c"], ItemSeparator::Space)
    );
    assert_eq!(
        "Entries: a, b, c",
        list_with_title("Entries:", &vec!["a", "b", "c"], ItemSeparator::Comma)
    );
}

#[test]
fn gold_star_separator_leads_the_list() {
    assert_eq!(" \u{2b50} ", separator_str(&ItemSeparator::GoldStar));
    assert_eq!(
        " \u{2b50} a \u{2b50} b",
        format_list(&vec!["a".to_string(), "b".to_string()], ItemSeparator::GoldStar)
    );
}
