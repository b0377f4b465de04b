use duel_bot::commands::helpers::parse_username;
use duel_bot::commands::without_at;
use duel_bot::duel::normalize;
use duel_bot::helpers::{relative_time_between, relative_time_string, whole_units};
use duel_bot::messaging::{classify, leading_word, Command};
use duel_bot::state::make_key;
use duel_bot::text::{
    chars_of, decimal_string, digit_of, join_from, parse_i32, split, string_of, trim,
};

const SECOND: i64 = 1_000_000;
const MINUTE: i64 = 60 * SECOND;
const HOUR: i64 = 60 * MINUTE;
const DAY: i64 = 24 * HOUR;

#[test]
fn integers_are_read_as_std_reads_them() {
    for text in [
        "0", "7", "42", "+42", "-42", "-0", "+0", "007", "2147483647", "-2147483648",
        "2147483648", "-2147483649", "99999999999999999999", "", "+", "-", " 1", "1 ", "1.0",
        "1e3", "--1", "+-1", "٣", "1_000", "0x10", "a",
    ] {
        assert_eq!(parse_i32(text), text.parse::<i32>().ok(), "{:?}", text);
    }
    assert_eq!(parse_i32("2147483647"), Some(i32::MAX));
    assert_eq!(parse_i32("-2147483648"), Some(i32::MIN));
    assert_eq!(parse_i32("2147483648"), None);
    assert_eq!(parse_i32("+"), None);
    assert_eq!(parse_i32("-007"), Some(-7));
}

#[test]
fn digits_have_their_values() {
    assert_eq!(digit_of('0'), Some(0));
    assert_eq!(digit_of('9'), Some(9));
    assert_eq!(digit_of('a'), None);
    assert_eq!(digit_of('٣'), None);
}

#[test]
fn integers_are_written_in_base_ten() {
    for n in [0, 1, 9, 10, 11, 100, 12345, -1, -10, -999, i64::MAX, i64::MIN, i64::MIN + 1] {
        assert_eq!(decimal_string(n), n.to_string());
    }
    assert_eq!(decimal_string(i64::MIN), "-9223372036854775808");
    assert_eq!(decimal_string(-5), "-5");
}

#[test]
fn text_is_split_at_every_separator() {
    for text in ["", " ", "a", "a b", "a  b", " a", "a ", "!duel @Bob 100", "  ", "ä ß ", "a|b"] {
        let expected: Vec<String> = text.split(' ').map(|s| s.to_string()).collect();
        assert_eq!(split(text, ' '), expected, "{:?}", text);
    }
    assert_eq!(split("q | a | 3", '|'), vec!["q ", " a ", " 3"]);
    assert_eq!(split("", ' '), vec![""]);
    assert_eq!(split("a  b", ' '), vec!["a", "", "b"]);
}

#[test]
fn pieces_are_joined_with_the_separator() {
    let words = split("!answer the  walking dead", ' ');
    assert_eq!(join_from(&words, 1, " "), "the  walking dead");
    assert_eq!(join_from(&words, 0, " "), "!answer the  walking dead");
    assert_eq!(join_from(&words, 4, ", "), "dead");
    assert_eq!(join_from(&words, 5, " "), "");
    assert_eq!(join_from(&words, 3, ", "), "walking, dead");
}

#[test]
fn white_space_is_trimmed_at_both_ends() {
    for text in ["", " ", "a", " a ", "\t a b \n", "\u{a0}x\u{3000}", "  ", "a  b", "\u{200b}a"] {
        assert_eq!(trim(text), text.trim(), "{:?}", text);
    }
    assert_eq!(trim("  star wars \r\n"), "star wars");
}

#[test]
fn answers_are_normalized() {
    assert_eq!(normalize("  Star WARS "), "star wars");
    assert_eq!(normalize("ÄÖ"), "äö");
    assert_eq!(normalize(""), "");
}

#[test]
fn strings_and_characters_convert_both_ways() {
    let v = chars_of("héllo");
    assert_eq!(v, vec!['h', 'é', 'l', 'l', 'o']);
    assert_eq!(string_of(&v, 1, 4), "éll");
    assert_eq!(string_of(&v, 0, 5), "héllo");
    assert_eq!(string_of(&v, 2, 2), "");
}

#[test]
fn pair_keys_are_lower_case() {
    assert_eq!(make_key("Bob", "Alice"), "bobalice");
    assert_eq!(make_key("BOB", "aLiCe"), "bobalice");
    assert_eq!(make_key("", "X"), "x");
    assert_eq!(make_key("Ärger", "ÖL"), "ärgeröl");
}

#[test]
fn the_at_sign_is_taken_off_names() {
    assert_eq!(without_at("@Bob"), "Bob");
    assert_eq!(without_at("Bob"), "Bob");
    assert_eq!(without_at("@"), "");
    assert_eq!(without_at(""), "");
    assert_eq!(without_at("@@Bob"), "@Bob");
    assert_eq!(without_at("B@b"), "B@b");
}

#[test]
fn usernames_are_read_from_arguments() {
    assert_eq!(parse_username(None), None);
    assert_eq!(parse_username(Some("@")), None);
    assert_eq!(parse_username(Some("@bob")), Some("bob"));
    assert_eq!(parse_username(Some("bob")), Some("bob"));
    assert_eq!(parse_username(Some("")), Some(""));
    assert_eq!(parse_username(Some("@@")), Some("@"));
    assert_eq!(parse_username(Some("@é")), Some("é"));
}

#[test]
fn spans_are_counted_in_whole_units_towards_zero() {
    assert_eq!(whole_units(5_999_999, 0, SECOND), 5);
    assert_eq!(whole_units(0, 5_999_999, SECOND), -5);
    assert_eq!(whole_units(i64::MAX, i64::MIN, SECOND), 18_446_744_073_709);
    assert_eq!(whole_units(i64::MIN, i64::MAX, SECOND), -18_446_744_073_709);
    assert_eq!(whole_units(2 * DAY, 0, DAY), 2);
}

#[test]
fn past_instants_are_described_relative_to_now() {
    let then = 1_700_000_000_000_000;
    assert_eq!(relative_time_between(then, then), "0 second(s) ago");
    assert_eq!(relative_time_between(then + 59 * SECOND + 999_999, then), "59 second(s) ago");
    assert_eq!(relative_time_between(then + MINUTE, then), "1 minute(s) ago");
    assert_eq!(relative_time_between(then + 59 * MINUTE + 59 * SECOND, then), "59 minute(s) ago");
    assert_eq!(relative_time_between(then + HOUR, then), "1 hour(s) ago");
    assert_eq!(relative_time_between(then + 23 * HOUR + 59 * MINUTE, then), "23 hour(s) ago");
    assert_eq!(relative_time_between(then + DAY, then), "1 day(s) ago");
    assert_eq!(relative_time_between(then + 29 * DAY + 23 * HOUR, then), "29 day(s) ago");
    assert_eq!(relative_time_between(then + 30 * DAY, then), "1 month(s) ago");
    assert_eq!(relative_time_between(then + 364 * DAY, then), "12 month(s) ago");
    assert_eq!(relative_time_between(then + 365 * DAY, then), "1 year(s) ago");
    assert_eq!(relative_time_between(then + 800 * DAY, then), "2 year(s) ago");
    assert_eq!(relative_time_between(then, then + 5 * SECOND + 1), "-5 second(s) ago");
    assert_eq!(relative_time_between(then, then + 3 * DAY), "-259200 second(s) ago");
}

#[test]
fn the_clock_is_read_for_relative_times() {
    assert_eq!(relative_time_string(0).chars().last(), Some('o'));
    assert!(relative_time_string(0).ends_with(" year(s) ago"));
    let years: i64 = relative_time_string(0)
        .trim_end_matches(" year(s) ago")
        .parse()
        .unwrap();
    assert!(years >= 56);
    assert!(relative_time_string(i64::MAX).ends_with(" second(s) ago"));
    assert!(relative_time_string(i64::MAX).starts_with('-'));
}

#[test]
fn the_first_word_is_found_between_ascii_white_space() {
    assert_eq!(leading_word("!duel Bob 5"), Some("!duel".to_string()));
    assert_eq!(leading_word("  \t!duel\nBob"), Some("!duel".to_string()));
    assert_eq!(leading_word("!duel"), Some("!duel".to_string()));
    assert_eq!(leading_word(""), None);
    assert_eq!(leading_word(" \r\n\t\u{c} "), None);
    assert_eq!(leading_word("\u{a0}!duel x"), Some("\u{a0}!duel".to_string()));
    for text in ["a b", " a", "", "x\u{b}y z", "é  è"] {
        assert_eq!(
            leading_word(text),
            text.split_ascii_whitespace().next().map(|w| w.to_string())
        );
    }
}

#[test]
fn commands_are_told_by_their_first_word() {
    assert_eq!(classify("!points"), Command::Points);
    assert_eq!(classify("!commands now"), Command::Commands);
    assert_eq!(classify("!github"), Command::Github);
    assert_eq!(classify("!botrepo"), Command::Botrepo);
    assert_eq!(classify("!contribute"), Command::Contribute);
    assert_eq!(classify("!yo"), Command::Yo);
    assert_eq!(classify("!addquestion q | a"), Command::AddQuestion);
    assert_eq!(classify("!addcategory x"), Command::AddCategory);
    assert_eq!(classify("!listcategories"), Command::ListCategories);
    assert_eq!(classify("!lurk"), Command::Lurk);
    assert_eq!(classify("!lurkers"), Command::Lurkers);
    assert_eq!(classify("!lurktime"), Command::Lurktime);
    assert_eq!(classify("!accept @Bob"), Command::Accept);
    assert_eq!(classify("!answer x"), Command::Answer);
    assert_eq!(classify("!a x"), Command::Answer);
    assert_eq!(classify("!challenge Bob"), Command::Duel);
    assert_eq!(classify("  !duel Bob"), Command::Duel);
    assert_eq!(classify("!kda"), Command::Kda);
    assert_eq!(classify("!repeat"), Command::Repeat);
    assert_eq!(classify("!topDuelists"), Command::TopDuelists);
    assert_eq!(classify("!top3"), Command::TopDuelists);
    assert_eq!(classify("!ranking"), Command::Ranking);
    assert_eq!(classify("!gift @Bob 5"), Command::Gift);
    assert_eq!(classify("!gamble 5"), Command::Gamble);
    assert_eq!(classify("!setpoints @Bob 5"), Command::SetPoints);
    assert_eq!(classify("!pool"), Command::Pool);
    assert_eq!(classify("!selectPoolWinner"), Command::PoolDraw);
    assert_eq!(classify("!Duel Bob"), Command::Unknown);
    assert_eq!(classify("hello !duel"), Command::Unknown);
    assert_eq!(classify(""), Command::Unknown);
    assert_eq!(classify("!duelx"), Command::Unknown);
}
