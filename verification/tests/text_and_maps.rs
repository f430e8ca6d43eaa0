use openvtc::display::{display_identifier, truncate_did};
use openvtc::did::{mediator_did, org_did};
use openvtc::json::Json;
use openvtc::keyed::Keyed;
use openvtc::save::SaveScheduler;
use openvtc::text::{count_text, decimal_text, join, pad_right, same_optional, trim};
use openvtc::time::Timestamp;

#[test]
fn numbers_are_written_in_decimal() {
    for n in [0u64, 1, 9, 10, 42, 1_000, 18_446_744_073_709_551_615] {
        assert_eq!(decimal_text(n), n.to_string());
    }
    assert_eq!(count_text(usize::MAX), usize::MAX.to_string());
}

#[test]
fn white_space_is_trimmed_at_both_ends() {
    for text in [
        "",
        " ",
        "a",
        "  a b  ",
        "\t\r\n\u{b}\u{c}x",
        "\u{85}\u{a0}\u{1680}\u{2000}\u{200a}\u{2028}\u{2029}\u{202f}\u{205f}\u{3000}é\u{3000}",
        "\u{200b}not space\u{200b}",
        "\u{180e}x",
    ] {
        assert_eq!(trim(text), text.trim(), "{text:?}");
    }
}

#[test]
fn every_white_space_character_is_known() {
    for n in 0..=0x10FFFFu32 {
        if let Some(c) = char::from_u32(n) {
            let text = c.to_string();
            assert_eq!(trim(&text).is_empty(), c.is_whitespace(), "U+{n:04X}");
        }
    }
}

#[test]
fn text_is_filled_up_by_characters() {
    assert_eq!(pad_right("é", 3), format!("{:<3}", "é"));
    assert_eq!(pad_right("abc", 3), "abc");
    assert_eq!(pad_right("abcd", 3), "abcd");
    assert_eq!(pad_right("", 2), "  ");
}

#[test]
fn texts_are_joined_with_what_stands_between() {
    let parts = |list: &[&str]| -> Vec<String> { list.iter().map(|s| s.to_string()).collect() };
    for list in [&[][..], &["a"], &["a", ""], &["a", "b", "c"]] {
        assert_eq!(join(&parts(list), ", "), parts(list).join(", "));
    }
}

#[test]
fn optional_texts_are_compared_by_what_they_say() {
    let some = |s: &str| Some(s.to_string());
    assert!(same_optional(&None, &None));
    assert!(same_optional(&some("a"), &some("a")));
    assert!(!same_optional(&some("a"), &some("b")));
    assert!(!same_optional(&some(""), &None));
}

#[test]
fn a_did_is_shortened_to_the_room_there_is() {
    assert_eq!(truncate_did("did:web:é", 9), "did:web:é");
    assert_eq!(truncate_did("did:web:é", 8), "did:web…");
    assert_eq!(truncate_did("did:web:é", 1), "…");
    assert_eq!(truncate_did("did:web:é", 0), "");
    assert_eq!(display_identifier(&Some("x/@a".to_string()), "did:web:a", 3), "x/@a");
    assert_eq!(display_identifier(&None, "did:web:a", 3), "di…");
}

#[test]
fn whatever_is_chosen_looks_like_a_did() {
    for given in [None, Some(""), Some("did"), Some("did:x"), Some("DID:x"), Some("https://x")] {
        assert!(mediator_did(given).starts_with("did:"));
        assert!(org_did(given).starts_with("did:"));
    }
}

#[test]
fn the_latest_value_for_a_key_counts() {
    let mut map: Keyed<String, u64> = Keyed::new();
    assert!(map.is_empty());
    assert!(map.get(&"a".to_string()).is_none());
    map.insert("a".to_string(), 1);
    assert!(!map.is_empty());
    map.insert("b".to_string(), 2);
    map.insert("a".to_string(), 3);
    assert_eq!(map.get(&"a".to_string()), Some(&3));
    assert!(map.contains_key(&"b".to_string()));

    let mut more: Keyed<String, u64> = Keyed::default();
    more.insert("b".to_string(), 9);
    more.insert("c".to_string(), 8);
    map.extend(more);
    assert_eq!(map.get(&"a".to_string()), Some(&3));
    assert_eq!(map.get(&"b".to_string()), Some(&9));
    assert_eq!(map.get(&"c".to_string()), Some(&8));
}

#[test]
fn a_member_is_found_by_its_name() {
    let json = Json::Object(vec![
        ("a".to_string(), Json::Text("x".to_string())),
        ("b".to_string(), Json::Number(Some(3))),
    ]);
    assert_eq!(json.get_text("a").as_deref(), Some("x"));
    assert!(json.get_text("b").is_none());
    assert!(json.get("c").is_none());
    assert_eq!(json.text_or_empty("b"), "");
    assert!(Json::Array(vec![]).get("a").is_none());
}

#[test]
fn time_goes_forward() {
    let at = |secs, nanos| Timestamp { secs, nanos };
    assert!(at(-1, 999_999_999).is_before(at(0, 0)));
    assert!(at(0, 0).is_before(at(0, 1)));
    assert!(!at(0, 1).is_before(at(0, 1)));
    assert!(!at(1, 0).is_before(at(0, 5)));
}

#[test]
fn one_store_runs_at_a_time_and_no_change_is_lost() {
    let mut save = SaveScheduler::new("work");
    assert_eq!(save.profile, "work");
    save.mark_dirty();
    assert!(save.begin() && !save.begin());
    save.mark_dirty();
    assert!(!save.begin());
    save.finish(true);
    assert!(save.begin());
    save.finish(true);
    assert!(!save.needs_flush());
}
