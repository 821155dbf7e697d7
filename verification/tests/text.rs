use music_bot::text::{contains, decimal_text, lower_hex_text, same_text, starts_with};

#[test]
fn decimal_of_small_and_large_numbers() {
    assert_eq!(decimal_text(0), "0");
    assert_eq!(decimal_text(7), "7");
    assert_eq!(decimal_text(10), "10");
    assert_eq!(decimal_text(1203), "1203");
    assert_eq!(decimal_text(usize::MAX), usize::MAX.to_string());
}

#[test]
fn lower_hex_writes_two_digits_per_byte() {
    assert_eq!(lower_hex_text(&[]), "");
    assert_eq!(lower_hex_text(&[0x0f, 0xa0, 0x00, 0xff]), "0fa000ff");
}

#[test]
fn prefix_and_infix_checks() {
    assert!(starts_with("https://music.yandex.ru", "http"));
    assert!(!starts_with("htt", "http"));
    assert!(starts_with("", ""));
    assert!(contains("https://music.yandex.ru", "yandex"));
    assert!(!contains("https://youtube.com", "yandex"));
    assert!(contains("abc", ""));
    assert!(contains("yandex", "yandex"));
    assert!(same_text("play", "play"));
    assert!(!same_text("play", "pause"));
    assert!(same_text("очередь", "очередь"));
}
