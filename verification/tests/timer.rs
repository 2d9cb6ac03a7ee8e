use simple_server_timing_header::wire::decimal_string;
use simple_server_timing_header::wire::sanitize_label;
use simple_server_timing_header::Timer;

#[test]
fn test() {
    let mut timer = Timer::new();
    // ... do some stuff
    timer.add("parse headers");
    // ... do some more stuff
    timer.add("get_db_data");
    // Generate the header value
    assert_eq!(
        timer.header_value(),
        "parse_headers;dur=0, get_db_data;dur=0"
    );
}

#[test]
fn empty_timer_renders_empty() {
    let timer = Timer::new();
    assert_eq!(timer.header_value(), "");
}

#[test]
fn default_timer_renders_empty() {
    let timer = Timer::default();
    assert_eq!(timer.header_value(), "");
}

#[test]
fn header_key_is_constant() {
    assert_eq!(Timer::header_key(), "Server-Timing");
    let mut timer = Timer::new();
    timer.add("phase");
    let _ = timer.header_value();
    assert_eq!(Timer::header_key(), "Server-Timing");
}

#[test]
fn entries_in_recording_order() {
    let mut timer = Timer::new();
    timer.add("one");
    timer.add("two");
    timer.add("three");
    assert_eq!(timer.header_value(), "one;dur=0, two;dur=0, three;dur=0");
}

#[test]
fn render_is_idempotent() {
    let mut timer = Timer::new();
    timer.add("a:b c");
    let first = timer.header_value();
    let second = timer.header_value();
    assert_eq!(first, second);
}

#[test]
fn punctuation_becomes_underscores() {
    let mut timer = Timer::new();
    timer.add("a:b c");
    assert_eq!(timer.header_value(), "a_b_c;dur=0");
}

#[test]
fn sanitize_preserves_length() {
    let label = "a-b c:d!";
    let s = sanitize_label(label);
    assert_eq!(s, "a_b_c_d_");
    assert_eq!(s.chars().count(), label.chars().count());
}

#[test]
fn unicode_letters_are_kept() {
    assert_eq!(sanitize_label("héllo7"), "héllo7");
    assert_eq!(sanitize_label("日本 語"), "日本_語");
}

#[test]
fn empty_label_is_accepted() {
    let mut timer = Timer::new();
    timer.add("");
    assert_eq!(timer.header_value(), ";dur=0");
}

#[test]
fn decimal_formatting() {
    assert_eq!(decimal_string(0), "0");
    assert_eq!(decimal_string(7), "7");
    assert_eq!(decimal_string(10), "10");
    assert_eq!(decimal_string(205), "205");
    assert_eq!(decimal_string(1000), "1000");
    assert_eq!(
        decimal_string(u128::MAX),
        "340282366920938463463374607431768211455"
    );
}
