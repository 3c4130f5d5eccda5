use mtga_tracker::text::{chars_of, decimal_string, plus_signed_string, signed_decimal_string, split_lines, trimmed};
use mtga_tracker::tracker::dates::{collector_event_date, friendly_time, NaiveDateTimeValue};
use mtga_tracker::tracker::logger::{file_name, LogFile, LogMessage, LogService, Severity};
use mtga_tracker::tracker::logwatcher::{LogWatcher, ReadRange};
use mtga_tracker::tracker::runner::{ImageLoader, TrackerError, UserSession, NO_IMAGE_PATH};
use mtga_tracker::injector::error::InjectError;

#[test]
fn the_watcher_reads_what_was_appended() {
    let mut w = LogWatcher::new(String::from("Player.log"));
    assert_eq!(w.path(), "Player.log");
    assert_eq!(w.next_read(100), Some(ReadRange { start: 0, len: 100 }));
    w.commit_read(100);
    assert_eq!(w.next_read(100), None);
    assert_eq!(w.next_read(150), Some(ReadRange { start: 100, len: 50 }));
    w.commit_read(150);
    assert_eq!(w.last_file_size(), 150);
    assert_eq!(w.next_read(40), Some(ReadRange { start: 0, len: 40 }));
    assert_eq!(w.next_read(0), Some(ReadRange { start: 0, len: 0 }));
}

#[test]
fn successive_reads_of_a_growing_file_join_to_the_file() {
    let file: Vec<u8> = (0u8..60).collect();
    let mut w = LogWatcher::new(String::from("Player.log"));
    let mut joined: Vec<u8> = Vec::new();
    for size in [10u64, 10, 25, 60, 60] {
        if let Some(r) = w.next_read(size) {
            joined.extend_from_slice(&file[r.start as usize..(r.start + r.len) as usize]);
        }
        w.commit_read(size);
    }
    assert_eq!(joined, file);
    assert_eq!(w.last_file_size(), 60);
}

#[test]
fn log_messages_go_to_their_file_with_a_tag() {
    let m = LogMessage::new(String::from("hello"), Severity::Warn);
    assert_eq!(m.render(), "[warn]hello\n");
    assert_eq!(m.target(), LogFile::Error);
    assert_eq!(LogMessage::new(String::from("x"), Severity::Debug).render(), "[debug]x\n");
    assert_eq!(LogMessage::new(String::from("x"), Severity::Info).target(), LogFile::Info);
    assert_eq!(file_name(LogFile::Debug), "debug.log");
    assert_eq!(LogService::creation_error(LogFile::Info, "denied"), "Could not create info file: denied");
}

#[test]
fn tracker_errors_and_sessions() {
    assert_eq!(TrackerError::serde("eof").message(), "Serde error: eof");
    assert_eq!(TrackerError::io("gone").message(), "IO error: gone");
    assert_eq!(TrackerError::sql("locked").message(), "Sql error: locked");
    assert_eq!(TrackerError::iced("no gpu").message(), "Iced error: no gpu");
    assert_eq!(TrackerError::utf8_conversion("bad").message(), "Utf-8 string conversion error: bad");
    assert_eq!(TrackerError::custom("x").message(), "x");
    assert_eq!(TrackerError::inject(InjectError::custom("y")).message(), "y");
    let s = UserSession::new(3, String::from("U3"), String::from("Chandra"));
    assert_eq!(s.screen_name(), "Chandra");
    assert_eq!(s.user_id(), 3);
    assert_eq!(s.arena_id(), "U3");
    assert_eq!(ImageLoader::card_image_path(70123), "assets/cards/70123.jpg");
    assert_eq!(NO_IMAGE_PATH, "assets/cards/no_image_available.png");
}

#[test]
fn text_helpers() {
    assert_eq!(decimal_string(0), "0");
    assert_eq!(decimal_string(18446744073709551615), "18446744073709551615");
    assert_eq!(signed_decimal_string(-42), "-42");
    assert_eq!(signed_decimal_string(i64::MIN), "-9223372036854775808");
    assert_eq!(plus_signed_string(0), "+0");
    assert_eq!(plus_signed_string(-7), "-7");
    assert_eq!(trimmed(&chars_of(" \t x y \n")), "x y");
    assert_eq!(split_lines(&chars_of("a\r\nb\n\nc")), vec!["a", "b", "", "c"]);
    assert_eq!(split_lines(&chars_of("a\n")), vec!["a"]);
    assert!(split_lines(&chars_of("")).is_empty());
}

#[test]
fn dates() {
    assert_eq!(friendly_time("2023-07-18T10:11:12+02:00"), "2023-07-18 10:11:12");
    assert!(friendly_time("yesterday").starts_with("time conversion err: "));
    assert_eq!(
        collector_event_date("2023-07-18T10:11:12.5Z"),
        Some(NaiveDateTimeValue { year: 2023, month: 7, day: 18, hour: 10, minute: 11, second: 12, nanosecond: 500000000 })
    );
    assert_eq!(collector_event_date("not a date"), None);
}
