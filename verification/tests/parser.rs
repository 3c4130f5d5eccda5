use mtga_tracker::tracker::dates::NaiveDateTimeValue;
use mtga_tracker::tracker::json::JsonContentExtractor;
use mtga_tracker::tracker::parser::{
    check_new_line, classify_line, collector_message_route, route_part, split_log_parts, watch_log_bytes, watch_log_text, CollectorCategory,
    IntermediatePart, LineMatcher, LogParser, LogPlanError, LogReadError, SearchError, MtgaDataCollectorParser, NewPartResult, PartRoute, SceneChangeParser,
    UnityCrossThreadLoggerParser, LOG_LINE_PATTERN,
};

const SAMPLE: &str = "[UnityCrossThreadLogger]2023. 07. 18. 10:11:12: Client.SceneChange {\"fromSceneName\":\"Home\"}\n\
[MTGADataCollector][inventory-update]{\"a\":1}\n\
continuation\n\
Mono path[0] = 'x'\n";

fn part(prefix: &str, content: &str) -> IntermediatePart {
    IntermediatePart::new(format!("[{}]{}", prefix, content), prefix.to_string(), None, content.to_string())
}

#[test]
fn log_lines_are_grouped_into_parts() {
    let parts = split_log_parts(SAMPLE).ok().unwrap();
    assert_eq!(parts.len(), 3);
    assert_eq!(parts[0].prefix(), "UnityCrossThreadLogger");
    assert_eq!(parts[0].date_str.as_deref(), Some("2023. 07. 18. 10:11:12"));
    assert_eq!(parts[0].content(), "Client.SceneChange {\"fromSceneName\":\"Home\"}");
    assert_eq!(parts[1].prefix(), "MTGADataCollector");
    assert_eq!(parts[1].date_str, None);
    assert_eq!(parts[1].other_lines, vec![String::from("continuation")]);
    assert_eq!(parts[1].content(), "[inventory-update]{\"a\":1}\ncontinuation");
    assert_eq!(
        parts[1].full_content_with_prefix(),
        "[MTGADataCollector][inventory-update]{\"a\":1}\ncontinuation"
    );
    assert_eq!(parts[2].prefix(), "Mono ");
    assert_eq!(parts[2].content(), "Mono path[0] = 'x'");
}

#[test]
fn part_dates_use_the_client_format() {
    let parts = split_log_parts(SAMPLE).ok().unwrap();
    let expected = NaiveDateTimeValue { year: 2023, month: 7, day: 18, hour: 10, minute: 11, second: 12, nanosecond: 0 };
    assert_eq!(parts[0].date(), Some(expected));
    assert_eq!(parts[1].date(), None);
}

#[test]
fn lines_before_any_part_are_dropped() {
    let parts = split_log_parts("loose line\n[A]x\n").ok().unwrap();
    assert_eq!(parts.len(), 1);
    assert_eq!(parts[0].prefix(), "A");
    assert!(parts[0].other_lines.is_empty());
}

#[test]
fn a_summary_before_any_part_aborts() {
    assert!(split_log_parts("[Message summarized because it was long]\n").is_err());
}

#[test]
fn a_summary_renames_the_current_part() {
    let parts = split_log_parts("[A]first\n[Message summarized x]\n").ok().unwrap();
    assert_eq!(parts.len(), 1);
    assert_eq!(parts[0].prefix(), "Message summarized");
    assert_eq!(parts[0].other_lines, vec![String::from("[Message summarized x]")]);
}

#[test]
fn line_kinds() {
    let re = LineMatcher::new(LOG_LINE_PATTERN).unwrap();
    assert!(matches!(check_new_line(&re, "[Message summarized 3]"), Ok(Some(NewPartResult::SummarizedMessagePart(_)))));
    assert!(matches!(check_new_line(&re, "[X]y"), Ok(Some(NewPartResult::NewPart(_)))));
    assert!(matches!(check_new_line(&re, "BIError something"), Ok(Some(NewPartResult::NoBracePart(_)))));
    assert!(matches!(check_new_line(&re, "just text"), Ok(Some(NewPartResult::ContinuationPart(_)))));
}

#[test]
fn parts_are_routed_to_their_reader() {
    let parts = split_log_parts(SAMPLE).ok().unwrap();
    let collector = MtgaDataCollectorParser::new().unwrap();
    match route_part(&parts[0], &collector) {
        Ok(Some(PartRoute::SceneChange { json, prefix, content, date })) => {
            assert_eq!(json, "{\"fromSceneName\":\"Home\"}");
            assert_eq!(prefix, "UnityCrossThreadLogger");
            assert_eq!(content, "Client.SceneChange {\"fromSceneName\":\"Home\"}");
            assert_eq!(date.map(|d| d.day), Some(18));
        },
        _ => panic!("a scene change"),
    }
    match route_part(&parts[1], &collector) {
        Ok(Some(PartRoute::Collector { category, json, prefix, content })) => {
            assert_eq!(category, CollectorCategory::InventoryUpdate);
            assert_eq!(json, "{\"a\":1}");
            assert_eq!(prefix, "MTGADataCollector");
            assert_eq!(content, "[inventory-update]{\"a\":1}\ncontinuation");
        },
        _ => panic!("a collector message"),
    }
    match route_part(&parts[2], &collector) {
        Ok(Some(PartRoute::Unknown(u))) => {
            assert_eq!(u.prefix, "Mono ");
            assert_eq!(u.content, "Mono path[0] = 'x'");
            assert_eq!(u.date, None);
        },
        _ => panic!("an unknown part"),
    }
}

#[test]
fn collector_categories_are_tried_in_order() {
    let collector = MtgaDataCollectorParser::new().unwrap();
    let cases = [
        ("[account-info] {\"x\":0} ", Some(CollectorCategory::AccountInfo), "{\"x\":0}"),
        ("[inventory-update]{}", Some(CollectorCategory::InventoryUpdate), "{}"),
        ("[inventory]{}", Some(CollectorCategory::Inventory), "{}"),
        ("[collection][1,2]", Some(CollectorCategory::Collection), "[1,2]"),
        ("[other]{}", None, ""),
    ];
    for (content, category, expected_json) in cases {
        match route_part(&part("MTGADataCollector", content), &collector) {
            Ok(Some(PartRoute::Collector { category: c, json, .. })) => {
                assert_eq!(Some(c), category);
                assert_eq!(json, expected_json);
            },
            Ok(Some(PartRoute::Skipped)) => assert_eq!(category, None),
            _ => panic!("unexpected route"),
        }
    }
    assert!(matches!(route_part(&part("MTGADataCollector", "no brackets"), &collector), Ok(Some(PartRoute::Skipped))));
}

#[test]
fn unity_parts_without_a_scene_change_are_unknown() {
    let collector = MtgaDataCollectorParser::new().unwrap();
    match route_part(&part("UnityCrossThreadLogger", "  something else  "), &collector) {
        Ok(Some(PartRoute::Unknown(u))) => {
            assert_eq!(u.prefix, "UnityCrossThreadLogger");
            assert_eq!(u.content, "something else");
        },
        _ => panic!("an unknown part"),
    }
    assert!(matches!(route_part(&part("UnityCrossThreadLogger", "Client.SceneChange no json"), &collector), Ok(None)));
}

#[test]
fn readers_know_their_prefix() {
    let unity = UnityCrossThreadLoggerParser::new();
    let scene = SceneChangeParser::new();
    let collector = MtgaDataCollectorParser::new().unwrap();
    assert_eq!(unity.get_prefix(), "UnityCrossThreadLogger");
    assert_eq!(scene.get_prefix(), "Client.SceneChange");
    assert_eq!(collector.get_prefix(), "MTGADataCollector");
    assert!(unity.can_process(&part("UnityCrossThreadLogger", "x")));
    assert!(!collector.can_process(&part("UnityCrossThreadLogger", "x")));
    assert!(scene.can_process(&part("Anything", "Client.SceneChange {}")));
}

#[test]
fn watching_the_log_text() {
    assert_eq!(watch_log_text("").ok().map(|r| r.len()), Some(0));
    let routes = watch_log_text(SAMPLE).ok().unwrap();
    assert_eq!(routes.len(), 3);
    assert!(matches!(routes[0], PartRoute::SceneChange { .. }));
    assert!(matches!(routes[1], PartRoute::Collector { category: CollectorCategory::InventoryUpdate, .. }));
    assert!(matches!(routes[2], PartRoute::Unknown(_)));
}

#[test]
fn json_is_cut_from_the_first_bracket() {
    assert_eq!(JsonContentExtractor::extract("x {\"a\": [1]} y"), "{\"a\": [1]}");
    assert_eq!(JsonContentExtractor::extract("[1, {\"b\":2}] tail"), "[1, {\"b\":2}]");
    assert_eq!(JsonContentExtractor::try_extract("no json"), None);
    assert_eq!(JsonContentExtractor::try_extract("{ open"), None);
}

#[test]
fn watching_the_log_bytes() {
    assert_eq!(watch_log_bytes(b"").ok().map(|r| r.len()), Some(0));
    let routes = watch_log_bytes(SAMPLE.as_bytes()).ok().unwrap();
    assert_eq!(routes.len(), 3);
    assert!(matches!(routes[1], PartRoute::Collector { category: CollectorCategory::InventoryUpdate, .. }));
    match watch_log_bytes(&[b'[', b'A', b']', 0xFF, 0xFE, b'\n']) {
        Err(LogReadError::NotUtf8(message)) => assert!(!message.is_empty()),
        _ => panic!("bytes that are not UTF-8 are refused"),
    }
}

#[test]
fn log_read_errors_say_which_step_failed() {
    assert_eq!(watch_log_text("[Message summarized x]\n").err(), Some(LogReadError::Aborted));
    assert_eq!(
        watch_log_text("[UnityCrossThreadLogger]Client.SceneChange no json\n").err(),
        Some(LogReadError::Unroutable)
    );
    assert_eq!(split_log_parts("[Message summarized x]\n").err(), Some(LogPlanError::Aborted));
}

#[test]
fn captures_give_each_group() {
    let re = LineMatcher::new("^\\[(.*?)\\](x)?(.*)").unwrap();
    let caps = re.captures("[abc]rest").unwrap().unwrap();
    assert_eq!(caps, vec![Some(String::from("[abc]rest")), Some(String::from("abc")), None, Some(String::from("rest"))]);
    assert_eq!(re.captures("no match").unwrap(), None);
    assert!(LineMatcher::new("(unclosed").is_none());
}

#[test]
fn a_search_that_gives_up_is_an_error() {
    let re = LineMatcher::new("(a|b|ab)*bc").unwrap();
    let text = "ababababababababababababababababababababababababababababacbc";
    assert_eq!(re.captures(text), Err(SearchError));
}

#[test]
fn a_line_is_classified_by_its_captures() {
    let line = "[UnityCrossThreadLogger]10/19/2023 1:45:12 PM: hello";
    let caps = vec![
        Some(String::from(line)),
        Some(String::from("UnityCrossThreadLogger")),
        Some(String::from("10/19/2023 1:45:12 PM")),
        Some(String::from("hello")),
    ];
    match classify_line(line, Some(caps)) {
        Some(NewPartResult::NewPart(p)) => {
            assert_eq!(p.first_line, line);
            assert_eq!(p.prefix, "UnityCrossThreadLogger");
            assert_eq!(p.date_str, Some(String::from("10/19/2023 1:45:12 PM")));
            assert_eq!(p.content, "hello");
        },
        _ => panic!("a new part"),
    }
    assert!(classify_line("[X]", Some(vec![Some(String::from("[X]")), None, None, None])).is_none());
    assert!(matches!(classify_line("Mono x", None), Some(NewPartResult::NoBracePart(_))));
    assert!(matches!(classify_line("[Message summarized 2]", None), Some(NewPartResult::SummarizedMessagePart(_))));
}

#[test]
fn a_collector_message_is_routed_by_its_captures() {
    let p = part("MTGADataCollector", "[inventory-update] {} ");
    let caps = vec![
        Some(String::from("[inventory-update] {} ")),
        Some(String::from("inventory-update")),
        Some(String::from(" {} ")),
    ];
    match collector_message_route(&p, Some(caps)) {
        Some(PartRoute::Collector { category, json, .. }) => {
            assert_eq!(category, CollectorCategory::InventoryUpdate);
            assert_eq!(json, "{}");
        },
        _ => panic!("a collector message"),
    }
    assert!(matches!(collector_message_route(&p, None), Some(PartRoute::Skipped)));
    assert!(collector_message_route(&p, Some(vec![Some(String::from("x")), None, None])).is_none());
}

#[test]
fn a_log_of_two_parts_gives_two_messages() {
    let routes = watch_log_text("[Foo]bar\nbaz\n[Foo]qux").ok().unwrap();
    assert_eq!(routes.len(), 2);
    match (&routes[0], &routes[1]) {
        (PartRoute::Unknown(a), PartRoute::Unknown(b)) => {
            assert_eq!(a.prefix, "Foo");
            assert_eq!(a.content, "[Foo]bar\nbaz");
            assert_eq!(a.date, None);
            assert_eq!(b.content, "[Foo]qux");
        },
        _ => panic!("two unknown parts"),
    }
}
