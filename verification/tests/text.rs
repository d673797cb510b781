use greptui::filter::find_highlights;
use greptui::filter::line_matches;
use greptui::highlight::split_line;
use greptui::highlight::Segment;
use greptui::logger::Logger;
use greptui::matcher::record_span;
use greptui::state::State;
use greptui::text::command_text;
use greptui::text::context_line;
use greptui::text::decimal_string;
use greptui::text::insert_char;
use greptui::text::numbered;
use greptui::text::remove_char;

#[test]
fn decimal_of_small_and_large_numbers() {
    assert_eq!(decimal_string(0), "0");
    assert_eq!(decimal_string(7), "7");
    assert_eq!(decimal_string(10), "10");
    assert_eq!(decimal_string(1234567890), "1234567890");
    assert_eq!(decimal_string(usize::MAX), usize::MAX.to_string());
}

#[test]
fn numbered_pads_the_number_to_five() {
    assert_eq!(numbered(1, "a"), "    1 | a");
    assert_eq!(numbered(42, ""), "   42 | ");
    assert_eq!(numbered(99999, "x y"), "99999 | x y");
    assert_eq!(numbered(100000, "wide"), "100000 | wide");
    assert_eq!(numbered(12, "naïve"), format!("{:5} | {}", 12, "naïve"));
}

#[test]
fn context_line_marks_the_selected_line() {
    assert_eq!(context_line(true, 4, "apple"), ">     4 | apple");
    assert_eq!(context_line(false, 4, "apple"), "      4 | apple");
}

#[test]
fn command_text_joins_with_spaces() {
    let args = vec!["-l".to_string(), "a b".to_string(), "".to_string()];
    assert_eq!(command_text("ls", &args), "ls -l a b ");
    assert_eq!(command_text("ls", &args[..1]), "ls -l");
    assert_eq!(command_text("ls", &[]), "ls ");
}

#[test]
fn insert_and_remove_count_characters() {
    assert_eq!(insert_char("", 0, 'x'), "x");
    assert_eq!(insert_char("ac", 1, 'b'), "abc");
    assert_eq!(insert_char("ab", 2, 'c'), "abc");
    assert_eq!(insert_char("éà", 1, 'ü'), "éüà");
    assert_eq!(remove_char("abc", 0), "bc");
    assert_eq!(remove_char("abc", 2), "ab");
    assert_eq!(remove_char("éüà", 1), "éà");
}

#[test]
fn line_matches_follows_the_query() {
    assert!(line_matches("", "anything"));
    assert!(line_matches("", ""));
    assert!(line_matches("b+c", "aabbbcc"));
    assert!(!line_matches("b+c", "aacc"));
    assert!(line_matches("^a.*z$", "a to z"));
    assert!(!line_matches("^a.*z$", "a to z!"));
    assert!(line_matches("[unclosed", "no bracket here"));
    assert!(line_matches("*", "star is no expression"));
}

#[test]
fn find_highlights_reports_ordered_spans() {
    assert_eq!(find_highlights("o", "foo boo"), vec![(1, 2), (2, 3), (5, 6), (6, 7)]);
    assert_eq!(find_highlights("[0-9]+", "a12b345"), vec![(1, 3), (4, 7)]);
    assert_eq!(find_highlights("a*", "baaa"), vec![(0, 0), (1, 4)]);
    assert_eq!(find_highlights("", "baaa"), vec![]);
    assert_eq!(find_highlights("(", "baaa"), vec![]);
}

#[test]
fn record_span_appends_and_continues() {
    let mut spans: Vec<(usize, usize)> = vec![(0, 1)];
    assert!(record_span(&mut spans, 2, 5));
    assert_eq!(spans, vec![(0, 1), (2, 5)]);
}

#[test]
fn logger_tags_messages_in_order() {
    let mut logger = Logger::new();
    assert_eq!(
        logger.dump_lines(),
        vec!["\n--- DEV LOGS ---", "----------------\n"]
    );
    logger.info("started");
    logger.warn("slow");
    logger.error("failed");
    assert_eq!(
        logger.dump_lines(),
        vec![
            "\n--- DEV LOGS ---",
            "[Info] started",
            "[Warn] slow",
            "[Error] failed",
            "----------------\n",
        ]
    );
}

#[test]
fn logger_clone_has_the_same_entries() {
    let mut logger = Logger::new();
    logger.info("one");
    let mut copy = logger.clone();
    assert_eq!(copy.dump_lines(), logger.dump_lines());
    copy.error("two");
    assert_eq!(copy.dump_lines().len(), 4);
    assert_eq!(logger.dump_lines().len(), 3);
}

#[test]
fn default_state_has_captured_nothing() {
    let state = State::default();
    assert!(state.outpub_buffer.is_empty());
}

#[test]
fn split_line_alternates_plain_and_highlighted() {
    let plain = |start, end| Segment { start, end, highlighted: false };
    let marked = |start, end| Segment { start, end, highlighted: true };
    assert_eq!(split_line(&vec![], 7), vec![plain(0, 7)]);
    assert_eq!(split_line(&vec![], 0), vec![plain(0, 0)]);
    assert_eq!(
        split_line(&vec![(1, 4), (6, 8)], 8),
        vec![plain(0, 1), marked(1, 4), plain(4, 6), marked(6, 8)]
    );
    assert_eq!(
        split_line(&vec![(0, 2), (2, 3)], 5),
        vec![marked(0, 2), marked(2, 3), plain(3, 5)]
    );
    assert_eq!(split_line(&vec![(0, 0), (1, 4)], 4), vec![marked(0, 0), plain(0, 1), marked(1, 4)]);
}
