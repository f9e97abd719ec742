use arena::logs::{
    extract_meta, is_log_header, open_log_file, parse_from, parse_header, start_refresh,
    toggle_filter, visible_blocks, BlockKind, LogBlock, LogLevel, LogParser, SearchableBlock,
};
use arena::page::View;
use arena::protocol::FrontendCommand;

fn chars(s: &str) -> Vec<char> {
    s.chars().collect()
}

fn text(cs: &[char]) -> String {
    cs.iter().collect()
}

fn lines(s: &str) -> Vec<String> {
    s.lines().map(|l| l.to_string()).collect()
}

const LOG: &str = "\
2026-03-04T14:30:00.100Z  INFO arena_app: \u{2501}\u{2501}\u{2501} PROMPT \u{2501}\u{2501}\u{2501}
How many bolts
are in stock?
2026-03-04T14:30:01.200Z  WARN arena_app: slow response
2026-03-04T14:30:02.300Z ERROR arena_app: request failed
2026-03-04T14:30:03.400Z  INFO arena_app: \u{2501}\u{2501}\u{2501} ARENA REQUEST \u{2501}\u{2501}\u{2501}
GET /items
";

#[test]
fn headers_are_recognised() {
    assert!(is_log_header(&chars("2026-03-04T14:30:00.100Z  INFO x")));
    assert!(!is_log_header(&chars("2026-03-04T14:30:00Z")));
    assert!(!is_log_header(&chars("How many bolts are in stock today?")));
}

#[test]
fn header_parts() {
    let parts = parse_header(&chars("2026-03-04T14:30:01.200Z  WARN arena_app: slow response "));
    assert_eq!(text(&parts.time), "14:30:01");
    assert_eq!(parts.level, LogLevel::Warn);
    assert_eq!(text(&parts.message), "slow response");
    let plain = parse_header(&chars("2026-03-04T14:30:01.200Z  something else"));
    assert_eq!(plain.level, LogLevel::Info);
    assert_eq!(text(&plain.message), "something else");
    let no_zone = parse_header(&chars("2026-03-04T14:30:01 ERROR arena_app:boom"));
    assert_eq!(no_zone.level, LogLevel::Error);
    assert_eq!(text(&no_zone.message), "boom");
}

#[test]
fn meta_drops_the_rules() {
    assert_eq!(text(&extract_meta(&chars("\u{2501}\u{2501} TOOL CALL: get_bom \u{2501}"))), "TOOL CALL: get_bom");
}

#[test]
fn a_log_becomes_blocks() {
    let (blocks, last) = parse_from(&lines(LOG), 0);
    assert_eq!(last, 5);
    let kinds: Vec<BlockKind> = blocks.iter().map(|b| b.block.kind()).collect();
    assert_eq!(kinds, vec![BlockKind::Prompt, BlockKind::Warn, BlockKind::Error, BlockKind::Arena]);
    assert_eq!(
        blocks[0].block,
        LogBlock::Prompt { meta: "PROMPT".to_string(), body: "How many bolts\nare in stock?".to_string() }
    );
    assert_eq!(
        blocks[1].block,
        LogBlock::Warn { time: "14:30:01".to_string(), message: "slow response".to_string() }
    );
    assert_eq!(blocks[0].search_text, "prompt how many bolts\nare in stock?");
    assert_eq!(blocks[3].block.text_content(), ("ARENA REQUEST", "GET /items"));
}

#[test]
fn unknown_sections_are_info() {
    let (blocks, _) = parse_from(&lines("2026-03-04T14:30:00.100Z  INFO \u{2501}\u{2501}\u{2501} NOTE\nbody"), 0);
    assert_eq!(
        blocks[0].block,
        LogBlock::Info { time: "14:30:00".to_string(), message: "\u{2501}\u{2501}\u{2501} NOTE\nbody".to_string() }
    );
}

#[test]
fn the_parser_catches_up_with_a_growing_log() {
    let mut parser = LogParser::new();
    let first = &LOG[..LOG.find("2026-03-04T14:30:03").unwrap()];
    parser.update(first);
    assert_eq!(parser.blocks.len(), 3);
    assert_eq!(parser.complete_count, 2);
    parser.update(LOG);
    let (full, _) = parse_from(&lines(LOG), 0);
    assert_eq!(parser.blocks, full);
    let grown = format!("{LOG}2026-03-04T14:30:04.500Z  INFO arena_app: done\n");
    parser.update(&grown);
    let (full, _) = parse_from(&lines(&grown), 0);
    assert_eq!(parser.blocks, full);
    let before = parser.clone();
    parser.update(&grown);
    assert_eq!(parser, before);
    parser.update("2026-03-04T14:30:00.100Z  INFO arena_app: fresh");
    assert_eq!(parser.blocks.len(), 1);
}

#[test]
fn a_body_that_grows_is_parsed_again() {
    let mut parser = LogParser::new();
    let start = "2026-03-04T14:30:00.100Z  INFO \u{2501}\u{2501}\u{2501} RESPONSE\nfirst";
    parser.update(start);
    let grown = format!("{start} part\nsecond line");
    parser.update(&grown);
    assert_eq!(
        parser.blocks[0].block,
        LogBlock::Response { meta: "RESPONSE".to_string(), body: "first part\nsecond line".to_string() }
    );
}

#[test]
fn the_viewer_filters_and_searches() {
    let (blocks, _) = parse_from(&lines(LOG), 0);
    assert_eq!(visible_blocks(&blocks, None, ""), vec![0, 1, 2, 3]);
    assert_eq!(visible_blocks(&blocks, Some(BlockKind::Error), ""), vec![2]);
    assert_eq!(visible_blocks(&blocks, None, "BOLTS"), vec![0]);
    assert_eq!(visible_blocks(&blocks, Some(BlockKind::Warn), "bolts"), Vec::<usize>::new());
    let block = SearchableBlock::new(LogBlock::Info { time: "t".to_string(), message: "Hello".to_string() });
    assert!(block.matches_search(""));
    assert!(block.matches_search("hello"));
    assert!(!block.matches_search("Hello"));
}

#[test]
fn filter_buttons_toggle() {
    let mut active = None;
    toggle_filter(&mut active, BlockKind::Tool);
    assert_eq!(active, Some(BlockKind::Tool));
    toggle_filter(&mut active, BlockKind::Arena);
    assert_eq!(active, Some(BlockKind::Arena));
    toggle_filter(&mut active, BlockKind::Arena);
    assert_eq!(active, None);
}

#[test]
fn refreshing_the_log_page() {
    let mut content = "old".to_string();
    assert_eq!(start_refresh(true, View::Logs, &mut content), vec![FrontendCommand::ResetLogs, FrontendCommand::ReadLogs]);
    assert!(content.is_empty());
    let mut kept = "old".to_string();
    assert!(start_refresh(true, View::Chat, &mut kept).is_empty());
    assert!(start_refresh(false, View::Logs, &mut kept).is_empty());
    assert_eq!(kept, "old");
    assert_eq!(open_log_file(&mut kept), FrontendCommand::OpenLogFile);
    assert!(kept.is_empty());
}

#[test]
fn parsing_from_a_later_header_gives_the_tail() {
    let all = lines(LOG);
    let (full, full_last) = parse_from(&all, 0);
    let (tail, tail_last) = parse_from(&all, 3);
    assert_eq!(full[1..].to_vec(), tail);
    assert_eq!(full_last, tail_last);
}
