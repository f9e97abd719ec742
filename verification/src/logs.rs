//! The log viewer's parser: log lines in, blocks of the conversation out, each with the
//! lower-case text that the search box matches.

use vstd::prelude::*;

use crate::page;
use crate::protocol::FrontendCommand;
use vstd::string::StringSliceAdditionalSpecFns;

use crate::text::{
    lemma_byte_len_monotone, lemma_lines_append, lines_of, split_lines,
    byte_len, char_index_of_byte, char_index_of_byte_exec, char_utf8_width, chars_of,
    contains_chars, contains_seq, find_first, occurs_at, find_from, is_digit, lowercase, lemma_find_spec_bounds,
    starts_with_chars, starts_with_seq, string_of, strings_of, to_lowercase, trim, trim_chars,
    trim_start, utf8_width,
};

verus! {

/// A log line starts with a timestamp `YYYY-MM-DDThh:mm:` and is at least 24 bytes long.
pub open spec fn is_header(l: Seq<char>) -> bool {
    &&& byte_len(l) >= 24
    &&& l.len() >= 17
    &&& is_digit(l[0]) && is_digit(l[1]) && is_digit(l[2]) && is_digit(l[3])
    &&& l[4] == '-'
    &&& is_digit(l[5]) && is_digit(l[6])
    &&& l[7] == '-'
    &&& is_digit(l[8]) && is_digit(l[9])
    &&& l[10] == 'T'
    &&& is_digit(l[11]) && is_digit(l[12])
    &&& l[13] == ':'
    &&& is_digit(l[14]) && is_digit(l[15])
    &&& l[16] == ':'
}

/// The first character at or after `k` that ends the timestamp: `Z` or `+`.
pub open spec fn zone_from(l: Seq<char>, k: int) -> Option<int>
    decreases l.len() - k,
{
    if k < 0 || k >= l.len() {
        None
    } else if l[k] == 'Z' || l[k] == '+' {
        Some(k)
    } else {
        zone_from(l, k + 1)
    }
}

/// A header line can be cut as the viewer cuts it: byte 19 starts a character (it ends the
/// time), and so does byte 20 when there is no `Z` or `+` to end the timestamp.
pub open spec fn header_sliceable(l: Seq<char>) -> bool {
    &&& char_index_of_byte(l, 19) is Some
    &&& zone_from(l, 0) is None ==> char_index_of_byte(l, 20) is Some
}

/// The time of a header line: bytes 11 to 19 (`hh:mm:ss`).
pub open spec fn header_time(l: Seq<char>) -> Seq<char> {
    l.subrange(11, char_index_of_byte(l, 19)->0)
}

/// What follows the timestamp: everything after the first `Z` or `+`, or after byte 20
/// when there is neither.
pub open spec fn after_timestamp(l: Seq<char>) -> Seq<char> {
    match zone_from(l, 0) {
        Some(k) => l.skip(k + 1),
        None => l.skip(char_index_of_byte(l, 20)->0),
    }
}

/// The level of a log line.
#[derive(Clone, Copy, Debug, PartialEq, Eq, Structural)]
pub enum LogLevel {
    Info,
    Warn,
    Error,
}

/// The level and the rest of a line after its timestamp: a leading `INFO `, `WARN ` or
/// `ERROR ` is the level; without one the level is `INFO`.
pub open spec fn level_and_rest(trimmed: Seq<char>) -> (LogLevel, Seq<char>) {
    if starts_with_seq(trimmed, "INFO "@) {
        (LogLevel::Info, trimmed.skip(5))
    } else if starts_with_seq(trimmed, "WARN "@) {
        (LogLevel::Warn, trimmed.skip(5))
    } else if starts_with_seq(trimmed, "ERROR "@) {
        (LogLevel::Error, trimmed.skip(6))
    } else {
        (LogLevel::Info, trimmed)
    }
}

/// The message: what follows `arena_app: ` (or `arena_app:`), or the whole rest.
pub open spec fn message_of(rest: Seq<char>) -> Seq<char> {
    trim(
        match find_first(rest, "arena_app: "@) {
            Some(i) => rest.skip(i + 11),
            None => match find_first(rest, "arena_app:"@) {
                Some(i) => rest.skip(i + 10),
                None => rest,
            },
        },
    )
}

pub open spec fn header_level(l: Seq<char>) -> LogLevel {
    level_and_rest(trim_start(after_timestamp(l))).0
}

pub open spec fn header_message(l: Seq<char>) -> Seq<char> {
    message_of(level_and_rest(trim_start(after_timestamp(l))).1)
}

proof fn lemma_ascii_prefix_byte_len(l: Seq<char>, k: int)
    requires
        0 <= k <= l.len(),
        forall|i: int| 0 <= i < k ==> (#[trigger] l[i] as u32) < 0x80,
    ensures
        byte_len(l.take(k)) == k,
    decreases k,
{
    if k > 0 {
        assert(l.take(k).drop_last() == l.take(k - 1));
        lemma_ascii_prefix_byte_len(l, k - 1);
    }
}


proof fn lemma_char_index_found(s: Seq<char>, b: int, k: int)
    requires
        crate::text::char_index_from(s, b, k) is Some,
    ensures
        ({
            let c = crate::text::char_index_from(s, b, k)->0;
            k <= c <= s.len() && byte_len(s.take(c)) == b
        }),
    decreases s.len() + 1 - k,
{
    if 0 <= k <= s.len() && byte_len(s.take(k)) != b {
        lemma_char_index_found(s, b, k + 1);
    }
}

/// The first `Z` or `+` at or after `k`.
fn zone_exec(l: &[char], k: usize) -> (res: Option<usize>)
    ensures
        match res {
            Some(z) => zone_from(l@, k as int) == Some(z as int),
            None => zone_from(l@, k as int) is None,
        },
{
    let mut i = k;
    while i < l.len()
        invariant
            k <= i,
            zone_from(l@, k as int) == zone_from(l@, i as int),
        decreases l.len() - i,
    {
        if l[i] == 'Z' || l[i] == '+' {
            return Some(i);
        }
        i = i + 1;
    }
    None
}

fn is_digit_exec(c: char) -> (res: bool)
    ensures
        res == is_digit(c),
{
    '0' <= c && c <= '9'
}

/// Whether a log line starts with a timestamp (it has at least 24 bytes, and its first
/// 17 bytes are `YYYY-MM-DDThh:mm:`).
pub fn is_log_header(l: &[char]) -> (res: bool)
    ensures
        res == is_header(l@),
{
    if l.len() < 17 {
        return false;
    }
    let pattern_ok = is_digit_exec(l[0]) && is_digit_exec(l[1]) && is_digit_exec(l[2])
        && is_digit_exec(l[3]) && l[4] == '-' && is_digit_exec(l[5]) && is_digit_exec(l[6])
        && l[7] == '-' && is_digit_exec(l[8]) && is_digit_exec(l[9]) && l[10] == 'T'
        && is_digit_exec(l[11]) && is_digit_exec(l[12]) && l[13] == ':' && is_digit_exec(l[14])
        && is_digit_exec(l[15]) && l[16] == ':';
    if !pattern_ok {
        return false;
    }
    // count bytes until 24 are known
    let mut k: usize = 0;
    let mut off: u64 = 0;
    while k < l.len() && off < 24
        invariant
            k <= l.len(),
            off == byte_len(l@.take(k as int)),
            off < 24 + 4,
        decreases l.len() - k,
    {
        assert(l@.take(k + 1).drop_last() == l@.take(k as int));
        off = off + char_utf8_width(l[k]) as u64;
        k = k + 1;
    }
    proof {
        assert(l@.take(l@.len() as int) == l@);
        lemma_byte_len_monotone(l@, k as int, l@.len() as int);
    }
    off >= 24
}

/// The parts of a header line.
pub struct HeaderParts {
    pub time: Vec<char>,
    pub level: LogLevel,
    pub message: Vec<char>,
}

/// The time, level and message of a header line.
pub fn parse_header(l: &[char]) -> (res: HeaderParts)
    requires
        is_header(l@),
        header_sliceable(l@),
    ensures
        res.time@ == header_time(l@),
        res.level == header_level(l@),
        res.message@ == header_message(l@),
{
    proof {
        assert forall|i: int| 0 <= i < 17 implies (#[trigger] l@[i] as u32) < 0x80 by {}
        lemma_ascii_prefix_byte_len(l@, 17);
        lemma_char_index_found(l@, 19, 0);
    }
    let c19 = match char_index_of_byte_exec(l, 19) {
        Some(c) => c,
        None => {
            proof {
                assert(false);
            }
            0
        },
    };
    proof {
        if c19 <= 17 {
            lemma_byte_len_monotone(l@, c19 as int, 17);
        }
    }
    let mut time: Vec<char> = Vec::new();
    let mut k: usize = 11;
    while k < c19
        invariant
            11 <= k <= c19 <= l.len(),
            time@ == l@.subrange(11, k as int),
        decreases c19 - k,
    {
        time.push(l[k]);
        k = k + 1;
    }
    let start = match zone_exec(l, 0) {
        Some(z) => {
            proof {
                lemma_zone_bounds(l@, 0);
            }
            z + 1
        },
        None => {
            proof {
                lemma_char_index_found(l@, 20, 0);
            }
            match char_index_of_byte_exec(l, 20) {
                Some(c) => c,
                None => {
                    proof {
                        assert(false);
                    }
                    0
                },
            }
        },
    };
    let mut after: Vec<char> = Vec::new();
    let mut k = start;
    while k < l.len()
        invariant
            start <= k <= l.len(),
            after@ == l@.subrange(start as int, k as int),
        decreases l.len() - k,
    {
        after.push(l[k]);
        k = k + 1;
    }
    assert(after@ == after_timestamp(l@));
    let trimmed = trim_start_chars(after.as_slice());
    let (level, rest) = split_level(trimmed.as_slice());
    let message = message_exec(rest.as_slice());
    HeaderParts { time, level, message }
}

proof fn lemma_zone_bounds(l: Seq<char>, k: int)
    ensures
        zone_from(l, k) matches Some(z) ==> k <= z < l.len(),
    decreases l.len() - k,
{
    if 0 <= k < l.len() && !(l[k] == 'Z' || l[k] == '+') {
        lemma_zone_bounds(l, k + 1);
    }
}

/// `s` without its leading white space.
fn trim_start_chars(s: &[char]) -> (res: Vec<char>)
    ensures
        res@ == trim_start(s@),
{
    let n = s.len();
    let mut start: usize = 0;
    assert(s@.skip(0) == s@);
    while start < n && crate::text::is_whitespace(s[start])
        invariant
            start <= n,
            n == s@.len(),
            trim_start(s@) == trim_start(s@.skip(start as int)),
        decreases n - start,
    {
        assert(s@.skip(start as int).drop_first() == s@.skip(start + 1));
        start = start + 1;
    }
    let mut res: Vec<char> = Vec::new();
    let mut k = start;
    while k < n
        invariant
            start <= k <= n,
            n == s@.len(),
            res@ == s@.subrange(start as int, k as int),
        decreases n - k,
    {
        res.push(s[k]);
        k = k + 1;
    }
    assert(res@ == s@.skip(start as int));
    res
}

/// `s` from character `from` on.
fn skip_chars(s: &[char], from: usize) -> (res: Vec<char>)
    requires
        from <= s.len(),
    ensures
        res@ == s@.skip(from as int),
{
    let mut res: Vec<char> = Vec::new();
    let mut k = from;
    while k < s.len()
        invariant
            from <= k <= s.len(),
            res@ == s@.subrange(from as int, k as int),
        decreases s.len() - k,
    {
        res.push(s[k]);
        k = k + 1;
    }
    res
}

fn split_level(trimmed: &[char]) -> (res: (LogLevel, Vec<char>))
    ensures
        res.0 == level_and_rest(trimmed@).0,
        res.1@ == level_and_rest(trimmed@).1,
{
    let info: Vec<char> = vec!['I', 'N', 'F', 'O', ' '];
    let warn: Vec<char> = vec!['W', 'A', 'R', 'N', ' '];
    let error: Vec<char> = vec!['E', 'R', 'R', 'O', 'R', ' '];
    proof {
        reveal_strlit("INFO ");
        reveal_strlit("WARN ");
        reveal_strlit("ERROR ");
        assert(info@ == "INFO "@);
        assert(warn@ == "WARN "@);
        assert(error@ == "ERROR "@);
    }
    if starts_with_chars(trimmed, info.as_slice()) {
        (LogLevel::Info, skip_chars(trimmed, 5))
    } else if starts_with_chars(trimmed, warn.as_slice()) {
        (LogLevel::Warn, skip_chars(trimmed, 5))
    } else if starts_with_chars(trimmed, error.as_slice()) {
        (LogLevel::Error, skip_chars(trimmed, 6))
    } else {
        let mut all: Vec<char> = Vec::new();
        let mut k: usize = 0;
        while k < trimmed.len()
            invariant
                k <= trimmed.len(),
                all@ == trimmed@.subrange(0, k as int),
            decreases trimmed.len() - k,
        {
            all.push(trimmed[k]);
            k = k + 1;
        }
        assert(all@ == trimmed@);
        (LogLevel::Info, all)
    }
}

fn message_exec(rest: &[char]) -> (res: Vec<char>)
    ensures
        res@ == message_of(rest@),
{
    let with_space: Vec<char> = vec!['a', 'r', 'e', 'n', 'a', '_', 'a', 'p', 'p', ':', ' '];
    let without: Vec<char> = vec!['a', 'r', 'e', 'n', 'a', '_', 'a', 'p', 'p', ':'];
    proof {
        reveal_strlit("arena_app: ");
        reveal_strlit("arena_app:");
        assert(with_space@ == "arena_app: "@);
        assert(without@ == "arena_app:"@);
        assert(with_space@.len() == 11);
        assert(without@.len() == 10);
    }
    let picked = match find_from(rest, with_space.as_slice(), 0) {
        Some(i) => {
            proof {
                lemma_find_spec_bounds(rest@, with_space@, 0);
                assert(occurs_at(rest@, with_space@, i as int));
                assert(i + 11 <= rest@.len());
                assert(rest@.len() == rest.len());
            }
            skip_chars(rest, i + 11)
        },
        None => match find_from(rest, without.as_slice(), 0) {
            Some(i) => {
                proof {
                    lemma_find_spec_bounds(rest@, without@, 0);
                    assert(occurs_at(rest@, without@, i as int));
                    assert(i + 10 <= rest@.len());
                    assert(rest@.len() == rest.len());
                }
                skip_chars(rest, i + 10)
            },
            None => skip_chars(rest, 0),
        },
    };
    proof {
        assert(rest@.skip(0) == rest@);
    }
    trim_chars(picked.as_slice())
}

/// The kind of a block, as the viewer's filter buttons name them.
#[derive(Clone, Copy, Debug, PartialEq, Eq, Structural)]
pub enum BlockKind {
    Prompt,
    Response,
    Thinking,
    Tool,
    Arena,
    Info,
    Warn,
    Error,
}

/// A block of the log: a tagged section with a heading and a body, or one plain line.
#[derive(Clone, Debug, PartialEq, Eq)]
pub enum LogBlock {
    Prompt { meta: String, body: String },
    Response { meta: String, body: String },
    Thinking { meta: String, body: String },
    ToolCall { meta: String, body: String },
    ToolResult { meta: String, body: String },
    ArenaRequest { meta: String, body: String },
    ArenaResponse { meta: String, body: String },
    Info { time: String, message: String },
    Warn { time: String, message: String },
    Error { time: String, message: String },
}

/// The mathematical value of a [`LogBlock`].
pub enum LogBlockView {
    Prompt { meta: Seq<char>, body: Seq<char> },
    Response { meta: Seq<char>, body: Seq<char> },
    Thinking { meta: Seq<char>, body: Seq<char> },
    ToolCall { meta: Seq<char>, body: Seq<char> },
    ToolResult { meta: Seq<char>, body: Seq<char> },
    ArenaRequest { meta: Seq<char>, body: Seq<char> },
    ArenaResponse { meta: Seq<char>, body: Seq<char> },
    Info { time: Seq<char>, message: Seq<char> },
    Warn { time: Seq<char>, message: Seq<char> },
    Error { time: Seq<char>, message: Seq<char> },
}

impl View for LogBlock {
    type V = LogBlockView;

    open spec fn view(&self) -> LogBlockView {
        match self {
            LogBlock::Prompt { meta, body } => LogBlockView::Prompt { meta: meta@, body: body@ },
            LogBlock::Response { meta, body } => LogBlockView::Response { meta: meta@, body: body@ },
            LogBlock::Thinking { meta, body } => LogBlockView::Thinking { meta: meta@, body: body@ },
            LogBlock::ToolCall { meta, body } => LogBlockView::ToolCall { meta: meta@, body: body@ },
            LogBlock::ToolResult { meta, body } => LogBlockView::ToolResult {
                meta: meta@,
                body: body@,
            },
            LogBlock::ArenaRequest { meta, body } => LogBlockView::ArenaRequest {
                meta: meta@,
                body: body@,
            },
            LogBlock::ArenaResponse { meta, body } => LogBlockView::ArenaResponse {
                meta: meta@,
                body: body@,
            },
            LogBlock::Info { time, message } => LogBlockView::Info { time: time@, message: message@ },
            LogBlock::Warn { time, message } => LogBlockView::Warn { time: time@, message: message@ },
            LogBlock::Error { time, message } => LogBlockView::Error {
                time: time@,
                message: message@,
            },
        }
    }
}

/// The kind of a block: tool calls and results are `Tool`, Arena requests and responses
/// are `Arena`.
pub open spec fn kind_of(b: LogBlockView) -> BlockKind {
    match b {
        LogBlockView::Prompt { .. } => BlockKind::Prompt,
        LogBlockView::Response { .. } => BlockKind::Response,
        LogBlockView::Thinking { .. } => BlockKind::Thinking,
        LogBlockView::ToolCall { .. } => BlockKind::Tool,
        LogBlockView::ToolResult { .. } => BlockKind::Tool,
        LogBlockView::ArenaRequest { .. } => BlockKind::Arena,
        LogBlockView::ArenaResponse { .. } => BlockKind::Arena,
        LogBlockView::Info { .. } => BlockKind::Info,
        LogBlockView::Warn { .. } => BlockKind::Warn,
        LogBlockView::Error { .. } => BlockKind::Error,
    }
}

/// The two texts of a block: heading and body, or time and message.
pub open spec fn text_of(b: LogBlockView) -> (Seq<char>, Seq<char>) {
    match b {
        LogBlockView::Prompt { meta, body } => (meta, body),
        LogBlockView::Response { meta, body } => (meta, body),
        LogBlockView::Thinking { meta, body } => (meta, body),
        LogBlockView::ToolCall { meta, body } => (meta, body),
        LogBlockView::ToolResult { meta, body } => (meta, body),
        LogBlockView::ArenaRequest { meta, body } => (meta, body),
        LogBlockView::ArenaResponse { meta, body } => (meta, body),
        LogBlockView::Info { time, message } => (time, message),
        LogBlockView::Warn { time, message } => (time, message),
        LogBlockView::Error { time, message } => (time, message),
    }
}

/// What the search box matches a block against: both texts, a space between them, in lower
/// case.
pub open spec fn search_text_of(b: LogBlockView) -> Seq<char> {
    lowercase(text_of(b).0 + " "@ + text_of(b).1)
}

impl LogBlock {
    pub fn kind(&self) -> (res: BlockKind)
        ensures
            res == kind_of(self@),
    {
        match self {
            LogBlock::Prompt { .. } => BlockKind::Prompt,
            LogBlock::Response { .. } => BlockKind::Response,
            LogBlock::Thinking { .. } => BlockKind::Thinking,
            LogBlock::ToolCall { .. } | LogBlock::ToolResult { .. } => BlockKind::Tool,
            LogBlock::ArenaRequest { .. } | LogBlock::ArenaResponse { .. } => BlockKind::Arena,
            LogBlock::Info { .. } => BlockKind::Info,
            LogBlock::Warn { .. } => BlockKind::Warn,
            LogBlock::Error { .. } => BlockKind::Error,
        }
    }

    pub fn text_content(&self) -> (res: (&str, &str))
        ensures
            res.0@ == text_of(self@).0,
            res.1@ == text_of(self@).1,
    {
        match self {
            LogBlock::Prompt { meta, body } | LogBlock::Response { meta, body }
            | LogBlock::Thinking { meta, body } | LogBlock::ToolCall { meta, body }
            | LogBlock::ToolResult { meta, body } | LogBlock::ArenaRequest { meta, body }
            | LogBlock::ArenaResponse { meta, body } => (meta.as_str(), body.as_str()),
            LogBlock::Info { time, message } | LogBlock::Warn { time, message }
            | LogBlock::Error { time, message } => (time.as_str(), message.as_str()),
        }
    }
}

/// A block together with the text that the search box matches.
#[derive(Clone, Debug, PartialEq, Eq)]
pub struct SearchableBlock {
    pub block: LogBlock,
    pub search_text: String,
}

impl SearchableBlock {
    pub fn new(block: LogBlock) -> (res: SearchableBlock)
        ensures
            res.block@ == block@,
            res.search_text@ == search_text_of(block@),
    {
        let (first, second) = block.text_content();
        let joined = crate::request::concat3(first, " ", second);
        let search_text = to_lowercase(joined.as_str());
        SearchableBlock { block, search_text }
    }

    /// Whether the block matches a lower-case query: every block matches the empty query.
    pub fn matches_search(&self, query_lower: &str) -> (res: bool)
        ensures
            res == (query_lower@.len() == 0 || contains_seq(self.search_text@, query_lower@)),
    {
        query_lower.is_empty() || crate::text::str_contains(self.search_text.as_str(), query_lower)
    }
}

/// `s` without the character `c` repeated at its start.
pub open spec fn strip_leading(s: Seq<char>, c: char) -> Seq<char>
    decreases s.len(),
{
    if s.len() > 0 && s[0] == c {
        strip_leading(s.drop_first(), c)
    } else {
        s
    }
}

/// `s` without the character `c` repeated at its end.
pub open spec fn strip_trailing(s: Seq<char>, c: char) -> Seq<char>
    decreases s.len(),
{
    if s.len() > 0 && s.last() == c {
        strip_trailing(s.drop_last(), c)
    } else {
        s
    }
}

/// The heading of a tagged section: its tag without the box-drawing rules around it.
pub open spec fn meta_of(tag: Seq<char>) -> Seq<char> {
    trim(strip_trailing(strip_leading(tag, '\u{2501}'), '\u{2501}'))
}

fn strip_leading_exec(s: &[char], c: char) -> (res: usize)
    ensures
        res <= s.len(),
        strip_leading(s@, c) == s@.skip(res as int),
{
    let mut i: usize = 0;
    assert(s@.skip(0) == s@);
    while i < s.len() && s[i] == c
        invariant
            i <= s.len(),
            strip_leading(s@, c) == strip_leading(s@.skip(i as int), c),
        decreases s.len() - i,
    {
        assert(s@.skip(i as int).drop_first() == s@.skip(i + 1));
        i = i + 1;
    }
    i
}

/// The heading of a tagged section (`extract_meta` of the viewer).
pub fn extract_meta(tag: &[char]) -> (res: Vec<char>)
    ensures
        res@ == meta_of(tag@),
{
    let start = strip_leading_exec(tag, '\u{2501}');
    let ghost rest = tag@.skip(start as int);
    let mut end = tag.len();
    while end > start && tag[end - 1] == '\u{2501}'
        invariant
            start <= end <= tag.len(),
            rest == tag@.skip(start as int),
            strip_trailing(rest, '\u{2501}') == strip_trailing(tag@.subrange(start as int, end as int), '\u{2501}'),
        decreases end,
    {
        assert(tag@.subrange(start as int, end as int).drop_last() == tag@.subrange(start as int, end - 1));
        end = end - 1;
    }
    assert(rest == tag@.subrange(start as int, tag.len() as int));
    let mut mid: Vec<char> = Vec::new();
    let mut k = start;
    while k < end
        invariant
            start <= k <= end <= tag.len(),
            mid@ == tag@.subrange(start as int, k as int),
        decreases end - k,
    {
        mid.push(tag[k]);
        k = k + 1;
    }
    trim_chars(mid.as_slice())
}

/// Lines joined with `\n` between them.
pub open spec fn join_lines(ls: Seq<Seq<char>>) -> Seq<char>
    decreases ls.len(),
{
    if ls.len() == 0 {
        seq![]
    } else if ls.len() == 1 {
        ls[0]
    } else {
        join_lines(ls.drop_last()) + seq!['\n'] + ls.last()
    }
}

/// The block of a tagged section, by the first name in its tag.
pub open spec fn tag_block(time: Seq<char>, tag: Seq<char>, body: Seq<char>) -> LogBlockView {
    let meta = meta_of(tag);
    if contains_seq(tag, "PROMPT"@) {
        LogBlockView::Prompt { meta, body }
    } else if contains_seq(tag, "RESPONSE"@) {
        LogBlockView::Response { meta, body }
    } else if contains_seq(tag, "THINKING"@) {
        LogBlockView::Thinking { meta, body }
    } else if contains_seq(tag, "TOOL CALL"@) {
        LogBlockView::ToolCall { meta, body }
    } else if contains_seq(tag, "TOOL RESULT"@) {
        LogBlockView::ToolResult { meta, body }
    } else if contains_seq(tag, "ARENA REQUEST"@) {
        LogBlockView::ArenaRequest { meta, body }
    } else if contains_seq(tag, "ARENA RESPONSE"@) {
        LogBlockView::ArenaResponse { meta, body }
    } else {
        LogBlockView::Info { time, message: tag + seq!['\n'] + body }
    }
}

/// The block of a plain log line, by its level.
pub open spec fn line_block(level: LogLevel, time: Seq<char>, message: Seq<char>) -> LogBlockView {
    match level {
        LogLevel::Error => LogBlockView::Error { time, message },
        LogLevel::Warn => LogBlockView::Warn { time, message },
        LogLevel::Info => LogBlockView::Info { time, message },
    }
}

/// A tagged section opens with three box-drawing rules.
pub open spec fn opens_section(message: Seq<char>) -> bool {
    starts_with_seq(message, seq!['\u{2501}', '\u{2501}', '\u{2501}'])
}

/// The first header line at or after `j`, or the number of lines when there is none.
pub open spec fn next_header(lines: Seq<Seq<char>>, j: int) -> int
    decreases lines.len() - j,
{
    if j >= lines.len() {
        lines.len() as int
    } else if is_header(lines[j]) {
        j
    } else {
        next_header(lines, j + 1)
    }
}

pub proof fn lemma_next_header_bounds(lines: Seq<Seq<char>>, j: int)
    requires
        0 <= j,
    ensures
        j <= next_header(lines, j) || (j > lines.len() && next_header(lines, j) == lines.len()),
        next_header(lines, j) <= lines.len() || next_header(lines, j) == j,
        next_header(lines, j) <= j || next_header(lines, j) <= lines.len(),
    decreases lines.len() - j,
{
    if j < lines.len() && !is_header(lines[j]) {
        lemma_next_header_bounds(lines, j + 1);
    }
}

/// The blocks of `lines` from line `index` on: lines before the first header are skipped;
/// a header whose message opens a section takes the lines up to the next header as its
/// body; any other header is one block.
pub open spec fn parse_blocks(lines: Seq<Seq<char>>, index: int) -> Seq<LogBlockView>
    decreases lines.len() - index,
{
    if index < 0 || index >= lines.len() {
        seq![]
    } else if !is_header(lines[index]) {
        parse_blocks(lines, index + 1)
    } else {
        let l = lines[index];
        let message = header_message(l);
        if opens_section(message) {
            let end = next_header(lines, index + 1);
            proof {
                lemma_next_header_bounds(lines, index + 1);
            }
            seq![tag_block(header_time(l), message, join_lines(lines.subrange(index + 1, end)))]
                + parse_blocks(lines, end)
        } else {
            seq![line_block(header_level(l), header_time(l), message)] + parse_blocks(
                lines,
                index + 1,
            )
        }
    }
}

/// The last header line in `start..index`, or `start` when there is none.
pub open spec fn last_header(lines: Seq<Seq<char>>, start: int, index: int) -> int
    decreases index - start,
{
    if index <= start {
        start
    } else if index - 1 < lines.len() && is_header(lines[index - 1]) {
        index - 1
    } else {
        last_header(lines, start, index - 1)
    }
}

pub open spec fn blocks_view(v: Seq<SearchableBlock>) -> Seq<LogBlockView> {
    v.map_values(|b: SearchableBlock| b.block@)
}

/// Every block's search text is the text the search box matches.
pub open spec fn searchable(v: Seq<SearchableBlock>) -> bool {
    forall|i: int| 0 <= i < v.len() ==> (#[trigger] v[i]).search_text@ == search_text_of(v[i].block@)
}

/// The viewer cuts every header line of `lines` from line `start` on without a panic.
pub open spec fn sliceable_from(lines: Seq<Seq<char>>, start: int) -> bool {
    forall|i: int|
        start <= i < lines.len() && is_header(#[trigger] lines[i]) ==> header_sliceable(lines[i])
}

fn chars_contain(hay: &[char], needle: &str) -> (res: bool)
    ensures
        res == contains_seq(hay@, needle@),
{
    let n = chars_of(needle);
    contains_chars(hay, n.as_slice())
}

/// The block of a tagged section.
fn make_tag_block(time: &[char], tag: &[char], body: &[char]) -> (res: LogBlock)
    ensures
        res@ == tag_block(time@, tag@, body@),
{
    let meta = string_of(extract_meta(tag).as_slice());
    let body_s = string_of(body);
    if chars_contain(tag, "PROMPT") {
        LogBlock::Prompt { meta, body: body_s }
    } else if chars_contain(tag, "RESPONSE") {
        LogBlock::Response { meta, body: body_s }
    } else if chars_contain(tag, "THINKING") {
        LogBlock::Thinking { meta, body: body_s }
    } else if chars_contain(tag, "TOOL CALL") {
        LogBlock::ToolCall { meta, body: body_s }
    } else if chars_contain(tag, "TOOL RESULT") {
        LogBlock::ToolResult { meta, body: body_s }
    } else if chars_contain(tag, "ARENA REQUEST") {
        LogBlock::ArenaRequest { meta, body: body_s }
    } else if chars_contain(tag, "ARENA RESPONSE") {
        LogBlock::ArenaResponse { meta, body: body_s }
    } else {
        let mut message: Vec<char> = Vec::new();
        let mut k: usize = 0;
        while k < tag.len()
            invariant
                k <= tag.len(),
                message@ == tag@.take(k as int),
            decreases tag.len() - k,
        {
            message.push(tag[k]);
            k = k + 1;
        }
        assert(tag@.take(tag@.len() as int) == tag@);
        message.push('\n');
        let ghost before = message@;
        let mut k: usize = 0;
        while k < body.len()
            invariant
                k <= body.len(),
                before == tag@ + seq!['\n'],
                message@ == before + body@.take(k as int),
            decreases body.len() - k,
        {
            message.push(body[k]);
            k = k + 1;
            assert(body@.take(k as int) == body@.take(k - 1).push(body@[k - 1]));
        }
        assert(body@.take(body@.len() as int) == body@);
        LogBlock::Info { time: string_of(time), message: string_of(message.as_slice()) }
    }
}

/// The block of a plain log line.
fn make_line_block(level: LogLevel, time: &[char], message: &[char]) -> (res: LogBlock)
    ensures
        res@ == line_block(level, time@, message@),
{
    let time = string_of(time);
    let message = string_of(message);
    match level {
        LogLevel::Error => LogBlock::Error { time, message },
        LogLevel::Warn => LogBlock::Warn { time, message },
        LogLevel::Info => LogBlock::Info { time, message },
    }
}

fn line_is_header(lines: &[String], j: usize) -> (res: bool)
    requires
        j < lines.len(),
    ensures
        res == is_header(lines@[j as int]@),
{
    let l = chars_of(lines[j].as_str());
    is_log_header(l.as_slice())
}

/// The blocks of `lines` from line `start` on, and the last header line seen (or `start`),
/// where a later parse of the grown log can resume.
pub fn parse_from(lines: &[String], start: usize) -> (res: (Vec<SearchableBlock>, usize))
    requires
        sliceable_from(strings_of(lines@), start as int),
    ensures
        blocks_view(res.0@) == parse_blocks(strings_of(lines@), start as int),
        searchable(res.0@),
        res.1 == last_header(strings_of(lines@), start as int, lines@.len() as int),
{
    let ghost lv = strings_of(lines@);
    let rules: Vec<char> = vec!['\u{2501}', '\u{2501}', '\u{2501}'];
    let mut blocks: Vec<SearchableBlock> = Vec::new();
    let mut index = start;
    let mut last = start;
    assert(blocks_view(blocks@) =~= Seq::<LogBlockView>::empty());
    if start >= lines.len() {
        assert(parse_blocks(lv, start as int) == Seq::<LogBlockView>::empty());
        return (blocks, last);
    }
    while index < lines.len()
        invariant
            start <= index <= lines.len(),
            lv == strings_of(lines@),
            lv.len() == lines@.len(),
            sliceable_from(lv, start as int),
            rules@ == seq!['\u{2501}', '\u{2501}', '\u{2501}'],
            blocks_view(blocks@) + parse_blocks(lv, index as int) == parse_blocks(lv, start as int),
            searchable(blocks@),
            last == last_header(lv, start as int, index as int),
        decreases lines.len() - index,
    {
        let line = chars_of(lines[index].as_str());
        assert(line@ == lv[index as int]);
        if !is_log_header(line.as_slice()) {
            index = index + 1;
            continue;
        }
        last = index;
        let parts = parse_header(line.as_slice());
        let ghost before = blocks_view(blocks@);
        if starts_with_chars(parts.message.as_slice(), rules.as_slice()) {
            let mut body: Vec<char> = Vec::new();
            let mut j = index + 1;
            assert(lv.subrange(index + 1, j as int) =~= Seq::<Seq<char>>::empty());
            while j < lines.len() && !line_is_header(lines, j)
                invariant
                    index < j <= lines.len(),
                    lv == strings_of(lines@),
                    lv.len() == lines@.len(),
                    body@ == join_lines(lv.subrange(index + 1, j as int)),
                    next_header(lv, index + 1) == next_header(lv, j as int),
                    last_header(lv, start as int, j as int) == index,
                    start <= index,
                    is_header(lv[index as int]),
                decreases lines.len() - j,
            {
                let lj = chars_of(lines[j].as_str());
                assert(lj@ == lv[j as int]);
                let ghost prev = body@;
                if j > index + 1 {
                    body.push('\n');
                }
                let mut k: usize = 0;
                let ghost mid = body@;
                while k < lj.len()
                    invariant
                        k <= lj.len(),
                        body@ == mid + lj@.take(k as int),
                    decreases lj.len() - k,
                {
                    body.push(lj[k]);
                    k = k + 1;
                    assert(lj@.take(k as int) == lj@.take(k - 1).push(lj@[k - 1]));
                }
                assert(lj@.take(lj@.len() as int) == lj@);
                assert(lv.subrange(index + 1, j + 1).drop_last() == lv.subrange(index + 1, j as int));
                assert(lv.subrange(index + 1, j + 1).last() == lv[j as int]);
                j = j + 1;
            }
            assert(next_header(lv, j as int) == j);
            let block = make_tag_block(parts.time.as_slice(), parts.message.as_slice(), body.as_slice());
            blocks.push(SearchableBlock::new(block));
            assert(blocks_view(blocks@) == before.push(block@));
            assert(parse_blocks(lv, index as int) == seq![block@] + parse_blocks(lv, j as int));
            assert(blocks_view(blocks@) + parse_blocks(lv, j as int) == before + parse_blocks(lv, index as int));
            index = j;
        } else {
            let block = make_line_block(parts.level, parts.time.as_slice(), parts.message.as_slice());
            blocks.push(SearchableBlock::new(block));
            assert(blocks_view(blocks@) == before.push(block@));
            assert(parse_blocks(lv, index as int) == seq![block@] + parse_blocks(lv, index + 1));
            assert(blocks_view(blocks@) + parse_blocks(lv, index + 1) == before + parse_blocks(lv, index as int));
            index = index + 1;
        }
    }
    assert(parse_blocks(lv, index as int) == Seq::<LogBlockView>::empty());
    assert(blocks_view(blocks@) + Seq::<LogBlockView>::empty() == blocks_view(blocks@));
    (blocks, last)
}

/// The size of a text in bytes, as std's `str::len` counts it.
pub open spec fn text_len(content: &str) -> usize {
    content.spec_bytes().len() as usize
}

/// The log viewer's parsed state: the blocks, where the next parse resumes, how many
/// blocks are complete (all but the last), and the size of the text they were parsed from.
#[derive(Clone, Debug, PartialEq, Eq)]
pub struct LogParser {
    pub blocks: Vec<SearchableBlock>,
    pub resume_line: usize,
    pub complete_count: usize,
    pub content_len: usize,
}

impl LogParser {
    pub fn new() -> (res: LogParser)
        ensures
            res.blocks@.len() == 0,
            res.resume_line == 0,
            res.complete_count == 0,
            res.content_len == 0,
    {
        LogParser { blocks: Vec::new(), resume_line: 0, complete_count: 0, content_len: 0 }
    }

    /// Brings the blocks up to date with the log text `content`: nothing to do when its
    /// size is unchanged; a full parse when it shrank or nothing was parsed before; and
    /// otherwise the last, possibly unfinished block is parsed again from its header, with
    /// the complete blocks kept.
    pub fn update(&mut self, content: &str)
        requires
            ({
                let current = text_len(content);
                current != old(self).content_len ==> sliceable_from(
                    lines_of(content@),
                    if current < old(self).content_len || old(self).content_len == 0 {
                        0
                    } else {
                        old(self).resume_line as int
                    },
                )
            }),
        ensures
            ({
                let lines = lines_of(content@);
                let current = text_len(content);
                if current == old(self).content_len {
                    *final(self) == *old(self)
                } else if current < old(self).content_len || old(self).content_len == 0 {
                    &&& blocks_view(final(self).blocks@) == parse_blocks(lines, 0)
                    &&& final(self).resume_line == last_header(lines, 0, lines.len() as int)
                    &&& final(self).complete_count == saturating_pred(final(self).blocks@.len())
                    &&& final(self).content_len == current
                    &&& searchable(final(self).blocks@)
                } else {
                    &&& blocks_view(final(self).blocks@) == blocks_view(
                        old(self).blocks@.take(kept(old(self).blocks@.len(), old(self).complete_count)),
                    ) + parse_blocks(lines, old(self).resume_line as int)
                    &&& final(self).resume_line == last_header(
                        lines,
                        old(self).resume_line as int,
                        lines.len() as int,
                    )
                    &&& final(self).complete_count == saturating_pred(final(self).blocks@.len())
                    &&& final(self).content_len == current
                    &&& searchable(old(self).blocks@) ==> searchable(final(self).blocks@)
                }
            }),
    {
        let current_len = content.len();
        if current_len == self.content_len {
            return;
        }
        let lines = split_lines(content);
        proof {
            assert(strings_of(lines@) == lines_of(content@));
        }
        if current_len < self.content_len || self.content_len == 0 {
            let (new_blocks, last) = parse_from(lines.as_slice(), 0);
            let complete = if new_blocks.len() > 0 {
                new_blocks.len() - 1
            } else {
                0
            };
            self.blocks = new_blocks;
            self.resume_line = last;
            self.complete_count = complete;
        } else {
            let (new_blocks, last) = parse_from(lines.as_slice(), self.resume_line);
            let ghost old_blocks = self.blocks@;
            let keep = if self.complete_count < self.blocks.len() {
                self.complete_count
            } else {
                self.blocks.len()
            };
            self.blocks.truncate(keep);
            assert(self.blocks@ == old_blocks.take(keep as int));
            let ghost kept_blocks = self.blocks@;
            let ghost added = new_blocks@;
            let mut new_blocks = new_blocks;
            self.blocks.append(&mut new_blocks);
            assert(self.blocks@ == kept_blocks + added);
            proof {
                if searchable(old_blocks) {
                    assert forall|i: int| 0 <= i < self.blocks@.len() implies (#[trigger] self.blocks@[i]).search_text@
                        == search_text_of(self.blocks@[i].block@) by {
                        if i < kept_blocks.len() {
                            assert(self.blocks@[i] == old_blocks[i]);
                        } else {
                            assert(self.blocks@[i] == added[i - kept_blocks.len()]);
                        }
                    }
                }
            }
            assert(blocks_view(self.blocks@) =~= blocks_view(kept_blocks) + blocks_view(added));
            let complete = if self.blocks.len() > 0 {
                self.blocks.len() - 1
            } else {
                0
            };
            self.resume_line = last;
            self.complete_count = complete;
        }
        self.content_len = current_len;
    }
}

/// `n - 1`, or `0` for `0` (`usize::saturating_sub(1)`).
pub open spec fn saturating_pred(n: nat) -> nat {
    if n > 0 {
        (n - 1) as nat
    } else {
        0
    }
}

/// How many blocks survive `Vec::truncate(complete)` of `len` blocks.
pub open spec fn kept(len: nat, complete: usize) -> int {
    if complete < len {
        complete as int
    } else {
        len as int
    }
}

/// The blocks that the viewer shows: those of the chosen kind (any, without a filter) that
/// match the lower-case query.
pub open spec fn shown(b: SearchableBlock, filter: Option<BlockKind>, query_lower: Seq<char>) -> bool {
    &&& match filter {
        Some(k) => kind_of(b.block@) == k,
        None => true,
    }
    &&& (query_lower.len() == 0 || contains_seq(b.search_text@, query_lower))
}

/// The indices of the blocks that the viewer shows, in order.
pub fn visible_blocks(blocks: &[SearchableBlock], filter: Option<BlockKind>, query: &str) -> (res: Vec<usize>)
    ensures
        forall|i: int| 0 <= i < res@.len() ==> (#[trigger] res@[i]) < blocks@.len(),
        forall|i: int, j: int| 0 <= i < j < res@.len() ==> res@[i] < res@[j],
        forall|k: int|
            0 <= k < blocks@.len() ==> (res@.contains(k as usize) <==> shown(
                #[trigger] blocks@[k],
                filter,
                lowercase(query@),
            )),
{
    let query_lower = to_lowercase(query);
    let mut res: Vec<usize> = Vec::new();
    let mut k: usize = 0;
    while k < blocks.len()
        invariant
            k <= blocks.len(),
            query_lower@ == lowercase(query@),
            forall|i: int| 0 <= i < res@.len() ==> (#[trigger] res@[i]) < k,
            forall|i: int, j: int| 0 <= i < j < res@.len() ==> res@[i] < res@[j],
            forall|m: int|
                0 <= m < k ==> (res@.contains(m as usize) <==> shown(
                    #[trigger] blocks@[m],
                    filter,
                    lowercase(query@),
                )),
        decreases blocks.len() - k,
    {
        let kind_ok = match filter {
            Some(f) => blocks[k].block.kind() == f,
            None => true,
        };
        let ghost old_res = res@;
        let take = kind_ok && blocks[k].matches_search(query_lower.as_str());
        assert(take == shown(blocks@[k as int], filter, lowercase(query@)));
        if take {
            res.push(k);
        }
        proof {
            assert forall|m: int|
                0 <= m < k + 1 implies (res@.contains(m as usize) <==> shown(
                #[trigger] blocks@[m],
                filter,
                lowercase(query@),
            )) by {
                if m < k {
                    if res@.contains(m as usize) {
                        let i = choose|i: int| 0 <= i < res@.len() && res@[i] == m as usize;
                        if take {
                            assert(i < old_res.len());
                        }
                        assert(old_res[i] == m as usize);
                        assert(old_res.contains(m as usize));
                    }
                    if old_res.contains(m as usize) {
                        let i = choose|i: int| 0 <= i < old_res.len() && old_res[i] == m as usize;
                        assert(res@[i] == m as usize);
                    }
                } else {
                    if take {
                        assert(res@[res@.len() - 1] == k);
                    } else if res@.contains(m as usize) {
                        let i = choose|i: int| 0 <= i < res@.len() && res@[i] == m as usize;
                        assert(old_res[i] < k);
                    }
                }
            }
        }
        k = k + 1;
    }
    res
}

proof fn lemma_prefix_header(a: Seq<char>, b: Seq<char>)
    requires
        a.len() <= b.len(),
        b.take(a.len() as int) == a,
        is_header(a),
    ensures
        is_header(b),
{
    lemma_byte_len_monotone(b, a.len() as int, b.len() as int);
    assert(b.take(b.len() as int) =~= b);
    assert forall|i: int| 0 <= i < 17 implies b[i] == a[i] by {
        assert(b.take(a.len() as int)[i] == b[i]);
    }
}

proof fn lemma_no_header_after(lines: Seq<Seq<char>>, j: int)
    requires
        0 <= j <= lines.len(),
        forall|k: int| j <= k < lines.len() ==> !is_header(#[trigger] lines[k]),
    ensures
        parse_blocks(lines, j) == Seq::<LogBlockView>::empty(),
        next_header(lines, j) == lines.len(),
    decreases lines.len() - j,
{
    if j < lines.len() {
        lemma_no_header_after(lines, j + 1);
    }
}

proof fn lemma_last_header_found(lines: Seq<Seq<char>>, index: int)
    requires
        0 <= index <= lines.len(),
    ensures
        ({
            let r = last_header(lines, 0, index);
            ||| (0 <= r < index && is_header(lines[r]) && forall|k: int|
                r < k < index ==> !is_header(#[trigger] lines[k]))
            ||| (r == 0 && forall|k: int| 0 <= k < index ==> !is_header(#[trigger] lines[k]))
        }),
    decreases index,
{
    if index > 0 && !is_header(lines[index - 1]) {
        lemma_last_header_found(lines, index - 1);
    }
}

proof fn lemma_next_header_take(lines: Seq<Seq<char>>, j: int, r: int)
    requires
        0 <= j <= r < lines.len(),
        is_header(lines[r]),
    ensures
        next_header(lines, j) <= r,
        next_header(lines.take(r), j) == next_header(lines, j),
    decreases r - j,
{
    if j < r {
        assert(lines.take(r)[j] == lines[j]);
        lemma_next_header_take(lines, j + 1, r);
    }
}

/// The blocks from line `i` up to the header line `r` are those of the lines before `r`,
/// whatever follows it.
pub proof fn lemma_parse_split(lines: Seq<Seq<char>>, i: int, r: int)
    requires
        0 <= i <= r < lines.len(),
        is_header(lines[r]),
    ensures
        parse_blocks(lines, i) == parse_blocks(lines.take(r), i) + parse_blocks(lines, r),
    decreases r - i,
{
    let t = lines.take(r);
    if i == r {
        assert(parse_blocks(t, i) == Seq::<LogBlockView>::empty());
        assert(parse_blocks(lines, i) =~= Seq::<LogBlockView>::empty() + parse_blocks(lines, r));
    } else {
        assert(t[i] == lines[i]);
        if !is_header(lines[i]) {
            lemma_parse_split(lines, i + 1, r);
            assert(parse_blocks(lines, i) =~= parse_blocks(t, i) + parse_blocks(lines, r));
        } else {
            let l = lines[i];
            if opens_section(header_message(l)) {
                lemma_next_header_take(lines, i + 1, r);
                lemma_next_header_bounds(lines, i + 1);
                let end = next_header(lines, i + 1);
                assert(t.subrange(i + 1, end) == lines.subrange(i + 1, end));
                lemma_parse_split(lines, end, r);
                assert(parse_blocks(lines, i) =~= parse_blocks(t, i) + parse_blocks(lines, r));
            } else {
                lemma_parse_split(lines, i + 1, r);
                assert(parse_blocks(lines, i) =~= parse_blocks(t, i) + parse_blocks(lines, r));
            }
        }
    }
}

proof fn lemma_last_block(lines: Seq<Seq<char>>, r: int)
    requires
        0 <= r < lines.len(),
        is_header(lines[r]),
        forall|k: int| r < k < lines.len() ==> !is_header(#[trigger] lines[k]),
    ensures
        parse_blocks(lines, r).len() == 1,
{
    lemma_no_header_after(lines, r + 1);
    lemma_no_header_after(lines, lines.len() as int);
}

/// The number of header lines in `a..b`.
pub open spec fn headers_in(lines: Seq<Seq<char>>, a: int, b: int) -> nat
    decreases b - a,
{
    if b <= a {
        0
    } else {
        headers_in(lines, a, b - 1) + if is_header(lines[b - 1]) {
            1nat
        } else {
            0nat
        }
    }
}

proof fn lemma_headers_in_split(lines: Seq<Seq<char>>, a: int, m: int, b: int)
    requires
        a <= m <= b,
    ensures
        headers_in(lines, a, b) == headers_in(lines, a, m) + headers_in(lines, m, b),
    decreases b - m,
{
    if m < b {
        lemma_headers_in_split(lines, a, m, b - 1);
    }
}

proof fn lemma_headers_in_none(lines: Seq<Seq<char>>, a: int, b: int)
    requires
        forall|k: int| a <= k < b ==> !is_header(#[trigger] lines[k]),
    ensures
        headers_in(lines, a, b) == 0,
    decreases b - a,
{
    if a < b {
        lemma_headers_in_none(lines, a, b - 1);
    }
}

proof fn lemma_headers_in_prefix(lines: Seq<Seq<char>>, other: Seq<Seq<char>>, a: int, b: int)
    requires
        0 <= a,
        b <= lines.len(),
        b <= other.len(),
        forall|k: int| a <= k < b ==> #[trigger] lines[k] == other[k],
    ensures
        headers_in(lines, a, b) == headers_in(other, a, b),
    decreases b - a,
{
    if a < b {
        lemma_headers_in_prefix(lines, other, a, b - 1);
    }
}

proof fn lemma_before_next_header(lines: Seq<Seq<char>>, j: int)
    requires
        0 <= j <= lines.len(),
    ensures
        forall|k: int| j <= k < next_header(lines, j) ==> !is_header(#[trigger] lines[k]),
    decreases lines.len() - j,
{
    if j < lines.len() && !is_header(lines[j]) {
        lemma_before_next_header(lines, j + 1);
    }
}

/// Every header line from `i` on makes one block, and nothing else does.
pub proof fn lemma_block_count(lines: Seq<Seq<char>>, i: int)
    requires
        0 <= i <= lines.len(),
    ensures
        parse_blocks(lines, i).len() == headers_in(lines, i, lines.len() as int),
    decreases lines.len() - i,
{
    let n = lines.len() as int;
    if i < n {
        lemma_headers_in_split(lines, i, i + 1, n);
        assert(headers_in(lines, i, i) == 0);
        assert(headers_in(lines, i, i + 1) == (if is_header(lines[i]) {
            1nat
        } else {
            0nat
        }));
        if !is_header(lines[i]) || !opens_section(header_message(lines[i])) {
            lemma_block_count(lines, i + 1);
        } else {
            lemma_next_header_bounds(lines, i + 1);
            let end = next_header(lines, i + 1);
            lemma_before_next_header(lines, i + 1);
            lemma_headers_in_split(lines, i + 1, end, n);
            lemma_headers_in_none(lines, i + 1, end);
            lemma_block_count(lines, end);
        }
    }
}

/// Parsing from a header line `h` gives the tail of a parse from an earlier line `start`:
/// the parse from `start` has one block for each header line in `start..h`, followed by
/// exactly the blocks of the parse from `h`; and both parses end at the same last header
/// line. (These are the spec functions of [`parse_from`]'s contract.)
pub proof fn law_parse_from_later_header(lines: Seq<Seq<char>>, start: int, h: int)
    requires
        0 <= start <= h < lines.len(),
        is_header(lines[h]),
    ensures
        parse_blocks(lines, start).len() == headers_in(lines, start, h) + parse_blocks(lines, h).len(),
        parse_blocks(lines, start).skip(headers_in(lines, start, h) as int) == parse_blocks(lines, h),
        last_header(lines, start, lines.len() as int) == last_header(lines, h, lines.len() as int),
{
    let front = lines.take(h);
    lemma_parse_split(lines, start, h);
    lemma_block_count(front, start);
    lemma_headers_in_prefix(front, lines, start, h);
    assert(parse_blocks(lines, start).skip(headers_in(lines, start, h) as int) =~= parse_blocks(lines, h));
    lemma_last_header_from(lines, start, h, lines.len() as int);
}

proof fn lemma_last_header_from(lines: Seq<Seq<char>>, start: int, h: int, index: int)
    requires
        0 <= start <= h < index <= lines.len(),
        is_header(lines[h]),
    ensures
        last_header(lines, start, index) == last_header(lines, h, index),
    decreases index,
{
    if index - 1 > h && !is_header(lines[index - 1]) {
        lemma_last_header_from(lines, start, h, index - 1);
    }
}

/// Parsing a grown log again from the last header of the old text, keeping the blocks
/// before it, gives the blocks of a full parse of the grown log (which is what
/// [`LogParser::update`] relies on when the text has grown), and the line where the next
/// parse resumes is the last header of the grown log, as after a full parse; so a chain of
/// updates on a growing log keeps the state of a full parse. This holds unless the old text
/// ended in a carriage return and the addition starts with a line feed: that pair ends the
/// last line and takes the `\r` off it, which can change whether that line is a header.
pub proof fn law_incremental_parse_matches_full(old_text: Seq<char>, added: Seq<char>)
    requires
        !(old_text.len() > 0 && old_text.last() == '\r' && added.len() > 0 && added[0] == '\n'),
    ensures
        ({
            let before = lines_of(old_text);
            let after = lines_of(old_text + added);
            let blocks = parse_blocks(before, 0);
            blocks.take(saturating_pred(blocks.len()) as int) + parse_blocks(
                after,
                last_header(before, 0, before.len() as int),
            ) == parse_blocks(after, 0)
        }),
        // and the next parse resumes where a full parse of the grown log would
        last_header(
            lines_of(old_text + added),
            last_header(lines_of(old_text), 0, lines_of(old_text).len() as int),
            lines_of(old_text + added).len() as int,
        ) == last_header(lines_of(old_text + added), 0, lines_of(old_text + added).len() as int),
{
    let before = lines_of(old_text);
    let after = lines_of(old_text + added);
    let n = before.len() as int;
    let r = last_header(before, 0, n);
    lemma_lines_append(old_text, added);
    lemma_last_header_found(before, n);
    if 0 <= r < n && is_header(before[r]) && forall|k: int|
        r < k < n ==> !is_header(#[trigger] before[k]) {
        // the header at `r` is a header in the grown log too, after the same lines
        if r < n - 1 {
            assert(after[r] == before[r]);
        } else {
            lemma_prefix_header(before[r], after[r]);
        }
        assert(after.take(r) =~= before.take(r)) by {
            assert forall|k: int| 0 <= k < r implies after.take(r)[k] == before.take(r)[k] by {
                assert(after[k] == before[k]);
            }
        }
        lemma_parse_split(before, 0, r);
        lemma_parse_split(after, 0, r);
        lemma_last_block(before, r);
        let front = parse_blocks(before.take(r), 0);
        let blocks = parse_blocks(before, 0);
        assert(blocks.take(front.len() as int) =~= front);
        lemma_last_header_from(after, 0, r, after.len() as int);
    } else {
        // no header at all: nothing was parsed, and everything is parsed anew
        lemma_no_header_after(before, 0);
        assert(parse_blocks(before, 0).take(0) =~= Seq::<LogBlockView>::empty());
    }
}

/// A click on the filter button of `kind`: the active filter is turned off, any other
/// filter is replaced by this one.
pub fn toggle_filter(active: &mut Option<BlockKind>, kind: BlockKind)
    ensures
        *old(active) == Some(kind) ==> *final(active) is None,
        *old(active) != Some(kind) ==> *final(active) == Some(kind),
{
    let same = match *active {
        Some(k) => k == kind,
        None => false,
    };
    if same {
        *active = None;
    } else {
        *active = Some(kind);
    }
}

/// What the log page does when its refresh setting or the page changes: with auto-refresh
/// on and the log page shown, the log text is cleared and the back end is asked to start
/// its log over and send it (the shell then asks for more every two seconds); otherwise
/// nothing happens.
pub fn start_refresh(auto_refresh: bool, view: page::View, log_content: &mut String) -> (res: Vec<FrontendCommand>)
    ensures
        auto_refresh && view == page::View::Logs ==> final(log_content)@.len() == 0
            && res@ == seq![FrontendCommand::ResetLogs, FrontendCommand::ReadLogs],
        !(auto_refresh && view == page::View::Logs) ==> *final(log_content) == *old(log_content)
            && res@.len() == 0,
{
    let mut commands: Vec<FrontendCommand> = Vec::new();
    if auto_refresh && view == page::View::Logs {
        *log_content = String::new();
        commands.push(FrontendCommand::ResetLogs);
        commands.push(FrontendCommand::ReadLogs);
    }
    commands
}

/// Opening a log file: the log text is cleared and the back end is asked for the file.
pub fn open_log_file(log_content: &mut String) -> (res: FrontendCommand)
    ensures
        final(log_content)@.len() == 0,
        res == FrontendCommand::OpenLogFile,
{
    *log_content = String::new();
    FrontendCommand::OpenLogFile
}

/// How a tagged section is classified: by the first of the names PROMPT, RESPONSE,
/// THINKING, TOOL CALL, TOOL RESULT, ARENA REQUEST, ARENA RESPONSE that its tag holds, each
/// giving the block (and filter kind) of that name with the tag's heading and the section's
/// body; a tag with none of them is an info block of the tag and the body. (A tag with
/// ARENA RESPONSE also holds RESPONSE, so it is a response block.)
pub proof fn law_tagged_section_kind(time: Seq<char>, tag: Seq<char>, body: Seq<char>)
    ensures
        contains_seq(tag, "PROMPT"@) ==> tag_block(time, tag, body) == (LogBlockView::Prompt {
            meta: meta_of(tag),
            body,
        }) && kind_of(tag_block(time, tag, body)) == BlockKind::Prompt,
        !contains_seq(tag, "PROMPT"@) && contains_seq(tag, "RESPONSE"@) ==> tag_block(time, tag, body)
            == (LogBlockView::Response { meta: meta_of(tag), body }) && kind_of(
            tag_block(time, tag, body),
        ) == BlockKind::Response,
        !contains_seq(tag, "PROMPT"@) && !contains_seq(tag, "RESPONSE"@) && contains_seq(tag, "THINKING"@)
            ==> tag_block(time, tag, body) == (LogBlockView::Thinking { meta: meta_of(tag), body })
            && kind_of(tag_block(time, tag, body)) == BlockKind::Thinking,
        !contains_seq(tag, "PROMPT"@) && !contains_seq(tag, "RESPONSE"@) && !contains_seq(tag, "THINKING"@)
            && contains_seq(tag, "TOOL CALL"@) ==> tag_block(time, tag, body) == (LogBlockView::ToolCall {
            meta: meta_of(tag),
            body,
        }) && kind_of(tag_block(time, tag, body)) == BlockKind::Tool,
        !contains_seq(tag, "PROMPT"@) && !contains_seq(tag, "RESPONSE"@) && !contains_seq(tag, "THINKING"@)
            && !contains_seq(tag, "TOOL CALL"@) && contains_seq(tag, "TOOL RESULT"@) ==> tag_block(
            time,
            tag,
            body,
        ) == (LogBlockView::ToolResult { meta: meta_of(tag), body }) && kind_of(
            tag_block(time, tag, body),
        ) == BlockKind::Tool,
        !contains_seq(tag, "PROMPT"@) && !contains_seq(tag, "RESPONSE"@) && !contains_seq(tag, "THINKING"@)
            && !contains_seq(tag, "TOOL CALL"@) && !contains_seq(tag, "TOOL RESULT"@) && contains_seq(
            tag,
            "ARENA REQUEST"@,
        ) ==> tag_block(time, tag, body) == (LogBlockView::ArenaRequest { meta: meta_of(tag), body })
            && kind_of(tag_block(time, tag, body)) == BlockKind::Arena,
        !contains_seq(tag, "PROMPT"@) && !contains_seq(tag, "RESPONSE"@) && !contains_seq(tag, "THINKING"@)
            && !contains_seq(tag, "TOOL CALL"@) && !contains_seq(tag, "TOOL RESULT"@) && !contains_seq(
            tag,
            "ARENA REQUEST"@,
        ) && !contains_seq(tag, "ARENA RESPONSE"@) ==> tag_block(time, tag, body) == (LogBlockView::Info {
            time,
            message: tag + seq!['\n'] + body,
        }) && kind_of(tag_block(time, tag, body)) == BlockKind::Info,
{
}

/// A header line that opens a tagged section starts, in a parse from it, a block of the
/// section's tag (see [`law_tagged_section_kind`]) whose body is the lines up to the next
/// header; so a section tagged THINKING (and neither PROMPT nor RESPONSE) is shown by the
/// Thinking filter.
pub proof fn law_section_block(lines: Seq<Seq<char>>, index: int)
    requires
        0 <= index < lines.len(),
        is_header(lines[index]),
        opens_section(header_message(lines[index])),
    ensures
        parse_blocks(lines, index).len() > 0,
        parse_blocks(lines, index)[0] == tag_block(
            header_time(lines[index]),
            header_message(lines[index]),
            join_lines(lines.subrange(index + 1, next_header(lines, index + 1))),
        ),
        ({
            let tag = header_message(lines[index]);
            !contains_seq(tag, "PROMPT"@) && !contains_seq(tag, "RESPONSE"@) && contains_seq(
                tag,
                "THINKING"@,
            ) ==> kind_of(parse_blocks(lines, index)[0]) == BlockKind::Thinking
        }),
{
    let tag = header_message(lines[index]);
    law_tagged_section_kind(
        header_time(lines[index]),
        tag,
        join_lines(lines.subrange(index + 1, next_header(lines, index + 1))),
    );
}

} // verus!
