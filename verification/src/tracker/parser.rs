//! Reading the MTGA log: its lines are grouped into parts, each part begins with a bracketed
//! prefix (or one of a few known unbracketed prefixes) and goes on with continuation lines.

use vstd::prelude::*;
use vstd::utf8::{decode_utf8, valid_utf8};
use crate::text::{string_from_utf8, chars_of, copy_str, lines_of, split_lines, str_starts_with, strings_view, trim, trimmed};
use crate::tracker::events::UnknownResult;
use crate::tracker::json::{json_bounds, JsonContentExtractor};
use crate::tracker::dates::{chrono_naive_parse, parse_naive_date_time, NaiveDateTimeValue, LOG_DATE_FORMAT};

verus! {

#[verifier::external_type_specification]
#[verifier::external_body]
pub struct ExRegex(onig::Regex);

/// Whether `onig::Regex::new` accepts the pattern.
pub uninterp spec fn onig_compiles(pattern: Seq<char>) -> bool;

/// What the capture groups of the first match of `pattern` in `text` hold, as a search of the
/// whole text with `onig::Regex::search_with_param` gives them where it succeeds, each group's
/// range (`Region::pos`) cut out of the text: `None` when there is no match; else one entry per
/// group (group 0 is the whole match), `None` for a group that did not take part. Oniguruma's
/// matching takes pages to state; the result depends on the pattern and the text alone.
pub uninterp spec fn onig_captures(pattern: Seq<char>, text: Seq<char>) -> Option<Seq<Option<Seq<char>>>>;

/// Whether Oniguruma gives up the search of `pattern` in the whole of `text`: the error that
/// `onig::Regex::search_with_param` returns, with the default match parameters, when a match
/// needs more backtracking than the retry limits allow. The retry limits are fixed defaults and
/// there is no time limit, so this depends on the pattern and the text alone.
pub uninterp spec fn onig_search_fails(pattern: Seq<char>, text: Seq<char>) -> bool;

/// The texts of the groups of a match.
pub open spec fn groups_view(groups: Seq<Option<String>>) -> Seq<Option<Seq<char>>> {
    groups.map_values(|g: Option<String>| match g {
        Some(s) => Some(s@),
        None => None,
    })
}

/// The texts of the groups of an optional match.
pub open spec fn captures_view(c: Option<Vec<Option<String>>>) -> Option<Seq<Option<Seq<char>>>> {
    match c {
        Some(groups) => Some(groups_view(groups@)),
        None => None,
    }
}

/// Oniguruma gave up a search (for instance when a match needed more backtracking than its
/// retry limit allows).
#[derive(Debug, Clone, Copy, PartialEq, Eq, Structural)]
pub struct SearchError;

/// A compiled regular expression, with the pattern it was compiled from.
pub struct LineMatcher {
    pattern: String,
    regex: onig::Regex,
}

impl LineMatcher {
    /// The pattern the expression was compiled from.
    pub closed spec fn pattern(&self) -> Seq<char> {
        self.pattern@
    }

    /// Compiles `pattern` (Ruby syntax): `None` when Oniguruma rejects it.
    pub fn new(pattern: &str) -> (r: Option<LineMatcher>)
        ensures
            r is Some <==> onig_compiles(pattern@),
            r matches Some(m) ==> m.pattern() == pattern@,
    {
        compile_matcher(pattern)
    }

    /// The capture groups of the first match in `text` (see `onig_captures`), or the error
    /// where Oniguruma gives up the search (see `onig_search_fails`).
    pub fn captures(&self, text: &str) -> (r: Result<Option<Vec<Option<String>>>, SearchError>)
        ensures
            r is Err <==> onig_search_fails(self.pattern(), text@),
            r matches Ok(c) ==> captures_view(c) == onig_captures(self.pattern(), text@),
    {
        matcher_captures(self, text)
    }
}

/// `onig::Regex::new`: compiles `pattern` with the Ruby syntax, keeping the pattern beside the
/// expression. What is claimed: the result exists exactly when `onig_compiles` holds of the
/// pattern, and it keeps the pattern.
#[verifier::external_body]
fn compile_matcher(pattern: &str) -> (r: Option<LineMatcher>)
    ensures
        r is Some <==> onig_compiles(pattern@),
        r matches Some(m) ==> m.pattern() == pattern@,
{
    match onig::Regex::new(pattern) {
        Ok(regex) => Some(LineMatcher { pattern: pattern.to_string(), regex }),
        Err(_) => None,
    }
}

/// `onig::Regex::search_with_param` over the whole text, with no option, the default match
/// parameters and a `Region` for the groups; on a match, each group's range (`Region::len`,
/// `Region::pos`) is cut out of the text. What is claimed: the search fails exactly when
/// `onig_search_fails` holds of the matcher's pattern and the text, and where it succeeds the
/// result is the one named by `onig_captures` for them.
#[verifier::external_body]
fn matcher_captures(m: &LineMatcher, text: &str) -> (r: Result<Option<Vec<Option<String>>>, SearchError>)
    ensures
        r is Err <==> onig_search_fails(m.pattern(), text@),
        r matches Ok(c) ==> captures_view(c) == onig_captures(m.pattern(), text@),
{
    let mut region = onig::Region::new();
    let options = onig::SearchOptions::SEARCH_OPTION_NONE;
    match m.regex.search_with_param(text, 0, text.len(), options, Some(&mut region), onig::MatchParam::default()) {
        Ok(Some(_)) => Ok(Some((0..region.len()).map(|i| region.pos(i).map(|(b, e)| text[b..e].to_string())).collect())),
        Ok(None) => Ok(None),
        Err(_) => Err(SearchError),
    }
}

/// The view of a part of the log.
pub struct PartView {
    pub first_line: Seq<char>,
    pub prefix: Seq<char>,
    pub date_str: Option<Seq<char>>,
    pub content: Seq<char>,
    pub other_lines: Seq<Seq<char>>,
}

/// The view of an optional text.
pub open spec fn opt_view(s: Option<String>) -> Option<Seq<char>> {
    match s {
        Some(t) => Some(t@),
        None => None,
    }
}

/// A part of the log being assembled: its first line, its prefix and date, the content after
/// them, and the lines that continue it.
pub struct IntermediatePart {
    pub first_line: String,
    pub prefix: String,
    pub date_str: Option<String>,
    pub content: String,
    pub other_lines: Vec<String>,
}

impl View for IntermediatePart {
    type V = PartView;

    open spec fn view(&self) -> PartView {
        PartView {
            first_line: self.first_line@,
            prefix: self.prefix@,
            date_str: opt_view(self.date_str),
            content: self.content@,
            other_lines: strings_view(self.other_lines@),
        }
    }
}

/// `base`, then each line on a line of its own: `lines.fold(base, |a, l| format!("{a}\n{l}"))`.
pub open spec fn join_lines(base: Seq<char>, lines: Seq<Seq<char>>) -> Seq<char>
    decreases lines.len(),
{
    if lines.len() == 0 {
        base
    } else {
        join_lines(base, lines.drop_last()) + seq!['\n'] + lines.last()
    }
}

/// The whole text of a part, its first line included, trimmed.
pub open spec fn full_text(p: PartView) -> Seq<char> {
    trim(join_lines(p.first_line, p.other_lines))
}

/// The content of a part, without its prefix and date, trimmed.
pub open spec fn content_text(p: PartView) -> Seq<char> {
    trim(join_lines(p.content, p.other_lines))
}

/// The date of a part, read from its date text in the client's format.
pub open spec fn part_date(p: PartView) -> Option<NaiveDateTimeValue> {
    match p.date_str {
        Some(d) => chrono_naive_parse(d, LOG_DATE_FORMAT@),
        None => None,
    }
}

/// The characters of `base` and `lines`, joined with line feeds.
fn joined_chars(base: &str, lines: &Vec<String>) -> (r: Vec<char>)
    ensures
        r@ == join_lines(base@, strings_view(lines@)),
{
    let mut v = chars_of(base);
    let mut i: usize = 0;
    while i < lines.len()
        invariant
            i <= lines@.len(),
            v@ == join_lines(base@, strings_view(lines@).take(i as int)),
        decreases lines.len() - i,
    {
        let ghost before = v@;
        v.push('\n');
        let line = chars_of(lines[i].as_str());
        let mut j: usize = 0;
        while j < line.len()
            invariant
                j <= line@.len(),
                v@ == before + seq!['\n'] + line@.take(j as int),
            decreases line.len() - j,
        {
            v.push(line[j]);
            j = j + 1;
            assert(v@ =~= before + seq!['\n'] + line@.take(j as int));
        }
        proof {
            let sv = strings_view(lines@);
            assert(sv.take(i + 1).drop_last() =~= sv.take(i as int));
            assert(sv.take(i + 1).last() == lines@[i as int]@);
            assert(line@.take(j as int) =~= line@);
        }
        i = i + 1;
    }
    assert(strings_view(lines@).take(i as int) =~= strings_view(lines@));
    v
}

impl IntermediatePart {
    /// A new part made of one line.
    pub fn new(first_line: String, prefix: String, date_str: Option<String>, content: String) -> (r: IntermediatePart)
        ensures
            r@ == (PartView {
                first_line: first_line@,
                prefix: prefix@,
                date_str: opt_view(date_str),
                content: content@,
                other_lines: Seq::empty(),
            }),
    {
        let r = IntermediatePart { first_line, prefix, date_str, content, other_lines: Vec::new() };
        assert(strings_view(r.other_lines@) =~= Seq::<Seq<char>>::empty());
        r
    }

    /// The part's prefix.
    pub fn prefix(&self) -> (r: &str)
        ensures
            r@ == self@.prefix,
    {
        self.prefix.as_str()
    }

    /// The whole text of the part, its first line included, trimmed.
    pub fn full_content_with_prefix(&self) -> (r: String)
        ensures
            r@ == full_text(self@),
    {
        let v = joined_chars(self.first_line.as_str(), &self.other_lines);
        trimmed(v.as_slice())
    }

    /// The content of the part, without its prefix and date, trimmed.
    pub fn content(&self) -> (r: String)
        ensures
            r@ == content_text(self@),
    {
        let v = joined_chars(self.content.as_str(), &self.other_lines);
        trimmed(v.as_slice())
    }

    /// The date of the part, in the client's date format (`YYYY. MM. DD. hh:mm:ss`).
    pub fn date(&self) -> (r: Option<NaiveDateTimeValue>)
        ensures
            r == part_date(self@),
    {
        match &self.date_str {
            Some(d) => parse_naive_date_time(d.as_str(), LOG_DATE_FORMAT),
            None => None,
        }
    }

    /// Replaces the part's prefix.
    pub fn change_prefix(&mut self, new_prefix: String)
        ensures
            final(self)@ == (PartView { prefix: new_prefix@, ..old(self)@ }),
    {
        self.prefix = new_prefix;
    }

    /// Adds a continuation line to the part.
    pub fn add_line(&mut self, line: String)
        ensures
            final(self)@ == (PartView { other_lines: old(self)@.other_lines.push(line@), ..old(self)@ }),
    {
        self.other_lines.push(line);
        assert(strings_view(self.other_lines@) =~= strings_view(old(self).other_lines@).push(line@));
    }
}

/// The pattern of a log line that opens a part: `[prefix]`, an optional date, the content.
pub const LOG_LINE_PATTERN: &'static str = "^\\[(.*?)\\](?:(\\d.+? \\d.+?(?: (?:A|P)M)?)(?:$|: | (?=[a-zA-Z])))?(.*)";

/// The prefix a part gets when the client summarizes its message.
pub const SUMMARIZED_MESSAGE_PREFIX: &'static str = "Message summarized";

/// A summary line of the client begins so.
pub const SUMMARY_LINE_START: &'static str = "[Message summarized";

/// Lines that open a part without a bracketed prefix begin with one of these.
pub const MONO_PREFIX: &'static str = "Mono ";
pub const INITIALIZING_PREFIX: &'static str = "Initialize engine version:";
pub const DETAILED_LOGS_PREFIX: &'static str = "DETAILED LOGS:";
pub const BI_ERROR_PREFIX: &'static str = "BIError";

/// The unbracketed prefix a line begins with, the first of the known ones in order.
pub open spec fn no_brace_prefix(line: Seq<char>) -> Option<Seq<char>> {
    if MONO_PREFIX@.is_prefix_of(line) {
        Some(MONO_PREFIX@)
    } else if INITIALIZING_PREFIX@.is_prefix_of(line) {
        Some(INITIALIZING_PREFIX@)
    } else if DETAILED_LOGS_PREFIX@.is_prefix_of(line) {
        Some(DETAILED_LOGS_PREFIX@)
    } else if BI_ERROR_PREFIX@.is_prefix_of(line) {
        Some(BI_ERROR_PREFIX@)
    } else {
        None
    }
}

/// What a line of the log is.
pub enum LineClass {
    /// The summary of the current part's message, which belongs to that part.
    Summarized(Seq<char>),
    /// A line that opens a new part.
    NewPart(PartView),
    /// A line that opens a new part with an unbracketed prefix.
    NoBracePart(PartView),
    /// A line that continues the current part.
    Continuation(Seq<char>),
    /// A matched line whose prefix or content group is missing.
    Malformed,
}

/// The group `i` of a match, if the match has it and it took part.
pub open spec fn group(c: Seq<Option<Seq<char>>>, i: int) -> Option<Seq<char>> {
    if 0 <= i < c.len() {
        c[i]
    } else {
        None
    }
}

/// What a line is, given the captures of the line pattern on it.
pub open spec fn line_class(line: Seq<char>, caps: Option<Seq<Option<Seq<char>>>>) -> LineClass {
    if SUMMARY_LINE_START@.is_prefix_of(line) {
        LineClass::Summarized(line)
    } else if caps is Some {
        let c = caps->0;
        if group(c, 1) is Some && group(c, 3) is Some {
            LineClass::NewPart(
                PartView {
                    first_line: line,
                    prefix: group(c, 1)->0,
                    date_str: group(c, 2),
                    content: group(c, 3)->0,
                    other_lines: Seq::empty(),
                },
            )
        } else {
            LineClass::Malformed
        }
    } else {
        match no_brace_prefix(line) {
            Some(p) => LineClass::NoBracePart(
                PartView {
                    first_line: line,
                    prefix: p,
                    date_str: None,
                    content: line,
                    other_lines: Seq::empty(),
                },
            ),
            None => LineClass::Continuation(line),
        }
    }
}

/// Whether reading a line under the line pattern `pattern` runs a search that Oniguruma gives
/// up: a summary line is known by its start, any other line is searched.
pub open spec fn line_search_fails(pattern: Seq<char>, line: Seq<char>) -> bool {
    !SUMMARY_LINE_START@.is_prefix_of(line) && onig_search_fails(pattern, line)
}

/// A part opened by a line without a bracketed prefix: its prefix is `prefix`, it has no date,
/// and its content is the whole line.
pub open spec fn unbracketed_part(line: Seq<char>, prefix: Seq<char>) -> PartView {
    PartView { first_line: line, prefix, date_str: None, content: line, other_lines: Seq::empty() }
}

/// A line that the line pattern does not match and that begins with `Mono `, `Initialize
/// engine version:`, `DETAILED LOGS:` or `BIError` opens a part of its own, whose prefix is that
/// text and whose content is the whole line: whatever part was being assembled is closed, and
/// the line is never added to it.
pub proof fn lemma_unbracketed_line_opens_a_part(line: Seq<char>, cur: Option<PartView>, done: Seq<PartView>)
    ensures
        "Mono "@.is_prefix_of(line) ==> line_class(line, None) == LineClass::NoBracePart(
            unbracketed_part(line, "Mono "@),
        ),
        "Initialize engine version:"@.is_prefix_of(line) ==> line_class(line, None)
            == LineClass::NoBracePart(unbracketed_part(line, "Initialize engine version:"@)),
        "DETAILED LOGS:"@.is_prefix_of(line) ==> line_class(line, None) == LineClass::NoBracePart(
            unbracketed_part(line, "DETAILED LOGS:"@),
        ),
        "BIError"@.is_prefix_of(line) ==> line_class(line, None) == LineClass::NoBracePart(
            unbracketed_part(line, "BIError"@),
        ),
        line_class(line, None) matches LineClass::NoBracePart(p) ==> plan_step((cur, done), line_class(line, None))
            == Some((Some(p), match cur {
                Some(c) => done.push(c),
                None => done,
            })),
{
    reveal_strlit("[Message summarized");
    reveal_strlit("Mono ");
    reveal_strlit("Initialize engine version:");
    reveal_strlit("DETAILED LOGS:");
    reveal_strlit("BIError");
    assert(SUMMARY_LINE_START@ == "[Message summarized"@);
    assert(MONO_PREFIX@ == "Mono "@);
    assert(INITIALIZING_PREFIX@ == "Initialize engine version:"@);
    assert(DETAILED_LOGS_PREFIX@ == "DETAILED LOGS:"@);
    assert(BI_ERROR_PREFIX@ == "BIError"@);
    if line.len() > 0 {
        assert("[Message summarized"@[0] == '[');
        assert("Mono "@[0] == 'M');
        assert("Initialize engine version:"@[0] == 'I');
        assert("DETAILED LOGS:"@[0] == 'D');
        assert("BIError"@[0] == 'B');
        assert(line[0] == line[0]);
    }
}

/// What `check_new_line` found in a line.
pub enum NewPartResult {
    SummarizedMessagePart(String),
    NewPart(IntermediatePart),
    NoBracePart(IntermediatePart),
    ContinuationPart(String),
}

/// The class a result of `check_new_line` stands for.
pub open spec fn result_class(r: NewPartResult) -> LineClass {
    match r {
        NewPartResult::SummarizedMessagePart(l) => LineClass::Summarized(l@),
        NewPartResult::NewPart(p) => LineClass::NewPart(p@),
        NewPartResult::NoBracePart(p) => LineClass::NoBracePart(p@),
        NewPartResult::ContinuationPart(l) => LineClass::Continuation(l@),
    }
}

fn group_at(c: &Vec<Option<String>>, i: usize) -> (r: Option<String>)
    ensures
        opt_view(r) == group(groups_view(c@), i as int),
{
    if i < c.len() {
        match &c[i] {
            Some(g) => Some(g.clone()),
            None => None,
        }
    } else {
        None
    }
}

fn no_brace_prefix_exec(line: &str) -> (r: Option<&'static str>)
    ensures
        match r {
            Some(p) => no_brace_prefix(line@) == Some(p@),
            None => no_brace_prefix(line@) is None,
        },
{
    if str_starts_with(line, MONO_PREFIX) {
        Some(MONO_PREFIX)
    } else if str_starts_with(line, INITIALIZING_PREFIX) {
        Some(INITIALIZING_PREFIX)
    } else if str_starts_with(line, DETAILED_LOGS_PREFIX) {
        Some(DETAILED_LOGS_PREFIX)
    } else if str_starts_with(line, BI_ERROR_PREFIX) {
        Some(BI_ERROR_PREFIX)
    } else {
        None
    }
}

/// What a line of the log is: a summary, the first line of a part (with a bracketed prefix,
/// or one of the known unbracketed ones), or a continuation. `None` when the line pattern
/// matches but its prefix or content group is missing; the error when the search for the
/// pattern in a line that is no summary gives up.
pub fn check_new_line(re: &LineMatcher, line: &str) -> (r: Result<Option<NewPartResult>, SearchError>)
    ensures
        match r {
            Ok(Some(k)) => result_class(k) == line_class(line@, onig_captures(re.pattern(), line@)),
            Ok(None) => line_class(line@, onig_captures(re.pattern(), line@)) is Malformed,
            Err(_) => true,
        },
        r is Err <==> line_search_fails(re.pattern(), line@),
{
    if str_starts_with(line, SUMMARY_LINE_START) {
        return Ok(Some(NewPartResult::SummarizedMessagePart(String::from_str(line))));
    }
    let caps = match re.captures(line) {
        Ok(c) => c,
        Err(e) => return Err(e),
    };
    Ok(classify_line(line, caps))
}

/// What a line of the log is, given the captures of the line pattern on it (`None` when the
/// pattern does not match): a summary, the first line of a part, or a continuation; `None`
/// when the pattern matches without its prefix or content group.
pub fn classify_line(line: &str, caps: Option<Vec<Option<String>>>) -> (r: Option<NewPartResult>)
    ensures
        match r {
            Some(k) => result_class(k) == line_class(line@, captures_view(caps)),
            None => line_class(line@, captures_view(caps)) is Malformed,
        },
{
    if str_starts_with(line, SUMMARY_LINE_START) {
        return Some(NewPartResult::SummarizedMessagePart(String::from_str(line)));
    }
    match caps {
        Some(c) => {
            let prefix = group_at(&c, 1);
            let date_str = group_at(&c, 2);
            let content = group_at(&c, 3);
            match (prefix, content) {
                (Some(p), Some(t)) => Some(
                    NewPartResult::NewPart(
                        IntermediatePart::new(String::from_str(line), p, date_str, t),
                    ),
                ),
                _ => None,
            }
        },
        None => match no_brace_prefix_exec(line) {
            Some(p) => Some(
                NewPartResult::NoBracePart(
                    IntermediatePart::new(
                        String::from_str(line),
                        String::from_str(p),
                        None,
                        String::from_str(line),
                    ),
                ),
            ),
            None => Some(NewPartResult::ContinuationPart(String::from_str(line))),
        },
    }
}

/// The state of the grouping after some lines: the part being assembled, and the parts done.
pub type PlanState = (Option<PartView>, Seq<PartView>);

/// One line's effect on the grouping: a summary joins the current part under the summary
/// prefix (there must be one), a new part closes the current one, a continuation line joins
/// the current part (or is dropped when there is none). `None`: the grouping aborts.
pub open spec fn plan_step(state: PlanState, class: LineClass) -> Option<PlanState> {
    let (cur, done) = state;
    match class {
        LineClass::Summarized(l) => match cur {
            Some(p) => Some(
                (
                    Some(
                        PartView {
                            prefix: SUMMARIZED_MESSAGE_PREFIX@,
                            other_lines: p.other_lines.push(l),
                            ..p
                        },
                    ),
                    done,
                ),
            ),
            None => None,
        },
        LineClass::NewPart(p) => Some(
            (
                Some(p),
                match cur {
                    Some(c) => done.push(c),
                    None => done,
                },
            ),
        ),
        LineClass::NoBracePart(p) => Some(
            (
                Some(p),
                match cur {
                    Some(c) => done.push(c),
                    None => done,
                },
            ),
        ),
        LineClass::Continuation(l) => Some(
            (
                match cur {
                    Some(c) => Some(PartView { other_lines: c.other_lines.push(l), ..c }),
                    None => None,
                },
                done,
            ),
        ),
        LineClass::Malformed => None,
    }
}

/// The grouping after the first `n` lines.
pub open spec fn plan_state(classes: Seq<LineClass>, n: int) -> Option<PlanState>
    decreases n,
{
    if n <= 0 {
        Some((None, Seq::empty()))
    } else {
        match plan_state(classes, n - 1) {
            Some(st) => plan_step(st, classes[n - 1]),
            None => None,
        }
    }
}

/// The parts of a log whose lines are of the given classes, in order.
pub open spec fn plan_parts(classes: Seq<LineClass>) -> Option<Seq<PartView>> {
    match plan_state(classes, classes.len() as int) {
        Some((cur, done)) => Some(
            match cur {
                Some(p) => done.push(p),
                None => done,
            },
        ),
        None => None,
    }
}

/// The classes of the lines of a log, under the line pattern `pattern`.
pub open spec fn line_classes(pattern: Seq<char>, lines: Seq<Seq<char>>) -> Seq<LineClass> {
    lines.map_values(|l: Seq<char>| line_class(l, onig_captures(pattern, l)))
}

/// The parts of the log text `content`.
pub open spec fn log_parts(content: Seq<char>) -> Option<Seq<PartView>> {
    plan_parts(line_classes(LOG_LINE_PATTERN@, lines_of(content)))
}

/// The lines of a part: its first line, then the lines that continue it.
pub open spec fn part_lines(p: PartView) -> Seq<Seq<char>> {
    seq![p.first_line] + p.other_lines
}

/// The lines of the parts, in order.
pub open spec fn all_part_lines(ps: Seq<PartView>) -> Seq<Seq<char>>
    decreases ps.len(),
{
    if ps.len() == 0 {
        Seq::empty()
    } else {
        all_part_lines(ps.drop_last()) + part_lines(ps.last())
    }
}

/// The part being assembled in a grouping.
pub open spec fn state_current(st: PlanState) -> Option<PartView> {
    st.0
}

/// The parts done in a grouping.
pub open spec fn state_done(st: PlanState) -> Seq<PartView> {
    st.1
}

/// The lines of a grouping in progress: those of the parts done, then those of the current part.
pub open spec fn state_lines(st: PlanState) -> Seq<Seq<char>> {
    all_part_lines(st.1) + match st.0 {
        Some(c) => part_lines(c),
        None => Seq::empty(),
    }
}

/// How many of the first `n` lines were dropped: the continuation lines that come before any
/// part.
pub open spec fn dropped_lines(classes: Seq<LineClass>, n: int) -> int
    decreases n,
{
    if n <= 0 {
        0
    } else if plan_state(classes, n - 1) matches Some((None, _)) && classes[n - 1] is Continuation {
        dropped_lines(classes, n - 1) + 1
    } else {
        dropped_lines(classes, n - 1)
    }
}

/// The line a class was read from, when it is one that the grouping takes.
pub open spec fn class_line(c: LineClass) -> Option<Seq<char>> {
    match c {
        LineClass::Summarized(l) => Some(l),
        LineClass::NewPart(p) => Some(p.first_line),
        LineClass::NoBracePart(p) => Some(p.first_line),
        LineClass::Continuation(l) => Some(l),
        LineClass::Malformed => None,
    }
}

/// A class read from `line` carries `line`, and a part it opens has no other line yet.
pub open spec fn class_of_line(c: LineClass, line: Seq<char>) -> bool {
    &&& (class_line(c) matches Some(l) ==> l == line)
    &&& (c matches LineClass::NewPart(p) ==> p.other_lines.len() == 0)
    &&& (c matches LineClass::NoBracePart(p) ==> p.other_lines.len() == 0)
}

proof fn lemma_line_class_of_line(line: Seq<char>, caps: Option<Seq<Option<Seq<char>>>>)
    ensures
        class_of_line(line_class(line, caps), line),
{
}

proof fn lemma_all_part_lines_push(ps: Seq<PartView>, p: PartView)
    ensures
        all_part_lines(ps.push(p)) == all_part_lines(ps) + part_lines(p),
{
    assert(ps.push(p).drop_last() =~= ps);
}

/// After `n` lines, the grouping holds the lines read so far, in order, but for those dropped;
/// the dropped ones are continuation lines that come first; and until a part opens, every line
/// is dropped.
proof fn lemma_plan_keeps_lines(classes: Seq<LineClass>, lines: Seq<Seq<char>>, n: int)
    requires
        classes.len() == lines.len(),
        forall|i: int| 0 <= i < lines.len() ==> class_of_line(#[trigger] classes[i], lines[i]),
        0 <= n <= lines.len(),
        plan_state(classes, n) is Some,
    ensures
        0 <= dropped_lines(classes, n) <= n,
        state_lines(plan_state(classes, n)->0) == lines.take(n).skip(dropped_lines(classes, n)),
        state_current(plan_state(classes, n)->0) is None ==> state_done(plan_state(classes, n)->0).len() == 0
            && dropped_lines(classes, n) == n,
        forall|j: int| 0 <= j < dropped_lines(classes, n) ==> #[trigger] classes[j] is Continuation,
    decreases n,
{
    if n > 0 {
        let prev = plan_state(classes, n - 1);
        if prev is None {
            lemma_plan_abort_persists(classes, n - 1, n);
        }
        lemma_plan_keeps_lines(classes, lines, n - 1);
        let (cur, done) = prev->0;
        let c = classes[n - 1];
        let l = lines[n - 1];
        assert(class_of_line(c, l));
        let k = dropped_lines(classes, n - 1);
        let next = plan_state(classes, n)->0;
        assert(lines.take(n) =~= lines.take(n - 1).push(l));
        match c {
            LineClass::Summarized(_) => {
                let p = cur->0;
                assert(part_lines(next.0->0) =~= part_lines(p).push(l));
                assert(lines.take(n).skip(k) =~= lines.take(n - 1).skip(k).push(l));
                assert(state_lines(next) =~= state_lines(prev->0).push(l));
            },
            LineClass::NewPart(p) => {
                assert(part_lines(p) =~= seq![l]);
                match cur {
                    Some(old) => {
                        lemma_all_part_lines_push(done, old);
                        assert(lines.take(n).skip(k) =~= lines.take(n - 1).skip(k).push(l));
                        assert(state_lines(next) =~= state_lines(prev->0) + seq![l]);
                    },
                    None => {
                        assert(lines.take(n).skip(k) =~= seq![l]);
                        assert(all_part_lines(done) =~= Seq::<Seq<char>>::empty());
                        assert(state_lines(next) =~= seq![l]);
                    },
                }
            },
            LineClass::NoBracePart(p) => {
                assert(part_lines(p) =~= seq![l]);
                match cur {
                    Some(old) => {
                        lemma_all_part_lines_push(done, old);
                        assert(lines.take(n).skip(k) =~= lines.take(n - 1).skip(k).push(l));
                        assert(state_lines(next) =~= state_lines(prev->0) + seq![l]);
                    },
                    None => {
                        assert(lines.take(n).skip(k) =~= seq![l]);
                        assert(all_part_lines(done) =~= Seq::<Seq<char>>::empty());
                        assert(state_lines(next) =~= seq![l]);
                    },
                }
            },
            LineClass::Continuation(_) => {
                match cur {
                    Some(p) => {
                        assert(part_lines(next.0->0) =~= part_lines(p).push(l));
                        assert(lines.take(n).skip(k) =~= lines.take(n - 1).skip(k).push(l));
                        assert(state_lines(next) =~= state_lines(prev->0).push(l));
                    },
                    None => {
                        assert(lines.take(n).skip(n) =~= Seq::<Seq<char>>::empty());
                        assert(state_lines(next) =~= Seq::<Seq<char>>::empty());
                    },
                }
            },
            LineClass::Malformed => {},
        }
    }
}

/// The number of lines at the start of the log text that belong to no part: the continuation
/// lines before the first part.
pub open spec fn leading_dropped_lines(content: Seq<char>) -> int {
    let lines = lines_of(content);
    dropped_lines(line_classes(LOG_LINE_PATTERN@, lines), lines.len() as int)
}

/// No line of the log is lost or moved: read in order, the lines of the parts (each part's
/// first line, then the lines that continue it) are the lines of the log, but for the
/// continuation lines before the first part, which belong to none.
pub proof fn lemma_log_lines_kept(content: Seq<char>)
    requires
        log_parts(content) is Some,
    ensures
        0 <= leading_dropped_lines(content) <= lines_of(content).len(),
        all_part_lines(log_parts(content)->0) == lines_of(content).skip(leading_dropped_lines(content)),
        forall|j: int| 0 <= j < leading_dropped_lines(content) ==> #[trigger] line_class(
            lines_of(content)[j],
            onig_captures(LOG_LINE_PATTERN@, lines_of(content)[j]),
        ) is Continuation,
{
    let lines = lines_of(content);
    let classes = line_classes(LOG_LINE_PATTERN@, lines);
    assert forall|i: int| 0 <= i < lines.len() implies class_of_line(#[trigger] classes[i], lines[i]) by {
        lemma_line_class_of_line(lines[i], onig_captures(LOG_LINE_PATTERN@, lines[i]));
    }
    let n = lines.len() as int;
    lemma_plan_keeps_lines(classes, lines, n);
    assert(lines.take(n) =~= lines);
    let (cur, done) = plan_state(classes, n)->0;
    match cur {
        Some(p) => {
            lemma_all_part_lines_push(done, p);
        },
        None => {},
    }
    assert forall|j: int| 0 <= j < leading_dropped_lines(content) implies #[trigger] line_class(
        lines[j],
        onig_captures(LOG_LINE_PATTERN@, lines[j]),
    ) is Continuation by {
        assert(classes[j] is Continuation);
    }
}

/// The views of a list of parts.
pub open spec fn parts_view(v: Seq<IntermediatePart>) -> Seq<PartView> {
    v.map_values(|p: IntermediatePart| p@)
}

/// Why the log could not be split into parts.
#[derive(Debug, Clone, Copy, PartialEq, Eq, Structural)]
pub enum LogPlanError {
    /// The line pattern does not compile.
    PatternRejected,
    /// A summary line comes before any part, or a line matched without its groups.
    Aborted,
    /// Oniguruma gave up the search of a line.
    SearchFailed,
}

proof fn lemma_plan_abort_persists(classes: Seq<LineClass>, i: int, n: int)
    requires
        0 <= i <= n,
        plan_state(classes, i) is None,
    ensures
        plan_state(classes, n) is None,
    decreases n - i,
{
    if i < n {
        lemma_plan_abort_persists(classes, i, n - 1);
    }
}

proof fn lemma_parts_view_push(v: Seq<IntermediatePart>, x: IntermediatePart)
    ensures
        parts_view(v.push(x)) == parts_view(v).push(x@),
{
    assert(parts_view(v.push(x)) =~= parts_view(v).push(x@));
}

/// The current part of the grouping, as a view.
pub open spec fn cur_view(cur: Option<IntermediatePart>) -> Option<PartView> {
    match cur {
        Some(p) => Some(p@),
        None => None,
    }
}

/// Whether the search of some line of the log text gives up.
pub open spec fn log_lines_search_fail(content: Seq<char>) -> bool {
    exists|i: int|
        0 <= i < lines_of(content).len() && #[trigger] line_search_fails(
            LOG_LINE_PATTERN@,
            lines_of(content)[i],
        )
}

/// Splits the text of the log into its parts: the lines are read in order, each part begins
/// with a line that opens it and goes on with the lines that continue it.
pub fn split_log_parts(content: &str) -> (r: Result<Vec<IntermediatePart>, LogPlanError>)
    ensures
        !onig_compiles(LOG_LINE_PATTERN@) <==> r == Err::<Vec<IntermediatePart>, LogPlanError>(
            LogPlanError::PatternRejected,
        ),
        onig_compiles(LOG_LINE_PATTERN@) ==> match r {
            Ok(parts) => log_parts(content@) == Some(parts_view(parts@)),
            Err(LogPlanError::Aborted) => log_parts(content@) is None,
            Err(LogPlanError::SearchFailed) => log_lines_search_fail(content@),
            Err(LogPlanError::PatternRejected) => false,
        },
{
    let re = match LineMatcher::new(LOG_LINE_PATTERN) {
        Some(re) => re,
        None => return Err(LogPlanError::PatternRejected),
    };
    let chars = chars_of(content);
    let lines = split_lines(chars.as_slice());
    let ghost classes = line_classes(LOG_LINE_PATTERN@, lines_of(content@));
    let mut current: Option<IntermediatePart> = None;
    let mut messages: Vec<IntermediatePart> = Vec::new();
    let mut i: usize = 0;
    assert(parts_view(messages@) =~= Seq::<PartView>::empty());
    while i < lines.len()
        invariant
            i <= lines@.len(),
            strings_view(lines@) == lines_of(content@),
            classes == line_classes(LOG_LINE_PATTERN@, lines_of(content@)),
            re.pattern() == LOG_LINE_PATTERN@,
            onig_compiles(LOG_LINE_PATTERN@),
            plan_state(classes, i as int) == Some((cur_view(current), parts_view(messages@))),
        decreases lines.len() - i,
    {
        proof {
            assert(strings_view(lines@)[i as int] == lines@[i as int]@);
            assert(classes[i as int] == line_class(lines@[i as int]@, onig_captures(LOG_LINE_PATTERN@, lines@[i as int]@)));
        }
        let checked = match check_new_line(&re, lines[i].as_str()) {
            Ok(c) => c,
            Err(_) => {
                assert(line_search_fails(LOG_LINE_PATTERN@, lines_of(content@)[i as int]));
                return Err(LogPlanError::SearchFailed);
            },
        };
        match checked {
            None => {
                proof {
                    lemma_plan_abort_persists(classes, i + 1, classes.len() as int);
                }
                return Err(LogPlanError::Aborted);
            },
            Some(NewPartResult::SummarizedMessagePart(summary)) => {
                match current.as_mut() {
                    Some(part) => {
                        part.change_prefix(String::from_str(SUMMARIZED_MESSAGE_PREFIX));
                        part.add_line(summary);
                    },
                    None => {
                        proof {
                            lemma_plan_abort_persists(classes, i + 1, classes.len() as int);
                        }
                        return Err(LogPlanError::Aborted);
                    },
                }
            },
            Some(NewPartResult::NewPart(part)) => {
                let old = current.take();
                current = Some(part);
                if let Some(o) = old {
                    proof {
                        lemma_parts_view_push(messages@, o);
                    }
                    messages.push(o);
                }
            },
            Some(NewPartResult::NoBracePart(part)) => {
                let old = current.take();
                current = Some(part);
                if let Some(o) = old {
                    proof {
                        lemma_parts_view_push(messages@, o);
                    }
                    messages.push(o);
                }
            },
            Some(NewPartResult::ContinuationPart(continuation)) => {
                if let Some(part) = current.as_mut() {
                    part.add_line(continuation);
                }
            },
        }
        i = i + 1;
    }
    if let Some(part) = current {
        proof {
            lemma_parts_view_push(messages@, part);
        }
        messages.push(part);
    }
    Ok(messages)
}


/// The prefix of the parts that the Unity logger writes.
pub const UNITY_LOGGER_PREFIX: &'static str = "UnityCrossThreadLogger";

/// The content prefix of a scene change.
pub const SCENE_CHANGE_PREFIX: &'static str = "Client.SceneChange";

/// The prefix of the parts that the MTGA data collector writes.
pub const DATA_COLLECTOR_PREFIX: &'static str = "MTGADataCollector";

/// The pattern of a data collector message: `[category]`, then the JSON payload.
pub const COLLECTOR_MESSAGE_PATTERN: &'static str = "^\\[(.*?)\\](.*)";

/// Category prefixes of the data collector's messages.
pub const ACCOUNT_INFO_PREFIX: &'static str = "account-info";
pub const INVENTORY_UPDATE_PREFIX: &'static str = "inventory-update";
pub const INVENTORY_PREFIX: &'static str = "inventory";
pub const COLLECTION_PREFIX: &'static str = "collection";

/// The kinds of data collector messages that are read.
#[derive(Debug, Clone, Copy, PartialEq, Eq, Structural)]
pub enum CollectorCategory {
    AccountInfo,
    InventoryUpdate,
    Inventory,
    Collection,
}

/// The kind of a collector message by its category, the prefixes tried in order: a category
/// that begins with `inventory-update` also begins with `inventory`, so the order matters.
pub open spec fn collector_category(category: Seq<char>) -> Option<CollectorCategory> {
    if ACCOUNT_INFO_PREFIX@.is_prefix_of(category) {
        Some(CollectorCategory::AccountInfo)
    } else if INVENTORY_UPDATE_PREFIX@.is_prefix_of(category) {
        Some(CollectorCategory::InventoryUpdate)
    } else if INVENTORY_PREFIX@.is_prefix_of(category) {
        Some(CollectorCategory::Inventory)
    } else if COLLECTION_PREFIX@.is_prefix_of(category) {
        Some(CollectorCategory::Collection)
    } else {
        None
    }
}

/// Where a part of the log goes, with what its message is decoded from.
pub enum PartRoute {
    /// A scene change: the JSON to decode, and the part's prefix, content and date.
    SceneChange { json: String, prefix: String, content: String, date: Option<NaiveDateTimeValue> },
    /// A data collector message of a known kind: the JSON to decode, and the part's prefix and
    /// content (its date comes from the decoded timestamp).
    Collector { category: CollectorCategory, json: String, prefix: String, content: String },
    /// A part that no parser recognizes.
    Unknown(UnknownResult),
    /// A data collector part that gives no message.
    Skipped,
}

/// The view of a route.
pub enum RouteView {
    SceneChange { json: Seq<char>, prefix: Seq<char>, content: Seq<char>, date: Option<NaiveDateTimeValue> },
    Collector { category: CollectorCategory, json: Seq<char>, prefix: Seq<char>, content: Seq<char> },
    Unknown { prefix: Seq<char>, date: Option<NaiveDateTimeValue>, content: Seq<char> },
    Skipped,
}

impl View for PartRoute {
    type V = RouteView;

    open spec fn view(&self) -> RouteView {
        match self {
            PartRoute::SceneChange { json, prefix, content, date } => RouteView::SceneChange {
                json: json@,
                prefix: prefix@,
                content: content@,
                date: *date,
            },
            PartRoute::Collector { category, json, prefix, content } => RouteView::Collector {
                category: *category,
                json: json@,
                prefix: prefix@,
                content: content@,
            },
            PartRoute::Unknown(u) => RouteView::Unknown {
                prefix: u.prefix@,
                date: u.date,
                content: u.content@,
            },
            PartRoute::Skipped => RouteView::Skipped,
        }
    }
}

/// How a Unity logger part is read: a scene change when its content says so (`None` when that
/// content holds no JSON to cut out), else an unknown part with the part's content.
pub open spec fn unity_route(p: PartView) -> Option<RouteView> {
    let content = content_text(p);
    if SCENE_CHANGE_PREFIX@.is_prefix_of(content) {
        match json_bounds(content) {
            Some((a, b)) => Some(
                RouteView::SceneChange {
                    json: content.subrange(a, b),
                    prefix: p.prefix,
                    content,
                    date: part_date(p),
                },
            ),
            None => None,
        }
    } else {
        Some(RouteView::Unknown { prefix: p.prefix, date: part_date(p), content })
    }
}

/// How a data collector part is read: its content is matched against
/// `COLLECTOR_MESSAGE_PATTERN`; no match, or a category of no known kind, gives nothing; a match
/// without both groups is `None`; else the payload, trimmed, is the JSON to decode.
pub open spec fn collector_route(p: PartView) -> Option<RouteView> {
    collector_route_with(p, onig_captures(COLLECTOR_MESSAGE_PATTERN@, content_text(p)))
}

/// How a data collector part is read, given the captures of `COLLECTOR_MESSAGE_PATTERN` on
/// its content (see `collector_route`).
pub open spec fn collector_route_with(p: PartView, caps: Option<Seq<Option<Seq<char>>>>) -> Option<RouteView> {
    let content = content_text(p);
    match caps {
        None => Some(RouteView::Skipped),
        Some(groups) => if group(groups, 1) is Some && group(groups, 2) is Some {
            match collector_category(group(groups, 1)->0) {
                Some(kind) => Some(
                    RouteView::Collector {
                        category: kind,
                        json: trim(group(groups, 2)->0),
                        prefix: p.prefix,
                        content,
                    },
                ),
                None => Some(RouteView::Skipped),
            }
        } else {
            None
        },
    }
}

/// Whether the search of a data collector part's content for its message gives up.
pub open spec fn collector_search_fails(p: PartView) -> bool {
    onig_search_fails(COLLECTOR_MESSAGE_PATTERN@, content_text(p))
}

/// Whether routing a part runs a search that Oniguruma gives up: only the data collector's
/// reader searches.
pub open spec fn part_search_fails(p: PartView) -> bool {
    &&& !UNITY_LOGGER_PREFIX@.is_prefix_of(p.prefix)
    &&& DATA_COLLECTOR_PREFIX@.is_prefix_of(p.prefix)
    &&& collector_search_fails(p)
}

/// Whether routing some of the parts runs a search that Oniguruma gives up.
pub open spec fn parts_search_fail(parts: Seq<PartView>) -> bool {
    exists|i: int| 0 <= i < parts.len() && #[trigger] part_search_fails(parts[i])
}

/// Where a part goes: to the Unity logger's parser when its prefix is that logger's, else to
/// the data collector's parser when its prefix is the collector's, else it is an unknown part
/// with its whole text. `None` where reading the part fails.
pub open spec fn part_route(p: PartView) -> Option<RouteView> {
    if UNITY_LOGGER_PREFIX@.is_prefix_of(p.prefix) {
        unity_route(p)
    } else if DATA_COLLECTOR_PREFIX@.is_prefix_of(p.prefix) {
        collector_route(p)
    } else {
        Some(RouteView::Unknown { prefix: p.prefix, date: part_date(p), content: full_text(p) })
    }
}

/// A reader of parts of the log.
pub trait LogParser {
    /// The prefix this reader is known by.
    spec fn prefix_text(&self) -> Seq<char>;

    /// Whether this reader takes the part.
    spec fn accepts(&self, p: PartView) -> bool;

    /// What this reader makes of the part; `None` where reading it fails.
    spec fn routed(&self, p: PartView) -> Option<RouteView>;

    /// Whether reading the part runs a search that Oniguruma gives up.
    spec fn search_fails(&self, p: PartView) -> bool;

    fn get_prefix(&self) -> (r: &str)
        ensures
            r@ == self.prefix_text(),
    ;

    fn can_process(&self, part: &IntermediatePart) -> (r: bool)
        ensures
            r == self.accepts(part@),
    ;

    /// What this reader makes of the part, or the error where a search it runs gives up.
    fn parse_part(&self, part: &IntermediatePart) -> (r: Result<Option<PartRoute>, SearchError>)
        ensures
            (match r {
                Ok(Some(route)) => self.routed(part@) == Some(route@),
                Ok(None) => self.routed(part@) is None,
                Err(_) => true,
            }),
            r is Err <==> self.search_fails(part@),
    ;
}

/// Reads the scene changes that the Unity logger writes.
pub struct SceneChangeParser {}

impl SceneChangeParser {
    pub fn new() -> (r: SceneChangeParser) {
        SceneChangeParser {  }
    }
}

impl LogParser for SceneChangeParser {
    open spec fn prefix_text(&self) -> Seq<char> {
        SCENE_CHANGE_PREFIX@
    }

    open spec fn accepts(&self, p: PartView) -> bool {
        SCENE_CHANGE_PREFIX@.is_prefix_of(content_text(p))
    }

    open spec fn routed(&self, p: PartView) -> Option<RouteView> {
        let content = content_text(p);
        match json_bounds(content) {
            Some((a, b)) => Some(
                RouteView::SceneChange {
                    json: content.subrange(a, b),
                    prefix: p.prefix,
                    content,
                    date: part_date(p),
                },
            ),
            None => None,
        }
    }

    open spec fn search_fails(&self, p: PartView) -> bool {
        false
    }

    fn get_prefix(&self) -> (r: &str) {
        SCENE_CHANGE_PREFIX
    }

    fn can_process(&self, part: &IntermediatePart) -> (r: bool) {
        let content = part.content();
        str_starts_with(content.as_str(), SCENE_CHANGE_PREFIX)
    }

    fn parse_part(&self, part: &IntermediatePart) -> (r: Result<Option<PartRoute>, SearchError>) {
        let content = part.content();
        let json = match JsonContentExtractor::try_extract(content.as_str()) {
            Some(j) => copy_str(j),
            None => return Ok(None),
        };
        Ok(
            Some(
                PartRoute::SceneChange {
                    json,
                    prefix: copy_str(part.prefix()),
                    content,
                    date: part.date(),
                },
            ),
        )
    }
}

/// Reads the parts that the Unity logger writes.
pub struct UnityCrossThreadLoggerParser {
    scene_change: SceneChangeParser,
}

impl UnityCrossThreadLoggerParser {
    pub fn new() -> (r: UnityCrossThreadLoggerParser) {
        UnityCrossThreadLoggerParser { scene_change: SceneChangeParser::new() }
    }
}

impl LogParser for UnityCrossThreadLoggerParser {
    open spec fn prefix_text(&self) -> Seq<char> {
        UNITY_LOGGER_PREFIX@
    }

    open spec fn accepts(&self, p: PartView) -> bool {
        UNITY_LOGGER_PREFIX@.is_prefix_of(p.prefix)
    }

    open spec fn routed(&self, p: PartView) -> Option<RouteView> {
        unity_route(p)
    }

    open spec fn search_fails(&self, p: PartView) -> bool {
        false
    }

    fn get_prefix(&self) -> (r: &str) {
        UNITY_LOGGER_PREFIX
    }

    fn can_process(&self, part: &IntermediatePart) -> (r: bool) {
        str_starts_with(part.prefix(), UNITY_LOGGER_PREFIX)
    }

    fn parse_part(&self, part: &IntermediatePart) -> (r: Result<Option<PartRoute>, SearchError>) {
        if self.scene_change.can_process(part) {
            self.scene_change.parse_part(part)
        } else {
            Ok(Some(PartRoute::Unknown(UnknownResult::new(copy_str(part.prefix()), part.date(), part.content()))))
        }
    }
}

/// Reads the messages that the MTGA data collector writes.
pub struct MtgaDataCollectorParser {
    parser_regex: LineMatcher,
}

impl MtgaDataCollectorParser {
    #[verifier::type_invariant]
    spec fn matcher_compiled(&self) -> bool {
        self.parser_regex.pattern() == COLLECTOR_MESSAGE_PATTERN@
    }

    /// The reader, with its message pattern compiled: `None` when the pattern is rejected.
    pub fn new() -> (r: Option<MtgaDataCollectorParser>)
        ensures
            r is Some <==> onig_compiles(COLLECTOR_MESSAGE_PATTERN@),
    {
        match LineMatcher::new(COLLECTOR_MESSAGE_PATTERN) {
            Some(m) => Some(MtgaDataCollectorParser { parser_regex: m }),
            None => None,
        }
    }
}

/// The kind of a collector category, as `collector_category` says.
fn category_of(category: &str) -> (r: Option<CollectorCategory>)
    ensures
        r == collector_category(category@),
{
    if str_starts_with(category, ACCOUNT_INFO_PREFIX) {
        Some(CollectorCategory::AccountInfo)
    } else if str_starts_with(category, INVENTORY_UPDATE_PREFIX) {
        Some(CollectorCategory::InventoryUpdate)
    } else if str_starts_with(category, INVENTORY_PREFIX) {
        Some(CollectorCategory::Inventory)
    } else if str_starts_with(category, COLLECTION_PREFIX) {
        Some(CollectorCategory::Collection)
    } else {
        None
    }
}

impl LogParser for MtgaDataCollectorParser {
    open spec fn prefix_text(&self) -> Seq<char> {
        DATA_COLLECTOR_PREFIX@
    }

    open spec fn accepts(&self, p: PartView) -> bool {
        DATA_COLLECTOR_PREFIX@.is_prefix_of(p.prefix)
    }

    open spec fn routed(&self, p: PartView) -> Option<RouteView> {
        collector_route(p)
    }

    open spec fn search_fails(&self, p: PartView) -> bool {
        collector_search_fails(p)
    }

    fn get_prefix(&self) -> (r: &str) {
        DATA_COLLECTOR_PREFIX
    }

    fn can_process(&self, part: &IntermediatePart) -> (r: bool) {
        str_starts_with(part.prefix(), DATA_COLLECTOR_PREFIX)
    }

    fn parse_part(&self, part: &IntermediatePart) -> (r: Result<Option<PartRoute>, SearchError>) {
        proof {
            use_type_invariant(self);
        }
        let content = part.content();
        let caps = match self.parser_regex.captures(content.as_str()) {
            Ok(c) => c,
            Err(e) => return Err(e),
        };
        Ok(collector_message_route(part, caps))
    }
}

/// How a data collector part is read, given the captures of `COLLECTOR_MESSAGE_PATTERN` on its
/// content (`None` when the pattern does not match): the message of a known category, with
/// its payload trimmed as the JSON to decode; a skipped part for no match or another
/// category; `None` for a match without both groups.
pub fn collector_message_route(part: &IntermediatePart, caps: Option<Vec<Option<String>>>) -> (r: Option<PartRoute>)
    ensures
        match r {
            Some(route) => collector_route_with(part@, captures_view(caps)) == Some(route@),
            None => collector_route_with(part@, captures_view(caps)) is None,
        },
{
    let content = part.content();
    match caps {
        None => Some(PartRoute::Skipped),
        Some(c) => {
            let category = group_at(&c, 1);
            let body = group_at(&c, 2);
            match (category, body) {
                (Some(cat), Some(b)) => {
                    let body_chars = chars_of(b.as_str());
                    let json = trimmed(body_chars.as_slice());
                    match category_of(cat.as_str()) {
                        Some(kind) => Some(
                            PartRoute::Collector {
                                category: kind,
                                json,
                                prefix: copy_str(part.prefix()),
                                content,
                            },
                        ),
                        None => Some(PartRoute::Skipped),
                    }
                },
                _ => None,
            }
        },
    }
}

/// Where a part of the log goes (see `part_route`): the first reader that takes it reads it,
/// else it is an unknown part. `None` where reading the part fails; the error where the data
/// collector's reader runs a search that gives up.
pub fn route_part(part: &IntermediatePart, collector: &MtgaDataCollectorParser) -> (r: Result<Option<PartRoute>, SearchError>)
    ensures
        match r {
            Ok(Some(route)) => part_route(part@) == Some(route@),
            Ok(None) => part_route(part@) is None,
            Err(_) => true,
        },
        r is Err <==> part_search_fails(part@),
{
    let unity = UnityCrossThreadLoggerParser::new();
    if unity.can_process(part) {
        unity.parse_part(part)
    } else if collector.can_process(part) {
        collector.parse_part(part)
    } else {
        Ok(
            Some(
                PartRoute::Unknown(
                    UnknownResult::new(copy_str(part.prefix()), part.date(), part.full_content_with_prefix()),
                ),
            ),
        )
    }
}

/// The views of a list of routes.
pub open spec fn routes_view(v: Seq<PartRoute>) -> Seq<RouteView> {
    v.map_values(|r: PartRoute| r@)
}

/// Where each of the parts goes, in order: `None` when reading any of them fails.
pub open spec fn routes_of(parts: Seq<PartView>) -> Option<Seq<RouteView>> {
    if forall|i: int| 0 <= i < parts.len() ==> #[trigger] part_route(parts[i]) is Some {
        Some(parts.map_values(|p: PartView| part_route(p)->0))
    } else {
        None
    }
}

/// Routes each part in order, stopping at the first that cannot be read (`None`) or whose
/// search gives up (the error).
pub fn route_parts(parts: &Vec<IntermediatePart>, collector: &MtgaDataCollectorParser) -> (r: Result<Option<Vec<PartRoute>>, SearchError>)
    ensures
        match r {
            Ok(Some(routes)) => routes_of(parts_view(parts@)) == Some(routes_view(routes@)),
            Ok(None) => routes_of(parts_view(parts@)) is None,
            Err(_) => parts_search_fail(parts_view(parts@)),
        },
        !parts_search_fail(parts_view(parts@)) ==> r is Ok,
{
    let ghost pv = parts_view(parts@);
    let mut routes: Vec<PartRoute> = Vec::new();
    let mut i: usize = 0;
    while i < parts.len()
        invariant
            i <= parts@.len(),
            pv == parts_view(parts@),
            routes@.len() == i,
            forall|j: int| 0 <= j < i ==> #[trigger] part_route(pv[j]) == Some(routes@[j]@),
        decreases parts.len() - i,
    {
        match route_part(&parts[i], collector) {
            Ok(Some(route)) => {
                routes.push(route);
            },
            Ok(None) => {
                assert(part_route(pv[i as int]) is None);
                return Ok(None);
            },
            Err(e) => {
                assert(part_search_fails(pv[i as int]));
                return Err(e);
            },
        }
        i = i + 1;
    }
    assert forall|j: int| 0 <= j < pv.len() implies #[trigger] part_route(pv[j]) is Some by {
        assert(part_route(pv[j]) == Some(routes@[j]@));
    }
    assert(pv.map_values(|p: PartView| part_route(p)->0) =~= routes_view(routes@)) by {
        assert forall|j: int| 0 <= j < pv.len() implies pv.map_values(|p: PartView| part_route(p)->0)[j]
            == routes_view(routes@)[j] by {
            assert(part_route(pv[j]) == Some(routes@[j]@));
        }
    }
    Ok(Some(routes))
}

/// Why the log could not be read.
#[derive(Debug, Clone, PartialEq, Eq)]
pub enum LogReadError {
    /// The bytes read are not UTF-8; the text of the conversion error.
    NotUtf8(String),
    /// A pattern that the reading needs does not compile.
    PatternRejected,
    /// The lines could not be grouped into parts.
    Aborted,
    /// A part could not be read.
    Unroutable,
    /// Oniguruma gave up the search of a line or of a part.
    SearchFailed,
}

/// Whether the text of the log can be read: it is empty, or its lines group into parts, the
/// patterns that this needs compile, and each part can be routed.
pub open spec fn log_readable(content: Seq<char>) -> bool {
    content.len() == 0 || {
        &&& onig_compiles(LOG_LINE_PATTERN@)
        &&& log_parts(content) is Some
        &&& (log_parts(content)->0.len() > 0 ==> onig_compiles(COLLECTOR_MESSAGE_PATTERN@))
        &&& routes_of(log_parts(content)->0) is Some
    }
}

/// The routes of a readable log text, in the order of its parts: none for the empty text.
pub open spec fn log_routes(content: Seq<char>) -> Seq<RouteView> {
    if content.len() == 0 {
        Seq::empty()
    } else {
        routes_of(log_parts(content)->0)->0
    }
}

/// Whether reading the non-empty text of the log runs a search that Oniguruma gives up: the
/// search of one of its lines, or, once they are grouped, the search of one of its parts.
pub open spec fn log_search_fails(content: Seq<char>) -> bool {
    &&& content.len() > 0
    &&& onig_compiles(LOG_LINE_PATTERN@)
    &&& (log_lines_search_fail(content) || (log_parts(content) matches Some(ps) && ps.len() > 0
        && onig_compiles(COLLECTOR_MESSAGE_PATTERN@) && parts_search_fail(ps)))
}

/// What reading the text of the log gives: its routes exactly when it is readable and no
/// search gives up, and otherwise the error that says which step failed.
pub open spec fn log_read_outcome(content: Seq<char>, r: Result<Vec<PartRoute>, LogReadError>) -> bool {
    &&& (r is Ok ==> log_readable(content))
    &&& (log_readable(content) && !log_search_fails(content) ==> r is Ok)
    &&& match r {
        Ok(routes) => routes_view(routes@) == log_routes(content),
        Err(LogReadError::PatternRejected) => content.len() > 0 && (!onig_compiles(LOG_LINE_PATTERN@)
            || (log_parts(content) matches Some(ps) && ps.len() > 0 && !onig_compiles(
            COLLECTOR_MESSAGE_PATTERN@,
        ))),
        Err(LogReadError::Aborted) => content.len() > 0 && onig_compiles(LOG_LINE_PATTERN@)
            && log_parts(content) is None,
        Err(LogReadError::Unroutable) => content.len() > 0 && onig_compiles(LOG_LINE_PATTERN@)
            && (log_parts(content) matches Some(ps) && (ps.len() > 0 ==> onig_compiles(
            COLLECTOR_MESSAGE_PATTERN@,
        )) && routes_of(ps) is None),
        Err(LogReadError::SearchFailed) => log_search_fails(content),
        Err(LogReadError::NotUtf8(_)) => false,
    }
}

/// Reads the text of the log: the empty text gives nothing; else its lines are grouped into
/// parts (`split_log_parts`), and each part is routed (`route_part`).
pub fn watch_log_text(content: &str) -> (r: Result<Vec<PartRoute>, LogReadError>)
    ensures
        log_read_outcome(content@, r),
{
    if content.unicode_len() == 0 {
        let none: Vec<PartRoute> = Vec::new();
        assert(routes_view(none@) =~= log_routes(content@));
        return Ok(none);
    }
    let parts = match split_log_parts(content) {
        Ok(parts) => parts,
        Err(LogPlanError::PatternRejected) => return Err(LogReadError::PatternRejected),
        Err(LogPlanError::Aborted) => return Err(LogReadError::Aborted),
        Err(LogPlanError::SearchFailed) => return Err(LogReadError::SearchFailed),
    };
    if parts.len() == 0 {
        assert(routes_of(parts_view(parts@)) == Some(routes_view(Seq::<PartRoute>::empty())));
        return Ok(Vec::new());
    }
    let collector = match MtgaDataCollectorParser::new() {
        Some(c) => c,
        None => return Err(LogReadError::PatternRejected),
    };
    match route_parts(&parts, &collector) {
        Ok(Some(routes)) => Ok(routes),
        Ok(None) => Err(LogReadError::Unroutable),
        Err(_) => Err(LogReadError::SearchFailed),
    }
}

/// Reads the bytes of the log: they must be UTF-8 (else the conversion error), and the text
/// they encode is read as `watch_log_text` does.
pub fn watch_log_bytes(bytes: &[u8]) -> (r: Result<Vec<PartRoute>, LogReadError>)
    ensures
        !valid_utf8(bytes@) <==> r matches Err(LogReadError::NotUtf8(_)),
        valid_utf8(bytes@) ==> log_read_outcome(decode_utf8(bytes@), r),
{
    let content = match string_from_utf8(bytes) {
        Ok(s) => s,
        Err(e) => return Err(LogReadError::NotUtf8(e)),
    };
    watch_log_text(content.as_str())
}

} // verus!
