//! The start-up check of the host: how much memory there is, read from the
//! kernel's memory report.

use vstd::prelude::*;
use crate::text::{chars_of, is_white_space};

verus! {

/// Below this many megabytes of memory the host is short of it.
pub const LOW_MEMORY_MB: u64 = 400;

/// Where the next word of `text` begins: the index of the first character
/// at or after `from` that is no whitespace, or the length of `text`.
pub open spec fn word_start(text: Seq<char>, from: int) -> int
    decreases text.len() - from,
{
    if from < 0 || from >= text.len() {
        text.len() as int
    } else if is_white_space(text[from]) {
        word_start(text, from + 1)
    } else {
        from
    }
}

/// Where the word of `text` that begins at `from` ends: the index of the
/// first whitespace at or after `from`, or the length of `text`.
pub open spec fn word_end(text: Seq<char>, from: int) -> int
    decreases text.len() - from,
{
    if from < 0 || from >= text.len() {
        text.len() as int
    } else if is_white_space(text[from]) {
        from
    } else {
        word_end(text, from + 1)
    }
}

/// The second of the words of `text`, where words are separated by
/// whitespace.
pub open spec fn second_word(text: Seq<char>) -> Option<Seq<char>> {
    let first = word_start(text, 0);
    let second = word_start(text, word_end(text, first));
    if second < text.len() {
        Some(text.subrange(second, word_end(text, second)))
    } else {
        None
    }
}

/// The number that a string of decimal digits spells; `None` where a
/// character is no digit.
pub open spec fn digits_value(digits: Seq<char>) -> Option<int>
    decreases digits.len(),
{
    if digits.len() == 0 {
        Some(0)
    } else {
        let last = digits.last();
        match digits_value(digits.drop_last()) {
            Some(value) => if '0' <= last <= '9' {
                Some(value * 10 + (last as int - '0' as int))
            } else {
                None
            },
            None => None,
        }
    }
}

/// The number that `word` spells: digits, at least one, after an optional
/// plus sign, with a value that fits 64 bits.
pub open spec fn parsed_number(word: Seq<char>) -> Option<u64> {
    let digits = if word.len() > 0 && word[0] == '+' {
        word.drop_first()
    } else {
        word
    };
    match digits_value(digits) {
        Some(value) => if digits.len() > 0 && 0 <= value <= u64::MAX {
            Some(value as u64)
        } else {
            None
        },
        None => None,
    }
}

/// The kilobytes of memory that a line of the memory report states: the
/// number in the second word of a line that begins with `MemTotal:`.
pub open spec fn mem_total_kb(line: Seq<char>) -> Option<u64> {
    if "MemTotal:"@.is_prefix_of(line) {
        match second_word(line) {
            Some(word) => parsed_number(word),
            None => None,
        }
    } else {
        None
    }
}

/// What the check says of the host's memory.
#[derive(Debug, Clone, Copy, PartialEq, Eq, Structural)]
pub struct MemoryReport {
    /// Memory in whole megabytes.
    pub total_mb: u64,
    /// Whether that is less than [`LOW_MEMORY_MB`].
    pub low: bool,
}

/// The report on a host with `total_kb` kilobytes of memory.
pub open spec fn report_of(total_kb: u64) -> MemoryReport {
    MemoryReport { total_mb: total_kb / 1024, low: total_kb / 1024 < LOW_MEMORY_MB }
}

/// The report that one line of the memory report yields, if any.
pub open spec fn reported(line: Seq<char>) -> Option<MemoryReport> {
    match mem_total_kb(line) {
        Some(total_kb) => Some(report_of(total_kb)),
        None => None,
    }
}

/// Where the line of `text` that begins at `from` ends: the index of the
/// first line feed at or after `from`, or the length of `text`.
pub open spec fn line_end(text: Seq<char>, from: int) -> int
    decreases text.len() - from,
{
    if from < 0 || from >= text.len() {
        text.len() as int
    } else if text[from] == '\n' {
        from
    } else {
        line_end(text, from + 1)
    }
}

/// A line does not end before it begins.
pub proof fn lemma_line_end(text: Seq<char>, from: int)
    requires
        0 <= from <= text.len(),
    ensures
        from <= line_end(text, from) <= text.len(),
    decreases text.len() - from,
{
    if from < text.len() && text[from] != '\n' {
        lemma_line_end(text, from + 1);
    }
}

/// The reports that the lines of `text` from index `from` on yield, in
/// their order. Lines end at a line feed.
pub open spec fn memory_reports(text: Seq<char>, from: int) -> Seq<MemoryReport>
    decreases text.len() - from,
{
    if from < 0 || from >= text.len() {
        Seq::empty()
    } else {
        let end = line_end(text, from);
        proof {
            lemma_line_end(text, from);
        }
        let rest = if end < text.len() {
            memory_reports(text, end + 1)
        } else {
            Seq::empty()
        };
        match reported(text.subrange(from, end)) {
            Some(report) => seq![report] + rest,
            None => rest,
        }
    }
}


/// Computes [`word_start`].
fn scan_word_start(text: &Vec<char>, from: usize) -> (at: usize)
    requires
        from <= text.len(),
    ensures
        at == word_start(text@, from as int),
        from <= at <= text.len(),
{
    let mut at = from;
    while at < text.len() && text[at].is_whitespace()
        invariant
            from <= at <= text.len(),
            word_start(text@, at as int) == word_start(text@, from as int),
        decreases text.len() - at,
    {
        at = at + 1;
    }
    at
}

/// Computes [`word_end`].
fn scan_word_end(text: &Vec<char>, from: usize) -> (at: usize)
    requires
        from <= text.len(),
    ensures
        at == word_end(text@, from as int),
        from <= at <= text.len(),
{
    let mut at = from;
    while at < text.len() && !text[at].is_whitespace()
        invariant
            from <= at <= text.len(),
            word_end(text@, at as int) == word_end(text@, from as int),
        decreases text.len() - at,
    {
        at = at + 1;
    }
    at
}

/// A string of digits spells a number that is no less than the one its
/// beginning spells, and its beginning is made of digits too.
proof fn lemma_digits_grow(digits: Seq<char>, k: int)
    requires
        0 <= k <= digits.len(),
        digits_value(digits) is Some,
    ensures
        digits_value(digits.take(k)) matches Some(part) && 0 <= part <= digits_value(digits)->0,
    decreases digits.len() - k,
{
    if k == digits.len() {
        assert(digits.take(k) =~= digits);
        lemma_digits_nonnegative(digits);
    } else {
        assert(digits.drop_last().take(k) =~= digits.take(k));
        lemma_digits_grow(digits.drop_last(), k);
    }
}

/// The number that a string of digits spells is not negative.
proof fn lemma_digits_nonnegative(digits: Seq<char>)
    requires
        digits_value(digits) is Some,
    ensures
        digits_value(digits)->0 >= 0,
    decreases digits.len(),
{
    if digits.len() > 0 {
        lemma_digits_nonnegative(digits.drop_last());
    }
}

/// Computes [`parsed_number`] of the characters of `text` from `from` up to
/// `to`.
fn parse_number(text: &Vec<char>, from: usize, to: usize) -> (number: Option<u64>)
    requires
        from <= to <= text.len(),
    ensures
        number == parsed_number(text@.subrange(from as int, to as int)),
{
    let ghost word = text@.subrange(from as int, to as int);
    let start = if from < to && text[from] == '+' {
        from + 1
    } else {
        from
    };
    let ghost digits = text@.subrange(start as int, to as int);
    proof {
        if from < to && text@[from as int] == '+' {
            assert(digits =~= word.drop_first());
        } else {
            assert(digits =~= word);
        }
    }
    if start == to {
        return None;
    }
    let mut value: u64 = 0;
    let mut at = start;
    while at < to
        invariant
            start <= at <= to <= text.len(),
            start < to,
            digits == text@.subrange(start as int, to as int),
            digits_value(digits.take(at - start)) == Some(value as int),
            word == text@.subrange(from as int, to as int),
            parsed_number(word) == (match digits_value(digits) {
                Some(total) => if 0 <= total <= u64::MAX {
                    Some(total as u64)
                } else {
                    None
                },
                None => None,
            }),
        decreases to - at,
    {
        let c = text[at];
        proof {
            assert(digits.take(at - start + 1).drop_last() =~= digits.take(at - start));
        }
        if c < '0' || c > '9' {
            proof {
                if digits_value(digits) is Some {
                    lemma_digits_grow(digits, at - start + 1);
                }
            }
            return None;
        }
        let d: u64 = (c as u32 - '0' as u32) as u64;
        if value > (u64::MAX - d) / 10 {
            proof {
                if digits_value(digits) is Some {
                    lemma_digits_grow(digits, at - start + 1);
                }
            }
            return None;
        }
        value = value * 10 + d;
        at = at + 1;
    }
    proof {
        assert(digits.take(to - start) =~= digits);
    }
    Some(value)
}

/// Whether `text` begins with `prefix`.
fn begins_with(text: &Vec<char>, prefix: &Vec<char>) -> (holds: bool)
    ensures
        holds == prefix@.is_prefix_of(text@),
{
    if prefix.len() > text.len() {
        return false;
    }
    let mut i: usize = 0;
    while i < prefix.len()
        invariant
            i <= prefix.len() <= text.len(),
            forall|k: int| 0 <= k < i ==> prefix@[k] == text@[k],
        decreases prefix.len() - i,
    {
        if prefix[i] != text[i] {
            return false;
        }
        i = i + 1;
    }
    assert(text@.subrange(0, prefix@.len() as int) =~= prefix@);
    true
}

/// Computes the report on one line of the kernel's memory report.
fn line_report(text: &Vec<char>, prefix: &Vec<char>) -> (report: Option<MemoryReport>)
    requires
        prefix@ == "MemTotal:"@,
    ensures
        report == reported(text@),
{
    if !begins_with(text, prefix) {
        return None;
    }
    let first = scan_word_start(text, 0);
    let gap = scan_word_end(text, first);
    let second = scan_word_start(text, gap);
    if second >= text.len() {
        return None;
    }
    let end = scan_word_end(text, second);
    match parse_number(text, second, end) {
        Some(total_kb) => {
            let total_mb = total_kb / 1024;
            Some(MemoryReport { total_mb, low: total_mb < LOW_MEMORY_MB })
        },
        None => None,
    }
}

/// Reads the total memory off one line of the kernel's memory report.
/// Other lines yield `None`.
pub fn check_memory_line(line: &str) -> (report: Option<MemoryReport>)
    ensures
        report == reported(line@),
{
    let text = chars_of(line);
    let prefix = chars_of("MemTotal:");
    line_report(&text, &prefix)
}

/// Computes [`line_end`].
fn scan_line_end(text: &Vec<char>, from: usize) -> (at: usize)
    requires
        from <= text.len(),
    ensures
        at == line_end(text@, from as int),
        from <= at <= text.len(),
{
    let mut at = from;
    while at < text.len() && text[at] != '\n'
        invariant
            from <= at <= text.len(),
            line_end(text@, at as int) == line_end(text@, from as int),
        decreases text.len() - at,
    {
        at = at + 1;
    }
    at
}

/// The characters of `text` from `from` up to `to`.
fn copy_of(text: &Vec<char>, from: usize, to: usize) -> (part: Vec<char>)
    requires
        from <= to <= text.len(),
    ensures
        part@ == text@.subrange(from as int, to as int),
{
    let mut part: Vec<char> = Vec::new();
    let mut at = from;
    while at < to
        invariant
            from <= at <= to <= text.len(),
            part@ == text@.subrange(from as int, at as int),
        decreases to - at,
    {
        part.push(text[at]);
        assert(part@ =~= text@.subrange(from as int, at + 1));
        at = at + 1;
    }
    part
}

/// Reads the kernel's memory report: one report of the host's memory for
/// each line that states the total.
pub fn check_memory(meminfo: &str) -> (reports: Vec<MemoryReport>)
    ensures
        reports@ == memory_reports(meminfo@, 0),
{
    let text = chars_of(meminfo);
    let prefix = chars_of("MemTotal:");
    let mut reports: Vec<MemoryReport> = Vec::new();
    let mut from: usize = 0;
    while from < text.len()
        invariant
            from <= text.len(),
            prefix@ == "MemTotal:"@,
            text@ == meminfo@,
            memory_reports(text@, 0) == reports@ + memory_reports(text@, from as int),
        decreases text.len() - from,
    {
        let end = scan_line_end(&text, from);
        let line = copy_of(&text, from, end);
        let ghost before = reports@;
        if let Some(report) = line_report(&line, &prefix) {
            reports.push(report);
        }
        if end >= text.len() {
            assert(reports@ =~= before + memory_reports(text@, from as int));
            return reports;
        }
        assert(reports@ + memory_reports(text@, end + 1) =~= before + memory_reports(
            text@,
            from as int,
        ));
        from = end + 1;
    }
    assert(reports@ + memory_reports(text@, from as int) =~= reports@);
    reports
}

} // verus!
