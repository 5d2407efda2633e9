//! The progress state machine: it reads the fetcher's diagnostic lines one
//! by one and derives a timeline of progress records.
//!
//! Fractions are fixed-point numbers in hundredths of a percent, from
//! `0` to `FULL`.

use crate::text::{
    all_digits, char_is_digit, chars_of, contains, copy_text, digit_value, digits_value, find,
    find_char, first_char, first_match, has, is_digit, lemma_first_match_from,
    lemma_trailing_run_unique, lowered, slice_of, string_of, text_model, to_lowered,
    trailing_run, trim, trimmed,
};
use vstd::prelude::*;

verus! {

/// A complete fraction: one hundred percent.
pub const FULL: u32 = 10_000;

/// The number of fraction units in one percent.
pub const UNITS_PER_PERCENT: u32 = 100;

/// Two fractions that differ by no more than this are near-duplicates.
pub const EPSILON: u32 = 10;

/// From this fraction on an item counts as at or near completion.
pub const NEAR_COMPLETE: u32 = 9_900;

/// The fraction shown while the audio track is extracted.
pub const EXTRACTION_MARK: u32 = 9_000;

/// The fraction shown while formats are merged.
pub const MERGE_MARK: u32 = 9_500;

/// A title must be shorter than this many characters.
pub const TITLE_LIMIT: usize = 200;

/// The coarse stage of one item's transfer.
#[derive(Clone, Copy, Debug, PartialEq, Eq, Structural)]
pub enum Phase {
    Preparing,
    Downloading,
    Converting,
    Skipped,
    Complete,
}

/// What one diagnostic line signals.
#[derive(Clone, Copy, Debug, PartialEq, Eq, Structural)]
pub enum LineSignal {
    /// A percentage marker of an ongoing transfer, clamped to `0..=FULL`.
    Percent(u32),
    /// The audio track is being extracted.
    Extraction,
    /// Formats are being merged.
    Merge,
    /// A new source item starts.
    ItemStart,
    /// The item's file has been written, or was there already.
    ItemDone { preexisting: bool },
    /// Nothing that the state machine reacts to.
    Unrecognized,
}

// ---------------------------------------------------------------------------
// Line classification: model
// ---------------------------------------------------------------------------

/// A character that a numeric token is made of.
pub open spec fn is_number_char(c: char) -> bool {
    is_digit(c) || c == '.'
}

/// The predicate that holds of the characters of numeric tokens.
pub open spec fn number_chars() -> spec_fn(char) -> bool {
    |c: char| is_number_char(c)
}

/// The longest run of digits and dots that ends just before position `end`
/// of `line`.
pub open spec fn numeric_token(line: Seq<char>, end: int) -> Seq<char> {
    let head = line.subrange(0, end);
    head.subrange(head.len() - trailing_run(head, number_chars()), head.len() as int)
}

/// `v`, but at most `FULL`.
pub open spec fn clamp_fraction(v: nat) -> nat {
    if v > FULL {
        FULL as nat
    } else {
        v
    }
}

/// The first two digits after the decimal point, as hundredths; digits
/// beyond the second are cut off.
pub open spec fn hundredths(frac: Seq<char>) -> nat {
    (if frac.len() > 0 {
        digit_value(frac[0]) * 10
    } else {
        0
    }) + (if frac.len() > 1 {
        digit_value(frac[1])
    } else {
        0
    })
}

/// The fraction that a numeric token stands for, clamped to `0..=FULL`.
/// A token is a decimal number when it holds at least one digit and at most
/// one dot and nothing else.
pub open spec fn percent_value(token: Seq<char>) -> Option<nat> {
    match first_char(token, '.') {
        None => if token.len() > 0 && all_digits(token) {
            Some(clamp_fraction(digits_value(token) * 100))
        } else {
            None
        },
        Some(d) => {
            let whole = token.subrange(0, d);
            let frac = token.subrange(d + 1, token.len() as int);
            if all_digits(whole) && all_digits(frac) && whole.len() + frac.len() > 0 {
                Some(clamp_fraction(digits_value(whole) * 100 + hundredths(frac)))
            } else {
                None
            }
        },
    }
}

/// The fraction given by the numeric token that stands immediately before
/// the first `%` of `line`.
pub open spec fn percent_marker(line: Seq<char>) -> Option<nat> {
    match first_char(line, '%') {
        None => None,
        Some(p) => percent_value(numeric_token(line, p)),
    }
}

/// The line names a new source item.
pub open spec fn is_item_start(line: Seq<char>) -> bool {
    contains(line, "[youtube]"@) && (contains(line, "Extracting URL"@) || contains(
        line,
        "Video ID"@,
    ) || contains(line, "Downloading"@))
}

/// What `line` signals. The rules are tried in this order and the first
/// that matches wins.
pub open spec fn signal_of(line: Seq<char>) -> LineSignal {
    if contains(line, "[download]"@) && percent_marker(line) is Some {
        LineSignal::Percent(percent_marker(line).unwrap() as u32)
    } else if contains(line, "[ExtractAudio]"@) {
        LineSignal::Extraction
    } else if contains(line, "[Merger]"@) || contains(line, "Merging formats"@) {
        LineSignal::Merge
    } else if is_item_start(line) {
        LineSignal::ItemStart
    } else if contains(line, "[download]"@) && contains(line, "has already been downloaded"@) {
        LineSignal::ItemDone { preexisting: true }
    } else if contains(line, "[download]"@) && contains(line, "Destination:"@) {
        LineSignal::ItemDone { preexisting: false }
    } else {
        LineSignal::Unrecognized
    }
}

/// The title that `line` carries: what follows the first colon after the
/// first `title` (in any mix of ASCII capitals and small letters), without
/// surrounding white space, if that is not empty and shorter than
/// `TITLE_LIMIT`.
pub open spec fn title_in(line: Seq<char>) -> Option<Seq<char>> {
    match first_match(lowered(line), "title"@) {
        None => None,
        Some(t) => {
            let after = line.subrange(t + 5, line.len() as int);
            match first_char(after, ':') {
                None => None,
                Some(c) => {
                    let candidate = trimmed(after.subrange(c + 1, after.len() as int));
                    if 0 < candidate.len() < TITLE_LIMIT {
                        Some(candidate)
                    } else {
                        None
                    }
                },
            }
        },
    }
}

// ---------------------------------------------------------------------------
// Line classification: code
// ---------------------------------------------------------------------------

/// The number that the digits of `v` stand for, capped at 101; `None` when
/// `v` holds anything but digits.
fn digits_capped(v: &Vec<char>) -> (r: Option<u32>)
    ensures
        r is Some <==> all_digits(v@),
        r matches Some(x) ==> x == if digits_value(v@) > 101 {
            101
        } else {
            digits_value(v@)
        },
{
    let mut acc: u32 = 0;
    let mut i: usize = 0;
    while i < v.len()
        invariant
            i <= v.len(),
            all_digits(v@.subrange(0, i as int)),
            acc <= 101,
            acc == if digits_value(v@.subrange(0, i as int)) > 101 {
                101
            } else {
                digits_value(v@.subrange(0, i as int))
            },
        decreases v.len() - i,
    {
        let c = v[i];
        if !char_is_digit(c) {
            return None;
        }
        let d: u32 = c as u32 - 48;
        proof {
            let next = v@.subrange(0, i + 1);
            assert(next.drop_last() =~= v@.subrange(0, i as int));
            assert(next.last() == c);
            assert forall|j: int| 0 <= j < next.len() implies is_digit(#[trigger] next[j]) by {
                if j < i {
                    assert(next[j] == v@.subrange(0, i as int)[j]);
                }
            }
        }
        let wide: u32 = acc * 10 + d;
        acc = if wide > 101 {
            101
        } else {
            wide
        };
        i = i + 1;
    }
    assert(v@.subrange(0, v.len() as int) =~= v@);
    Some(acc)
}

/// The fraction that a numeric token stands for.
pub fn parse_percent(token: &Vec<char>) -> (r: Option<u32>)
    ensures
        match r {
            Some(v) => percent_value(token@) == Some(v as nat) && v <= FULL,
            None => percent_value(token@) is None,
        },
{
    match find_char(token, '.') {
        None => {
            if token.len() == 0 {
                return None;
            }
            match digits_capped(token) {
                None => None,
                Some(whole) => {
                    let v: u32 = whole * 100;
                    Some(
                        if v > FULL {
                            FULL
                        } else {
                            v
                        },
                    )
                },
            }
        },
        Some(d) => {
            proof {
                lemma_first_match_from(token@, seq!['.'], 0);
                assert(seq!['.'].len() == 1);
            }
            let whole = slice_of(token, 0, d);
            let frac = slice_of(token, d + 1, token.len());
            if whole.len() == 0 && frac.len() == 0 {
                return None;
            }
            let w = digits_capped(&whole);
            let f = digits_capped(&frac);
            if w.is_none() || f.is_none() {
                return None;
            }
            let mut h: u32 = 0;
            if frac.len() > 0 {
                h = (frac[0] as u32 - 48) * 10;
            }
            if frac.len() > 1 {
                h = h + (frac[1] as u32 - 48);
            }
            let v: u32 = w.unwrap() * 100 + h;
            Some(
                if v > FULL {
                    FULL
                } else {
                    v
                },
            )
        },
    }
}

/// The fraction given by the numeric token that stands immediately before
/// the first `%` of `line`.
pub fn find_percent(line: &Vec<char>) -> (r: Option<u32>)
    ensures
        match r {
            Some(v) => percent_marker(line@) == Some(v as nat) && v <= FULL,
            None => percent_marker(line@) is None,
        },
{
    match find_char(line, '%') {
        None => None,
        Some(p) => {
            proof {
                lemma_first_match_from(line@, seq!['%'], 0);
                assert(seq!['%'].len() == 1);
            }
            let ghost head = line@.subrange(0, p as int);
            let mut start: usize = p;
            while start > 0 && (char_is_digit(line[start - 1]) || line[start - 1] == '.')
                invariant
                    start <= p <= line.len(),
                    forall|i: int| start <= i < p ==> is_number_char(#[trigger] line@[i]),
                decreases start,
            {
                start = start - 1;
            }
            proof {
                let np = number_chars();
                assert forall|i: int| start <= i < head.len() implies np(#[trigger] head[i]) by {
                    assert(head[i] == line@[i]);
                }
                if start > 0 {
                    assert(head[start - 1] == line@[start - 1]);
                }
                lemma_trailing_run_unique(head, np, start as int);
                assert(numeric_token(line@, p as int) =~= line@.subrange(start as int, p as int));
            }
            let token = slice_of(line, start, p);
            parse_percent(&token)
        },
    }
}

/// Classifies one diagnostic line.
pub fn classify_line(line: &str) -> (r: LineSignal)
    ensures
        r == signal_of(line@),
{
    let v = chars_of(line);
    classify_chars(&v)
}

/// Classifies one diagnostic line, given as characters.
pub fn classify_chars(v: &Vec<char>) -> (r: LineSignal)
    ensures
        r == signal_of(v@),
{
    let download = has(v, "[download]");
    if download {
        if let Some(p) = find_percent(v) {
            return LineSignal::Percent(p);
        }
    }
    if has(v, "[ExtractAudio]") {
        LineSignal::Extraction
    } else if has(v, "[Merger]") || has(v, "Merging formats") {
        LineSignal::Merge
    } else if has(v, "[youtube]") && (has(v, "Extracting URL") || has(v, "Video ID") || has(
        v,
        "Downloading",
    )) {
        LineSignal::ItemStart
    } else if download && has(v, "has already been downloaded") {
        LineSignal::ItemDone { preexisting: true }
    } else if download && has(v, "Destination:") {
        LineSignal::ItemDone { preexisting: false }
    } else {
        LineSignal::Unrecognized
    }
}

/// The title that a diagnostic line carries, if any.
pub fn extract_title(line: &str) -> (r: Option<String>)
    ensures
        match r {
            Some(t) => title_in(line@) == Some(t@),
            None => title_in(line@) is None,
        },
{
    let v = chars_of(line);
    match title_chars(&v) {
        Some(t) => Some(string_of(&t)),
        None => None,
    }
}

/// The title that a diagnostic line carries, both given as characters.
pub fn title_chars(v: &Vec<char>) -> (r: Option<Vec<char>>)
    ensures
        match r {
            Some(t) => title_in(v@) == Some(t@),
            None => title_in(v@) is None,
        },
{
    let low = to_lowered(v);
    match find(&low, "title") {
        None => None,
        Some(t) => {
            proof {
                reveal_strlit("title");
                lemma_first_match_from(low@, "title"@, 0);
                assert("title"@.len() == 5);
                assert(low@.len() == v@.len());
            }
            let n: usize = v.len();
            let after = slice_of(v, t + 5, n);
            match find_char(&after, ':') {
                None => None,
                Some(c) => {
                    proof {
                        lemma_first_match_from(after@, seq![':'], 0);
                        assert(seq![':'].len() == 1);
                    }
                    let rest = slice_of(&after, c + 1, after.len());
                    let candidate = trim(&rest);
                    if candidate.len() > 0 && candidate.len() < TITLE_LIMIT {
                        Some(candidate)
                    } else {
                        None
                    }
                },
            }
        },
    }
}

// ---------------------------------------------------------------------------
// The state machine: model
// ---------------------------------------------------------------------------

/// The state of the machine as mathematical values.
pub struct ProgressModel {
    /// The index of the current item, counted from zero.
    pub current_item_index: nat,
    /// How far the current item's transfer has come.
    pub item_fraction: nat,
    pub phase: Phase,
    pub current_title: Option<Seq<char>>,
    /// The number of items that are done.
    pub completed_items: nat,
    /// Whether the current item is one of the items that are done.
    pub counted: bool,
    /// The number of items of the request; fixed when the machine is made.
    pub total_items: nat,
}

/// A progress record as mathematical values.
pub struct RecordModel {
    pub overall_fraction: nat,
    pub current_item_index: Option<nat>,
    pub total_items: Option<nat>,
    pub item_fraction: nat,
    pub phase: Phase,
    pub current_title: Option<Seq<char>>,
}

/// `n + 1`, but at most `usize::MAX`.
pub open spec fn bump(n: nat) -> nat {
    if n + 1 > usize::MAX {
        usize::MAX as nat
    } else {
        n + 1
    }
}

/// `n + 1`, but at most `limit`.
pub open spec fn bump_within(n: nat, limit: nat) -> nat {
    if n + 1 > limit {
        limit
    } else {
        n + 1
    }
}

impl ProgressModel {
    /// The item's fraction is in range, and no more items are done than
    /// there are.
    pub open spec fn valid(self) -> bool {
        &&& self.item_fraction <= FULL
        &&& self.completed_items <= self.total_items
    }

    /// The state of a machine that has seen nothing yet.
    pub open spec fn initial(total_items: nat) -> ProgressModel {
        ProgressModel {
            current_item_index: 0,
            item_fraction: 0,
            phase: Phase::Preparing,
            current_title: None,
            completed_items: 0,
            counted: false,
            total_items,
        }
    }

    /// The share that the current item adds to the items done: its own
    /// fraction, and nothing once it is one of them.
    pub open spec fn open_share(self) -> nat {
        if self.counted {
            0
        } else {
            self.item_fraction
        }
    }

    /// The number of items done once the current item is one of them.
    pub open spec fn counting_current(self) -> nat {
        if self.counted {
            self.completed_items
        } else {
            bump_within(self.completed_items, self.total_items)
        }
    }

    /// How far the whole request has come: the items done plus the current
    /// item's share, over the number of items. With at most one item it is
    /// the item's own fraction.
    pub open spec fn overall(self) -> nat {
        if self.total_items <= 1 {
            self.item_fraction
        } else {
            clamp_fraction(
                ((self.completed_items * FULL + self.open_share()) / (
                self.total_items as int)) as nat,
            )
        }
    }

    /// The record that shows this state. Items are counted from one in it.
    pub open spec fn record(self) -> RecordModel {
        RecordModel {
            overall_fraction: self.overall(),
            current_item_index: Some(bump(self.current_item_index)),
            total_items: Some(self.total_items),
            item_fraction: self.item_fraction,
            phase: self.phase,
            current_title: self.current_title,
        }
    }

    /// The state after the rule for `signal` has been applied.
    ///
    /// A percentage puts the item in the downloading phase, and becomes its
    /// fraction if it differs from the fraction so far by more than
    /// `EPSILON`. Extraction and merging put the item in the converting
    /// phase at a fixed mark. The start of a new item counts only when the
    /// item so far is at or near completion: then that item is done, the
    /// index moves on, and fraction, phase and title start afresh. The
    /// completion of an item counts only while its fraction is not full:
    /// then the fraction is full and the item is done. An item is counted
    /// among the items done once, whichever rule finds it done first.
    pub open spec fn after_signal(self, signal: LineSignal) -> ProgressModel {
        match signal {
            LineSignal::Percent(p) => {
                let value = clamp_fraction(p as nat);
                ProgressModel {
                    item_fraction: if value > self.item_fraction + EPSILON || value + EPSILON
                        < self.item_fraction {
                        value
                    } else {
                        self.item_fraction
                    },
                    phase: Phase::Downloading,
                    ..self
                }
            },
            LineSignal::Extraction => ProgressModel {
                item_fraction: EXTRACTION_MARK as nat,
                phase: Phase::Converting,
                ..self
            },
            LineSignal::Merge => ProgressModel {
                item_fraction: MERGE_MARK as nat,
                phase: Phase::Converting,
                ..self
            },
            LineSignal::ItemStart => if self.item_fraction >= NEAR_COMPLETE {
                ProgressModel {
                    current_item_index: bump(self.current_item_index),
                    item_fraction: 0,
                    phase: Phase::Preparing,
                    current_title: None,
                    completed_items: self.counting_current(),
                    counted: false,
                    total_items: self.total_items,
                }
            } else {
                self
            },
            LineSignal::ItemDone { preexisting } => if self.item_fraction < FULL {
                ProgressModel {
                    item_fraction: FULL as nat,
                    phase: if preexisting {
                        Phase::Skipped
                    } else {
                        Phase::Complete
                    },
                    completed_items: self.counting_current(),
                    counted: true,
                    ..self
                }
            } else {
                self
            },
            LineSignal::Unrecognized => self,
        }
    }

    /// No title has been captured for the current item.
    pub open spec fn lacks_title(self) -> bool {
        match self.current_title {
            None => true,
            Some(t) => t.len() == 0,
        }
    }

    /// The state after `found`, the title that a line carries, has been
    /// looked at: it is stored unless the item has a title already.
    pub open spec fn after_title(self, found: Option<Seq<char>>) -> ProgressModel {
        if self.lacks_title() && found is Some && found.unwrap().len() > 0 {
            ProgressModel { current_title: found, ..self }
        } else {
            self
        }
    }

    /// The state after one diagnostic line.
    pub open spec fn advance(self, line: Seq<char>) -> ProgressModel {
        self.after_signal(signal_of(line)).after_title(title_in(line))
    }

    /// The records that one diagnostic line gives rise to: one for the
    /// signal's rule and one for the title, each only if it changed the
    /// state.
    pub open spec fn emitted(self, line: Seq<char>) -> Seq<RecordModel> {
        let mid = self.after_signal(signal_of(line));
        let end = mid.after_title(title_in(line));
        (if mid != self {
            seq![mid.record()]
        } else {
            seq![]
        }) + (if end != mid {
            seq![end.record()]
        } else {
            seq![]
        })
    }

    /// The state when a new item begins.
    pub open spec fn begun(self, index: nat) -> ProgressModel {
        ProgressModel {
            current_item_index: index,
            item_fraction: 0,
            phase: Phase::Preparing,
            current_title: None,
            completed_items: if index > self.total_items {
                self.total_items
            } else {
                index
            },
            counted: false,
            total_items: self.total_items,
        }
    }

    /// The state with `title` as the current item's title.
    pub open spec fn titled(self, title: Seq<char>) -> ProgressModel {
        ProgressModel { current_title: Some(title), ..self }
    }

    /// The state when the current item is closed in phase `phase`.
    pub open spec fn closed(self, phase: Phase) -> ProgressModel {
        ProgressModel {
            item_fraction: FULL as nat,
            phase,
            completed_items: self.counting_current(),
            counted: true,
            ..self
        }
    }

    /// The state at the end of the stream.
    pub open spec fn finished(self) -> ProgressModel {
        ProgressModel {
            current_item_index: self.current_item_index,
            item_fraction: FULL as nat,
            phase: Phase::Complete,
            current_title: None,
            completed_items: self.total_items,
            counted: true,
            total_items: self.total_items,
        }
    }

    /// The record at the end of the stream: everything is complete.
    pub open spec fn final_record(self) -> RecordModel {
        RecordModel {
            overall_fraction: FULL as nat,
            current_item_index: Some(self.total_items),
            total_items: Some(self.total_items),
            item_fraction: FULL as nat,
            phase: Phase::Complete,
            current_title: None,
        }
    }

    /// The state after a run of diagnostic lines.
    pub open spec fn run(self, lines: Seq<Seq<char>>) -> ProgressModel
        decreases lines.len(),
    {
        if lines.len() == 0 {
            self
        } else {
            self.run(lines.drop_last()).advance(lines.last())
        }
    }
}

// ---------------------------------------------------------------------------
// The state machine: laws
// ---------------------------------------------------------------------------

/// A valid state stays valid under every signal and every title.
pub proof fn lemma_valid_preserved(m: ProgressModel, signal: LineSignal, found: Option<Seq<char>>)
    requires
        m.valid(),
    ensures
        m.after_signal(signal).valid(),
        m.after_title(found).valid(),
        m.after_signal(signal).total_items == m.total_items,
        m.after_title(found).total_items == m.total_items,
{
}

/// The overall fraction of a valid state is in range.
pub proof fn lemma_overall_in_range(m: ProgressModel)
    requires
        m.valid(),
    ensures
        m.overall() <= FULL,
{
}

/// With the items done and the number of items fixed, the overall fraction
/// grows with the item's fraction.
pub proof fn lemma_overall_grows(a: ProgressModel, b: ProgressModel)
    requires
        a.total_items == b.total_items,
        a.completed_items == b.completed_items,
        a.counted == b.counted,
        a.item_fraction <= b.item_fraction,
    ensures
        a.overall() <= b.overall(),
{
    if a.total_items > 1 {
        let t = a.total_items as int;
        let x = (a.completed_items * FULL + a.open_share()) as int;
        let y = (b.completed_items * FULL + b.open_share()) as int;
        assert(x / t <= y / t) by (nonlinear_arith)
            requires
                x <= y,
                t > 0,
        ;
    }
}

/// At an item's boundary the overall fraction does not fall: with more
/// than one item, neither the start of a new item nor the completion of
/// the current one lowers it, though the item's own fraction is reset.
pub proof fn lemma_boundary_keeps_overall(m: ProgressModel, preexisting: bool)
    requires
        m.valid(),
        m.total_items > 1,
    ensures
        m.overall() <= m.after_signal(LineSignal::ItemStart).overall(),
        m.overall() <= m.after_signal(LineSignal::ItemDone { preexisting }).overall(),
{
    let t = m.total_items as int;
    let before = (m.completed_items * FULL + m.open_share()) as int;
    let started = m.after_signal(LineSignal::ItemStart);
    let done = m.after_signal(LineSignal::ItemDone { preexisting });
    let after_start = (started.completed_items * FULL + started.open_share()) as int;
    let after_done = (done.completed_items * FULL + done.open_share()) as int;
    let full = (t * FULL) as int;
    assert(full / t == FULL) by (nonlinear_arith)
        requires
            t > 0,
            full == t * FULL,
    ;
    if m.item_fraction >= NEAR_COMPLETE {
        if before <= after_start {
            assert(before / t <= after_start / t) by (nonlinear_arith)
                requires
                    before <= after_start,
                    t > 0,
            ;
        } else {
            assert(after_start == full);
            assert(full / t <= before / t) by (nonlinear_arith)
                requires
                    full <= before,
                    t > 0,
            ;
        }
    }
    if m.item_fraction < FULL {
        if before <= after_done {
            assert(before / t <= after_done / t) by (nonlinear_arith)
                requires
                    before <= after_done,
                    t > 0,
            ;
        } else {
            assert(after_done == full);
            assert(full / t <= before / t) by (nonlinear_arith)
                requires
                    full <= before,
                    t > 0,
            ;
        }
    }
}

/// The lines are percentage markers of one transfer whose values never
/// fall: each is at least the one before, and the first is at least the
/// fraction that the state starts with.
pub open spec fn rising_percent_lines(m: ProgressModel, lines: Seq<Seq<char>>) -> bool {
    &&& forall|k: int| 0 <= k < lines.len() ==> #[trigger] signal_of(lines[k]) is Percent
    &&& lines.len() > 0 ==> signal_of(lines[0])->Percent_0 >= m.item_fraction
    &&& forall|k: int|
        0 < k < lines.len() ==> signal_of(lines[k - 1])->Percent_0 <= (#[trigger] signal_of(
            lines[k],
        ))->Percent_0
}

/// After a run of rising percentage lines the item's fraction is at least
/// what it was at the start and at most the last value read, and the items
/// done and the number of items are as before.
pub proof fn lemma_rising_run(m: ProgressModel, lines: Seq<Seq<char>>)
    requires
        m.valid(),
        rising_percent_lines(m, lines),
    ensures
        m.run(lines).valid(),
        m.run(lines).total_items == m.total_items,
        m.run(lines).completed_items == m.completed_items,
        m.run(lines).counted == m.counted,
        m.item_fraction <= m.run(lines).item_fraction,
        lines.len() > 0 ==> m.run(lines).item_fraction <= signal_of(lines.last())->Percent_0,
    decreases lines.len(),
{
    if lines.len() > 0 {
        let head = lines.drop_last();
        assert forall|k: int| 0 <= k < head.len() implies #[trigger] signal_of(
            head[k],
        ) is Percent by {
            assert(head[k] == lines[k]);
        }
        assert forall|k: int| 0 < k < head.len() implies signal_of(head[k - 1])->Percent_0 <= (
        #[trigger] signal_of(head[k]))->Percent_0 by {
            assert(head[k] == lines[k]);
            assert(head[k - 1] == lines[k - 1]);
        }
        if head.len() > 0 {
            assert(head[0] == lines[0]);
            assert(head.last() == lines[lines.len() - 2]);
        }
        lemma_rising_run(m, head);
        let before = m.run(head);
        let signal = signal_of(lines.last());
        assert(signal is Percent);
        lemma_valid_preserved(before, signal, title_in(lines.last()));
        lemma_valid_preserved(before.after_signal(signal), signal, title_in(lines.last()));
        assert(signal->Percent_0 <= FULL) by {
            assert(percent_marker(lines.last()) is Some);
        }
    }
}

/// Within one item's transfer the progress never falls: over a run of
/// percentage lines whose values never fall, the item's fraction after `j`
/// lines is at least the fraction after `i <= j` lines, and so is the
/// overall fraction.
pub proof fn lemma_progress_monotone(m: ProgressModel, lines: Seq<Seq<char>>, i: int, j: int)
    requires
        m.valid(),
        rising_percent_lines(m, lines),
        0 <= i <= j <= lines.len(),
    ensures
        m.run(lines.take(i)).item_fraction <= m.run(lines.take(j)).item_fraction,
        m.run(lines.take(i)).overall() <= m.run(lines.take(j)).overall(),
    decreases j - i,
{
    let upto_j = lines.take(j);
    assert forall|k: int| 0 <= k < upto_j.len() implies #[trigger] signal_of(
        upto_j[k],
    ) is Percent by {
        assert(upto_j[k] == lines[k]);
    }
    assert forall|k: int| 0 < k < upto_j.len() implies signal_of(upto_j[k - 1])->Percent_0 <= (
    #[trigger] signal_of(upto_j[k]))->Percent_0 by {
        assert(upto_j[k] == lines[k]);
        assert(upto_j[k - 1] == lines[k - 1]);
    }
    if upto_j.len() > 0 {
        assert(upto_j[0] == lines[0]);
    }
    if i < j {
        let shorter = lines.take(j - 1);
        assert(upto_j.drop_last() =~= shorter);
        lemma_progress_monotone(m, lines, i, j - 1);
        assert forall|k: int| 0 <= k < shorter.len() implies #[trigger] signal_of(
            shorter[k],
        ) is Percent by {
            assert(shorter[k] == lines[k]);
        }
        assert forall|k: int| 0 < k < shorter.len() implies signal_of(shorter[k - 1])->Percent_0
            <= (#[trigger] signal_of(shorter[k]))->Percent_0 by {
            assert(shorter[k] == lines[k]);
            assert(shorter[k - 1] == lines[k - 1]);
        }
        if shorter.len() > 0 {
            assert(shorter[0] == lines[0]);
            assert(shorter.last() == lines[j - 2]);
        }
        lemma_rising_run(m, shorter);
        lemma_rising_run(m, upto_j);
        let before = m.run(shorter);
        let after = m.run(upto_j);
        assert(after == before.advance(upto_j.last()));
        assert(upto_j.last() == lines[j - 1]);
        assert(before.item_fraction <= after.item_fraction);
        lemma_overall_grows(before, after);
    }
}

// ---------------------------------------------------------------------------
// The state machine: code
// ---------------------------------------------------------------------------

/// One progress report for the subscriber.
#[derive(Clone, Debug, PartialEq, Eq)]
pub struct DownloadProgress {
    /// How far the whole request has come.
    pub overall_fraction: u32,
    /// The position of the current item, counted from one.
    pub current_item_index: Option<usize>,
    pub total_items: Option<usize>,
    /// How far the current item's transfer has come.
    pub item_fraction: u32,
    pub phase: Phase,
    pub current_title: Option<String>,
}

impl View for DownloadProgress {
    type V = RecordModel;

    open spec fn view(&self) -> RecordModel {
        RecordModel {
            overall_fraction: self.overall_fraction as nat,
            current_item_index: match self.current_item_index {
                Some(i) => Some(i as nat),
                None => None,
            },
            total_items: match self.total_items {
                Some(n) => Some(n as nat),
                None => None,
            },
            item_fraction: self.item_fraction as nat,
            phase: self.phase,
            current_title: text_model(self.current_title),
        }
    }
}

/// The models of a sequence of records.
pub open spec fn record_models(records: Seq<DownloadProgress>) -> Seq<RecordModel> {
    Seq::new(records.len(), |i: int| records[i]@)
}

/// The progress state machine of one request.
pub struct ProgressState {
    current_item_index: usize,
    item_fraction: u32,
    phase: Phase,
    current_title: Option<String>,
    completed_items: usize,
    counted: bool,
    total_items: usize,
}

impl View for ProgressState {
    type V = ProgressModel;

    closed spec fn view(&self) -> ProgressModel {
        ProgressModel {
            current_item_index: self.current_item_index as nat,
            item_fraction: self.item_fraction as nat,
            phase: self.phase,
            current_title: text_model(self.current_title),
            completed_items: self.completed_items as nat,
            counted: self.counted,
            total_items: self.total_items as nat,
        }
    }
}

impl ProgressState {
    #[verifier::type_invariant]
    spec fn well_formed(self) -> bool {
        self@.valid()
    }

    /// A machine for a request of `total_items` items that has seen
    /// nothing yet.
    pub fn new(total_items: usize) -> (s: ProgressState)
        ensures
            s@ == ProgressModel::initial(total_items as nat),
    {
        ProgressState {
            current_item_index: 0,
            item_fraction: 0,
            phase: Phase::Preparing,
            current_title: None,
            completed_items: 0,
            counted: false,
            total_items,
        }
    }

    /// The index of the current item, counted from zero.
    pub fn current_item_index(&self) -> (r: usize)
        ensures
            r == self@.current_item_index,
    {
        self.current_item_index
    }

    /// How far the current item's transfer has come.
    pub fn item_fraction(&self) -> (r: u32)
        ensures
            r == self@.item_fraction,
            r <= FULL,
    {
        proof {
            use_type_invariant(self);
        }
        self.item_fraction
    }

    /// The stage of the current item's transfer.
    pub fn phase(&self) -> (r: Phase)
        ensures
            r == self@.phase,
    {
        self.phase
    }

    /// The title of the current item, if one is known.
    pub fn current_title(&self) -> (r: Option<String>)
        ensures
            text_model(r) == self@.current_title,
    {
        copy_text(&self.current_title)
    }

    /// The number of items that are done.
    pub fn completed_items(&self) -> (r: usize)
        ensures
            r == self@.completed_items,
    {
        self.completed_items
    }

    /// The number of items of the request.
    pub fn total_items(&self) -> (r: usize)
        ensures
            r == self@.total_items,
    {
        self.total_items
    }

    /// How far the whole request has come.
    pub fn overall_fraction(&self) -> (r: u32)
        ensures
            r == self@.overall(),
            r <= FULL,
    {
        proof {
            use_type_invariant(self);
        }
        if self.total_items <= 1 {
            self.item_fraction
        } else {
            let share: u32 = if self.counted {
                0
            } else {
                self.item_fraction
            };
            let sum: u128 = (self.completed_items as u128) * (FULL as u128) + (share as u128);
            let share: u128 = sum / (self.total_items as u128);
            if share > FULL as u128 {
                FULL
            } else {
                share as u32
            }
        }
    }

    /// The record that shows the state as it is.
    pub fn record(&self) -> (r: DownloadProgress)
        ensures
            r@ == self@.record(),
    {
        DownloadProgress {
            overall_fraction: self.overall_fraction(),
            current_item_index: Some(
                if self.current_item_index < usize::MAX {
                    self.current_item_index + 1
                } else {
                    usize::MAX
                },
            ),
            total_items: Some(self.total_items),
            item_fraction: self.item_fraction,
            phase: self.phase,
            current_title: copy_text(&self.current_title),
        }
    }

    /// The number of items done once the current item is one of them.
    fn next_completed(&self) -> (r: usize)
        ensures
            r == self@.counting_current(),
            r <= self@.total_items,
    {
        proof {
            use_type_invariant(self);
        }
        if self.counted {
            self.completed_items
        } else if self.completed_items < self.total_items {
            self.completed_items + 1
        } else {
            self.total_items
        }
    }

    /// Applies the rule for `signal`. Returns the record to emit, which is
    /// there exactly when the state changed.
    pub fn apply_signal(&mut self, signal: LineSignal) -> (r: Option<DownloadProgress>)
        ensures
            final(self)@ == old(self)@.after_signal(signal),
            match r {
                Some(record) => final(self)@ != old(self)@ && record@ == final(self)@.record(),
                None => final(self)@ == old(self)@,
            },
    {
        proof {
            use_type_invariant(&*self);
        }
        let mut changed = false;
        match signal {
            LineSignal::Percent(p) => {
                let value: u32 = if p > FULL {
                    FULL
                } else {
                    p
                };
                if value > self.item_fraction + EPSILON || value + EPSILON < self.item_fraction {
                    self.item_fraction = value;
                    changed = true;
                }
                if self.phase != Phase::Downloading {
                    self.phase = Phase::Downloading;
                    changed = true;
                }
            },
            LineSignal::Extraction => {
                if self.item_fraction != EXTRACTION_MARK || self.phase != Phase::Converting {
                    self.item_fraction = EXTRACTION_MARK;
                    self.phase = Phase::Converting;
                    changed = true;
                }
            },
            LineSignal::Merge => {
                if self.item_fraction != MERGE_MARK || self.phase != Phase::Converting {
                    self.item_fraction = MERGE_MARK;
                    self.phase = Phase::Converting;
                    changed = true;
                }
            },
            LineSignal::ItemStart => {
                if self.item_fraction >= NEAR_COMPLETE {
                    let done = self.next_completed();
                    self.completed_items = done;
                    self.counted = false;
                    if self.current_item_index < usize::MAX {
                        self.current_item_index = self.current_item_index + 1;
                    }
                    self.item_fraction = 0;
                    self.phase = Phase::Preparing;
                    self.current_title = None;
                    changed = true;
                }
            },
            LineSignal::ItemDone { preexisting } => {
                if self.item_fraction < FULL {
                    let done = self.next_completed();
                    self.completed_items = done;
                    self.counted = true;
                    self.item_fraction = FULL;
                    self.phase = if preexisting {
                        Phase::Skipped
                    } else {
                        Phase::Complete
                    };
                    changed = true;
                }
            },
            LineSignal::Unrecognized => {},
        }
        if changed {
            Some(self.record())
        } else {
            None
        }
    }

    /// Looks at `found`, the title that a line carries, and stores it
    /// unless the current item has a title already. Returns the record to
    /// emit, which is there exactly when the state changed.
    pub fn apply_title(&mut self, found: Option<String>) -> (r: Option<DownloadProgress>)
        ensures
            final(self)@ == old(self)@.after_title(text_model(found)),
            match r {
                Some(record) => final(self)@ != old(self)@ && record@ == final(self)@.record(),
                None => final(self)@ == old(self)@,
            },
    {
        proof {
            use_type_invariant(&*self);
        }
        let lacks = match &self.current_title {
            None => true,
            Some(t) => t.as_str().is_empty(),
        };
        if !lacks {
            return None;
        }
        match found {
            None => None,
            Some(t) => {
                if t.as_str().is_empty() {
                    return None;
                }
                self.current_title = Some(t);
                Some(self.record())
            },
        }
    }

    /// Reads one diagnostic line. Lines that signal nothing change nothing
    /// and give no record.
    pub fn process_line(&mut self, line: &str) -> (out: Vec<DownloadProgress>)
        ensures
            final(self)@ == old(self)@.advance(line@),
            record_models(out@) == old(self)@.emitted(line@),
    {
        let v = chars_of(line);
        let signal = classify_chars(&v);
        let mut out: Vec<DownloadProgress> = Vec::new();
        if let Some(r) = self.apply_signal(signal) {
            out.push(r);
        }
        let found = match title_chars(&v) {
            Some(t) => Some(string_of(&t)),
            None => None,
        };
        if let Some(r) = self.apply_title(found) {
            out.push(r);
        }
        assert(record_models(out@) =~= old(self)@.emitted(line@));
        out
    }

    /// Begins the item with index `index`, counted from zero: its fraction
    /// is zero, it has no title, and the items before it count as done.
    pub fn begin_item(&mut self, index: usize) -> (r: DownloadProgress)
        ensures
            final(self)@ == old(self)@.begun(index as nat),
            r@ == final(self)@.record(),
    {
        proof {
            use_type_invariant(&*self);
        }
        self.completed_items = if index > self.total_items {
            self.total_items
        } else {
            index
        };
        self.counted = false;
        self.current_item_index = index;
        self.item_fraction = 0;
        self.phase = Phase::Preparing;
        self.current_title = None;
        self.record()
    }

    /// Gives the current item the title `title`.
    pub fn set_title(&mut self, title: String) -> (r: DownloadProgress)
        ensures
            final(self)@ == old(self)@.titled(title@),
            r@ == final(self)@.record(),
    {
        proof {
            use_type_invariant(&*self);
        }
        self.current_title = Some(title);
        self.record()
    }

    /// Closes the current item as skipped: its file was there already.
    pub fn mark_skipped(&mut self) -> (r: DownloadProgress)
        ensures
            final(self)@ == old(self)@.closed(Phase::Skipped),
            r@ == final(self)@.record(),
    {
        proof {
            use_type_invariant(&*self);
        }
        let done = self.next_completed();
        self.completed_items = done;
        self.counted = true;
        self.item_fraction = FULL;
        self.phase = Phase::Skipped;
        self.record()
    }

    /// Closes the current item as complete: its transfer succeeded.
    pub fn mark_complete(&mut self) -> (r: DownloadProgress)
        ensures
            final(self)@ == old(self)@.closed(Phase::Complete),
            r@ == final(self)@.record(),
    {
        proof {
            use_type_invariant(&*self);
        }
        let done = self.next_completed();
        self.completed_items = done;
        self.counted = true;
        self.item_fraction = FULL;
        self.phase = Phase::Complete;
        self.record()
    }

    /// Ends the stream. The record says that everything is complete,
    /// whatever was read before.
    pub fn finish(&mut self) -> (r: DownloadProgress)
        ensures
            final(self)@ == old(self)@.finished(),
            r@ == old(self)@.final_record(),
    {
        proof {
            use_type_invariant(&*self);
        }
        self.completed_items = self.total_items;
        self.counted = true;
        self.item_fraction = FULL;
        self.phase = Phase::Complete;
        self.current_title = None;
        DownloadProgress {
            overall_fraction: FULL,
            current_item_index: Some(self.total_items),
            total_items: Some(self.total_items),
            item_fraction: FULL,
            phase: Phase::Complete,
            current_title: None,
        }
    }
}

impl Phase {
    /// The phase in words, for display.
    pub fn label(&self) -> (r: &'static str)
        ensures
            r@ == match *self {
                Phase::Preparing => "Preparing download..."@,
                Phase::Downloading => "Downloading..."@,
                Phase::Converting => "Converting to MP3..."@,
                Phase::Skipped => "Already exists, skipping..."@,
                Phase::Complete => "Download complete"@,
            },
    {
        match self {
            Phase::Preparing => "Preparing download...",
            Phase::Downloading => "Downloading...",
            Phase::Converting => "Converting to MP3...",
            Phase::Skipped => "Already exists, skipping...",
            Phase::Complete => "Download complete",
        }
    }
}

} // verus!
