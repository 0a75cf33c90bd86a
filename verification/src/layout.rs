//! The measures of the table in which the working set is shown: how wide
//! the text column is, how wide the column of numbers, and how much padding
//! each cell gets. Nothing is drawn here.
use crate::input::byte_len;
use crate::models::{ShowableData, ShowableView, KIND_COUNT};
use crate::text::decimal;
use crate::vault::{offset_of, records_view, WorkingSet};
use unicode_width::UnicodeWidthStr;
use vstd::prelude::*;
use vstd::utf8::encode_utf8;

verus! {

/// The number of terminal columns that a text takes, as `unicode-width`
/// counts them.
pub uninterp spec fn display_width(text: Seq<char>) -> nat;

/// Calls `UnicodeWidthStr::width`.
///
/// Trusted: the result is the named value `display_width`.
#[verifier::external_body]
fn width_of(text: &str) -> (r: usize)
    ensures
        r == display_width(text@),
{
    UnicodeWidthStr::width(text)
}

/// The larger of two numbers.
pub open spec fn larger(a: nat, b: nat) -> nat {
    if a >= b {
        a
    } else {
        b
    }
}

/// A number, or the largest `usize` where it is above that.
pub open spec fn capped(n: int) -> int {
    if n > usize::MAX {
        usize::MAX as int
    } else {
        n
    }
}

/// A difference, or zero where it is negative.
pub open spec fn floored(n: int) -> int {
    if n < 0 {
        0
    } else {
        n
    }
}

/// Position of the first line break at or after `from` in the bytes of a
/// text; the number of bytes where there is none. In UTF-8 the byte 10 stands
/// for a line break and for nothing else.
pub open spec fn line_end(bytes: Seq<u8>, from: int) -> int
    decreases bytes.len() - from,
{
    if from < 0 || from >= bytes.len() {
        bytes.len() as int
    } else if bytes[from] == 10 {
        from
    } else {
        line_end(bytes, from + 1)
    }
}

/// Length of the longest of the lines that start at or after `from`, which
/// must be the start of a line.
pub open spec fn longest_line_from(bytes: Seq<u8>, from: int) -> nat
    decreases bytes.len() - from,
{
    if from < 0 || from > bytes.len() {
        0
    } else {
        let end = line_end(bytes, from);
        let here = floored(end - from) as nat;
        if end >= bytes.len() || end < from {
            here
        } else {
            larger(here, longest_line_from(bytes, end + 1))
        }
    }
}

/// Length in bytes of the longest line of a text. A text without a line
/// break is one line.
pub open spec fn longest_line(s: Seq<char>) -> nat {
    longest_line_from(encode_utf8(s), 0)
}

/// Measures the longest line of a text, in bytes.
pub fn longest_line_len(text: &str) -> (r: usize)
    ensures
        r == longest_line(text@),
{
    let bytes = text.as_bytes();
    let n: usize = bytes.len();
    let mut best: usize = 0;
    let mut start: usize = 0;
    loop
        invariant
            n == bytes@.len(),
            bytes@ == encode_utf8(text@),
            start <= n,
            longest_line(text@) == larger(best as nat, longest_line_from(bytes@, start as int)),
        decreases n - start,
    {
        let mut end: usize = start;
        while end < n && bytes[end] != 10
            invariant
                n == bytes@.len(),
                start <= end <= n,
                line_end(bytes@, start as int) == line_end(bytes@, end as int),
            decreases n - end,
        {
            end = end + 1;
        }
        let here: usize = end - start;
        if here > best {
            best = here;
        }
        if end >= n {
            return best;
        }
        start = end + 1;
    }
}

/// Length in bytes of the longest line among the first `upto` records.
pub open spec fn widest_record(records: Seq<ShowableView>, upto: int) -> nat
    decreases upto,
{
    if upto <= 0 {
        0
    } else {
        larger(
            widest_record(records, upto - 1),
            longest_line(records[upto - 1].data.display()),
        )
    }
}

/// Width that a section asks for: that of its title or of its longest line,
/// whichever is larger; nothing for a section without a record.
pub open spec fn section_width(records: Seq<ShowableView>) -> nat {
    if records.len() == 0 {
        0
    } else {
        larger(byte_len(records[0].data.title()), widest_record(records, records.len() as int))
    }
}

/// Width that the first `parts` sections ask for.
pub open spec fn table_width(sections: Seq<Seq<ShowableView>>, parts: int) -> nat
    decreases parts,
{
    if parts <= 0 {
        0
    } else {
        larger(table_width(sections, parts - 1), section_width(sections[parts - 1]))
    }
}

/// Number of digits of `n` in decimal.
pub open spec fn digit_count(n: nat) -> nat {
    decimal(n).len()
}

/// The measures of the table.
#[derive(Debug, Clone, Copy, PartialEq, Eq, Structural)]
pub struct TableLayout {
    /// Width of the text column, in bytes of its longest line.
    pub len: usize,
    /// Number of records.
    pub size: usize,
    /// Width of the column of numbers.
    pub num_buf: usize,
}

fn measure_section(records: &Vec<ShowableData>) -> (r: usize)
    ensures
        r == section_width(records_view(records@)),
{
    if records.len() == 0 {
        return 0;
    }
    let title = records[0].data.name();
    let mut len: usize = title.as_str().as_bytes().len();
    let mut i: usize = 0;
    while i < records.len()
        invariant
            i <= records.len(),
            records.len() > 0,
            len == larger(
                byte_len(records_view(records@)[0].data.title()),
                widest_record(records_view(records@), i as int),
            ),
        decreases records.len() - i,
    {
        let shown = records[i].data.to_string();
        let widest: usize = longest_line_len(shown.as_str());
        if widest > len {
            len = widest;
        }
        i = i + 1;
    }
    len
}

fn count_digits(n: usize) -> (r: usize)
    ensures
        r == digit_count(n as nat),
        1 <= r <= 20,
{
    let mut rest: usize = n;
    let mut count: usize = 1;
    proof {
        assert(pow10(0) == 1);
        assert(n as nat * pow10(0) == n as nat) by (nonlinear_arith)
            requires
                pow10(0) == 1,
        ;
    }
    while rest >= 10
        invariant
            1 <= count <= 20,
            digit_count(n as nat) == count - 1 + digit_count(rest as nat),
            rest as nat * pow10((count - 1) as nat) <= usize::MAX,
        decreases rest,
    {
        proof {
            lemma_pow10_step(rest as nat, (count - 1) as nat);
        }
        rest = rest / 10;
        count = count + 1;
    }
    count
}

/// Ten to the power `e`.
pub open spec fn pow10(e: nat) -> nat
    decreases e,
{
    if e == 0 {
        1
    } else {
        10 * pow10((e - 1) as nat)
    }
}

proof fn lemma_pow10_step(rest: nat, e: nat)
    requires
        rest >= 10,
        rest * pow10(e) <= usize::MAX,
    ensures
        (rest / 10) * pow10(e + 1) <= usize::MAX,
        e + 1 < 20,
        rest / 10 >= 1,
{
    let p = pow10(e);
    assert(pow10(e + 1) == 10 * p);
    assert((rest / 10) * (10 * p) <= rest * p) by (nonlinear_arith)
        requires
            rest >= 10,
            p >= 0,
    ;
    assert((rest / 10) * (10 * p) == (rest / 10) * pow10(e + 1));
    lemma_pow10_grows(e);
    assert(10 * p <= rest * p) by (nonlinear_arith)
        requires
            rest >= 10,
            p >= 0,
    ;
    if e + 1 >= 20 {
        lemma_pow10_monotone(20, e + 1);
        assert(pow10(20) == 100_000_000_000_000_000_000) by {
            reveal_with_fuel(pow10, 21);
        }
    }
}

proof fn lemma_pow10_grows(e: nat)
    ensures
        pow10(e) >= 1,
    decreases e,
{
    if e > 0 {
        lemma_pow10_grows((e - 1) as nat);
    }
}

proof fn lemma_pow10_monotone(a: nat, b: nat)
    requires
        a <= b,
    ensures
        pow10(a) <= pow10(b),
    decreases b,
{
    if a < b {
        lemma_pow10_monotone(a, (b - 1) as nat);
        lemma_pow10_grows((b - 1) as nat);
    }
}

/// Measures the table for a working set.
pub fn table_layout(set: &WorkingSet) -> (r: TableLayout)
    ensures
        r.len == table_width(set@, KIND_COUNT as int),
        r.size == capped(offset_of(set@, KIND_COUNT as int)),
        r.num_buf == digit_count(r.size as nat),
{
    let mut len: usize = 0;
    let mut size: usize = 0;
    let mut part: usize = 0;
    while part < KIND_COUNT
        invariant
            part <= KIND_COUNT,
            len == table_width(set@, part as int),
            size == capped(offset_of(set@, part as int)),
            offset_of(set@, part as int) >= 0,
        decreases KIND_COUNT - part,
    {
        match set.section_at(part) {
            Some(records) => {
                let wanted: usize = measure_section(records);
                if wanted > len {
                    len = wanted;
                }
                size = size.saturating_add(records.len());
            },
            None => {},
        }
        part = part + 1;
    }
    TableLayout { len, size, num_buf: count_digits(size) }
}

impl TableLayout {
    /// Width of the frame above and below the table.
    pub fn frame_width(&self) -> (r: usize)
        ensures
            r == capped(self.len + self.num_buf + 7),
    {
        self.len.saturating_add(self.num_buf).saturating_add(7)
    }

    /// Width of the rule between two records.
    pub fn split_width(&self) -> (r: usize)
        ensures
            r == capped(self.len + self.num_buf + 6),
    {
        self.len.saturating_add(self.num_buf).saturating_add(6)
    }

    /// Width of the line that holds a section's title.
    pub fn total_width(&self) -> (r: usize)
        ensures
            r == capped(self.len + self.num_buf + 4),
    {
        self.len.saturating_add(self.num_buf).saturating_add(4)
    }

    /// Number of blanks after a section's title.
    pub fn title_padding(&self, title: &str) -> (r: usize)
        ensures
            r == floored(
                capped(self.len + self.num_buf + 4) - floored(display_width(title@) - 1),
            ),
    {
        self.total_width().saturating_sub(width_of(title).saturating_sub(1))
    }

    /// Number of blanks after a record's name.
    pub fn name_padding(&self, name: &str) -> (r: usize)
        ensures
            r == floored(floored(self.len - display_width(name@)) - 7),
    {
        self.len.saturating_sub(width_of(name)).saturating_sub(7)
    }

    /// Number of blanks after a record's notice.
    pub fn notice_padding(&self, notice: &str) -> (r: usize)
        ensures
            r == floored(floored(self.len - display_width(notice@)) - 6),
    {
        self.len.saturating_sub(width_of(notice)).saturating_sub(6)
    }

    /// Number of blanks after one line of a record.
    pub fn line_padding(&self, line: &str) -> (r: usize)
        ensures
            r == capped(floored(self.len - display_width(line@)) + 2),
    {
        self.len.saturating_sub(width_of(line)).saturating_add(2)
    }
}

} // verus!
