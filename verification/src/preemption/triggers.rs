//! Events that signal the donor wants their machine back, and the reading
//! of the macOS HID idle time from `ioreg` output.
use vstd::prelude::*;
use vstd::string::StrSliceExecFns;
use crate::external::push_char;
use crate::text::{contains_text, has_infix};

verus! {

/// A sovereignty event.
#[derive(Debug, Clone, Copy, PartialEq, Eq, Structural)]
pub enum SovereigntyEvent {
    /// Keyboard or mouse activity.
    InputActivity,
    /// A foreground application the donor marked.
    ForegroundApp,
    /// The machine went on battery.
    AcPowerLost,
    /// A thermal limit was reached.
    ThermalThreshold,
    /// Memory ran short.
    MemoryPressure,
    /// A rule of the donor's own.
    UserDefined,
}

} // verus!

verus! {

/// The lines of a text, split at each `'\n'` (the last line may be empty).
pub open spec fn text_lines(s: Seq<char>) -> Seq<Seq<char>>
    decreases s.len(),
{
    if s.len() == 0 {
        seq![Seq::<char>::empty()]
    } else {
        let p = text_lines(s.drop_last());
        if s.last() == '\n' {
            p.push(Seq::<char>::empty())
        } else {
            p.update(p.len() - 1, p.last().push(s.last()))
        }
    }
}

/// An ASCII decimal digit.
pub open spec fn is_ascii_digit(c: char) -> bool {
    '0' <= c && c <= '9'
}

/// The ASCII digits of a text, in order.
pub open spec fn digits_in(s: Seq<char>) -> Seq<char> {
    s.filter(|c: char| is_ascii_digit(c))
}

/// The number that a string of decimal digits denotes.
pub open spec fn digits_number(d: Seq<char>) -> nat
    decreases d.len(),
{
    if d.len() == 0 {
        0
    } else {
        digits_number(d.drop_last()) * 10 + (d.last() as nat - 48) as nat
    }
}

/// The idle time in nanoseconds that an `ioreg` line reports: a line that
/// mentions `HIDIdleTime` and whose digits, taken together, form a number
/// that fits in 64 bits.
pub open spec fn line_idle_ns(line: Seq<char>) -> Option<nat> {
    let d = digits_in(line);
    if has_infix(line, "HIDIdleTime"@) && d.len() > 0 && digits_number(d) <= u64::MAX {
        Some(digits_number(d))
    } else {
        None
    }
}

/// The idle time in milliseconds of the first line that reports one.
pub open spec fn first_idle_ms(lines: Seq<Seq<char>>) -> Option<u64>
    decreases lines.len(),
{
    if lines.len() == 0 {
        None
    } else {
        match line_idle_ns(lines[0]) {
            Some(ns) => Some((ns / 1_000_000) as u64),
            None => first_idle_ms(lines.drop_first()),
        }
    }
}

/// Split a text into its lines.
fn split_lines(text: &str) -> (r: Vec<String>)
    ensures
        r@.map_values(|l: String| l@) == text_lines(text@),
{
    let n = text.unicode_len();
    let mut done: Vec<String> = Vec::new();
    let mut cur = String::new();
    let mut i: usize = 0;
    while i < n
        invariant
            n == text@.len(),
            i <= n,
            done@.map_values(|l: String| l@).push(cur@) == text_lines(text@.take(i as int)),
        decreases n - i,
    {
        let c = text.get_char(i);
        assert(text@.take(i as int + 1).drop_last() =~= text@.take(i as int));
        let ghost before = done@.map_values(|l: String| l@);
        if c == '\n' {
            let line = cur;
            done.push(line);
            cur = String::new();
            assert(done@.map_values(|l: String| l@) =~= before.push(line@));
        } else {
            let ghost old_cur = cur@;
            push_char(&mut cur, c);
            assert(before.push(cur@) =~= before.push(old_cur).update(before.len() as int, old_cur.push(c)));
        }
        i = i + 1;
    }
    assert(text@.take(n as int) =~= text@);
    let ghost before = done@.map_values(|l: String| l@);
    let last = cur;
    done.push(last);
    assert(done@.map_values(|l: String| l@) =~= before.push(last@));
    done
}

/// The idle time that one `ioreg` line reports, in nanoseconds.
fn idle_ns_of_line(line: &str) -> (r: Option<u64>)
    ensures
        match line_idle_ns(line@) {
            Some(v) => r == Some(v as u64),
            None => r is None,
        },
{
    if !contains_text(line, "HIDIdleTime") {
        return None;
    }
    let ghost f = |c: char| is_ascii_digit(c);
    let n = line.unicode_len();
    let mut value: u64 = 0;
    let mut count: usize = 0;
    let mut overflow = false;
    let mut i: usize = 0;
    while i < n
        invariant
            n == line@.len(),
            i <= n,
            f == (|c: char| is_ascii_digit(c)),
            count == line@.take(i as int).filter(f).len(),
            count <= i,
            !overflow ==> value == digits_number(line@.take(i as int).filter(f)),
            overflow ==> digits_number(line@.take(i as int).filter(f)) > u64::MAX,
        decreases n - i,
    {
        let c = line.get_char(i);
        proof {
            line@.take(i as int).lemma_filter_push(c, f);
            assert(line@.take(i as int + 1) =~= line@.take(i as int).push(c));
        }
        if '0' <= c && c <= '9' {
            let ghost d = line@.take(i as int).filter(f);
            assert(d.push(c).drop_last() =~= d);
            count = count + 1;
            if !overflow {
                let digit = (c as u32 - 48) as u64;
                match value.checked_mul(10) {
                    Some(t) => match t.checked_add(digit) {
                        Some(v) => {
                            value = v;
                        },
                        None => {
                            overflow = true;
                        },
                    },
                    None => {
                        overflow = true;
                    },
                }
            }
        }
        i = i + 1;
    }
    assert(line@.take(n as int) =~= line@);
    if count == 0 || overflow {
        None
    } else {
        Some(value)
    }
}

/// The HID idle time in milliseconds from the output of
/// `ioreg -c IOHIDSystem -d 4`: the first line mentioning `HIDIdleTime`
/// whose digits form a 64-bit number of nanoseconds; `None` when there is
/// no such line.
pub fn hid_idle_ms(ioreg_output: &str) -> (r: Option<u64>)
    ensures
        r == first_idle_ms(text_lines(ioreg_output@)),
{
    let lines = split_lines(ioreg_output);
    let ghost ls = text_lines(ioreg_output@);
    assert(ls.subrange(0, ls.len() as int) =~= ls);
    let mut i: usize = 0;
    while i < lines.len()
        invariant
            i <= lines@.len(),
            lines@.map_values(|l: String| l@) == ls,
            ls == text_lines(ioreg_output@),
            first_idle_ms(ls) == first_idle_ms(ls.subrange(i as int, ls.len() as int)),
        decreases lines@.len() - i,
    {
        assert(ls[i as int] == lines[i as int]@);
        let ghost rest = ls.subrange(i as int, ls.len() as int);
        assert(rest.drop_first() =~= ls.subrange(i as int + 1, ls.len() as int));
        assert(rest[0] == ls[i as int]);
        match idle_ns_of_line(lines[i].as_str()) {
            Some(ns) => {
                assert(rest.len() > 0);
                assert(first_idle_ms(rest) == Some((ns / 1_000_000) as u64));
                return Some(ns / 1_000_000);
            },
            None => {},
        }
        i = i + 1;
    }
    assert(ls.subrange(i as int, ls.len() as int) =~= Seq::<Seq<char>>::empty());
    None
}

} // verus!
