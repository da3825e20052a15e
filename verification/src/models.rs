//! The rows and request payloads the dispatcher works with, and the
//! fixed `YYYY-MM-DD HH:MM:SS` timestamp format used in payloads.

use vstd::prelude::*;
use crate::strutil::{chars_of, string_from_chars};

verus! {

/// A calendar timestamp as the store hands it out, held as plain fields.
/// The well-formedness bounds are what the wire format can carry; the
/// store itself only ever produces real calendar dates.
#[derive(PartialEq, Eq, Structural, Clone, Copy, Debug)]
pub struct DateTime {
    pub year: u32,
    pub month: u32,
    pub day: u32,
    pub hour: u32,
    pub minute: u32,
    pub second: u32,
}

impl DateTime {
    /// Bounds under which the timestamp has a unique `YYYY-MM-DD HH:MM:SS`
    /// rendering.
    pub open spec fn wf(self) -> bool {
        &&& self.year <= 9999
        &&& 1 <= self.month <= 12
        &&& 1 <= self.day <= 31
        &&& self.hour <= 23
        &&& self.minute <= 59
        &&& self.second <= 59
    }
}

/// A stored post, with the identifier and timestamp the store assigned.
pub struct Post {
    pub id: i32,
    pub title: String,
    pub category: String,
    pub content: String,
    pub postdate: DateTime,
    pub hidden: bool,
}

/// A creation request: what a client may supply; identifier and timestamp
/// are the store's to assign.
pub struct InputPost {
    pub title: String,
    pub category: String,
    pub content: String,
    pub hidden: bool,
}

/// A borrowed view of a creation request, in the shape the store's insert
/// operation takes.
pub struct InsertablePost<'a> {
    pub title: &'a str,
    pub category: &'a str,
    pub content: &'a str,
    pub hidden: bool,
}

impl InputPost {
    /// The borrowed shape of this request, handed to the insert operation.
    pub fn insertable<'a>(&'a self) -> (r: InsertablePost<'a>)
        ensures
            r.title@ == self.title@,
            r.category@ == self.category@,
            r.content@ == self.content@,
            r.hidden == self.hidden,
    {
        InsertablePost {
            title: self.title.as_str(),
            category: self.category.as_str(),
            content: self.content.as_str(),
            hidden: self.hidden,
        }
    }
}

/// The decimal digit character for `d`.
pub open spec fn digit_char(d: int) -> char {
    (48 + d) as char
}

/// `n` rendered as exactly two decimal digits.
pub open spec fn pad2(n: int) -> Seq<char> {
    seq![digit_char(n / 10), digit_char(n % 10)]
}

/// `n` rendered as exactly four decimal digits.
pub open spec fn pad4(n: int) -> Seq<char> {
    seq![
        digit_char(n / 1000),
        digit_char((n / 100) % 10),
        digit_char((n / 10) % 10),
        digit_char(n % 10),
    ]
}

/// The `YYYY-MM-DD HH:MM:SS` rendering of a timestamp.
pub open spec fn spec_format_datetime(d: DateTime) -> Seq<char> {
    pad4(d.year as int) + seq!['-'] + pad2(d.month as int) + seq!['-'] + pad2(d.day as int)
        + seq![' '] + pad2(d.hour as int) + seq![':'] + pad2(d.minute as int) + seq![':']
        + pad2(d.second as int)
}

/// The digit character for a small number.
pub(crate) fn digit(d: u32) -> (c: char)
    requires
        d < 10,
    ensures
        c == digit_char(d as int),
{
    (48 + d as u8) as char
}

/// Push the two-digit rendering of `n`.
fn push2(v: &mut Vec<char>, n: u32)
    requires
        n < 100,
    ensures
        final(v)@ == old(v)@ + pad2(n as int),
{
    v.push(digit(n / 10));
    v.push(digit(n % 10));
    proof {
        assert(v@ =~= old(v)@ + pad2(n as int));
    }
}

/// Render a timestamp as `YYYY-MM-DD HH:MM:SS`.
pub fn serialize(time: &DateTime) -> (r: String)
    requires
        time.wf(),
    ensures
        r@ == spec_format_datetime(*time),
{
    let mut v: Vec<char> = Vec::new();
    v.push(digit(time.year / 1000));
    v.push(digit((time.year / 100) % 10));
    v.push(digit((time.year / 10) % 10));
    v.push(digit(time.year % 10));
    v.push('-');
    push2(&mut v, time.month);
    v.push('-');
    push2(&mut v, time.day);
    v.push(' ');
    push2(&mut v, time.hour);
    v.push(':');
    push2(&mut v, time.minute);
    v.push(':');
    push2(&mut v, time.second);
    proof {
        assert(v@ =~= spec_format_datetime(*time));
    }
    string_from_chars(&v)
}

/// Whether `c` is a decimal digit.
pub open spec fn is_digit(c: char) -> bool {
    48 <= c as int && c as int <= 57
}

/// The numeric value of a digit character.
pub open spec fn digit_val(c: char) -> int {
    c as int - 48
}

/// What a `YYYY-MM-DD HH:MM:SS` string denotes, if it is one and its
/// fields lie in range.
pub open spec fn spec_parse_datetime(s: Seq<char>) -> Option<DateTime> {
    if s.len() == 19 && s[4] == '-' && s[7] == '-' && s[10] == ' ' && s[13] == ':' && s[16]
        == ':' && is_digit(s[0]) && is_digit(s[1]) && is_digit(s[2]) && is_digit(s[3]) && is_digit(
        s[5],
    ) && is_digit(s[6]) && is_digit(s[8]) && is_digit(s[9]) && is_digit(s[11]) && is_digit(s[12])
        && is_digit(s[14]) && is_digit(s[15]) && is_digit(s[17]) && is_digit(s[18]) {
        let d = DateTime {
            year: (digit_val(s[0]) * 1000 + digit_val(s[1]) * 100 + digit_val(s[2]) * 10
                + digit_val(s[3])) as u32,
            month: (digit_val(s[5]) * 10 + digit_val(s[6])) as u32,
            day: (digit_val(s[8]) * 10 + digit_val(s[9])) as u32,
            hour: (digit_val(s[11]) * 10 + digit_val(s[12])) as u32,
            minute: (digit_val(s[14]) * 10 + digit_val(s[15])) as u32,
            second: (digit_val(s[17]) * 10 + digit_val(s[18])) as u32,
        };
        if d.wf() {
            Some(d)
        } else {
            None
        }
    } else {
        None
    }
}

/// The numeric value of a digit character, checked.
fn digit_of(c: char) -> (r: Option<u32>)
    ensures
        is_digit(c) ==> r == Some(digit_val(c) as u32),
        !is_digit(c) ==> r is None,
{
    let u = c as u32;
    if 48 <= u && u <= 57 {
        Some(u - 48)
    } else {
        None
    }
}

/// Parse a `YYYY-MM-DD HH:MM:SS` string back into a timestamp.
pub fn deserialize(time: &str) -> (r: Option<DateTime>)
    ensures
        r == spec_parse_datetime(time@),
        r matches Some(d) ==> d.wf(),
{
    let cs = chars_of(time);
    if cs.len() != 19 {
        return None;
    }
    if !(cs[4] == '-' && cs[7] == '-' && cs[10] == ' ' && cs[13]
        == ':' && cs[16] == ':') {
        return None;
    }
    let mut ds: Vec<u32> = Vec::new();
    let mut k: usize = 0;
    while k < 14
        invariant
            cs@ == time@,
            cs@.len() == 19,
            k <= 14,
            ds@.len() == k,
            forall|j: int|
                0 <= j < k ==> is_digit(cs@[#[trigger] pos_spec(j)]) && ds@[j] == digit_val(
                    cs@[pos_spec(j)],
                ),
        decreases 14 - k,
    {
        let p: usize = if k < 4 {
            k
        } else if k < 6 {
            k + 1
        } else if k < 8 {
            k + 2
        } else if k < 10 {
            k + 3
        } else if k < 12 {
            k + 4
        } else {
            k + 5
        };
        proof {
            assert(p as int == pos_spec(k as int));
        }
        match digit_of(cs[p]) {
            Some(d) => {
                let ghost ds0 = ds@;
                ds.push(d);
                proof {
                    assert forall|j: int|
                        0 <= j <= k implies is_digit(cs@[pos_spec(j)]) && ds@[j] == digit_val(
                        cs@[pos_spec(j)],
                    ) by {
                        if j < k as int {
                            assert(is_digit(cs@[pos_spec(j)]) && ds0[j] == digit_val(
                                cs@[pos_spec(j)],
                            ));
                            assert(ds@[j] == ds0[j]);
                        } else {
                            assert(ds@[j] == d);
                            assert(p as int == pos_spec(j));
                        }
                    }
                }
            },
            None => {
                return None;
            },
        }
        k += 1;
    }
    proof {
        assert forall|j: int| 0 <= j < 14 implies ds@[j] <= 9 by {
            assert(is_digit(cs@[pos_spec(j)]));
        }
    }
    let d = DateTime {
        year: ds[0] * 1000 + ds[1] * 100 + ds[2] * 10 + ds[3],
        month: ds[4] * 10 + ds[5],
        day: ds[6] * 10 + ds[7],
        hour: ds[8] * 10 + ds[9],
        minute: ds[10] * 10 + ds[11],
        second: ds[12] * 10 + ds[13],
    };
    proof {
        assert(pos_spec(0) == 0 && pos_spec(1) == 1 && pos_spec(2) == 2 && pos_spec(3) == 3
            && pos_spec(4) == 5 && pos_spec(5) == 6 && pos_spec(6) == 8 && pos_spec(7) == 9
            && pos_spec(8) == 11 && pos_spec(9) == 12 && pos_spec(10) == 14 && pos_spec(11) == 15
            && pos_spec(12) == 17 && pos_spec(13) == 18);
    }
    if 1 <= d.month && d.month <= 12 && 1 <= d.day && d.day <= 31 && d.hour <= 23 && d.minute
        <= 59 && d.second <= 59 {
        Some(d)
    } else {
        None
    }
}

/// The character positions of the fourteen digits in the fixed format.
spec fn pos_spec(j: int) -> int {
    if j < 4 {
        j
    } else if j < 6 {
        j + 1
    } else if j < 8 {
        j + 2
    } else if j < 10 {
        j + 3
    } else if j < 12 {
        j + 4
    } else {
        j + 5
    }
}

} // verus!
