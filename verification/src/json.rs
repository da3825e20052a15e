//! The JSON wire format of the API: rendering stored posts to the exact
//! byte sequences the client receives, and parsing creation requests.

use vstd::prelude::*;
use crate::models::{digit, digit_char, spec_format_datetime, serialize, InputPost, Post};
use crate::strutil::{char_from_u32, chars_of, string_from_chars};

verus! {

/// The lowercase hexadecimal digit for `d`.
pub open spec fn hex_char(d: int) -> char {
    if d < 10 {
        digit_char(d)
    } else {
        (87 + d) as char
    }
}

/// How one character appears inside a JSON string literal: quote and
/// backslash are escaped, the five short escapes are used for their
/// control characters, any other control character becomes `\u00XX`,
/// and everything else stands as itself.
pub open spec fn spec_escape_char(c: char) -> Seq<char> {
    if c == '"' {
        seq!['\\', '"']
    } else if c == '\\' {
        seq!['\\', '\\']
    } else if c == '\u{8}' {
        seq!['\\', 'b']
    } else if c == '\t' {
        seq!['\\', 't']
    } else if c == '\n' {
        seq!['\\', 'n']
    } else if c == '\u{c}' {
        seq!['\\', 'f']
    } else if c == '\r' {
        seq!['\\', 'r']
    } else if (c as int) < 32 {
        seq!['\\', 'u', '0', '0', hex_char((c as int) / 16), hex_char((c as int) % 16)]
    } else {
        seq![c]
    }
}

/// A whole character sequence escaped for a JSON string literal.
pub open spec fn spec_escape(s: Seq<char>) -> Seq<char>
    decreases s.len(),
{
    if s.len() == 0 {
        Seq::empty()
    } else {
        spec_escape(s.drop_last()) + spec_escape_char(s.last())
    }
}

/// A JSON string literal: quotes around the escaped characters.
pub open spec fn spec_json_string(s: Seq<char>) -> Seq<char> {
    seq!['"'] + spec_escape(s) + seq!['"']
}

/// The decimal rendering of a non-negative number.
pub open spec fn spec_dec(n: int) -> Seq<char>
    recommends
        n >= 0,
    decreases n,
{
    if n < 10 {
        seq![digit_char(n)]
    } else {
        spec_dec(n / 10) + seq![digit_char(n % 10)]
    }
}

/// The decimal rendering of a signed number.
pub open spec fn spec_dec_i32(n: int) -> Seq<char> {
    if n < 0 {
        seq!['-'] + spec_dec(-n)
    } else {
        spec_dec(n)
    }
}

/// The JSON rendering of a boolean.
pub open spec fn spec_bool_chars(b: bool) -> Seq<char> {
    if b {
        "true"@
    } else {
        "false"@
    }
}

/// The JSON object this service sends for one stored post: the fields in
/// declaration order, compactly separated, the timestamp as a formatted
/// string.
pub open spec fn spec_post_json(p: Post) -> Seq<char> {
    "{\"id\":"@ + spec_dec_i32(p.id as int) + ",\"title\":"@ + spec_json_string(p.title@)
        + ",\"category\":"@ + spec_json_string(p.category@) + ",\"content\":"@ + spec_json_string(
        p.content@,
    ) + ",\"postdate\":"@ + spec_json_string(spec_format_datetime(p.postdate)) + ",\"hidden\":"@
        + spec_bool_chars(p.hidden) + seq!['}']
}

/// The JSON array this service sends for a list of posts.
pub open spec fn spec_posts_items(s: Seq<Post>) -> Seq<char>
    decreases s.len(),
{
    if s.len() == 0 {
        Seq::empty()
    } else if s.len() == 1 {
        spec_post_json(s[0])
    } else {
        spec_posts_items(s.drop_last()) + seq![','] + spec_post_json(s.last())
    }
}

/// The JSON array of posts, bracketed.
pub open spec fn spec_posts_json(s: Seq<Post>) -> Seq<char> {
    seq!['['] + spec_posts_items(s) + seq![']']
}

/// Append the characters of a literal.
fn push_lit(v: &mut Vec<char>, s: &str)
    ensures
        final(v)@ == old(v)@ + s@,
{
    let mut cs = chars_of(s);
    v.append(&mut cs);
}

/// The lowercase hexadecimal digit character for `d`.
fn hex_digit(d: u32) -> (c: char)
    requires
        d < 16,
    ensures
        c == hex_char(d as int),
{
    if d < 10 {
        digit(d)
    } else {
        (87 + d as u8) as char
    }
}

/// Append one character in its JSON-escaped form.
fn push_escaped_char(v: &mut Vec<char>, c: char)
    ensures
        final(v)@ == old(v)@ + spec_escape_char(c),
{
    if c == '"' {
        v.push('\\');
        v.push('"');
    } else if c == '\\' {
        v.push('\\');
        v.push('\\');
    } else if c == '\u{8}' {
        v.push('\\');
        v.push('b');
    } else if c == '\t' {
        v.push('\\');
        v.push('t');
    } else if c == '\n' {
        v.push('\\');
        v.push('n');
    } else if c == '\u{c}' {
        v.push('\\');
        v.push('f');
    } else if c == '\r' {
        v.push('\\');
        v.push('r');
    } else {
        let u = c as u32;
        if u < 32 {
            v.push('\\');
            v.push('u');
            v.push('0');
            v.push('0');
            v.push(hex_digit(u / 16));
            v.push(hex_digit(u % 16));
        } else {
            v.push(c);
        }
    }
    proof {
        assert(v@ =~= old(v)@ + spec_escape_char(c));
    }
}

/// Append a JSON string literal holding the characters of `s`.
fn push_json_string(v: &mut Vec<char>, s: &str)
    ensures
        final(v)@ == old(v)@ + spec_json_string(s@),
{
    v.push('"');
    let cs = chars_of(s);
    let n = cs.len();
    let mut i: usize = 0;
    while i < n
        invariant
            n == cs@.len(),
            i <= n,
            cs@ == s@,
            v@ == old(v)@ + seq!['"'] + spec_escape(cs@.subrange(0, i as int)),
        decreases n - i,
    {
        push_escaped_char(v, cs[i]);
        proof {
            assert(cs@.subrange(0, i + 1).drop_last() =~= cs@.subrange(0, i as int));
            assert(cs@.subrange(0, i + 1).last() == cs@[i as int]);
        }
        i += 1;
    }
    v.push('"');
    proof {
        assert(cs@.subrange(0, cs@.len() as int) =~= cs@);
        assert(v@ =~= old(v)@ + spec_json_string(s@));
    }
}

/// Append the decimal rendering of `n`.
fn push_dec(v: &mut Vec<char>, n: u32)
    ensures
        final(v)@ == old(v)@ + spec_dec(n as int),
    decreases n,
{
    if n < 10 {
        v.push(digit(n));
    } else {
        push_dec(v, n / 10);
        v.push(digit(n % 10));
    }
    proof {
        assert(v@ =~= old(v)@ + spec_dec(n as int));
    }
}

/// Append the decimal rendering of a signed identifier.
fn push_dec_i32(v: &mut Vec<char>, n: i32)
    ensures
        final(v)@ == old(v)@ + spec_dec_i32(n as int),
{
    if n < 0 {
        v.push('-');
        let mag: u32 = (-(n as i64)) as u32;
        push_dec(v, mag);
        proof {
            assert(v@ =~= old(v)@ + spec_dec_i32(n as int));
        }
    } else {
        push_dec(v, n as u32);
    }
}

/// Append the JSON object for one post.
#[verifier::rlimit(50)]
fn push_post_json(v: &mut Vec<char>, p: &Post)
    requires
        p.postdate.wf(),
    ensures
        final(v)@ == old(v)@ + spec_post_json(*p),
{
    push_lit(v, "{\"id\":");
    push_dec_i32(v, p.id);
    push_lit(v, ",\"title\":");
    push_json_string(v, p.title.as_str());
    push_lit(v, ",\"category\":");
    push_json_string(v, p.category.as_str());
    push_lit(v, ",\"content\":");
    push_json_string(v, p.content.as_str());
    push_lit(v, ",\"postdate\":");
    let formatted = serialize(&p.postdate);
    push_json_string(v, formatted.as_str());
    push_lit(v, ",\"hidden\":");
    if p.hidden {
        push_lit(v, "true");
    } else {
        push_lit(v, "false");
    }
    v.push('}');
    proof {
        assert(v@ =~= old(v)@ + spec_post_json(*p));
    }
}

/// Render one post as the JSON object the client receives.
pub fn encode_post(p: &Post) -> (r: String)
    requires
        p.postdate.wf(),
    ensures
        r@ == spec_post_json(*p),
{
    let mut v: Vec<char> = Vec::new();
    push_post_json(&mut v, p);
    string_from_chars(&v)
}

/// Render a list of posts as the JSON array the client receives.
pub fn encode_posts(list: &Vec<Post>) -> (r: String)
    requires
        forall|i: int| 0 <= i < list@.len() ==> (#[trigger] list@[i]).postdate.wf(),
    ensures
        r@ == spec_posts_json(list@),
{
    let mut v: Vec<char> = Vec::new();
    v.push('[');
    let n = list.len();
    let mut i: usize = 0;
    while i < n
        invariant
            n == list@.len(),
            i <= n,
            forall|k: int| 0 <= k < list@.len() ==> (#[trigger] list@[k]).postdate.wf(),
            v@ == seq!['['] + spec_posts_items(list@.subrange(0, i as int)),
        decreases n - i,
    {
        if i > 0 {
            v.push(',');
        }
        push_post_json(&mut v, &list[i]);
        proof {
            assert(list@.subrange(0, i + 1).drop_last() =~= list@.subrange(0, i as int));
            assert(list@.subrange(0, i + 1).last() == list@[i as int]);
            assert(v@ =~= seq!['['] + spec_posts_items(list@.subrange(0, i + 1)));
        }
        i += 1;
    }
    v.push(']');
    proof {
        assert(list@.subrange(0, list@.len() as int) =~= list@);
        assert(v@ =~= spec_posts_json(list@));
    }
    string_from_chars(&v)
}

/// Whether `c` is JSON whitespace.
pub open spec fn is_ws(c: char) -> bool {
    c == ' ' || c == '\t' || c == '\n' || c == '\r'
}

/// The first position at or after `i` holding no whitespace.
pub open spec fn spec_ws(s: Seq<char>, i: int) -> int
    decreases s.len() - i
        when 0 <= i <= s.len()
{
    if i < s.len() && is_ws(s[i]) {
        spec_ws(s, i + 1)
    } else {
        i
    }
}

/// Whether `c` is a hexadecimal digit.
pub open spec fn is_hex(c: char) -> bool {
    (48 <= c as int && c as int <= 57) || (97 <= c as int && c as int <= 102) || (65 <= c as int
        && c as int <= 70)
}

/// The value of a hexadecimal digit.
pub open spec fn hex_val(c: char) -> int {
    if 48 <= c as int && c as int <= 57 {
        c as int - 48
    } else if 97 <= c as int && c as int <= 102 {
        c as int - 87
    } else {
        c as int - 55
    }
}

/// The remainder of a JSON string literal from position `i` (just after
/// the opening quote), with `acc` the characters already read: the
/// decoded characters and the position after the closing quote. Escapes
/// are the simple ones and `\uXXXX` for a scalar value; an unescaped
/// control character, a lone surrogate escape or an unterminated literal
/// is an error.
pub open spec fn spec_string_body(s: Seq<char>, i: int, acc: Seq<char>) -> Option<(Seq<char>, int)>
    decreases s.len() - i
        when 0 <= i <= s.len()
{
    if i >= s.len() {
        None
    } else {
        let c = s[i];
        if c == '"' {
            Some((acc, i + 1))
        } else if c == '\\' {
            if i + 1 >= s.len() {
                None
            } else {
                let e = s[i + 1];
                if e == 'u' {
                    if i + 6 <= s.len() && is_hex(s[i + 2]) && is_hex(s[i + 3]) && is_hex(
                        s[i + 4],
                    ) && is_hex(s[i + 5]) {
                        let u = hex_val(s[i + 2]) * 4096 + hex_val(s[i + 3]) * 256 + hex_val(
                            s[i + 4],
                        ) * 16 + hex_val(s[i + 5]);
                        if u < 0xD800 || u >= 0xE000 {
                            spec_string_body(s, i + 6, acc + seq![u as char])
                        } else {
                            None
                        }
                    } else {
                        None
                    }
                } else if e == '"' {
                    spec_string_body(s, i + 2, acc + seq!['"'])
                } else if e == '\\' {
                    spec_string_body(s, i + 2, acc + seq!['\\'])
                } else if e == '/' {
                    spec_string_body(s, i + 2, acc + seq!['/'])
                } else if e == 'b' {
                    spec_string_body(s, i + 2, acc + seq!['\u{8}'])
                } else if e == 'f' {
                    spec_string_body(s, i + 2, acc + seq!['\u{c}'])
                } else if e == 'n' {
                    spec_string_body(s, i + 2, acc + seq!['\n'])
                } else if e == 'r' {
                    spec_string_body(s, i + 2, acc + seq!['\r'])
                } else if e == 't' {
                    spec_string_body(s, i + 2, acc + seq!['\t'])
                } else {
                    None
                }
            }
        } else if (c as int) < 32 {
            None
        } else {
            spec_string_body(s, i + 1, acc + seq![c])
        }
    }
}

/// A whole JSON string literal at position `i`.
pub open spec fn spec_json_str(s: Seq<char>, i: int) -> Option<(Seq<char>, int)> {
    if 0 <= i < s.len() && s[i] == '"' {
        spec_string_body(s, i + 1, Seq::empty())
    } else {
        None
    }
}

/// A JSON boolean at position `i`.
pub open spec fn spec_bool_at(s: Seq<char>, i: int) -> Option<(bool, int)> {
    if i + 4 <= s.len() && s[i] == 't' && s[i + 1] == 'r' && s[i + 2] == 'u' && s[i + 3] == 'e' {
        Some((true, i + 4))
    } else if i + 5 <= s.len() && s[i] == 'f' && s[i + 1] == 'a' && s[i + 2] == 'l' && s[i + 3]
        == 's' && s[i + 4] == 'e' {
        Some((false, i + 5))
    } else {
        None
    }
}

/// The abstract value of a creation request.
pub struct InputPostV {
    pub title: Seq<char>,
    pub category: Seq<char>,
    pub content: Seq<char>,
    pub hidden: bool,
}

/// The abstract value of `p`.
pub open spec fn input_post_view(p: InputPost) -> InputPostV {
    InputPostV { title: p.title@, category: p.category@, content: p.content@, hidden: p.hidden }
}

/// Which of the four fields have been seen so far while reading the
/// request object.
pub struct FieldsV {
    pub title: Option<Seq<char>>,
    pub category: Option<Seq<char>>,
    pub content: Option<Seq<char>>,
    pub hidden: Option<bool>,
}

/// No field seen yet.
pub open spec fn fields_empty() -> FieldsV {
    FieldsV { title: None, category: None, content: None, hidden: None }
}

/// One `"key": value` member at position `i` (no leading whitespace):
/// the updated field state and the position after the value. A key other
/// than the four fields, a repeated key, or a value of the wrong type is
/// an error.
pub open spec fn spec_member(s: Seq<char>, i: int, st: FieldsV) -> Option<(FieldsV, int)> {
    match spec_json_str(s, i) {
        None => None,
        Some((key, j)) => {
            let k = spec_ws(s, j);
            if !(0 <= k < s.len() && s[k] == ':') {
                None
            } else {
                let v = spec_ws(s, k + 1);
                if key == "title"@ {
                    if st.title is Some {
                        None
                    } else {
                        match spec_json_str(s, v) {
                            None => None,
                            Some((val, e)) => Some((FieldsV { title: Some(val), ..st }, e)),
                        }
                    }
                } else if key == "category"@ {
                    if st.category is Some {
                        None
                    } else {
                        match spec_json_str(s, v) {
                            None => None,
                            Some((val, e)) => Some((FieldsV { category: Some(val), ..st }, e)),
                        }
                    }
                } else if key == "content"@ {
                    if st.content is Some {
                        None
                    } else {
                        match spec_json_str(s, v) {
                            None => None,
                            Some((val, e)) => Some((FieldsV { content: Some(val), ..st }, e)),
                        }
                    }
                } else if key == "hidden"@ {
                    if st.hidden is Some {
                        None
                    } else {
                        match spec_bool_at(s, v) {
                            None => None,
                            Some((val, e)) => Some((FieldsV { hidden: Some(val), ..st }, e)),
                        }
                    }
                } else {
                    None
                }
            }
        },
    }
}

/// The members of the request object from position `i` (just after `{`
/// or a comma): the final field state and the position after the
/// closing brace. At most four members can succeed, so the recursion
/// depth is bounded.
pub open spec fn spec_members(s: Seq<char>, i: int, st: FieldsV, fuel: nat) -> Option<
    (FieldsV, int),
>
    decreases fuel,
{
    if fuel == 0 {
        None
    } else {
        match spec_member(s, spec_ws(s, i), st) {
            None => None,
            Some((st2, j)) => {
                let k = spec_ws(s, j);
                if 0 <= k < s.len() && s[k] == ',' {
                    spec_members(s, k + 1, st2, (fuel - 1) as nat)
                } else if 0 <= k < s.len() && s[k] == '}' {
                    Some((st2, k + 1))
                } else {
                    None
                }
            },
        }
    }
}

/// What a request body denotes as a creation request: a single JSON
/// object holding exactly the fields `title`, `category` and `content`
/// as strings and `hidden` as a boolean, each once, in any order, with
/// nothing but whitespace around it.
pub open spec fn spec_parse_input_post(s: Seq<char>) -> Option<InputPostV> {
    let i = spec_ws(s, 0);
    if !(0 <= i < s.len() && s[i] == '{') {
        None
    } else {
        match spec_members(s, i + 1, fields_empty(), 5) {
            None => None,
            Some((st, j)) => {
                if spec_ws(s, j) != s.len() {
                    None
                } else {
                    match (st.title, st.category, st.content, st.hidden) {
                        (Some(t), Some(c), Some(x), Some(h)) => Some(
                            InputPostV { title: t, category: c, content: x, hidden: h },
                        ),
                        _ => None,
                    }
                }
            },
        }
    }
}

/// Whether a character is JSON whitespace.
fn ws_char(c: char) -> (r: bool)
    ensures
        r == is_ws(c),
{
    c == ' ' || c == '\t' || c == '\n' || c == '\r'
}

/// Skip whitespace from position `i`.
fn skip_ws(cs: &Vec<char>, i: usize) -> (r: usize)
    requires
        i <= cs@.len(),
    ensures
        r as int == spec_ws(cs@, i as int),
        i <= r <= cs@.len(),
{
    let n = cs.len();
    let mut j = i;
    while j < n && ws_char(cs[j])
        invariant
            i <= j <= n,
            n == cs@.len(),
            spec_ws(cs@, i as int) == spec_ws(cs@, j as int),
        decreases n - j,
    {
        j += 1;
    }
    j
}

/// The value of a hexadecimal digit character, checked.
fn hex_digit_val(c: char) -> (r: Option<u32>)
    ensures
        is_hex(c) ==> r == Some(hex_val(c) as u32),
        !is_hex(c) ==> r is None,
{
    if c >= '0' && c <= '9' {
        Some(c as u32 - 48)
    } else if c >= 'a' && c <= 'f' {
        Some(c as u32 - 87)
    } else if c >= 'A' && c <= 'F' {
        Some(c as u32 - 55)
    } else {
        None
    }
}

/// Read the remainder of a JSON string literal, decoding escapes.
fn parse_string_body(cs: &Vec<char>, i: usize, acc: Vec<char>) -> (r: Option<(Vec<char>, usize)>)
    requires
        i <= cs@.len(),
    ensures
        r is Some <==> spec_string_body(cs@, i as int, acc@) is Some,
        r matches Some(p) ==> (spec_string_body(cs@, i as int, acc@) matches Some(q) && p.0@ == q.0
            && p.1 as int == q.1 && p.1 <= cs@.len()),
    decreases cs@.len() - i,
{
    if i >= cs.len() {
        return None;
    }
    let c = cs[i];
    if c == '"' {
        Some((acc, i + 1))
    } else if c == '\\' {
        if i + 1 >= cs.len() {
            return None;
        }
        let e = cs[i + 1];
        if e == 'u' {
            if cs.len() - i < 6 {
                return None;
            }
            let h1 = match hex_digit_val(cs[i + 2]) {
                Some(x) => x,
                None => {
                    return None;
                },
            };
            let h2 = match hex_digit_val(cs[i + 3]) {
                Some(x) => x,
                None => {
                    return None;
                },
            };
            let h3 = match hex_digit_val(cs[i + 4]) {
                Some(x) => x,
                None => {
                    return None;
                },
            };
            let h4 = match hex_digit_val(cs[i + 5]) {
                Some(x) => x,
                None => {
                    return None;
                },
            };
            let u: u32 = h1 * 4096 + h2 * 256 + h3 * 16 + h4;
            if u >= 0xD800 && u < 0xE000 {
                return None;
            }
            let ch = match char_from_u32(u) {
                Some(x) => x,
                None => {
                    return None;
                },
            };
            let mut a2 = acc;
            a2.push(ch);
            proof {
                assert(a2@ =~= acc@ + seq![(u as int) as char]);
            }
            parse_string_body(cs, i + 6, a2)
        } else {
            let decoded: char = if e == '"' {
                '"'
            } else if e == '\\' {
                '\\'
            } else if e == '/' {
                '/'
            } else if e == 'b' {
                '\u{8}'
            } else if e == 'f' {
                '\u{c}'
            } else if e == 'n' {
                '\n'
            } else if e == 'r' {
                '\r'
            } else if e == 't' {
                '\t'
            } else {
                return None;
            };
            let mut a2 = acc;
            a2.push(decoded);
            proof {
                assert(a2@ =~= acc@ + seq![decoded]);
            }
            parse_string_body(cs, i + 2, a2)
        }
    } else if '\u{20}' > c {
        None
    } else {
        let mut a2 = acc;
        a2.push(c);
        proof {
            assert(a2@ =~= acc@ + seq![c]);
        }
        parse_string_body(cs, i + 1, a2)
    }
}

/// Read a JSON string literal at position `i`.
fn parse_string_at(cs: &Vec<char>, i: usize) -> (r: Option<(Vec<char>, usize)>)
    requires
        i <= cs@.len(),
    ensures
        r is Some <==> spec_json_str(cs@, i as int) is Some,
        r matches Some(p) ==> (spec_json_str(cs@, i as int) matches Some(q) && p.0@ == q.0 && p.1
            as int == q.1 && p.1 <= cs@.len()),
{
    if i < cs.len() && cs[i] == '"' {
        parse_string_body(cs, i + 1, Vec::new())
    } else {
        None
    }
}

/// Read a JSON boolean at position `i`.
fn parse_bool_at(cs: &Vec<char>, i: usize) -> (r: Option<(bool, usize)>)
    requires
        i <= cs@.len(),
    ensures
        r is Some <==> spec_bool_at(cs@, i as int) is Some,
        r matches Some(p) ==> (spec_bool_at(cs@, i as int) matches Some(q) && p.0 == q.0 && p.1
            as int == q.1 && p.1 <= cs@.len()),
{
    if cs.len() - i >= 4 && cs[i] == 't' && cs[i + 1] == 'r' && cs[i + 2] == 'u' && cs[i + 3]
        == 'e' {
        Some((true, i + 4))
    } else if cs.len() - i >= 5 && cs[i] == 'f' && cs[i + 1] == 'a' && cs[i + 2] == 'l' && cs[i
        + 3] == 's' && cs[i + 4] == 'e' {
        Some((false, i + 5))
    } else {
        None
    }
}

/// The fields of the request object seen so far.
struct FieldsAcc {
    title: Option<String>,
    category: Option<String>,
    content: Option<String>,
    hidden: Option<bool>,
}

/// The abstract value of the field state.
spec fn fields_view(f: FieldsAcc) -> FieldsV {
    FieldsV {
        title: match f.title {
            Some(s) => Some(s@),
            None => None,
        },
        category: match f.category {
            Some(s) => Some(s@),
            None => None,
        },
        content: match f.content {
            Some(s) => Some(s@),
            None => None,
        },
        hidden: f.hidden,
    }
}

/// Read one `"key": value` member at position `i`.
fn parse_member(cs: &Vec<char>, i: usize, st: FieldsAcc) -> (r: Option<(FieldsAcc, usize)>)
    requires
        i <= cs@.len(),
    ensures
        r is Some <==> spec_member(cs@, i as int, fields_view(st)) is Some,
        r matches Some(p) ==> (spec_member(cs@, i as int, fields_view(st)) matches Some(q)
            && fields_view(p.0) == q.0 && p.1 as int == q.1 && p.1 <= cs@.len()),
{
    let (key, j) = match parse_string_at(cs, i) {
        Some(p) => p,
        None => {
            return None;
        },
    };
    let k = skip_ws(cs, j);
    if k >= cs.len() {
        return None;
    }
    if cs[k] != ':' {
        return None;
    }
    let v = skip_ws(cs, k + 1);
    if crate::routes::chars_eq(&key, "title") {
        if st.title.is_some() {
            return None;
        }
        match parse_string_at(cs, v) {
            None => None,
            Some((val, e)) => Some(
                (FieldsAcc { title: Some(string_from_chars(&val)), ..st }, e),
            ),
        }
    } else if crate::routes::chars_eq(&key, "category") {
        if st.category.is_some() {
            return None;
        }
        match parse_string_at(cs, v) {
            None => None,
            Some((val, e)) => Some(
                (FieldsAcc { category: Some(string_from_chars(&val)), ..st }, e),
            ),
        }
    } else if crate::routes::chars_eq(&key, "content") {
        if st.content.is_some() {
            return None;
        }
        match parse_string_at(cs, v) {
            None => None,
            Some((val, e)) => Some(
                (FieldsAcc { content: Some(string_from_chars(&val)), ..st }, e),
            ),
        }
    } else if crate::routes::chars_eq(&key, "hidden") {
        if st.hidden.is_some() {
            return None;
        }
        match parse_bool_at(cs, v) {
            None => None,
            Some((b, e)) => Some((FieldsAcc { hidden: Some(b), ..st }, e)),
        }
    } else {
        None
    }
}

/// Read the members of the request object from position `i`.
fn parse_members(cs: &Vec<char>, i: usize, st: FieldsAcc, fuel: u8) -> (r: Option<
    (FieldsAcc, usize),
>)
    requires
        i <= cs@.len(),
    ensures
        r is Some <==> spec_members(cs@, i as int, fields_view(st), fuel as nat) is Some,
        r matches Some(p) ==> (spec_members(cs@, i as int, fields_view(st), fuel as nat) matches
            Some(q) && fields_view(p.0) == q.0 && p.1 as int == q.1 && p.1 <= cs@.len()),
    decreases fuel,
{
    if fuel == 0 {
        return None;
    }
    let w = skip_ws(cs, i);
    let (st2, j) = match parse_member(cs, w, st) {
        Some(p) => p,
        None => {
            return None;
        },
    };
    let k = skip_ws(cs, j);
    if k < cs.len() && cs[k] == ',' {
        parse_members(cs, k + 1, st2, fuel - 1)
    } else if k < cs.len() && cs[k] == '}' {
        Some((st2, k + 1))
    } else {
        None
    }
}

/// Parse a request body as a creation request.
pub fn parse_input_post(body: &str) -> (r: Option<InputPost>)
    ensures
        r is Some <==> spec_parse_input_post(body@) is Some,
        r matches Some(p) ==> Some(input_post_view(p)) == spec_parse_input_post(body@),
{
    let cs = chars_of(body);
    let i = skip_ws(&cs, 0);
    if i >= cs.len() {
        return None;
    }
    if cs[i] != '{' {
        return None;
    }
    let st0 = FieldsAcc { title: None, category: None, content: None, hidden: None };
    proof {
        assert(fields_view(st0) == fields_empty());
    }
    let (st, j) = match parse_members(&cs, i + 1, st0, 5) {
        Some(p) => p,
        None => {
            return None;
        },
    };
    if skip_ws(&cs, j) != cs.len() {
        return None;
    }
    match (st.title, st.category, st.content, st.hidden) {
        (Some(t), Some(c), Some(x), Some(h)) => Some(
            InputPost { title: t, category: c, content: x, hidden: h },
        ),
        _ => None,
    }
}

} // verus!
