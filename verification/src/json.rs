//! A self-contained model of JSON documents.
//!
//! `JsonValue` is the executable representation; `JsonData` is its
//! mathematical abstraction (strings become `Seq<char>`, integers become
//! `int`). All contracts in this crate speak about `JsonData`.
//!
//! Numbers are split in two: integers are held exactly as `i64`, while any
//! other JSON number is carried as its literal text (`NumText`), so a value
//! can round-trip through the dispatcher without a binary float type.

use vstd::prelude::*;
use vstd::string::*;

verus! {

broadcast use vstd::std_specs::vec::group_vec_axioms;

/// Mathematical model of a JSON document.
#[verifier::ext_equal]
pub enum JsonData {
    Null,
    Bool(bool),
    Int(int),
    NumText(Seq<char>),
    Str(Seq<char>),
    Arr(Seq<JsonData>),
    Obj(Seq<(Seq<char>, JsonData)>),
}

/// Executable JSON document.
///
/// Object members keep their insertion order; duplicate keys are allowed by
/// the representation and the first occurrence wins on lookup. A `NumText`
/// holds a number's literal text verbatim; whoever constructs one is
/// responsible for it being a valid JSON number, as a decoder produces.
#[derive(Debug, PartialEq, Eq)]
pub enum JsonValue {
    Null,
    Bool(bool),
    Int(i64),
    NumText(String),
    Str(String),
    Array(Vec<JsonValue>),
    Object(Vec<(String, JsonValue)>),
}

/// The abstraction of one executable JSON value.
pub open spec fn jd(v: JsonValue) -> JsonData
    decreases v,
{
    match v {
        JsonValue::Null => JsonData::Null,
        JsonValue::Bool(b) => JsonData::Bool(b),
        JsonValue::Int(i) => JsonData::Int(i as int),
        JsonValue::NumText(s) => JsonData::NumText(s@),
        JsonValue::Str(s) => JsonData::Str(s@),
        JsonValue::Array(elems) => JsonData::Arr(jd_seq(elems@)),
        JsonValue::Object(members) => JsonData::Obj(jd_members(members@)),
    }
}

/// The abstraction of a sequence of executable JSON values.
pub open spec fn jd_seq(s: Seq<JsonValue>) -> Seq<JsonData>
    decreases s,
{
    if s.len() == 0 {
        Seq::empty()
    } else {
        jd_seq(s.drop_last()).push(jd(s.last()))
    }
}

/// The abstraction of a sequence of object members.
pub open spec fn jd_members(s: Seq<(String, JsonValue)>) -> Seq<(Seq<char>, JsonData)>
    decreases s,
{
    if s.len() == 0 {
        Seq::empty()
    } else {
        jd_members(s.drop_last()).push((s.last().0@, jd(s.last().1)))
    }
}

impl View for JsonValue {
    type V = JsonData;

    open spec fn view(&self) -> JsonData {
        jd(*self)
    }
}

impl DeepView for JsonValue {
    type V = JsonData;

    open spec fn deep_view(&self) -> JsonData {
        jd(*self)
    }
}

impl Clone for JsonValue {
    /// A clone has the same abstraction as the original.
    #[verifier::loop_isolation(false)]
    fn clone(&self) -> (r: Self)
        ensures
            r@ == self@,
        decreases *self,
    {
        match self {
            JsonValue::Null => JsonValue::Null,
            JsonValue::Bool(b) => JsonValue::Bool(*b),
            JsonValue::Int(i) => JsonValue::Int(*i),
            JsonValue::NumText(s) => JsonValue::NumText(s.clone()),
            JsonValue::Str(s) => JsonValue::Str(s.clone()),
            JsonValue::Array(elems) => {
                let mut out: Vec<JsonValue> = Vec::new();
                let n = elems.len();
                for i in 0..n
                    invariant
                        n == elems.len(),
                        out.len() == i,
                        forall|k: int| 0 <= k < i ==> jd(#[trigger] out[k]) == jd(elems[k]),
                    decreases n - i,
                {
                    out.push(elems[i].clone());
                }
                proof {
                    lemma_jd_seq_ext(out@, elems@);
                }
                JsonValue::Array(out)
            },
            JsonValue::Object(members) => {
                let mut out: Vec<(String, JsonValue)> = Vec::new();
                let n = members.len();
                for i in 0..n
                    invariant
                        n == members.len(),
                        out.len() == i,
                        forall|k: int| 0 <= k < i ==> (#[trigger] out[k]).0@ == members[k].0@
                            && jd(out[k].1) == jd(members[k].1),
                    decreases n - i,
                {
                    let pair = &members[i];
                    out.push((pair.0.clone(), pair.1.clone()));
                }
                proof {
                    lemma_jd_members_ext(out@, members@);
                }
                JsonValue::Object(out)
            },
        }
    }
}

/// Two value sequences with pointwise-equal abstractions abstract equally.
pub proof fn lemma_jd_seq_ext(a: Seq<JsonValue>, b: Seq<JsonValue>)
    requires
        a.len() == b.len(),
        forall|k: int| 0 <= k < a.len() ==> jd(#[trigger] a[k]) == jd(b[k]),
    ensures
        jd_seq(a) == jd_seq(b),
    decreases a,
{
    if a.len() > 0 {
        lemma_jd_seq_ext(a.drop_last(), b.drop_last());
        assert(jd_seq(a) =~= jd_seq(b));
    } else {
        assert(jd_seq(a) =~= jd_seq(b));
    }
}

/// Two member sequences with pointwise-equal keys and abstractions abstract equally.
pub proof fn lemma_jd_members_ext(a: Seq<(String, JsonValue)>, b: Seq<(String, JsonValue)>)
    requires
        a.len() == b.len(),
        forall|k: int| 0 <= k < a.len() ==> (#[trigger] a[k]).0@ == b[k].0@
            && jd(a[k].1) == jd(b[k].1),
    ensures
        jd_members(a) == jd_members(b),
    decreases a,
{
    if a.len() > 0 {
        lemma_jd_members_ext(a.drop_last(), b.drop_last());
        assert(jd_members(a) =~= jd_members(b));
    } else {
        assert(jd_members(a) =~= jd_members(b));
    }
}

/// Character-wise string equality: `true` exactly when the views agree.
pub fn str_eq(a: &str, b: &str) -> (r: bool)
    ensures
        r == (a@ == b@),
{
    let n = a.unicode_len();
    if n != b.unicode_len() {
        return false;
    }
    for i in 0..n
        invariant
            n == a@.len(),
            n == b@.len(),
            forall|k: int| 0 <= k < i ==> a@[k] == b@[k],
        decreases n - i,
    {
        if a.get_char(i) != b.get_char(i) {
            return false;
        }
    }
    proof {
        assert(a@ =~= b@);
    }
    true
}

/// Relies on `String::push`: appends exactly one character to the string.
#[verifier::external_body]
pub fn push_char(out: &mut String, c: char)
    ensures
        final(out)@ == old(out)@ + seq![c],
{
    out.push(c);
}

/// The character for one decimal digit.
pub open spec fn digit_char(d: int) -> char {
    if d == 0 {
        '0'
    } else if d == 1 {
        '1'
    } else if d == 2 {
        '2'
    } else if d == 3 {
        '3'
    } else if d == 4 {
        '4'
    } else if d == 5 {
        '5'
    } else if d == 6 {
        '6'
    } else if d == 7 {
        '7'
    } else if d == 8 {
        '8'
    } else {
        '9'
    }
}

/// The character for one hexadecimal digit, lower case.
pub open spec fn hex_char(d: int) -> char {
    if d < 10 {
        digit_char(d)
    } else if d == 10 {
        'a'
    } else if d == 11 {
        'b'
    } else if d == 12 {
        'c'
    } else if d == 13 {
        'd'
    } else if d == 14 {
        'e'
    } else {
        'f'
    }
}

/// Decimal text of a non-negative integer, most significant digit first.
pub open spec fn dec_digits(n: int) -> Seq<char>
    decreases n,
{
    if n <= 9 {
        seq![digit_char(n)]
    } else {
        dec_digits(n / 10).push(digit_char(n % 10))
    }
}

/// Decimal text of an integer, with a leading minus sign when negative.
pub open spec fn int_text(n: int) -> Seq<char> {
    if n < 0 {
        seq!['-'] + dec_digits(-n)
    } else {
        dec_digits(n)
    }
}

fn digit_str(d: u64) -> (r: &'static str)
    requires
        d < 10,
    ensures
        r@ == seq![digit_char(d as int)],
{
    let r: &'static str = match d {
        0 => "0",
        1 => "1",
        2 => "2",
        3 => "3",
        4 => "4",
        5 => "5",
        6 => "6",
        7 => "7",
        8 => "8",
        _ => "9",
    };
    proof {
        reveal_strlit("0");
        reveal_strlit("1");
        reveal_strlit("2");
        reveal_strlit("3");
        reveal_strlit("4");
        reveal_strlit("5");
        reveal_strlit("6");
        reveal_strlit("7");
        reveal_strlit("8");
        reveal_strlit("9");
        assert(r@ =~= seq![digit_char(d as int)]);
    }
    r
}

fn hex_str(d: u32) -> (r: &'static str)
    requires
        d < 16,
    ensures
        r@ == seq![hex_char(d as int)],
{
    let r: &'static str = match d {
        0 => "0",
        1 => "1",
        2 => "2",
        3 => "3",
        4 => "4",
        5 => "5",
        6 => "6",
        7 => "7",
        8 => "8",
        9 => "9",
        10 => "a",
        11 => "b",
        12 => "c",
        13 => "d",
        14 => "e",
        _ => "f",
    };
    proof {
        reveal_strlit("0");
        reveal_strlit("1");
        reveal_strlit("2");
        reveal_strlit("3");
        reveal_strlit("4");
        reveal_strlit("5");
        reveal_strlit("6");
        reveal_strlit("7");
        reveal_strlit("8");
        reveal_strlit("9");
        reveal_strlit("a");
        reveal_strlit("b");
        reveal_strlit("c");
        reveal_strlit("d");
        reveal_strlit("e");
        reveal_strlit("f");
        assert(r@ =~= seq![hex_char(d as int)]);
    }
    r
}

/// Writes the decimal digits of `n` onto `out`.
fn write_u64(n: u64, out: &mut String)
    ensures
        final(out)@ == old(out)@ + dec_digits(n as int),
    decreases n,
{
    if n >= 10 {
        write_u64(n / 10, out);
    }
    out.append(digit_str(n % 10));
    proof {
        assert(final(out)@ =~= old(out)@ + dec_digits(n as int));
    }
}

/// Writes the decimal text of `n` onto `out`, minus sign included.
fn write_i64(n: i64, out: &mut String)
    ensures
        final(out)@ == old(out)@ + int_text(n as int),
{
    if n < 0 {
        out.append("-");
        let magnitude: u64 = if n == i64::MIN {
            9223372036854775808u64
        } else {
            (-n) as u64
        };
        write_u64(magnitude, out);
        proof {
            reveal_strlit("-");
            assert(final(out)@ =~= old(out)@ + int_text(n as int));
        }
    } else {
        write_u64(n as u64, out);
    }
}

/// The escape sequence one character contributes inside a JSON string
/// literal: the named short escapes, `\u00..` for the other control
/// characters, and the character itself for everything else.
pub open spec fn esc_char(c: char) -> Seq<char> {
    if c == '"' {
        seq!['\\', '"']
    } else if c == '\\' {
        seq!['\\', '\\']
    } else if c == '\u{8}' {
        seq!['\\', 'b']
    } else if c == '\u{9}' {
        seq!['\\', 't']
    } else if c == '\u{a}' {
        seq!['\\', 'n']
    } else if c == '\u{c}' {
        seq!['\\', 'f']
    } else if c == '\u{d}' {
        seq!['\\', 'r']
    } else if (c as u32) < 32 {
        seq!['\\', 'u', '0', '0', hex_char((c as u32) as int / 16), hex_char((c as u32) as int % 16)]
    } else {
        seq![c]
    }
}

/// The body of a JSON string literal: every character escaped in turn.
pub open spec fn esc_text(s: Seq<char>) -> Seq<char>
    decreases s,
{
    if s.len() == 0 {
        Seq::empty()
    } else {
        esc_text(s.drop_last()) + esc_char(s.last())
    }
}

/// A complete JSON string literal, quotes included.
pub open spec fn str_text(s: Seq<char>) -> Seq<char> {
    seq!['"'] + esc_text(s) + seq!['"']
}

/// The compact (no whitespace) JSON text of a document.
pub open spec fn json_text(d: JsonData) -> Seq<char>
    decreases d, 0int,
{
    match d {
        JsonData::Null => "null"@,
        JsonData::Bool(b) => if b {
            "true"@
        } else {
            "false"@
        },
        JsonData::Int(i) => int_text(i),
        JsonData::NumText(s) => s,
        JsonData::Str(s) => str_text(s),
        JsonData::Arr(s) => seq!['['] + arr_items_text(s) + seq![']'],
        JsonData::Obj(m) => seq!['{'] + obj_members_text(m) + seq!['}'],
    }
}

/// The comma-separated texts of the elements of a JSON array.
pub open spec fn arr_items_text(s: Seq<JsonData>) -> Seq<char>
    decreases s, 1int,
{
    if s.len() == 0 {
        Seq::empty()
    } else if s.len() == 1 {
        json_text(s[0])
    } else {
        arr_items_text(s.drop_last()) + seq![','] + json_text(s.last())
    }
}

/// The text of one object member: quoted key, colon, value.
pub open spec fn member_text(kv: (Seq<char>, JsonData)) -> Seq<char>
    decreases kv, 1int,
{
    str_text(kv.0) + seq![':'] + json_text(kv.1)
}

/// The comma-separated texts of the members of a JSON object.
pub open spec fn obj_members_text(m: Seq<(Seq<char>, JsonData)>) -> Seq<char>
    decreases m, 2int,
{
    if m.len() == 0 {
        Seq::empty()
    } else if m.len() == 1 {
        member_text(m[0])
    } else {
        obj_members_text(m.drop_last()) + seq![','] + member_text(m.last())
    }
}

/// Writes the escaped body of a JSON string literal (no quotes) onto `out`.
#[verifier::loop_isolation(false)]
fn write_escaped(s: &str, out: &mut String)
    ensures
        final(out)@ == old(out)@ + esc_text(s@),
{
    let n = s.unicode_len();
    for i in 0..n
        invariant
            n == s@.len(),
            out@ == old(out)@ + esc_text(s@.take(i as int)),
        decreases n - i,
    {
        let c = s.get_char(i);
        if c == '"' {
            out.append("\\\"");
            proof {
                reveal_strlit("\\\"");
            }
        } else if c == '\\' {
            out.append("\\\\");
            proof {
                reveal_strlit("\\\\");
            }
        } else if c == '\u{8}' {
            out.append("\\b");
            proof {
                reveal_strlit("\\b");
            }
        } else if c == '\u{9}' {
            out.append("\\t");
            proof {
                reveal_strlit("\\t");
            }
        } else if c == '\u{a}' {
            out.append("\\n");
            proof {
                reveal_strlit("\\n");
            }
        } else if c == '\u{c}' {
            out.append("\\f");
            proof {
                reveal_strlit("\\f");
            }
        } else if c == '\u{d}' {
            out.append("\\r");
            proof {
                reveal_strlit("\\r");
            }
        } else if (c as u32) < 32 {
            out.append("\\u00");
            out.append(hex_str((c as u32) / 16));
            out.append(hex_str((c as u32) % 16));
            proof {
                reveal_strlit("\\u00");
            }
        } else {
            push_char(out, c);
        }
        proof {
            assert(s@.take(i + 1).drop_last() =~= s@.take(i as int));
            assert(s@.take(i + 1).last() == s@[i as int]);
            assert(out@ =~= old(out)@ + esc_text(s@.take(i + 1)));
        }
    }
    proof {
        assert(s@.take(n as int) =~= s@);
    }
}

/// Writes a complete JSON string literal for `s` onto `out`.
fn write_string_literal(s: &str, out: &mut String)
    ensures
        final(out)@ == old(out)@ + str_text(s@),
{
    out.append("\"");
    write_escaped(s, out);
    out.append("\"");
    proof {
        reveal_strlit("\"");
        assert(final(out)@ =~= old(out)@ + str_text(s@));
    }
}

/// One step of the array-items text: appending element `i` extends the text
/// by a comma (after the first element) and that element's text.
proof fn lemma_arr_step(t: Seq<JsonData>, i: int)
    requires
        0 <= i < t.len(),
    ensures
        arr_items_text(t.take(i + 1)) == if i == 0 {
            json_text(t[0])
        } else {
            arr_items_text(t.take(i)) + seq![','] + json_text(t[i])
        },
{
    assert(t.take(i + 1).drop_last() =~= t.take(i));
    assert(t.take(i + 1).last() == t[i]);
    assert(t.take(1)[0] == t[0]);
}

/// One step of the object-members text, in the same shape.
proof fn lemma_obj_step(t: Seq<(Seq<char>, JsonData)>, i: int)
    requires
        0 <= i < t.len(),
    ensures
        obj_members_text(t.take(i + 1)) == if i == 0 {
            member_text(t[0])
        } else {
            obj_members_text(t.take(i)) + seq![','] + member_text(t[i])
        },
{
    assert(t.take(i + 1).drop_last() =~= t.take(i));
    assert(t.take(i + 1).last() == t[i]);
    assert(t.take(1)[0] == t[0]);
}

/// Writes the compact JSON text of `v` onto `out`.
#[verifier::loop_isolation(false)]
#[verifier::rlimit(50)]
pub fn write_json(v: &JsonValue, out: &mut String)
    ensures
        final(out)@ == old(out)@ + json_text(v@),
    decreases *v,
{
    match v {
        JsonValue::Null => {
            out.append("null");
        },
        JsonValue::Bool(b) => {
            if *b {
                out.append("true");
            } else {
                out.append("false");
            }
        },
        JsonValue::Int(i) => {
            write_i64(*i, out);
        },
        JsonValue::NumText(s) => {
            out.append(s.as_str());
        },
        JsonValue::Str(s) => {
            write_string_literal(s.as_str(), out);
        },
        JsonValue::Array(elems) => {
            out.append("[");
            let n = elems.len();
            proof {
                reveal_strlit("[");
                assert(jd_seq(elems@).take(0) =~= Seq::<JsonData>::empty());
                assert(out@ =~= old(out)@ + seq!['['] + arr_items_text(jd_seq(elems@).take(0)));
            }
            for i in 0..n
                invariant
                    n == elems.len(),
                    out@ == old(out)@ + seq!['['] + arr_items_text(jd_seq(elems@).take(i as int)),
                decreases n - i,
            {
                if i > 0 {
                    out.append(",");
                    proof {
                        reveal_strlit(",");
                    }
                }
                write_json(&elems[i], out);
                proof {
                    lemma_jd_seq_index(elems@, i as int);
                    lemma_arr_step(jd_seq(elems@), i as int);
                    assert(out@ =~= old(out)@ + seq!['['] + arr_items_text(
                        jd_seq(elems@).take(i + 1),
                    ));
                }
            }
            out.append("]");
            proof {
                lemma_jd_seq_len(elems@);
                assert(jd_seq(elems@).take(n as int) =~= jd_seq(elems@));
                reveal_strlit("[");
                reveal_strlit("]");
                assert(final(out)@ =~= old(out)@ + json_text(v@));
            }
        },
        JsonValue::Object(members) => {
            out.append("{");
            let n = members.len();
            proof {
                reveal_strlit("{");
                assert(jd_members(members@).take(0) =~= Seq::<(Seq<char>, JsonData)>::empty());
                assert(out@ =~= old(out)@ + seq!['{'] + obj_members_text(
                    jd_members(members@).take(0),
                ));
            }
            for i in 0..n
                invariant
                    n == members.len(),
                    out@ == old(out)@ + seq!['{'] + obj_members_text(
                        jd_members(members@).take(i as int),
                    ),
                decreases n - i,
            {
                if i > 0 {
                    out.append(",");
                    proof {
                        reveal_strlit(",");
                    }
                }
                let pair = &members[i];
                write_string_literal(pair.0.as_str(), out);
                out.append(":");
                write_json(&pair.1, out);
                proof {
                    reveal_strlit(":");
                    lemma_jd_members_index(members@, i as int);
                    lemma_obj_step(jd_members(members@), i as int);
                    assert(out@ =~= old(out)@ + seq!['{'] + obj_members_text(
                        jd_members(members@).take(i + 1),
                    ));
                }
            }
            out.append("}");
            proof {
                lemma_jd_members_len(members@);
                assert(jd_members(members@).take(n as int) =~= jd_members(members@));
                reveal_strlit("{");
                reveal_strlit("}");
                assert(final(out)@ =~= old(out)@ + json_text(v@));
            }
        },
    }
    proof {
        reveal_strlit("null");
        reveal_strlit("true");
        reveal_strlit("false");
    }
}

/// The compact JSON text of `v` as a fresh string.
pub fn to_text(v: &JsonValue) -> (r: String)
    ensures
        r@ == json_text(v@),
{
    let mut out = String::new();
    write_json(v, &mut out);
    proof {
        assert(out@ =~= json_text(v@));
    }
    out
}

/// Copies an object-member list; the copy abstracts identically.
pub fn clone_members(members: &Vec<(String, JsonValue)>) -> (r: Vec<(String, JsonValue)>)
    ensures
        jd_members(r@) == jd_members(members@),
{
    let mut out: Vec<(String, JsonValue)> = Vec::new();
    let n = members.len();
    for i in 0..n
        invariant
            n == members.len(),
            out.len() == i,
            forall|k: int| 0 <= k < i ==> (#[trigger] out[k]).0@ == members[k].0@
                && jd(out[k].1) == jd(members[k].1),
        decreases n - i,
    {
        let pair = &members[i];
        out.push((pair.0.clone(), pair.1.clone()));
    }
    proof {
        lemma_jd_members_ext(out@, members@);
    }
    out
}

/// Whether `needle` occurs as a contiguous run of characters in `s`.
pub open spec fn has_substring(s: Seq<char>, needle: Seq<char>) -> bool {
    exists|k: int|
        0 <= k && k + needle.len() <= s.len() && #[trigger] s.subrange(k, k + needle.len() as int)
            == needle
}

/// Whether the characters of `needle` stand in `s` at offset `k`.
fn match_at(s: &str, k: usize, needle: &str, n: Ghost<int>, m: Ghost<int>) -> (r: bool)
    requires
        n@ == s@.len(),
        m@ == needle@.len(),
        k + m@ <= n@,
        n@ <= usize::MAX,
    ensures
        r == (s@.subrange(k as int, k as int + needle@.len() as int) == needle@),
{
    let m_exec = needle.unicode_len();
    for i in 0..m_exec
        invariant
            m_exec == needle@.len(),
            n@ == s@.len(),
            k + m_exec <= n@,
            n@ <= usize::MAX,
            forall|j: int| 0 <= j < i ==> s@[k + j] == needle@[j],
        decreases m_exec - i,
    {
        if s.get_char(k + i) != needle.get_char(i) {
            proof {
                assert(s@.subrange(k as int, k as int + needle@.len() as int)[i as int] == s@[k
                    + i]);
            }
            return false;
        }
    }
    proof {
        assert(s@.subrange(k as int, k as int + needle@.len() as int) =~= needle@);
    }
    true
}

/// Substring search: `true` exactly when `needle` occurs in `s`.
pub fn str_contains(s: &str, needle: &str) -> (r: bool)
    ensures
        r == has_substring(s@, needle@),
{
    let n = s.unicode_len();
    let m = needle.unicode_len();
    if m > n {
        return false;
    }
    let mut k: usize = 0;
    loop
        invariant
            m <= n,
            n == s@.len(),
            m == needle@.len(),
            k <= n - m,
            forall|j: int|
                0 <= j < k ==> #[trigger] s@.subrange(j, j + needle@.len() as int) != needle@,
        decreases n - m - k,
    {
        if match_at(s, k, needle, Ghost(n as int), Ghost(m as int)) {
            return true;
        }
        if k == n - m {
            proof {
                assert(forall|j: int|
                    0 <= j <= n - m ==> #[trigger] s@.subrange(j, j + needle@.len() as int)
                        != needle@);
            }
            return false;
        }
        k = k + 1;
    }
}

/// Prefix test: `true` exactly when `s` begins with the characters of `p`.
pub fn str_starts_with(s: &str, p: &str) -> (r: bool)
    ensures
        r == (s@.len() >= p@.len() && s@.take(p@.len() as int) == p@),
{
    let n = s.unicode_len();
    let m = p.unicode_len();
    if m > n {
        return false;
    }
    let r = match_at(s, 0, p, Ghost(n as int), Ghost(m as int));
    proof {
        assert(s@.subrange(0, p@.len() as int) == s@.take(p@.len() as int));
    }
    r
}

/// The characters of `s` after the prefix `p`, or `None` when `s` does not
/// begin with `p`.
pub fn str_strip_prefix(s: &str, p: &str) -> (r: Option<String>)
    ensures
        match r {
            Some(rest) => s@.len() >= p@.len() && s@.take(p@.len() as int) == p@ && rest@
                == s@.skip(p@.len() as int),
            None => !(s@.len() >= p@.len() && s@.take(p@.len() as int) == p@),
        },
{
    if str_starts_with(s, p) {
        let n = s.unicode_len();
        let m = p.unicode_len();
        let rest = s.substring_char(m, n);
        proof {
            assert(rest@ =~= s@.skip(p@.len() as int));
        }
        Some(rest.to_owned())
    } else {
        None
    }
}

/// First-match lookup among object members.
pub open spec fn obj_lookup(m: Seq<(Seq<char>, JsonData)>, key: Seq<char>) -> Option<JsonData>
    decreases m,
{
    if m.len() == 0 {
        None
    } else if m[0].0 == key {
        Some(m[0].1)
    } else {
        obj_lookup(m.drop_first(), key)
    }
}

/// The field named `key` of an object document; `None` on any other document
/// and when the key is absent.
pub open spec fn json_field(d: JsonData, key: Seq<char>) -> Option<JsonData> {
    match d {
        JsonData::Obj(m) => obj_lookup(m, key),
        _ => None,
    }
}

proof fn lemma_obj_lookup_skip(m: Seq<(Seq<char>, JsonData)>, key: Seq<char>, i: int)
    requires
        0 <= i <= m.len(),
        forall|j: int| 0 <= j < i ==> (#[trigger] m[j]).0 != key,
    ensures
        obj_lookup(m, key) == obj_lookup(m.skip(i), key),
    decreases i,
{
    if i > 0 {
        lemma_obj_lookup_skip(m, key, i - 1);
        assert(m.skip(i - 1).len() > 0);
        assert(m.skip(i - 1)[0] == m[i - 1]);
        assert(m.skip(i - 1).drop_first() =~= m.skip(i));
    } else {
        assert(m.skip(0) =~= m);
    }
}

/// Looks up the first member of `members` whose key reads `key`.
#[verifier::loop_isolation(false)]
pub fn members_get<'a>(members: &'a Vec<(String, JsonValue)>, key: &str) -> (r: Option<
    &'a JsonValue,
>)
    ensures
        match r {
            Some(v) => obj_lookup(jd_members(members@), key@) == Some(v@),
            None => obj_lookup(jd_members(members@), key@) is None,
        },
{
    let n = members.len();
    for i in 0..n
        invariant
            n == members.len(),
            forall|j: int| 0 <= j < i ==> (#[trigger] members@[j]).0@ != key@,
        decreases n - i,
    {
        if str_eq(members[i].0.as_str(), key) {
            proof {
                let t = jd_members(members@);
                lemma_jd_members_len(members@);
                assert forall|j: int| 0 <= j < i implies (#[trigger] t[j]).0 != key@ by {
                    lemma_jd_members_index(members@, j);
                }
                lemma_obj_lookup_skip(t, key@, i as int);
                lemma_jd_members_index(members@, i as int);
                assert(t.skip(i as int)[0] == t[i as int]);
            }
            return Some(&members[i].1);
        }
    }
    proof {
        let t = jd_members(members@);
        assert forall|j: int| 0 <= j < n implies (#[trigger] t[j]).0 != key@ by {
            lemma_jd_members_index(members@, j);
        }
        lemma_jd_members_len(members@);
        lemma_obj_lookup_skip(t, key@, n as int);
        assert(t.skip(n as int) =~= Seq::<(Seq<char>, JsonData)>::empty());
    }
    None
}

/// The field named `key` when `v` is an object; `None` otherwise.
pub fn json_get<'a>(v: &'a JsonValue, key: &str) -> (r: Option<&'a JsonValue>)
    ensures
        match r {
            Some(f) => json_field(v@, key@) == Some(f@),
            None => json_field(v@, key@) is None,
        },
{
    match v {
        JsonValue::Object(members) => members_get(members, key),
        _ => None,
    }
}

pub broadcast proof fn lemma_jd_seq_len(s: Seq<JsonValue>)
    ensures
        (#[trigger] jd_seq(s)).len() == s.len(),
    decreases s,
{
    if s.len() > 0 {
        lemma_jd_seq_len(s.drop_last());
    }
}

pub broadcast proof fn lemma_jd_seq_index(s: Seq<JsonValue>, i: int)
    requires
        0 <= i < s.len(),
    ensures
        jd_seq(s).len() == s.len(),
        #[trigger] jd_seq(s)[i] == jd(s[i]),
    decreases s,
{
    lemma_jd_seq_len(s);
    if s.len() > 0 && i < s.len() - 1 {
        lemma_jd_seq_index(s.drop_last(), i);
    }
}

pub broadcast proof fn lemma_jd_members_len(s: Seq<(String, JsonValue)>)
    ensures
        (#[trigger] jd_members(s)).len() == s.len(),
    decreases s,
{
    if s.len() > 0 {
        lemma_jd_members_len(s.drop_last());
    }
}

pub broadcast proof fn lemma_jd_members_index(s: Seq<(String, JsonValue)>, i: int)
    requires
        0 <= i < s.len(),
    ensures
        jd_members(s).len() == s.len(),
        #[trigger] jd_members(s)[i] == (s[i].0@, jd(s[i].1)),
    decreases s,
{
    lemma_jd_members_len(s);
    if s.len() > 0 && i < s.len() - 1 {
        lemma_jd_members_index(s.drop_last(), i);
    }
}

} // verus!
