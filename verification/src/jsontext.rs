//! Compact JSON text for the outbound request bodies. The gateway only ever
//! sends flat objects whose values are null, booleans, integers or strings,
//! so that is what this module renders, with full string escaping.

use vstd::prelude::*;
use crate::chars::push_char_from;
use crate::num::dec_int;
use crate::num::i64_dec_string;

verus! {

/// A JSON value as the outbound request bodies use it.
pub enum JVal {
    Null,
    Bool(bool),
    Num(i64),
    Text(String),
}

/// The mathematical shape of a `JVal`.
pub enum JValV {
    Null,
    Bool(bool),
    Num(int),
    Text(Seq<char>),
}

impl View for JVal {
    type V = JValV;

    open spec fn view(&self) -> JValV {
        match self {
            JVal::Null => JValV::Null,
            JVal::Bool(b) => JValV::Bool(*b),
            JVal::Num(n) => JValV::Num(*n as int),
            JVal::Text(s) => JValV::Text(s@),
        }
    }
}

pub open spec fn hex_char(d: int) -> char {
    if d == 0 { '0' }
    else if d == 1 { '1' }
    else if d == 2 { '2' }
    else if d == 3 { '3' }
    else if d == 4 { '4' }
    else if d == 5 { '5' }
    else if d == 6 { '6' }
    else if d == 7 { '7' }
    else if d == 8 { '8' }
    else if d == 9 { '9' }
    else if d == 10 { 'a' }
    else if d == 11 { 'b' }
    else if d == 12 { 'c' }
    else if d == 13 { 'd' }
    else if d == 14 { 'e' }
    else { 'f' }
}

/// How one character appears inside a JSON string literal: quotes and
/// backslashes get a backslash escape, control characters a `\u00XX`
/// escape, and every other character stands for itself.
pub open spec fn json_escape_char(c: char) -> Seq<char> {
    if c == '"' {
        seq!['\\', '"']
    } else if c == '\\' {
        seq!['\\', '\\']
    } else if (c as int) < 32 {
        seq!['\\', 'u', '0', '0', hex_char(c as int / 16), hex_char(c as int % 16)]
    } else {
        seq![c]
    }
}

pub open spec fn json_escape(s: Seq<char>) -> Seq<char>
    decreases s.len(),
{
    if s.len() == 0 {
        Seq::empty()
    } else {
        json_escape(s.drop_last()) + json_escape_char(s.last())
    }
}

/// A JSON string literal: the escaped text between double quotes.
pub open spec fn json_string(s: Seq<char>) -> Seq<char> {
    seq!['"'] + json_escape(s) + seq!['"']
}

pub open spec fn render_jval(v: JValV) -> Seq<char> {
    match v {
        JValV::Null => seq!['n', 'u', 'l', 'l'],
        JValV::Bool(b) => if b {
            seq!['t', 'r', 'u', 'e']
        } else {
            seq!['f', 'a', 'l', 's', 'e']
        },
        JValV::Num(n) => dec_int(n),
        JValV::Text(s) => json_string(s),
    }
}

pub open spec fn render_field(f: (Seq<char>, JValV)) -> Seq<char> {
    json_string(f.0) + seq![':'] + render_jval(f.1)
}

/// The comma-separated field list of an object body.
pub open spec fn render_fields(fs: Seq<(Seq<char>, JValV)>) -> Seq<char>
    decreases fs.len(),
{
    if fs.len() == 0 {
        Seq::empty()
    } else if fs.len() == 1 {
        render_field(fs[0])
    } else {
        render_fields(fs.drop_last()) + seq![','] + render_field(fs.last())
    }
}

/// A whole compact JSON object.
pub open spec fn render_object(fs: Seq<(Seq<char>, JValV)>) -> Seq<char> {
    seq!['{'] + render_fields(fs) + seq!['}']
}

pub open spec fn fields_view(fs: Seq<(String, JVal)>) -> Seq<(Seq<char>, JValV)> {
    fs.map_values(|f: (String, JVal)| (f.0@, f.1@))
}

fn hex_str(d: u32) -> (r: &'static str)
    requires
        d < 16,
    ensures
        r@ =~= seq![hex_char(d as int)],
{
    proof {
        reveal_strlit("0");
        reveal_strlit("1");
        reveal_strlit("2");
        reveal_strlit("3");
        reveal_strlit("4");
        reveal_strlit("5");
        reveal_strlit("6");
        reveal_strlit("7");
        reveal_strlit("8");
        reveal_strlit("9");
        reveal_strlit("a");
        reveal_strlit("b");
        reveal_strlit("c");
        reveal_strlit("d");
        reveal_strlit("e");
        reveal_strlit("f");
    }
    if d == 0 { "0" }
    else if d == 1 { "1" }
    else if d == 2 { "2" }
    else if d == 3 { "3" }
    else if d == 4 { "4" }
    else if d == 5 { "5" }
    else if d == 6 { "6" }
    else if d == 7 { "7" }
    else if d == 8 { "8" }
    else if d == 9 { "9" }
    else if d == 10 { "a" }
    else if d == 11 { "b" }
    else if d == 12 { "c" }
    else if d == 13 { "d" }
    else if d == 14 { "e" }
    else { "f" }
}

fn append_json_escaped(out: &mut String, s: &str)
    ensures
        final(out)@ == old(out)@ + json_escape(s@),
{
    let len = s.unicode_len();
    let mut i: usize = 0;
    while i < len
        invariant
            len == s@.len(),
            i <= len,
            out@ == old(out)@ + json_escape(s@.subrange(0, i as int)),
        decreases len - i,
    {
        let c = s.get_char(i);
        let cu = c as u32;
        proof {
            let p = s@.subrange(0, i as int);
            let q = s@.subrange(0, i + 1);
            assert(q.drop_last() =~= p);
            assert(q.last() == s@[i as int]);
            assert(json_escape(q) == json_escape(p) + json_escape_char(s@[i as int]));
        }
        if c == '"' {
            proof {
                reveal_strlit("\\\"");
            }
            out.append("\\\"");
            assert("\\\""@ =~= seq!['\\', '"']);
        } else if c == '\\' {
            proof {
                reveal_strlit("\\\\");
            }
            out.append("\\\\");
            assert("\\\\"@ =~= seq!['\\', '\\']);
        } else if cu < 32 {
            proof {
                reveal_strlit("\\u00");
            }
            out.append("\\u00");
            out.append(hex_str(cu / 16));
            out.append(hex_str(cu % 16));
            assert("\\u00"@ =~= seq!['\\', 'u', '0', '0']);
            assert(out@ =~= old(out)@ + json_escape(s@.subrange(0, i + 1)));
        } else {
            push_char_from(out, s, i);
        }
        assert(out@ =~= old(out)@ + json_escape(s@.subrange(0, i + 1)));
        i += 1;
    }
    assert(s@.subrange(0, len as int) =~= s@);
}

/// Appends a quoted, escaped JSON string literal for `s`.
fn append_json_string(out: &mut String, s: &str)
    ensures
        final(out)@ == old(out)@ + json_string(s@),
{
    proof {
        reveal_strlit("\"");
    }
    out.append("\"");
    assert("\""@ =~= seq!['"']);
    append_json_escaped(out, s);
    out.append("\"");
    assert(out@ =~= old(out)@ + json_string(s@));
}

/// Renders one JSON value as compact text.
pub fn jval_text(v: &JVal) -> (r: String)
    ensures
        r@ == render_jval(v@),
{
    match v {
        JVal::Null => {
            proof {
                reveal_strlit("null");
            }
            let r = String::from_str("null");
            assert(r@ =~= seq!['n', 'u', 'l', 'l']);
            r
        },
        JVal::Bool(b) => {
            if *b {
                proof {
                    reveal_strlit("true");
                }
                let r = String::from_str("true");
                assert(r@ =~= seq!['t', 'r', 'u', 'e']);
                r
            } else {
                proof {
                    reveal_strlit("false");
                }
                let r = String::from_str("false");
                assert(r@ =~= seq!['f', 'a', 'l', 's', 'e']);
                r
            }
        },
        JVal::Num(n) => i64_dec_string(*n),
        JVal::Text(s) => {
            let mut out = String::new();
            append_json_string(&mut out, s.as_str());
            assert(out@ =~= json_string(s@));
            out
        },
    }
}

/// Renders a whole object body as compact JSON text, fields in the order
/// given.
pub fn object_text(fields: &Vec<(String, JVal)>) -> (r: String)
    ensures
        r@ == render_object(fields_view(fields@)),
{
    let ghost fv = fields_view(fields@);
    let mut out = String::new();
    proof {
        reveal_strlit("{");
        reveal_strlit("}");
        reveal_strlit(",");
        reveal_strlit(":");
    }
    out.append("{");
    assert(out@ =~= seq!['{'] + render_fields(fv.subrange(0, 0)));
    let mut i: usize = 0;
    while i < fields.len()
        invariant
            i <= fields.len(),
            fv == fields_view(fields@),
            fv.len() == fields.len(),
            out@ == seq!['{'] + render_fields(fv.subrange(0, i as int)),
        decreases fields.len() - i,
    {
        proof {
            reveal_strlit(",");
            reveal_strlit(":");
            assert(fv[i as int] == (fields@[i as int].0@, fields@[i as int].1@));
            let q = fv.subrange(0, i + 1);
            assert(q.drop_last() =~= fv.subrange(0, i as int));
            assert(q.last() == fv[i as int]);
        }
        if i > 0 {
            out.append(",");
            assert(","@ =~= seq![',']);
        }
        let pair = &fields[i];
        append_json_string(&mut out, pair.0.as_str());
        out.append(":");
        assert(":"@ =~= seq![':']);
        let vt = jval_text(&pair.1);
        out.append(vt.as_str());
        proof {
            let q = fv.subrange(0, i + 1);
            if i == 0 {
                assert(render_fields(q) == render_field(fv[0]));
                assert(out@ =~= seq!['{'] + render_fields(q));
            } else {
                assert(render_fields(q) == render_fields(fv.subrange(0, i as int)) + seq![',']
                    + render_field(fv[i as int]));
                assert(out@ =~= seq!['{'] + render_fields(q));
            }
        }
        i += 1;
    }
    assert(fv.subrange(0, fields.len() as int) =~= fv);
    out.append("}");
    assert(out@ =~= render_object(fv));
    out
}

} // verus!
