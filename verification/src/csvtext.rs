//! CSV text for the two record shapes. A field is quoted when it holds a
//! comma, a double quote or a newline, with embedded quotes doubled; the
//! servers rows additionally rewrite literal newlines in `description` and
//! `version` as the two characters `\n` first, as a defence for consumers
//! that split on raw newlines without honouring quoting.

use vstd::prelude::*;
use crate::chars::push_char_from;
use crate::num::dec_int;
use crate::num::i64_dec_string;
use crate::num::u64_dec_string;
use crate::upstream::ServerRecord;
use crate::upstream::ServerRecordV;
use crate::upstream::WhereisRecord;
use crate::upstream::WhereisRecordV;
use crate::upstream::server_seq_view;
use crate::upstream::whereis_seq_view;

verus! {

pub open spec fn is_csv_special(c: char) -> bool {
    c == ',' || c == '"' || c == '\n'
}

/// Whether a field must be quoted.
pub open spec fn needs_quote(s: Seq<char>) -> bool {
    exists|i: int| 0 <= i < s.len() && is_csv_special(#[trigger] s[i])
}

/// The field text with every double quote doubled.
pub open spec fn double_quotes(s: Seq<char>) -> Seq<char>
    decreases s.len(),
{
    if s.len() == 0 {
        Seq::empty()
    } else {
        double_quotes(s.drop_last()) + (if s.last() == '"' {
            seq!['"', '"']
        } else {
            seq![s.last()]
        })
    }
}

/// One CSV field: quoted and doubled when it holds a special character,
/// the text itself otherwise.
pub open spec fn csv_field(s: Seq<char>) -> Seq<char> {
    if needs_quote(s) {
        seq!['"'] + double_quotes(s) + seq!['"']
    } else {
        s
    }
}

/// Collapses doubled quotes, reading from the right: what a compliant CSV
/// reader does to the inside of a quoted field.
pub open spec fn csv_undouble(s: Seq<char>) -> Seq<char>
    decreases s.len(),
{
    if s.len() == 0 {
        Seq::empty()
    } else if s.len() >= 2 && s.last() == '"' && s[s.len() - 2] == '"' {
        csv_undouble(s.subrange(0, s.len() - 2)) + seq!['"']
    } else {
        csv_undouble(s.drop_last()) + seq![s.last()]
    }
}

proof fn lemma_undouble_double(s: Seq<char>)
    ensures
        csv_undouble(double_quotes(s)) == s,
    decreases s.len(),
{
    if s.len() == 0 {
        assert(csv_undouble(double_quotes(s)) =~= s);
    } else {
        let d = double_quotes(s);
        lemma_undouble_double(s.drop_last());
        if s.last() == '"' {
            assert(d == double_quotes(s.drop_last()) + seq!['"', '"']);
            assert(d.len() >= 2 && d.last() == '"' && d[d.len() - 2] == '"');
            assert(d.subrange(0, d.len() - 2) =~= double_quotes(s.drop_last()));
            assert(csv_undouble(d) =~= s);
        } else {
            assert(d == double_quotes(s.drop_last()) + seq![s.last()]);
            assert(d.last() == s.last());
            assert(d.len() < 2 || d.last() != '"');
            assert(d.drop_last() =~= double_quotes(s.drop_last()));
            assert(csv_undouble(d) =~= s);
        }
    }
}

/// Quoting round-trip: an unquoted field is the text itself, and a quoted
/// field is read back to the original text by stripping the surrounding
/// quotes and collapsing doubled quotes.
pub proof fn lemma_csv_field_round_trip(s: Seq<char>)
    ensures
        !needs_quote(s) ==> csv_field(s) == s,
        needs_quote(s) ==> csv_field(s).len() >= 2,
        needs_quote(s) ==> csv_field(s).first() == '"' && csv_field(s).last() == '"',
        needs_quote(s) ==> csv_undouble(
            csv_field(s).subrange(1, csv_field(s).len() - 1),
        ) == s,
{
    if needs_quote(s) {
        let f = csv_field(s);
        assert(f == seq!['"'] + double_quotes(s) + seq!['"']);
        assert(f.subrange(1, f.len() - 1) =~= double_quotes(s));
        lemma_undouble_double(s);
    }
}

/// The field text with every literal newline rewritten as `\n`.
pub open spec fn nl_escaped(s: Seq<char>) -> Seq<char>
    decreases s.len(),
{
    if s.len() == 0 {
        Seq::empty()
    } else {
        nl_escaped(s.drop_last()) + (if s.last() == '\n' {
            seq!['\\', 'n']
        } else {
            seq![s.last()]
        })
    }
}

pub open spec fn whereis_header() -> Seq<char> {
    "server,name,uuid,last_seen\n"@
}

pub open spec fn whereis_row(r: WhereisRecordV) -> Seq<char> {
    csv_field(r.server) + seq![','] + csv_field(r.name) + seq![','] + csv_field(r.uuid)
        + seq![','] + csv_field(dec_int(r.last_seen)) + seq!['\n']
}

pub open spec fn whereis_rows(rs: Seq<WhereisRecordV>) -> Seq<char>
    decreases rs.len(),
{
    if rs.len() == 0 {
        Seq::empty()
    } else {
        whereis_rows(rs.drop_last()) + whereis_row(rs.last())
    }
}

/// The whereis CSV text: a header row and one row per record; an empty
/// record set yields empty text.
pub open spec fn spec_whereis_csv(rs: Seq<WhereisRecordV>) -> Seq<char> {
    if rs.len() == 0 {
        Seq::empty()
    } else {
        whereis_header() + whereis_rows(rs)
    }
}

pub open spec fn servers_header() -> Seq<char> {
    "server,cracked,description,last_seen,max_players,online_players,protocol,version\n"@
}

/// The tri-state `cracked` column: the literal text `true`, `false` or
/// `null`.
pub open spec fn cracked_text(c: Option<bool>) -> Seq<char> {
    match c {
        Some(true) => "true"@,
        Some(false) => "false"@,
        None => "null"@,
    }
}

pub open spec fn server_row_head(r: ServerRecordV) -> Seq<char> {
    csv_field(r.server) + seq![','] + csv_field(cracked_text(r.cracked)) + seq![',']
        + csv_field(nl_escaped(r.description)) + seq![',']
}

pub open spec fn server_row_tail(r: ServerRecordV) -> Seq<char> {
    csv_field(dec_int(r.last_seen)) + seq![','] + csv_field(dec_int(r.max_players)) + seq![',']
        + csv_field(dec_int(r.online_players)) + seq![','] + csv_field(dec_int(r.protocol))
        + seq![','] + csv_field(nl_escaped(r.version)) + seq!['\n']
}

pub open spec fn server_row(r: ServerRecordV) -> Seq<char> {
    server_row_head(r) + server_row_tail(r)
}

pub open spec fn server_rows(rs: Seq<ServerRecordV>) -> Seq<char>
    decreases rs.len(),
{
    if rs.len() == 0 {
        Seq::empty()
    } else {
        server_rows(rs.drop_last()) + server_row(rs.last())
    }
}

/// The servers CSV text: a header row and one row per record; an empty
/// record set yields empty text.
pub open spec fn spec_servers_csv(rs: Seq<ServerRecordV>) -> Seq<char> {
    if rs.len() == 0 {
        Seq::empty()
    } else {
        servers_header() + server_rows(rs)
    }
}

/// Appends one field, quoting it if it holds a special character.
fn csv_cell(out: &mut String, field: &str)
    ensures
        final(out)@ == old(out)@ + csv_field(field@),
{
    let len = field.unicode_len();
    let mut special = false;
    let mut i: usize = 0;
    while i < len
        invariant
            i <= len,
            len == field@.len(),
            special == exists|j: int| 0 <= j < i && is_csv_special(#[trigger] field@[j]),
        decreases len - i,
    {
        let c = field.get_char(i);
        if c == ',' || c == '"' || c == '\n' {
            special = true;
            assert(is_csv_special(field@[i as int]));
        }
        i += 1;
    }
    assert(special == needs_quote(field@));
    if !special {
        out.append(field);
        return ;
    }
    proof {
        reveal_strlit("\"");
    }
    out.append("\"");
    assert("\""@ =~= seq!['"']);
    let mut k: usize = 0;
    while k < len
        invariant
            k <= len,
            len == field@.len(),
            out@ == old(out)@ + seq!['"'] + double_quotes(field@.subrange(0, k as int)),
        decreases len - k,
    {
        proof {
            let p = field@.subrange(0, k as int);
            let q = field@.subrange(0, k + 1);
            assert(q.drop_last() =~= p);
            assert(q.last() == field@[k as int]);
        }
        let c = field.get_char(k);
        if c == '"' {
            proof {
                reveal_strlit("\"\"");
            }
            out.append("\"\"");
            assert("\"\""@ =~= seq!['"', '"']);
        } else {
            push_char_from(out, field, k);
        }
        assert(out@ =~= old(out)@ + seq!['"'] + double_quotes(field@.subrange(0, k + 1)));
        k += 1;
    }
    assert(field@.subrange(0, len as int) =~= field@);
    out.append("\"");
    assert(out@ =~= old(out)@ + csv_field(field@));
}

/// Rewrites literal newlines as the two characters `\n`.
fn nl_escape_string(s: &str) -> (r: String)
    ensures
        r@ == nl_escaped(s@),
{
    let len = s.unicode_len();
    let mut out = String::new();
    let mut i: usize = 0;
    while i < len
        invariant
            i <= len,
            len == s@.len(),
            out@ == nl_escaped(s@.subrange(0, i as int)),
        decreases len - i,
    {
        proof {
            let p = s@.subrange(0, i as int);
            let q = s@.subrange(0, i + 1);
            assert(q.drop_last() =~= p);
            assert(q.last() == s@[i as int]);
        }
        let c = s.get_char(i);
        if c == '\n' {
            proof {
                reveal_strlit("\\n");
            }
            out.append("\\n");
            assert("\\n"@ =~= seq!['\\', 'n']);
        } else {
            push_char_from(&mut out, s, i);
        }
        assert(out@ =~= nl_escaped(s@.subrange(0, i + 1)));
        i += 1;
    }
    assert(s@.subrange(0, len as int) =~= s@);
    out
}

fn append_comma(out: &mut String)
    ensures
        final(out)@ == old(out)@ + seq![','],
{
    proof {
        reveal_strlit(",");
    }
    out.append(",");
    assert(","@ =~= seq![',']);
}

fn append_newline(out: &mut String)
    ensures
        final(out)@ == old(out)@ + seq!['\n'],
{
    proof {
        reveal_strlit("\n");
    }
    out.append("\n");
    assert("\n"@ =~= seq!['\n']);
}

fn append_whereis_row(out: &mut String, r: &WhereisRecord)
    ensures
        final(out)@ == old(out)@ + whereis_row(r@),
{
    csv_cell(out, r.server.as_str());
    append_comma(out);
    csv_cell(out, r.name.as_str());
    append_comma(out);
    csv_cell(out, r.uuid.as_str());
    append_comma(out);
    let ls = i64_dec_string(r.last_seen);
    csv_cell(out, ls.as_str());
    append_newline(out);
    assert(out@ =~= old(out)@ + whereis_row(r@));
}

fn append_server_row_head(out: &mut String, r: &ServerRecord)
    ensures
        final(out)@ == old(out)@ + server_row_head(r@),
{
    csv_cell(out, r.server.as_str());
    append_comma(out);
    match r.cracked {
        Some(true) => csv_cell(out, "true"),
        Some(false) => csv_cell(out, "false"),
        None => csv_cell(out, "null"),
    }
    append_comma(out);
    let d = nl_escape_string(r.description.as_str());
    csv_cell(out, d.as_str());
    append_comma(out);
    assert(out@ =~= old(out)@ + server_row_head(r@));
}

fn append_server_row_tail(out: &mut String, r: &ServerRecord)
    ensures
        final(out)@ == old(out)@ + server_row_tail(r@),
{
    let ls = u64_dec_string(r.last_seen as u64);
    assert(ls@ == dec_int(r@.last_seen));
    csv_cell(out, ls.as_str());
    append_comma(out);
    let mp = i64_dec_string(r.max_players as i64);
    csv_cell(out, mp.as_str());
    append_comma(out);
    let op = i64_dec_string(r.online_players as i64);
    csv_cell(out, op.as_str());
    append_comma(out);
    let pr = i64_dec_string(r.protocol as i64);
    csv_cell(out, pr.as_str());
    append_comma(out);
    let v = nl_escape_string(r.version.as_str());
    csv_cell(out, v.as_str());
    append_newline(out);
    assert(out@ =~= old(out)@ + server_row_tail(r@));
}

fn append_server_row(out: &mut String, r: &ServerRecord)
    ensures
        final(out)@ == old(out)@ + server_row(r@),
{
    append_server_row_head(out, r);
    append_server_row_tail(out, r);
    assert(out@ =~= old(out)@ + server_row(r@));
}

/// Renders the whereis records as CSV text.
pub fn whereis_csv(records: &Vec<WhereisRecord>) -> (r: String)
    ensures
        r@ == spec_whereis_csv(whereis_seq_view(records@)),
{
    let ghost rv = whereis_seq_view(records@);
    let mut out = String::new();
    if records.len() == 0 {
        assert(out@ =~= spec_whereis_csv(rv));
        return out;
    }
    out.append("server,name,uuid,last_seen\n");
    assert(out@ =~= whereis_header() + whereis_rows(rv.subrange(0, 0)));
    let mut i: usize = 0;
    while i < records.len()
        invariant
            i <= records.len(),
            rv == whereis_seq_view(records@),
            rv.len() == records.len(),
            out@ == whereis_header() + whereis_rows(rv.subrange(0, i as int)),
        decreases records.len() - i,
    {
        proof {
            assert(rv[i as int] == records@[i as int]@);
            let q = rv.subrange(0, i + 1);
            assert(q.drop_last() =~= rv.subrange(0, i as int));
            assert(q.last() == rv[i as int]);
        }
        append_whereis_row(&mut out, &records[i]);
        i += 1;
    }
    assert(rv.subrange(0, records.len() as int) =~= rv);
    out
}

/// Renders the server records as CSV text.
pub fn servers_csv(records: &Vec<ServerRecord>) -> (r: String)
    ensures
        r@ == spec_servers_csv(server_seq_view(records@)),
{
    let ghost rv = server_seq_view(records@);
    let mut out = String::new();
    if records.len() == 0 {
        assert(out@ =~= spec_servers_csv(rv));
        return out;
    }
    out.append("server,cracked,description,last_seen,max_players,online_players,protocol,version\n");
    assert(out@ =~= servers_header() + server_rows(rv.subrange(0, 0)));
    let mut i: usize = 0;
    while i < records.len()
        invariant
            i <= records.len(),
            rv == server_seq_view(records@),
            rv.len() == records.len(),
            out@ == servers_header() + server_rows(rv.subrange(0, i as int)),
        decreases records.len() - i,
    {
        proof {
            assert(rv[i as int] == records@[i as int]@);
            let q = rv.subrange(0, i + 1);
            assert(q.drop_last() =~= rv.subrange(0, i as int));
            assert(q.last() == rv[i as int]);
        }
        append_server_row(&mut out, &records[i]);
        i += 1;
    }
    assert(rv.subrange(0, records.len() as int) =~= rv);
    out
}

} // verus!
