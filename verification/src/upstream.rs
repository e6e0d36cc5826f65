//! The shape of an upstream JSON response, and the extraction of typed
//! records from it. A response is expected to be an object; an `error`
//! field supersedes everything else, and otherwise `data` must hold an
//! array of records of the expected shape. Any record that does not match
//! fails the whole response; nothing is skipped silently.

use vstd::prelude::*;
use crate::table::get_entry;
use crate::table::lookup;
use crate::table::table_view;

verus! {

/// A scalar value inside an upstream record. `Other` stands for anything
/// a record never legitimately holds: a nested array or object, or a
/// number outside signed 64-bit range.
#[derive(Clone, Debug)]
pub enum Scalar {
    Null,
    Bool(bool),
    Int(i64),
    Str(String),
    Other,
}

pub enum ScalarV {
    Null,
    Bool(bool),
    Int(int),
    Str(Seq<char>),
    Other,
}

impl View for Scalar {
    type V = ScalarV;

    open spec fn view(&self) -> ScalarV {
        match self {
            Scalar::Null => ScalarV::Null,
            Scalar::Bool(b) => ScalarV::Bool(*b),
            Scalar::Int(n) => ScalarV::Int(*n as int),
            Scalar::Str(s) => ScalarV::Str(s@),
            Scalar::Other => ScalarV::Other,
        }
    }
}

/// One record of an upstream `data` array: its fields, as scalars.
pub struct RawRecord {
    pub fields: Vec<(String, Scalar)>,
}

impl View for RawRecord {
    type V = Seq<(Seq<char>, ScalarV)>;

    open spec fn view(&self) -> Seq<(Seq<char>, ScalarV)> {
        table_view(self.fields@)
    }
}

/// A top-level value of the upstream response object: a scalar, an array
/// of records, or anything else.
pub enum TopValue {
    Scalar(Scalar),
    Records(Vec<RawRecord>),
    Other,
}

pub enum TopValueV {
    Scalar(ScalarV),
    Records(Seq<Seq<(Seq<char>, ScalarV)>>),
    Other,
}

impl View for TopValue {
    type V = TopValueV;

    open spec fn view(&self) -> TopValueV {
        match self {
            TopValue::Scalar(s) => TopValueV::Scalar(s@),
            TopValue::Records(rs) => TopValueV::Records(rs@.map_values(|r: RawRecord| r@)),
            TopValue::Other => TopValueV::Other,
        }
    }
}

/// A whole upstream response body, decoded as far as the gateway reads it.
pub enum UpstreamBody {
    NotObject,
    Object(Vec<(String, TopValue)>),
}

pub enum UpstreamBodyV {
    NotObject,
    Object(Seq<(Seq<char>, TopValueV)>),
}

impl View for UpstreamBody {
    type V = UpstreamBodyV;

    open spec fn view(&self) -> UpstreamBodyV {
        match self {
            UpstreamBody::NotObject => UpstreamBodyV::NotObject,
            UpstreamBody::Object(fs) => UpstreamBodyV::Object(table_view(fs@)),
        }
    }
}

/// Why a response yielded no records: the upstream `error` field, or a
/// body that did not match the expected shape.
#[derive(Debug)]
pub enum Problem {
    ErrorField(String),
    Shape,
}

pub enum ProblemV {
    ErrorField(Seq<char>),
    Shape,
}

impl View for Problem {
    type V = ProblemV;

    open spec fn view(&self) -> ProblemV {
        match self {
            Problem::ErrorField(m) => ProblemV::ErrorField(m@),
            Problem::Shape => ProblemV::Shape,
        }
    }
}

/// A record found by a whereis lookup.
pub struct WhereisRecord {
    pub server: String,
    pub name: String,
    pub uuid: String,
    pub last_seen: i64,
}

pub struct WhereisRecordV {
    pub server: Seq<char>,
    pub name: Seq<char>,
    pub uuid: Seq<char>,
    pub last_seen: int,
}

impl View for WhereisRecord {
    type V = WhereisRecordV;

    open spec fn view(&self) -> WhereisRecordV {
        WhereisRecordV {
            server: self.server@,
            name: self.name@,
            uuid: self.uuid@,
            last_seen: self.last_seen as int,
        }
    }
}

/// A record of a servers search.
pub struct ServerRecord {
    pub server: String,
    pub cracked: Option<bool>,
    pub description: String,
    pub last_seen: u32,
    pub max_players: i32,
    pub online_players: i32,
    pub protocol: i32,
    pub version: String,
}

pub struct ServerRecordV {
    pub server: Seq<char>,
    pub cracked: Option<bool>,
    pub description: Seq<char>,
    pub last_seen: int,
    pub max_players: int,
    pub online_players: int,
    pub protocol: int,
    pub version: Seq<char>,
}

impl View for ServerRecord {
    type V = ServerRecordV;

    open spec fn view(&self) -> ServerRecordV {
        ServerRecordV {
            server: self.server@,
            cracked: self.cracked,
            description: self.description@,
            last_seen: self.last_seen as int,
            max_players: self.max_players as int,
            online_players: self.online_players as int,
            protocol: self.protocol as int,
            version: self.version@,
        }
    }
}

pub open spec fn field_is_str(f: Seq<(Seq<char>, ScalarV)>, k: Seq<char>) -> bool {
    match lookup(f, k) {
        Some(ScalarV::Str(_)) => true,
        _ => false,
    }
}

pub open spec fn field_str(f: Seq<(Seq<char>, ScalarV)>, k: Seq<char>) -> Seq<char> {
    match lookup(f, k) {
        Some(ScalarV::Str(s)) => s,
        _ => Seq::empty(),
    }
}

pub open spec fn field_is_int(f: Seq<(Seq<char>, ScalarV)>, k: Seq<char>) -> bool {
    match lookup(f, k) {
        Some(ScalarV::Int(_)) => true,
        _ => false,
    }
}

pub open spec fn field_int(f: Seq<(Seq<char>, ScalarV)>, k: Seq<char>) -> int {
    match lookup(f, k) {
        Some(ScalarV::Int(n)) => n,
        _ => 0,
    }
}

/// Whether a raw record has the whereis shape: `server`, `name` and
/// `uuid` strings and an integer `last_seen`.
pub open spec fn whereis_record_ok(f: Seq<(Seq<char>, ScalarV)>) -> bool {
    &&& field_is_str(f, "server"@)
    &&& field_is_str(f, "name"@)
    &&& field_is_str(f, "uuid"@)
    &&& field_is_int(f, "last_seen"@)
    &&& i64::MIN <= field_int(f, "last_seen"@) <= i64::MAX
}

pub open spec fn whereis_record_val(f: Seq<(Seq<char>, ScalarV)>) -> WhereisRecordV {
    WhereisRecordV {
        server: field_str(f, "server"@),
        name: field_str(f, "name"@),
        uuid: field_str(f, "uuid"@),
        last_seen: field_int(f, "last_seen"@),
    }
}

/// The tri-state `cracked` field: absent and null both mean unknown, a
/// boolean means itself, anything else fails the record.
pub open spec fn cracked_of(o: Option<ScalarV>) -> Option<Option<bool>> {
    match o {
        None => Some(None),
        Some(ScalarV::Null) => Some(None),
        Some(ScalarV::Bool(b)) => Some(Some(b)),
        _ => None,
    }
}

/// Whether a raw record has the servers shape, ranges included.
pub open spec fn server_record_ok(f: Seq<(Seq<char>, ScalarV)>) -> bool {
    &&& field_is_str(f, "server"@)
    &&& field_is_str(f, "description"@)
    &&& field_is_str(f, "version"@)
    &&& cracked_of(lookup(f, "cracked"@)) is Some
    &&& field_is_int(f, "last_seen"@)
    &&& 0 <= field_int(f, "last_seen"@) <= u32::MAX
    &&& field_is_int(f, "max_players"@)
    &&& i32::MIN <= field_int(f, "max_players"@) <= i32::MAX
    &&& field_is_int(f, "online_players"@)
    &&& i32::MIN <= field_int(f, "online_players"@) <= i32::MAX
    &&& field_is_int(f, "protocol"@)
    &&& i32::MIN <= field_int(f, "protocol"@) <= i32::MAX
}

pub open spec fn server_record_val(f: Seq<(Seq<char>, ScalarV)>) -> ServerRecordV {
    ServerRecordV {
        server: field_str(f, "server"@),
        cracked: match cracked_of(lookup(f, "cracked"@)) {
            Some(c) => c,
            None => None,
        },
        description: field_str(f, "description"@),
        last_seen: field_int(f, "last_seen"@),
        max_players: field_int(f, "max_players"@),
        online_players: field_int(f, "online_players"@),
        protocol: field_int(f, "protocol"@),
        version: field_str(f, "version"@),
    }
}

/// Whether every record of a `data` array has the whereis shape.
pub open spec fn all_whereis_ok(rs: Seq<Seq<(Seq<char>, ScalarV)>>) -> bool {
    forall|i: int| 0 <= i < rs.len() ==> #[trigger] whereis_record_ok(rs[i])
}

/// Whether every record of a `data` array has the servers shape.
pub open spec fn all_servers_ok(rs: Seq<Seq<(Seq<char>, ScalarV)>>) -> bool {
    forall|i: int| 0 <= i < rs.len() ==> #[trigger] server_record_ok(rs[i])
}

pub open spec fn whereis_seq_view(v: Seq<WhereisRecord>) -> Seq<WhereisRecordV> {
    v.map_values(|r: WhereisRecord| r@)
}

pub open spec fn server_seq_view(v: Seq<ServerRecord>) -> Seq<ServerRecordV> {
    v.map_values(|r: ServerRecord| r@)
}

/// What a whereis response means: the upstream error if one is present,
/// otherwise the typed records of `data`, otherwise a shape failure.
pub open spec fn spec_whereis_records(b: UpstreamBodyV) -> Result<Seq<WhereisRecordV>, ProblemV> {
    match b {
        UpstreamBodyV::NotObject => Err(ProblemV::Shape),
        UpstreamBodyV::Object(fs) => match lookup(fs, "error"@) {
            Some(TopValueV::Scalar(ScalarV::Str(m))) => Err(ProblemV::ErrorField(m)),
            Some(_) => Err(ProblemV::Shape),
            None => match lookup(fs, "data"@) {
                Some(TopValueV::Records(rs)) => if all_whereis_ok(rs) {
                    Ok(Seq::new(rs.len(), |i: int| whereis_record_val(rs[i])))
                } else {
                    Err(ProblemV::Shape)
                },
                _ => Err(ProblemV::Shape),
            },
        },
    }
}

/// What a servers response means, in the same way.
pub open spec fn spec_server_records(b: UpstreamBodyV) -> Result<Seq<ServerRecordV>, ProblemV> {
    match b {
        UpstreamBodyV::NotObject => Err(ProblemV::Shape),
        UpstreamBodyV::Object(fs) => match lookup(fs, "error"@) {
            Some(TopValueV::Scalar(ScalarV::Str(m))) => Err(ProblemV::ErrorField(m)),
            Some(_) => Err(ProblemV::Shape),
            None => match lookup(fs, "data"@) {
                Some(TopValueV::Records(rs)) => if all_servers_ok(rs) {
                    Ok(Seq::new(rs.len(), |i: int| server_record_val(rs[i])))
                } else {
                    Err(ProblemV::Shape)
                },
                _ => Err(ProblemV::Shape),
            },
        },
    }
}

fn whereis_record(rec: &RawRecord) -> (r: Option<WhereisRecord>)
    ensures
        match r {
            Some(x) => whereis_record_ok(rec@) && x@ == whereis_record_val(rec@),
            None => !whereis_record_ok(rec@),
        },
{
    let server = match get_entry(&rec.fields, "server") {
        Some(Scalar::Str(s)) => s.clone(),
        _ => {
            return None;
        },
    };
    let name = match get_entry(&rec.fields, "name") {
        Some(Scalar::Str(s)) => s.clone(),
        _ => {
            return None;
        },
    };
    let uuid = match get_entry(&rec.fields, "uuid") {
        Some(Scalar::Str(s)) => s.clone(),
        _ => {
            return None;
        },
    };
    let last_seen = match get_entry(&rec.fields, "last_seen") {
        Some(Scalar::Int(n)) => *n,
        _ => {
            return None;
        },
    };
    Some(WhereisRecord { server, name, uuid, last_seen })
}

fn server_record(rec: &RawRecord) -> (r: Option<ServerRecord>)
    ensures
        match r {
            Some(x) => server_record_ok(rec@) && x@ == server_record_val(rec@),
            None => !server_record_ok(rec@),
        },
{
    let server = match get_entry(&rec.fields, "server") {
        Some(Scalar::Str(s)) => s.clone(),
        _ => {
            return None;
        },
    };
    let description = match get_entry(&rec.fields, "description") {
        Some(Scalar::Str(s)) => s.clone(),
        _ => {
            return None;
        },
    };
    let version = match get_entry(&rec.fields, "version") {
        Some(Scalar::Str(s)) => s.clone(),
        _ => {
            return None;
        },
    };
    let cracked: Option<bool> = match get_entry(&rec.fields, "cracked") {
        None => None,
        Some(Scalar::Null) => None,
        Some(Scalar::Bool(b)) => Some(*b),
        _ => {
            return None;
        },
    };
    let last_seen: u32 = match get_entry(&rec.fields, "last_seen") {
        Some(Scalar::Int(n)) => {
            if *n >= 0 && *n <= 4294967295 {
                *n as u32
            } else {
                return None;
            }
        },
        _ => {
            return None;
        },
    };
    let max_players: i32 = match get_entry(&rec.fields, "max_players") {
        Some(Scalar::Int(n)) => {
            if *n >= -2147483648 && *n <= 2147483647 {
                *n as i32
            } else {
                return None;
            }
        },
        _ => {
            return None;
        },
    };
    let online_players: i32 = match get_entry(&rec.fields, "online_players") {
        Some(Scalar::Int(n)) => {
            if *n >= -2147483648 && *n <= 2147483647 {
                *n as i32
            } else {
                return None;
            }
        },
        _ => {
            return None;
        },
    };
    let protocol: i32 = match get_entry(&rec.fields, "protocol") {
        Some(Scalar::Int(n)) => {
            if *n >= -2147483648 && *n <= 2147483647 {
                *n as i32
            } else {
                return None;
            }
        },
        _ => {
            return None;
        },
    };
    Some(ServerRecord {
        server,
        cracked,
        description,
        last_seen,
        max_players,
        online_players,
        protocol,
        version,
    })
}

/// Reads a whereis response body into its records, or into the error the
/// upstream service reported, or into a shape failure.
pub fn whereis_records(body: &UpstreamBody) -> (r: Result<Vec<WhereisRecord>, Problem>)
    ensures
        match r {
            Ok(v) => spec_whereis_records(body@) == Ok::<Seq<WhereisRecordV>, ProblemV>(
                whereis_seq_view(v@),
            ),
            Err(p) => spec_whereis_records(body@) == Err::<Seq<WhereisRecordV>, ProblemV>(p@),
        },
{
    let fs = match body {
        UpstreamBody::NotObject => {
            return Err(Problem::Shape);
        },
        UpstreamBody::Object(fs) => fs,
    };
    match get_entry(fs, "error") {
        Some(TopValue::Scalar(Scalar::Str(m))) => {
            return Err(Problem::ErrorField(m.clone()));
        },
        Some(_) => {
            return Err(Problem::Shape);
        },
        None => {},
    }
    let rs = match get_entry(fs, "data") {
        Some(TopValue::Records(rs)) => rs,
        _ => {
            return Err(Problem::Shape);
        },
    };
    let ghost rsv = rs@.map_values(|x: RawRecord| x@);
    let mut out: Vec<WhereisRecord> = Vec::new();
    let mut i: usize = 0;
    while i < rs.len()
        invariant
            i <= rs.len(),
            body@ == UpstreamBodyV::Object(table_view(fs@)),
            lookup(table_view(fs@), "error"@) is None,
            lookup(table_view(fs@), "data"@) == Some(TopValueV::Records(rsv)),
            rsv == rs@.map_values(|x: RawRecord| x@),
            rsv.len() == rs.len(),
            out@.len() == i,
            forall|j: int| 0 <= j < i ==> #[trigger] whereis_record_ok(rsv[j]),
            forall|j: int| 0 <= j < i ==> (#[trigger] out@[j])@ == whereis_record_val(rsv[j]),
        decreases rs.len() - i,
    {
        proof {
            assert(rsv[i as int] == rs@[i as int]@);
        }
        match whereis_record(&rs[i]) {
            Some(x) => {
                out.push(x);
            },
            None => {
                proof {
                    assert(!whereis_record_ok(rsv[i as int]));
                    assert(!all_whereis_ok(rsv)) by {
                        if all_whereis_ok(rsv) {
                            assert(whereis_record_ok(rsv[i as int]));
                            assert(false);
                        }
                    }
                }
                return Err(Problem::Shape);
            },
        }
        i += 1;
    }
    proof {
        assert(all_whereis_ok(rsv));
        assert(whereis_seq_view(out@) =~= Seq::new(rsv.len(), |k: int| whereis_record_val(rsv[k])));
    }
    Ok(out)
}

/// Reads a servers response body into its records, in the same way.
pub fn server_records(body: &UpstreamBody) -> (r: Result<Vec<ServerRecord>, Problem>)
    ensures
        match r {
            Ok(v) => spec_server_records(body@) == Ok::<Seq<ServerRecordV>, ProblemV>(
                server_seq_view(v@),
            ),
            Err(p) => spec_server_records(body@) == Err::<Seq<ServerRecordV>, ProblemV>(p@),
        },
{
    let fs = match body {
        UpstreamBody::NotObject => {
            return Err(Problem::Shape);
        },
        UpstreamBody::Object(fs) => fs,
    };
    match get_entry(fs, "error") {
        Some(TopValue::Scalar(Scalar::Str(m))) => {
            return Err(Problem::ErrorField(m.clone()));
        },
        Some(_) => {
            return Err(Problem::Shape);
        },
        None => {},
    }
    let rs = match get_entry(fs, "data") {
        Some(TopValue::Records(rs)) => rs,
        _ => {
            return Err(Problem::Shape);
        },
    };
    let ghost rsv = rs@.map_values(|x: RawRecord| x@);
    let mut out: Vec<ServerRecord> = Vec::new();
    let mut i: usize = 0;
    while i < rs.len()
        invariant
            i <= rs.len(),
            body@ == UpstreamBodyV::Object(table_view(fs@)),
            lookup(table_view(fs@), "error"@) is None,
            lookup(table_view(fs@), "data"@) == Some(TopValueV::Records(rsv)),
            rsv == rs@.map_values(|x: RawRecord| x@),
            rsv.len() == rs.len(),
            out@.len() == i,
            forall|j: int| 0 <= j < i ==> #[trigger] server_record_ok(rsv[j]),
            forall|j: int| 0 <= j < i ==> (#[trigger] out@[j])@ == server_record_val(rsv[j]),
        decreases rs.len() - i,
    {
        proof {
            assert(rsv[i as int] == rs@[i as int]@);
        }
        match server_record(&rs[i]) {
            Some(x) => {
                out.push(x);
            },
            None => {
                proof {
                    assert(!server_record_ok(rsv[i as int]));
                    assert(!all_servers_ok(rsv)) by {
                        if all_servers_ok(rsv) {
                            assert(server_record_ok(rsv[i as int]));
                            assert(false);
                        }
                    }
                }
                return Err(Problem::Shape);
            },
        }
        i += 1;
    }
    proof {
        assert(all_servers_ok(rsv));
        assert(server_seq_view(out@) =~= Seq::new(rsv.len(), |k: int| server_record_val(rsv[k])));
    }
    Ok(out)
}

} // verus!
