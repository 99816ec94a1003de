//! What a request is answered with: an HTTP status, a body, and the record
//! that goes to the log.
use vstd::prelude::*;

verus! {

/// A value in a JSON reply: an integer or a string.
pub enum Scalar {
    Int(i64),
    Text(String),
}

/// The mathematical form of a `Scalar`.
pub enum ScalarV {
    Int(int),
    Text(Seq<char>),
}

impl View for Scalar {
    type V = ScalarV;

    open spec fn view(&self) -> ScalarV {
        match self {
            Scalar::Int(n) => ScalarV::Int(*n as int),
            Scalar::Text(s) => ScalarV::Text(s@),
        }
    }
}

/// One key and its value in a JSON object.
pub struct Field {
    pub key: String,
    pub value: Scalar,
}

impl View for Field {
    type V = (Seq<char>, ScalarV);

    open spec fn view(&self) -> (Seq<char>, ScalarV) {
        (self.key@, self.value@)
    }
}

/// The views of a list of fields.
pub open spec fn fields_v(v: Seq<Field>) -> Seq<(Seq<char>, ScalarV)> {
    v.map_values(|f: Field| f@)
}

/// A reply body: a JSON object, a JSON list holding one object, text that
/// is sent as it stands with the JSON content type, or an HTML page.
pub enum Body {
    Object(Vec<Field>),
    Listed(Vec<Field>),
    Raw(String),
    Page(String),
}

/// The mathematical form of a `Body`.
pub enum BodyV {
    Object(Seq<(Seq<char>, ScalarV)>),
    Listed(Seq<(Seq<char>, ScalarV)>),
    Raw(Seq<char>),
    Page(Seq<char>),
}

impl View for Body {
    type V = BodyV;

    open spec fn view(&self) -> BodyV {
        match self {
            Body::Object(v) => BodyV::Object(fields_v(v@)),
            Body::Listed(v) => BodyV::Listed(fields_v(v@)),
            Body::Raw(s) => BodyV::Raw(s@),
            Body::Page(s) => BodyV::Page(s@),
        }
    }
}

/// What is logged of a request: the code, status text, severity and method
/// that go to the CEF header, and text appended after the common fields.
pub struct LogRecord {
    pub code: i32,
    pub status: String,
    pub severity: i8,
    pub method: String,
    pub extra: String,
}

/// The mathematical form of a `LogRecord`.
pub struct LogV {
    pub code: int,
    pub status: Seq<char>,
    pub severity: int,
    pub method: Seq<char>,
    pub extra: Seq<char>,
}

impl View for LogRecord {
    type V = LogV;

    open spec fn view(&self) -> LogV {
        LogV {
            code: self.code as int,
            status: self.status@,
            severity: self.severity as int,
            method: self.method@,
            extra: self.extra@,
        }
    }
}

/// The answer to a request.
pub struct Reply {
    pub status: u16,
    pub body: Body,
    pub log: LogRecord,
}

/// The mathematical form of a `Reply`.
pub struct ReplyV {
    pub status: int,
    pub body: BodyV,
    pub log: LogV,
}

impl View for Reply {
    type V = ReplyV;

    open spec fn view(&self) -> ReplyV {
        ReplyV { status: self.status as int, body: self.body@, log: self.log@ }
    }
}

/// An owned copy of `s`.
pub fn text(s: &str) -> (r: String)
    ensures
        r@ == s@,
{
    s.to_owned()
}

/// `fields` with one more field at its end.
pub fn with(fields: Vec<Field>, key: &str, value: Scalar) -> (r: Vec<Field>)
    ensures
        fields_v(r@) == fields_v(fields@).push((key@, value@)),
{
    let mut r = fields;
    let ghost before = r@;
    r.push(Field { key: text(key), value });
    assert(fields_v(r@) =~= fields_v(before).push((key@, value@)));
    r
}

/// The object `{"Code": code, "Info": info, "Status": status}`.
pub open spec fn message(code: int, info: Seq<char>, status: Seq<char>) -> BodyV {
    BodyV::Object(
        seq![
            ("Code"@, ScalarV::Int(code)),
            ("Info"@, ScalarV::Text(info)),
            ("Status"@, ScalarV::Text(status)),
        ],
    )
}

/// The object `{"Code": code, "Info": info, "Status": status}`.
pub fn message_body(code: i64, info: String, status: &str) -> (b: Body)
    ensures
        b@ == message(code as int, info@, status@),
{
    let v = with(Vec::new(), "Code", Scalar::Int(code));
    let v = with(v, "Info", Scalar::Text(info));
    let v = with(v, "Status", Scalar::Text(text(status)));
    let b = Body::Object(v);
    assert(b@ == message(code as int, info@, status@)) by {
        assert(fields_v(v@) =~= seq![
            ("Code"@, ScalarV::Int(code as int)),
            ("Info"@, ScalarV::Text(info@)),
            ("Status"@, ScalarV::Text(status@)),
        ]);
    }
    b
}

/// A log record with nothing appended after the common fields.
pub open spec fn log_of(code: int, status: Seq<char>, severity: int, method: Seq<char>) -> LogV {
    LogV { code, status, severity, method, extra: seq![] }
}

/// A log record with `extra` appended after the common fields.
pub open spec fn log_extra(
    code: int,
    status: Seq<char>,
    severity: int,
    method: Seq<char>,
    extra: Seq<char>,
) -> LogV {
    LogV { code, status, severity, method, extra }
}

/// A log record with `extra` appended after the common fields.
pub fn record_with(code: i32, status: &str, severity: i8, method: &str, extra: String) -> (r:
    LogRecord)
    ensures
        r@ == log_extra(code as int, status@, severity as int, method@, extra@),
{
    LogRecord { code, status: text(status), severity, method: text(method), extra }
}

/// A log record with nothing appended after the common fields.
pub fn record(code: i32, status: &str, severity: i8, method: &str) -> (r: LogRecord)
    ensures
        r@ == log_of(code as int, status@, severity as int, method@),
{
    let r = record_with(code, status, severity, method, String::new());
    assert(r@ =~= log_of(code as int, status@, severity as int, method@));
    r
}

/// A request refused as malformed: HTTP 400 with
/// `{"Code": 400, "Info": info, "Status": "Bad Request"}`, logged as a
/// "Bad Request" of severity 4.
pub open spec fn refusal(info: Seq<char>, method: Seq<char>) -> ReplyV {
    ReplyV {
        status: 400,
        body: message(400, info, "Bad Request"@),
        log: log_of(400, "Bad Request"@, 4, method),
    }
}

/// A request refused as malformed, as `refusal` states.
pub fn refuse(info: &str, method: &str) -> (r: Reply)
    ensures
        r@ == refusal(info@, method@),
{
    Reply {
        status: 400,
        body: message_body(400, text(info), "Bad Request"),
        log: record(400, "Bad Request", 4, method),
    }
}

/// An answer with HTTP status `status` and the body
/// `{"Code": code, "Info": info, "Status": status_text}`.
pub open spec fn answered(status: int, code: int, info: Seq<char>, status_text: Seq<char>, log: LogV) -> ReplyV {
    ReplyV { status, body: message(code, info, status_text), log }
}

/// An answer as `answered` states.
pub fn answer(status: u16, code: i64, info: String, status_text: &str, log: LogRecord) -> (r: Reply)
    ensures
        r@ == answered(status as int, code as int, info@, status_text@, log@),
{
    Reply { status, body: message_body(code, info, status_text), log }
}

/// HTTP 200 with `body` sent as it stands, logged as a GET that went well.
pub open spec fn served(body: Seq<char>) -> ReplyV {
    ReplyV { status: 200, body: BodyV::Raw(body), log: log_of(200, "Request OK"@, 0, "GET"@) }
}

/// HTTP 200 with `body` sent as it stands, as `served` states.
pub fn serve(body: String) -> (r: Reply)
    ensures
        r@ == served(body@),
{
    Reply { status: 200, body: Body::Raw(body), log: record(200, "Request OK", 0, "GET") }
}

} // verus!
