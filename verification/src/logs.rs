//! The CEF records every request leaves in the log, and the parts of a log
//! line that are worked out before it is written.
use vstd::prelude::*;
use crate::reply::{LogRecord, LogV};
use crate::text::{chars_of, decimal, decimal_of, push_all, replace_all, replaced, string_of, texts_of, trim, trimmed};

verus! {

/// The CEF header of a record: version, vendor, product, product version,
/// then the code, status text and severity, and the start time placeholder.
pub open spec fn cef_header(code: int, status: Seq<char>, severity: int) -> Seq<char> {
    "CEF:1|oCMAPI|API|1.0|"@ + decimal(code) + seq!['|'] + status + seq!['|'] + decimal(severity)
        + "|startTime=<starttime>"@
}

/// The ten fields of a log record, in order: the CEF header, the client
/// address, `TCP`, the scheme, the server address and port, the path, the
/// method, the host asked for, and the client application; `vdata` holds
/// the client address, scheme, path, host and client application.
pub open spec fn log_fields(
    code: int,
    status: Seq<char>,
    severity: int,
    method: Seq<char>,
    vdata: Seq<Seq<char>>,
    server_ip: Seq<char>,
    server_port: Seq<char>,
) -> Seq<Seq<char>> {
    seq![
        cef_header(code, status, severity),
        vdata[0],
        "TCP"@,
        vdata[1],
        server_ip,
        server_port,
        vdata[2],
        method,
        vdata[3],
        vdata[4],
    ]
}

/// The ten fields of a log record, as `log_fields` states; the server
/// address and port are those of the configuration.
pub fn log_data(
    code: i32,
    status: &str,
    severity: i8,
    method: &str,
    vdata: Vec<String>,
    server_ip: &str,
    server_port: &str,
) -> (r: Vec<String>)
    requires
        vdata.len() >= 5,
    ensures
        texts_of(r@) == log_fields(
            code as int,
            status@,
            severity as int,
            method@,
            texts_of(vdata@),
            server_ip@,
            server_port@,
        ),
{
    let mut head = chars_of("CEF:1|oCMAPI|API|1.0|");
    push_all(&mut head, &decimal_of(code as i64));
    head.push('|');
    push_all(&mut head, &chars_of(status));
    head.push('|');
    push_all(&mut head, &decimal_of(severity as i64));
    push_all(&mut head, &chars_of("|startTime=<starttime>"));
    assert(head@ =~= cef_header(code as int, status@, severity as int));
    let mut r: Vec<String> = Vec::new();
    r.push(string_of(&head));
    r.push(vdata[0].clone());
    r.push("TCP".to_owned());
    r.push(vdata[1].clone());
    r.push(server_ip.to_owned());
    r.push(server_port.to_owned());
    r.push(vdata[2].clone());
    r.push(method.to_owned());
    r.push(vdata[3].clone());
    r.push(vdata[4].clone());
    assert(texts_of(r@) =~= log_fields(
        code as int,
        status@,
        severity as int,
        method@,
        texts_of(vdata@),
        server_ip@,
        server_port@,
    ));
    r
}

/// The line written for the ten fields `f` of a record, with `extra`
/// appended: the header, then `src=`, `proto=`, `scheme=`, `dst=`, `dpt=`,
/// `path=`, `requestMethod=`, `Request=` and `requestClientApplication=`.
pub open spec fn log_line(f: Seq<Seq<char>>, extra: Seq<char>) -> Seq<char> {
    f[0] + " src="@ + f[1] + " proto="@ + f[2] + " scheme="@ + f[3] + " dst="@ + f[4] + " dpt="@ + f[5]
        + " path="@ + f[6] + " requestMethod="@ + f[7] + " Request="@ + f[8]
        + " requestClientApplication="@ + f[9] + extra
}

/// The line written for the record `log` of a request whose client
/// address, scheme, path, host and client application are `vdata`.
pub open spec fn log_entry(log: LogV, vdata: Seq<Seq<char>>, server_ip: Seq<char>, server_port: Seq<char>) -> Seq<char> {
    log_line(
        log_fields(log.code, log.status, log.severity, log.method, vdata, server_ip, server_port),
        log.extra,
    )
}

/// The line written for the record `log`, as `log_entry` states.
pub fn log_entry_of(log: &LogRecord, vdata: Vec<String>, server_ip: &str, server_port: &str) -> (r: String)
    requires
        vdata.len() >= 5,
    ensures
        r@ == log_entry(log@, texts_of(vdata@), server_ip@, server_port@),
{
    let f = log_data(log.code, log.status.as_str(), log.severity, log.method.as_str(), vdata, server_ip, server_port);
    let ghost fv = texts_of(f@);
    assert(fv.len() == 10);
    assert(f@.len() == 10);
    assert(forall|i: int| 0 <= i < 10 ==> #[trigger] f@[i]@ == fv[i]);
    let mut v = chars_of(f[0].as_str());
    push_all(&mut v, &chars_of(" src="));
    push_all(&mut v, &chars_of(f[1].as_str()));
    push_all(&mut v, &chars_of(" proto="));
    push_all(&mut v, &chars_of(f[2].as_str()));
    push_all(&mut v, &chars_of(" scheme="));
    push_all(&mut v, &chars_of(f[3].as_str()));
    push_all(&mut v, &chars_of(" dst="));
    push_all(&mut v, &chars_of(f[4].as_str()));
    push_all(&mut v, &chars_of(" dpt="));
    push_all(&mut v, &chars_of(f[5].as_str()));
    push_all(&mut v, &chars_of(" path="));
    push_all(&mut v, &chars_of(f[6].as_str()));
    push_all(&mut v, &chars_of(" requestMethod="));
    push_all(&mut v, &chars_of(f[7].as_str()));
    push_all(&mut v, &chars_of(" Request="));
    push_all(&mut v, &chars_of(f[8].as_str()));
    push_all(&mut v, &chars_of(" requestClientApplication="));
    push_all(&mut v, &chars_of(f[9].as_str()));
    push_all(&mut v, &chars_of(log.extra.as_str()));
    assert(v@ =~= log_line(fv, log.extra@));
    string_of(&v)
}

/// The log file for the day `date` (as `%Y%m%d`): `ocmapi_{date}.log` in
/// the trimmed log directory, or, when that is empty, in `exe_dir`, the
/// directory that holds the server's binary.
pub open spec fn log_file_path(log_dir: Seq<char>, exe_dir: Seq<char>, date: Seq<char>) -> Seq<char> {
    if trim(log_dir).len() > 0 {
        trim(log_dir) + "/ocmapi_"@ + date + ".log"@
    } else {
        exe_dir + "/ocmapi_"@ + date + ".log"@
    }
}

/// The log file for the day `date`, as `log_file_path` states.
pub fn log_file_path_of(log_dir: &str, exe_dir: &str, date: &str) -> (r: String)
    ensures
        r@ == log_file_path(log_dir@, exe_dir@, date@),
{
    let dir = trimmed(&chars_of(log_dir));
    let mut v = if dir.len() > 0 {
        dir
    } else {
        chars_of(exe_dir)
    };
    push_all(&mut v, &chars_of("/ocmapi_"));
    push_all(&mut v, &chars_of(date));
    push_all(&mut v, &chars_of(".log"));
    assert(v@ =~= log_file_path(log_dir@, exe_dir@, date@));
    string_of(&v)
}

/// The host name a line carries: the machine's, or `ErrorNoHostname` when
/// it could not be read as text.
pub open spec fn host_or_default(host: Option<Seq<char>>) -> Seq<char> {
    match host {
        Some(h) => h,
        None => "ErrorNoHostname"@,
    }
}

/// A line as it is written to the log file: the syslog time stamp, the
/// host name, then the entry with each `<starttime>` made the current time.
pub open spec fn log_file_line(stamp: Seq<char>, host: Option<Seq<char>>, entry: Seq<char>, now: Seq<char>) -> Seq<char> {
    stamp + seq![' '] + host_or_default(host) + seq![' '] + replace_all(entry, "<starttime>"@, now)
}

/// The view of a host name, if there is one.
pub open spec fn host_view(host: Option<String>) -> Option<Seq<char>> {
    match host {
        Some(h) => Some(h@),
        None => None,
    }
}

/// A line as it is written to the log file, as `log_file_line` states.
pub fn log_file_line_of(stamp: &str, host: Option<String>, entry: &str, now: &str) -> (r: String)
    ensures
        r@ == log_file_line(stamp@, host_view(host), entry@, now@),
{
    let mut v = chars_of(stamp);
    v.push(' ');
    match host {
        Some(h) => push_all(&mut v, &chars_of(h.as_str())),
        None => push_all(&mut v, &chars_of("ErrorNoHostname")),
    }
    v.push(' ');
    let pat = chars_of("<starttime>");
    proof {
        reveal_strlit("<starttime>");
    }
    push_all(&mut v, &replaced(&chars_of(entry), &pat, &chars_of(now)));
    string_of(&v)
}

/// The entry logged when the server starts (`started`) or stops, over
/// HTTPS (`secure`) or HTTP, listening on `port`.
pub open spec fn server_event(started: bool, secure: bool, port: Seq<char>) -> Seq<char> {
    "CEF:1|oCMAPI|API|1.0|100|Server "@ + (if started { "Started"@ } else { "Stopped"@ })
        + "|0|startTime=<starttime> src=127.0.0.1 dpt="@ + port + " proto=TCP app="@
        + (if secure { "HTTPS"@ } else { "HTTP"@ }) + " msg=Server "@ + (if started {
        "started and is listening for incoming traffic"@
    } else {
        "stopped and is no longer listening for incoming traffic"@
    })
}

/// The entry logged when the server starts or stops, as `server_event`
/// states.
pub fn server_event_of(started: bool, secure: bool, port: &str) -> (r: String)
    ensures
        r@ == server_event(started, secure, port@),
{
    let mut v = chars_of("CEF:1|oCMAPI|API|1.0|100|Server ");
    push_all(&mut v, &chars_of(if started { "Started" } else { "Stopped" }));
    push_all(&mut v, &chars_of("|0|startTime=<starttime> src=127.0.0.1 dpt="));
    push_all(&mut v, &chars_of(port));
    push_all(&mut v, &chars_of(" proto=TCP app="));
    push_all(&mut v, &chars_of(if secure { "HTTPS" } else { "HTTP" }));
    push_all(&mut v, &chars_of(" msg=Server "));
    push_all(
        &mut v,
        &chars_of(
            if started {
                "started and is listening for incoming traffic"
            } else {
                "stopped and is no longer listening for incoming traffic"
            },
        ),
    );
    assert(v@ =~= server_event(started, secure, port@));
    string_of(&v)
}

} // verus!
