//! Env files and secrets: files written under the configured directories,
//! and secrets handed to podman through a temporary file.
use vstd::prelude::*;
use crate::checks::{LABELS_PATTERN, NAME_PATTERN, refused_by, refuses};
use crate::effect::{Effect, EffectV, Event, OnFailure, Outcome, OutcomeV};
use crate::models::{CreateEnvFile, CreateSecret, DeleteEnvFile, DeleteSecFile};
use crate::output::{arg, no_args, out_chars, out_text, podman, podman_run};
use crate::reply::{Body, BodyV, Reply, ReplyV, Scalar, ScalarV, fields_v, log_extra, log_of, message, message_body, record, record_with, refusal, refuse, text, with};
use crate::text::{bytes_exceed, chars_of, debug_quoted, debug_form, push_all, replace_all, replaced, same, split, split_by, string_of, texts_of, trim, trim_end, trimmed, trimmed_end, views_of};
use vstd::utf8::encode_utf8;

verus! {

/// The temporary file that holds a secret's data while podman reads it:
/// `{dir}/{name}_{number}.tmp`.
pub open spec fn secret_file(dir: Seq<char>, name: Seq<char>, number: Seq<char>) -> Seq<char> {
    dir + seq!['/'] + name + seq!['_'] + number + ".tmp"@
}

/// What is written to an env or secret file: the data with each `|` made a
/// line break, trailing white space dropped, and one final line break.
pub open spec fn file_content(data: Seq<char>) -> Seq<char> {
    trim_end(replace_all(data, seq!['|'], seq!['\n'])).push('\n')
}

/// The `--label=` argument made of one comma separated piece.
pub open spec fn label_arg(piece: Seq<char>) -> Seq<char> {
    "--label="@ + trim(piece)
}

/// One `--label=` argument per comma separated piece of `labels`, when the
/// trimmed labels take more than one byte.
pub open spec fn label_args(labels: Seq<char>) -> Seq<Seq<char>> {
    if encode_utf8(trim(labels)).len() > 1 {
        split(labels, seq![',']).map_values(|p: Seq<char>| label_arg(p))
    } else {
        seq![]
    }
}

/// Whether a secret request asks to replace an existing secret.
pub open spec fn replace_asked(req: CreateSecret) -> bool {
    trim(req.replace@) == "yes"@
}

/// The arguments of `podman secret create` for `req`, reading the data
/// from `file`.
pub open spec fn secret_args(req: CreateSecret, file: Seq<char>) -> Seq<Seq<char>> {
    seq!["secret"@, "create"@] + label_args(req.labels@) + (if replace_asked(req) {
        seq!["--replace=true"@]
    } else {
        seq![]
    }) + seq![req.name@, file]
}

/// `podman secret exists {name}`.
pub open spec fn secret_exists_args(name: Seq<char>) -> Seq<Seq<char>> {
    seq!["secret"@, "exists"@, name]
}

/// How far a secret request has come.
#[derive(Clone)]
pub enum SecretStage {
    /// Nothing has been done yet.
    Start,
    /// Whether the secrets directory exists.
    Located(bool),
    /// A random number was drawn for the temporary file's name.
    Drawn(String),
    /// Whether the temporary file named with this number already exists.
    Probed(String, bool),
    /// A second number was drawn, because the first name was taken.
    Redrawn(String),
    /// The exit code of `podman secret exists`, with the number in use.
    Checked(String, Option<i32>),
    /// The temporary file named with this number was written.
    Written(String),
    /// `podman secret create` ran, with the number in use.
    Created(String, Outcome),
    /// The temporary file was removed after the create run.
    Cleaned(Outcome),
}

/// The reply once `podman secret create` has run and the temporary file is
/// gone.
pub open spec fn secret_created(o: OutcomeV) -> ReplyV {
    match o {
        OutcomeV::Finished(out) => if out.code == Some(0i32) {
            ReplyV {
                status: 201,
                body: BodyV::Object(
                    seq![
                        ("Code"@, ScalarV::Text("201"@)),
                        ("Info"@, ScalarV::Text("Successfully created secret"@)),
                        ("ID"@, ScalarV::Text(trim_end(out_text(out)))),
                        ("Status"@, ScalarV::Text("Created"@)),
                    ],
                ),
                log: log_extra(
                    201,
                    "Created"@,
                    0,
                    "POST"@,
                    " oCMAPICreateID="@ + debug_form(trim_end(out_text(out)))
                        + " oCMAPICreateType=Secret"@,
                ),
            }
        } else {
            refusal(replace_all(trim_end(out.status_text), seq!['\n'], seq![',', ' ']), "POST"@)
        },
        OutcomeV::Failed(e) => refusal(replace_all(trim_end(e), seq!['\n'], seq![',', ' ']), "POST"@),
    }
}

/// What `post_common_secret` does next for `req`, with the secrets
/// directory `dir`, at `stage`.
pub open spec fn common_secret(req: CreateSecret, dir: Seq<char>, stage: SecretStage) -> EffectV {
    match stage {
        SecretStage::Start => if refused_by(NAME_PATTERN@, req.name@) {
            EffectV::Answer(refusal("Name provided is not in correct format"@, "POST"@))
        } else if refused_by(LABELS_PATTERN@, req.labels@) {
            EffectV::Answer(refusal("Labels provided is not in correct format"@, "POST"@))
        } else {
            EffectV::Probe(dir)
        },
        SecretStage::Located(found) => if found {
            EffectV::Draw
        } else {
            EffectV::Answer(refusal("Path do not exist, check configuration"@, "POST"@))
        },
        SecretStage::Drawn(n) => EffectV::Probe(secret_file(dir, req.name@, n@)),
        SecretStage::Probed(n, taken) => if taken {
            EffectV::Draw
        } else {
            EffectV::Check(podman(secret_exists_args(req.name@), OnFailure::Panic))
        },
        SecretStage::Redrawn(n) => EffectV::Check(
            podman(secret_exists_args(req.name@), OnFailure::Panic),
        ),
        SecretStage::Checked(n, code) => if code == Some(1i32) || (code == Some(0i32)
            && replace_asked(req)) {
            EffectV::Write {
                path: secret_file(dir, req.name@, n@),
                content: file_content(req.data@),
            }
        } else if code == Some(0i32) {
            EffectV::Answer(
                refusal("Either the secret already exists or invalid input was given"@, "POST"@),
            )
        } else {
            EffectV::Answer(
                ReplyV {
                    status: 400,
                    body: message(500, "Server returned unknown response"@, "Internal Server Error"@),
                    log: log_of(500, "Internal Error"@, 6, "POST"@),
                },
            )
        },
        SecretStage::Written(n) => EffectV::Run(
            podman(secret_args(req, secret_file(dir, req.name@, n@)), OnFailure::Report),
        ),
        SecretStage::Created(n, o) => EffectV::Remove(secret_file(dir, req.name@, n@)),
        SecretStage::Cleaned(o) => EffectV::Answer(secret_created(o@)),
    }
}

/// The temporary secret file, as `secret_file` states.
pub fn secret_file_of(dir: &str, name: &str, number: &str) -> (r: String)
    ensures
        r@ == secret_file(dir@, name@, number@),
{
    let mut v = chars_of(dir);
    v.push('/');
    push_all(&mut v, &chars_of(name));
    v.push('_');
    push_all(&mut v, &chars_of(number));
    push_all(&mut v, &chars_of(".tmp"));
    assert(v@ =~= secret_file(dir@, name@, number@));
    string_of(&v)
}

/// The file content for `data`, as `file_content` states.
pub fn file_content_of(data: &str) -> (r: String)
    ensures
        r@ == file_content(data@),
{
    let bar: Vec<char> = vec!['|'];
    let newline: Vec<char> = vec!['\n'];
    assert(bar@ =~= seq!['|']);
    assert(newline@ =~= seq!['\n']);
    let mut v = trimmed_end(&replaced(&chars_of(data), &bar, &newline));
    v.push('\n');
    string_of(&v)
}

/// The label arguments of `labels`, as `label_args` states.
pub fn label_args_of(labels: &str) -> (r: Vec<String>)
    ensures
        texts_of(r@) == label_args(labels@),
{
    if bytes_exceed(&trimmed(&chars_of(labels)), 1) {
        let comma: Vec<char> = vec![','];
        assert(comma@ =~= seq![',']);
        let pieces = split_by(&chars_of(labels), &comma);
        let ghost want = split(labels@, seq![',']).map_values(|p: Seq<char>| label_arg(p));
        let mut out: Vec<String> = no_args();
        let mut i: usize = 0;
        while i < pieces.len()
            invariant
                i <= pieces.len(),
                views_of(pieces@) == split(labels@, seq![',']),
                want == split(labels@, seq![',']).map_values(|p: Seq<char>| label_arg(p)),
                texts_of(out@) == want.take(i as int),
            decreases pieces.len() - i,
        {
            let mut a = chars_of("--label=");
            push_all(&mut a, &trimmed(&pieces[i]));
            assert(pieces@[i as int]@ == views_of(pieces@)[i as int]);
            assert(want[i as int] == label_arg(pieces@[i as int]@));
            out = crate::effect::push_text(out, string_of(&a));
            assert(want.take(i as int).push(want[i as int]) =~= want.take(i + 1));
            i += 1;
        }
        assert(want.take(pieces.len() as int) =~= want);
        out
    } else {
        no_args()
    }
}

/// The answer once the create run is over, as `secret_created` states.
fn secret_created_reply(o: Outcome) -> (r: Reply)
    ensures
        r@ == secret_created(o@),
{
    let sep: Vec<char> = vec!['\n'];
    let joiner: Vec<char> = vec![',', ' '];
    assert(sep@ =~= seq!['\n']);
    assert(joiner@ =~= seq![',', ' ']);
    match o {
        Outcome::Finished(out) => {
            if out.code == Some(0i32) {
                let id = trimmed_end(&out_chars(&out));
                let id_text = string_of(&id);
                let mut extra = chars_of(" oCMAPICreateID=");
                push_all(&mut extra, &chars_of(debug_quoted(id_text.as_str()).as_str()));
                push_all(&mut extra, &chars_of(" oCMAPICreateType=Secret"));
                let v = with(Vec::new(), "Code", Scalar::Text(text("201")));
                let v = with(v, "Info", Scalar::Text(text("Successfully created secret")));
                let v = with(v, "ID", Scalar::Text(id_text));
                let v = with(v, "Status", Scalar::Text(text("Created")));
                let r = Reply {
                    status: 201,
                    body: Body::Object(v),
                    log: record_with(201, "Created", 0, "POST", string_of(&extra)),
                };
                assert(fields_v(v@) =~= seq![
                    ("Code"@, ScalarV::Text("201"@)),
                    ("Info"@, ScalarV::Text("Successfully created secret"@)),
                    ("ID"@, ScalarV::Text(trim_end(out_text(out@)))),
                    ("Status"@, ScalarV::Text("Created"@)),
                ]);
                assert(extra@ =~= " oCMAPICreateID="@ + debug_form(trim_end(out_text(out@)))
                    + " oCMAPICreateType=Secret"@);
                r
            } else {
                let info = replaced(&trimmed_end(&chars_of(out.status_text.as_str())), &sep, &joiner);
                refuse(string_of(&info).as_str(), "POST")
            }
        },
        Outcome::Failed(e) => {
            let info = replaced(&trimmed_end(&chars_of(e.as_str())), &sep, &joiner);
            refuse(string_of(&info).as_str(), "POST")
        },
    }
}

/// Whether `req` asks to replace an existing secret.
fn replace_asked_of(req: &CreateSecret) -> (r: bool)
    ensures
        r == replace_asked(*req),
{
    same(&trimmed(&chars_of(req.replace.as_str())), &chars_of("yes"))
}

/// The arguments of `podman secret create`, as `secret_args` states.
fn secret_args_of(req: &CreateSecret, file: String) -> (r: Vec<String>)
    ensures
        texts_of(r@) == secret_args(*req, file@),
{
    let labels = label_args_of(req.labels.as_str());
    let mut a = arg(arg(no_args(), "secret"), "create");
    let mut i: usize = 0;
    while i < labels.len()
        invariant
            i <= labels.len(),
            texts_of(a@) == seq!["secret"@, "create"@] + texts_of(labels@).take(i as int),
        decreases labels.len() - i,
    {
        let ghost before = texts_of(a@);
        a = crate::effect::push_text(a, labels[i].clone());
        assert(texts_of(labels@)[i as int] == labels@[i as int]@);
        assert(before.push(labels@[i as int]@) =~= seq!["secret"@, "create"@] + texts_of(
            labels@,
        ).take(i + 1));
        i += 1;
    }
    assert(texts_of(labels@).take(labels.len() as int) =~= texts_of(labels@));
    let yes = replace_asked_of(req);
    if yes {
        a = arg(a, "--replace=true");
    }
    let a = crate::effect::push_text(a, req.name.clone());
    let a = crate::effect::push_text(a, file);
    assert(texts_of(a@) =~= secret_args(*req, file@));
    a
}

/// Creates a podman secret from `req` through a temporary file under the
/// secrets directory `dir`. The name and the labels are checked first; the
/// directory must exist; a random number names the temporary file (a
/// second one when that name is taken); `podman secret exists` decides
/// whether the secret is created (exit code 1), replaced (0, when
/// `replace` is `yes`) or refused; the file is written, `podman secret
/// create` run, the file removed, and the answer follows the run.
pub fn post_common_secret(req: &CreateSecret, dir: &str, stage: SecretStage) -> (e: Effect)
    ensures
        e@ == common_secret(*req, dir@, stage),
{
    match stage {
        SecretStage::Start => {
            if refuses(NAME_PATTERN, req.name.as_str()) {
                Effect::Answer(refuse("Name provided is not in correct format", "POST"))
            } else if refuses(LABELS_PATTERN, req.labels.as_str()) {
                Effect::Answer(refuse("Labels provided is not in correct format", "POST"))
            } else {
                Effect::Probe(text(dir))
            }
        },
        SecretStage::Located(found) => {
            if found {
                Effect::Draw
            } else {
                Effect::Answer(refuse("Path do not exist, check configuration", "POST"))
            }
        },
        SecretStage::Drawn(n) => Effect::Probe(
            secret_file_of(dir, req.name.as_str(), n.as_str()),
        ),
        SecretStage::Probed(n, taken) => {
            if taken {
                Effect::Draw
            } else {
                let a = crate::effect::push_text(arg(arg(no_args(), "secret"), "exists"), req.name.clone());
                assert(texts_of(a@) =~= secret_exists_args(req.name@));
                Effect::Check(podman_run(a, OnFailure::Panic))
            }
        },
        SecretStage::Redrawn(n) => {
            let a = crate::effect::push_text(arg(arg(no_args(), "secret"), "exists"), req.name.clone());
            assert(texts_of(a@) =~= secret_exists_args(req.name@));
            Effect::Check(podman_run(a, OnFailure::Panic))
        },
        SecretStage::Checked(n, code) => {
            if code == Some(1i32) || (code == Some(0i32) && replace_asked_of(req)) {
                Effect::Write {
                    path: secret_file_of(dir, req.name.as_str(), n.as_str()),
                    content: file_content_of(req.data.as_str()),
                }
            } else if code == Some(0i32) {
                Effect::Answer(
                    refuse("Either the secret already exists or invalid input was given", "POST"),
                )
            } else {
                Effect::Answer(
                    Reply {
                        status: 400,
                        body: message_body(
                            500,
                            text("Server returned unknown response"),
                            "Internal Server Error",
                        ),
                        log: record(500, "Internal Error", 6, "POST"),
                    },
                )
            }
        },
        SecretStage::Written(n) => {
            let file = secret_file_of(dir, req.name.as_str(), n.as_str());
            Effect::Run(podman_run(secret_args_of(req, file), OnFailure::Report))
        },
        SecretStage::Created(n, o) => Effect::Remove(
            secret_file_of(dir, req.name.as_str(), n.as_str()),
        ),
        SecretStage::Cleaned(o) => Effect::Answer(secret_created_reply(o)),
    }
}

/// The env file a request names: `{dir}/{name}.env`.
pub open spec fn env_file(dir: Seq<char>, name: Seq<char>) -> Seq<char> {
    dir + seq!['/'] + name + ".env"@
}

/// How far an env file request has come.
#[derive(Clone)]
pub enum EnvFileStage {
    /// Nothing has been done yet.
    Start,
    /// Whether the env file already exists.
    Probed(bool),
    /// The env file was written.
    Written,
}

/// What `post_common_envfile` does next for `req`, with the env file
/// directory `dir`, at `stage`.
pub open spec fn common_envfile(req: CreateEnvFile, dir: Seq<char>, stage: EnvFileStage) -> EffectV {
    let path = env_file(dir, req.name@);
    match stage {
        EnvFileStage::Start => if refused_by(NAME_PATTERN@, req.name@) {
            EffectV::Answer(refusal("Name provided is not in correct format"@, "POST"@))
        } else {
            EffectV::Probe(path)
        },
        EnvFileStage::Probed(exists) => if req.replace@ != "no"@ && req.replace@ != "yes"@ {
            EffectV::Answer(refusal("Replace tag must contain only yes or no"@, "POST"@))
        } else if req.replace@ == "yes"@ || !exists {
            EffectV::Write { path, content: file_content(req.content@) }
        } else {
            EffectV::Answer(
                ReplyV {
                    status: 400,
                    body: message(400, "File already exist, set replace to yes or change the name"@, "Bad Request"@),
                    log: log_of(400, "Bad Request"@, 6, "POST"@),
                },
            )
        },
        EnvFileStage::Written => EffectV::Answer(
            ReplyV {
                status: 201,
                body: BodyV::Object(
                    seq![
                        ("Code"@, ScalarV::Text("201"@)),
                        ("Info"@, ScalarV::Text("Successfully created env file"@)),
                        ("File"@, ScalarV::Text(path)),
                        ("Status"@, ScalarV::Text("Created"@)),
                    ],
                ),
                log: log_extra(201, "Created"@, 0, "POST"@, " oCMAPIEnvFile="@ + path + " oCMAPICreateType=EnvFile"@),
            },
        ),
    }
}

/// The env file a request names, as `env_file` states.
fn env_file_of(dir: &str, name: &str) -> (r: String)
    ensures
        r@ == env_file(dir@, name@),
{
    let mut v = chars_of(dir);
    v.push('/');
    push_all(&mut v, &chars_of(name));
    push_all(&mut v, &chars_of(".env"));
    assert(v@ =~= env_file(dir@, name@));
    string_of(&v)
}

/// Creates an env file: the name must pass the name check and `replace`
/// must be `yes` or `no`. With `yes` the file `{dir}/{name}.env` is written
/// whether or not it exists (a new file, or the old one overwritten); with
/// `no` it is written only when it does not exist yet, and an existing file
/// is answered with 400 "File already exist, set replace to yes or change
/// the name". The content's `|` become line breaks.
pub fn post_common_envfile(req: &CreateEnvFile, dir: &str, stage: EnvFileStage) -> (e: Effect)
    ensures
        e@ == common_envfile(*req, dir@, stage),
{
    let path = env_file_of(dir, req.name.as_str());
    match stage {
        EnvFileStage::Start => {
            if refuses(NAME_PATTERN, req.name.as_str()) {
                Effect::Answer(refuse("Name provided is not in correct format", "POST"))
            } else {
                Effect::Probe(path)
            }
        },
        EnvFileStage::Probed(exists) => {
            let replace = req.replace.as_str();
            let yes = crate::text::same_text(replace, "yes");
            let no = crate::text::same_text(replace, "no");
            if !no && !yes {
                Effect::Answer(refuse("Replace tag must contain only yes or no", "POST"))
            } else if yes || !exists {
                Effect::Write { path, content: file_content_of(req.content.as_str()) }
            } else {
                Effect::Answer(
                    Reply {
                        status: 400,
                        body: message_body(
                            400,
                            text("File already exist, set replace to yes or change the name"),
                            "Bad Request",
                        ),
                        log: record(400, "Bad Request", 6, "POST"),
                    },
                )
            }
        },
        EnvFileStage::Written => {
            let mut extra = chars_of(" oCMAPIEnvFile=");
            push_all(&mut extra, &chars_of(path.as_str()));
            push_all(&mut extra, &chars_of(" oCMAPICreateType=EnvFile"));
            assert(extra@ =~= " oCMAPIEnvFile="@ + path@ + " oCMAPICreateType=EnvFile"@);
            let v = with(Vec::new(), "Code", Scalar::Text(text("201")));
            let v = with(v, "Info", Scalar::Text(text("Successfully created env file")));
            let v = with(v, "File", Scalar::Text(path));
            let v = with(v, "Status", Scalar::Text(text("Created")));
            assert(fields_v(v@) =~= seq![
                ("Code"@, ScalarV::Text("201"@)),
                ("Info"@, ScalarV::Text("Successfully created env file"@)),
                ("File"@, ScalarV::Text(env_file(dir@, req.name@))),
                ("Status"@, ScalarV::Text("Created"@)),
            ]);
            Effect::Answer(
                Reply {
                    status: 201,
                    body: Body::Object(v),
                    log: record_with(201, "Created", 0, "POST", string_of(&extra)),
                },
            )
        },
    }
}

/// What deleting the file `{dir}/{name}{ext}` does next: the name must pass
/// the name check (else a refusal), the key must be the configured common
/// key (else a refusal with `key_info`), then the file is removed and
/// `done` says whether that worked; `kind` names the file in the log.
pub open spec fn file_delete(
    name: Seq<char>,
    given: Seq<char>,
    key: Seq<char>,
    dir: Seq<char>,
    ext: Seq<char>,
    key_info: Seq<char>,
    fail_info: Seq<char>,
    kind: Seq<char>,
    done: Option<bool>,
) -> EffectV {
    match done {
        None => if refused_by(NAME_PATTERN@, name) {
            EffectV::Answer(refusal("Name provided is not in correct format"@, "DELETE"@))
        } else if given.len() == 0 || given != key {
            EffectV::Answer(refusal(key_info, "DELETE"@))
        } else {
            EffectV::Remove(dir + seq!['/'] + name + ext)
        },
        Some(true) => EffectV::Answer(
            ReplyV {
                status: 200,
                body: BodyV::Object(
                    seq![
                        ("Code"@, ScalarV::Int(200)),
                        ("Info"@, ScalarV::Text("File has been deleted"@)),
                        ("File"@, ScalarV::Text(name + ext)),
                        ("Status"@, ScalarV::Text("OK"@)),
                    ],
                ),
                log: log_extra(
                    200,
                    "Request OK"@,
                    0,
                    "DELETE"@,
                    " oCMAPIDeleteID="@ + name + " oCMAPIDeleteType="@ + kind,
                ),
            },
        ),
        Some(false) => EffectV::Answer(refusal(fail_info, "DELETE"@)),
    }
}

/// Deletes a file, as `file_delete` states.
fn delete_file(
    name: &str,
    given: &str,
    key: &str,
    dir: &str,
    ext: &str,
    key_info: &str,
    fail_info: &str,
    kind: &str,
    done: Option<bool>,
) -> (e: Effect)
    ensures
        e@ == file_delete(name@, given@, key@, dir@, ext@, key_info@, fail_info@, kind@, done),
{
    match done {
        None => {
            if refuses(NAME_PATTERN, name) {
                Effect::Answer(refuse("Name provided is not in correct format", "DELETE"))
            } else if given.is_empty() || !crate::text::same_text(given, key) {
                Effect::Answer(refuse(key_info, "DELETE"))
            } else {
                let mut v = chars_of(dir);
                v.push('/');
                push_all(&mut v, &chars_of(name));
                push_all(&mut v, &chars_of(ext));
                assert(v@ =~= dir@ + seq!['/'] + name@ + ext@);
                Effect::Remove(string_of(&v))
            }
        },
        Some(true) => {
            let mut file = chars_of(name);
            push_all(&mut file, &chars_of(ext));
            let mut extra = chars_of(" oCMAPIDeleteID=");
            push_all(&mut extra, &chars_of(name));
            push_all(&mut extra, &chars_of(" oCMAPIDeleteType="));
            push_all(&mut extra, &chars_of(kind));
            assert(extra@ =~= " oCMAPIDeleteID="@ + name@ + " oCMAPIDeleteType="@ + kind@);
            let v = with(Vec::new(), "Code", Scalar::Int(200));
            let v = with(v, "Info", Scalar::Text(text("File has been deleted")));
            let v = with(v, "File", Scalar::Text(string_of(&file)));
            let v = with(v, "Status", Scalar::Text(text("OK")));
            assert(fields_v(v@) =~= seq![
                ("Code"@, ScalarV::Int(200)),
                ("Info"@, ScalarV::Text("File has been deleted"@)),
                ("File"@, ScalarV::Text(name@ + ext@)),
                ("Status"@, ScalarV::Text("OK"@)),
            ]);
            Effect::Answer(
                Reply {
                    status: 200,
                    body: Body::Object(v),
                    log: record_with(200, "Request OK", 0, "DELETE", string_of(&extra)),
                },
            )
        },
        Some(false) => Effect::Answer(refuse(fail_info, "DELETE")),
    }
}

/// Deletes the env file `{dir}/{name}.env`, once the name and the common
/// key `key` pass their checks.
pub fn delete_common_envfile(req: &DeleteEnvFile, key: &str, dir: &str, done: Option<bool>) -> (e: Effect)
    ensures
        e@ == file_delete(
            req.name@,
            req.key@,
            key@,
            dir@,
            ".env"@,
            "Information missing or bad data"@,
            "File could not be deleted"@,
            "envfile"@,
            done,
        ),
{
    delete_file(
        req.name.as_str(),
        req.key.as_str(),
        key,
        dir,
        ".env",
        "Information missing or bad data",
        "File could not be deleted",
        "envfile",
        done,
    )
}

/// Deletes the secret file `{dir}/{name}.tmp`, once the name and the
/// common key `key` pass their checks.
pub fn delete_common_secfile(req: &DeleteSecFile, key: &str, dir: &str, done: Option<bool>) -> (e: Effect)
    ensures
        e@ == file_delete(
            req.name@,
            req.key@,
            key@,
            dir@,
            ".tmp"@,
            "Missing or incorrect data"@,
            "File could nbot be deleted"@,
            "secfile"@,
            done,
        ),
{
    delete_file(
        req.name.as_str(),
        req.key.as_str(),
        key,
        dir,
        ".tmp",
        "Missing or incorrect data",
        "File could nbot be deleted",
        "secfile",
        done,
    )
}

/// The stage a secret request reaches when the effect asked for at `stage`
/// brought back `ev`; `None` when `ev` does not answer that effect.
pub open spec fn secret_next(stage: SecretStage, ev: Event) -> Option<SecretStage> {
    match stage {
        SecretStage::Start => match ev {
            Event::Exists(b) => Some(SecretStage::Located(b)),
            _ => None,
        },
        SecretStage::Located(_) => match ev {
            Event::Drawn(n) => Some(SecretStage::Drawn(n)),
            _ => None,
        },
        SecretStage::Drawn(n) => match ev {
            Event::Exists(b) => Some(SecretStage::Probed(n, b)),
            _ => None,
        },
        SecretStage::Probed(n, _) => match ev {
            Event::Drawn(m) => Some(SecretStage::Redrawn(m)),
            Event::Code(c) => Some(SecretStage::Checked(n, c)),
            _ => None,
        },
        SecretStage::Redrawn(n) => match ev {
            Event::Code(c) => Some(SecretStage::Checked(n, c)),
            _ => None,
        },
        SecretStage::Checked(n, _) => match ev {
            Event::Written => Some(SecretStage::Written(n)),
            _ => None,
        },
        SecretStage::Written(n) => match ev {
            Event::Ran(o) => Some(SecretStage::Created(n, o)),
            _ => None,
        },
        SecretStage::Created(_, o) => match ev {
            Event::Removed(_) => Some(SecretStage::Cleaned(o)),
            _ => None,
        },
        SecretStage::Cleaned(_) => None,
    }
}

/// The stage a secret request reaches, as `secret_next` states.
pub fn post_common_secret_next(stage: SecretStage, ev: Event) -> (r: Option<SecretStage>)
    ensures
        r == secret_next(stage, ev),
{
    match stage {
        SecretStage::Start => match ev {
            Event::Exists(b) => Some(SecretStage::Located(b)),
            _ => None,
        },
        SecretStage::Located(_) => match ev {
            Event::Drawn(n) => Some(SecretStage::Drawn(n)),
            _ => None,
        },
        SecretStage::Drawn(n) => match ev {
            Event::Exists(b) => Some(SecretStage::Probed(n, b)),
            _ => None,
        },
        SecretStage::Probed(n, _) => match ev {
            Event::Drawn(m) => Some(SecretStage::Redrawn(m)),
            Event::Code(c) => Some(SecretStage::Checked(n, c)),
            _ => None,
        },
        SecretStage::Redrawn(n) => match ev {
            Event::Code(c) => Some(SecretStage::Checked(n, c)),
            _ => None,
        },
        SecretStage::Checked(n, _) => match ev {
            Event::Written => Some(SecretStage::Written(n)),
            _ => None,
        },
        SecretStage::Written(n) => match ev {
            Event::Ran(o) => Some(SecretStage::Created(n, o)),
            _ => None,
        },
        SecretStage::Created(_, o) => match ev {
            Event::Removed(_) => Some(SecretStage::Cleaned(o)),
            _ => None,
        },
        SecretStage::Cleaned(_) => None,
    }
}

/// The stage an env file request reaches when the effect asked for at
/// `stage` brought back `ev`; `None` when `ev` does not answer that effect.
pub open spec fn envfile_next(stage: EnvFileStage, ev: Event) -> Option<EnvFileStage> {
    match stage {
        EnvFileStage::Start => match ev {
            Event::Exists(b) => Some(EnvFileStage::Probed(b)),
            _ => None,
        },
        EnvFileStage::Probed(_) => match ev {
            Event::Written => Some(EnvFileStage::Written),
            _ => None,
        },
        EnvFileStage::Written => None,
    }
}

/// The stage an env file request reaches, as `envfile_next` states.
pub fn post_common_envfile_next(stage: EnvFileStage, ev: Event) -> (r: Option<EnvFileStage>)
    ensures
        r == envfile_next(stage, ev),
{
    match stage {
        EnvFileStage::Start => match ev {
            Event::Exists(b) => Some(EnvFileStage::Probed(b)),
            _ => None,
        },
        EnvFileStage::Probed(_) => match ev {
            Event::Written => Some(EnvFileStage::Written),
            _ => None,
        },
        EnvFileStage::Written => None,
    }
}

} // verus!
