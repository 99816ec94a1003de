//! The common part of the API: podman's own state, images, repositories,
//! env files and secrets.
use vstd::prelude::*;
use crate::checks::{
    IMAGE_REF_PATTERN, NAME_PATTERN, PASSWORD_PATTERN, REPOSITORY_PATTERN, VERSION_PATTERN,
    refused_by, refuses,
};
use crate::effect::{
    Effect, EffectV, Invocation, InvocationV, OnFailure, Outcome, OutcomeV, Output, OutputV,
    outcome_v, output_v, push_text,
};
use crate::models::{DeleteImages, GetImage, GetImageInfo, RepoLogOut, RepoLogin};
use crate::output::{arg, bracket, bracketed, err_chars, err_text, no_args, out_chars, out_text, podman, podman_run};
use crate::reply::{
    Body, BodyV, Field, Reply, ReplyV, Scalar, ScalarV, answer, answered, fields_v, log_extra,
    log_of, message, message_body, record, record_with, refusal, refuse, serve, served, text, with,
};
use crate::text::{
    chars_of, concat2, contains, decimal, decimal_of, includes, push_all, replace_all, replaced,
    string_of, texts_of, trim, trimmed,
};

verus! {

/// `podman stats --no-stream --format=json`.
pub open spec fn stats_run_args() -> Seq<Seq<char>> {
    seq!["stats"@, "--no-stream"@, "--format=json"@]
}

/// What `get_common_stats` does next, given the outcome of the stats run
/// once there is one.
pub open spec fn common_stats(done: Option<OutcomeV>) -> EffectV {
    match done {
        None => EffectV::Run(podman(stats_run_args(), OnFailure::Report)),
        Some(OutcomeV::Finished(o)) => if o.stdout.len() > 4 {
            EffectV::Answer(
                ReplyV {
                    status: 200,
                    body: BodyV::Raw(trim(out_text(o))),
                    log: log_of(200, "Request OK"@, 0, "GET"@),
                },
            )
        } else {
            EffectV::Answer(
                ReplyV {
                    status: 404,
                    body: BodyV::Object(
                        seq![
                            ("Code"@, ScalarV::Int(404)),
                            ("Message"@, ScalarV::Text("No stats available, No containers running?"@)),
                            ("Error"@, ScalarV::Text("Empty Respons"@)),
                        ],
                    ),
                    log: log_of(404, "Not Found"@, 4, "GET"@),
                },
            )
        },
        Some(OutcomeV::Failed(e)) => EffectV::Answer(
            ReplyV {
                status: 500,
                body: message(500, e, "Internal Server Error"@),
                log: log_of(500, "Internal Server Error"@, 6, "GET"@),
            },
        ),
    }
}

/// Resource use of the running containers: first runs
/// `podman stats --no-stream --format=json`, then answers with its trimmed
/// output when it holds more than four bytes, with 404 when it does not,
/// and with 500 when podman could not be run.
pub fn get_common_stats(done: Option<Outcome>) -> (e: Effect)
    ensures
        e@ == common_stats(outcome_v(done)),
{
    match done {
        None => {
            let a = arg(arg(arg(no_args(), "stats"), "--no-stream"), "--format=json");
            assert(texts_of(a@) =~= stats_run_args());
            Effect::Run(podman_run(a, OnFailure::Report))
        },
        Some(Outcome::Finished(o)) => {
            if o.stdout.len() > 4 {
                let data = string_of(&trimmed(&out_chars(&o)));
                Effect::Answer(
                    Reply { status: 200, body: Body::Raw(data), log: record(200, "Request OK", 0, "GET") },
                )
            } else {
                let v = with(Vec::new(), "Code", Scalar::Int(404));
                let v = with(v, "Message", Scalar::Text(text("No stats available, No containers running?")));
                let v = with(v, "Error", Scalar::Text(text("Empty Respons")));
                let e = Effect::Answer(
                    Reply { status: 404, body: Body::Object(v), log: record(404, "Not Found", 4, "GET") },
                );
                assert(e@ == common_stats(outcome_v(done))) by {
                    assert(crate::reply::fields_v(v@) =~= seq![
                        ("Code"@, ScalarV::Int(404)),
                        ("Message"@, ScalarV::Text("No stats available, No containers running?"@)),
                        ("Error"@, ScalarV::Text("Empty Respons"@)),
                    ]);
                }
                e
            }
        },
        Some(Outcome::Failed(err)) => Effect::Answer(
            Reply {
                status: 500,
                body: message_body(500, err, "Internal Server Error"),
                log: record(500, "Internal Server Error", 6, "GET"),
            },
        ),
    }
}

/// The `--format` argument that lists every image.
pub const IMAGE_LIST_FORMAT: &'static str = "--format=\n            { \"Names\": {{json .Names}},\n            \"ImageSize\": {{json .VirtualSize}},\n            \"Created\": {{json .CreatedAt}} },";

/// The 400 answer of the listing requests when the program could not be
/// run, logged with the status text `Internal Server Error`.
pub open spec fn listing_failed(e: Seq<char>) -> ReplyV {
    ReplyV {
        status: 400,
        body: message(400, e, "Bad Request"@),
        log: log_of(400, "Internal Server Error"@, 4, "GET"@),
    }
}

/// The 400 answer of the listing requests when the program could not be
/// run, as `listing_failed` states.
fn listing_failed_reply(e: String) -> (r: Reply)
    ensures
        r@ == listing_failed(e@),
{
    Reply {
        status: 400,
        body: message_body(400, e, "Bad Request"),
        log: record(400, "Internal Server Error", 4, "GET"),
    }
}

/// What `get_common_version` does next.
pub open spec fn common_version(done: Option<OutcomeV>) -> EffectV {
    match done {
        None => EffectV::Run(podman(seq!["version"@, "--format=json"@], OnFailure::Report)),
        Some(OutcomeV::Finished(o)) => EffectV::Answer(served(out_text(o))),
        Some(OutcomeV::Failed(e)) => EffectV::Answer(refusal(e, "GET"@)),
    }
}

/// Podman's version: runs `podman version --format=json` and answers with
/// what it printed.
pub fn get_common_version(done: Option<Outcome>) -> (e: Effect)
    ensures
        e@ == common_version(outcome_v(done)),
{
    match done {
        None => {
            let a = arg(arg(no_args(), "version"), "--format=json");
            assert(texts_of(a@) =~= seq!["version"@, "--format=json"@]);
            Effect::Run(podman_run(a, OnFailure::Report))
        },
        Some(Outcome::Finished(o)) => Effect::Answer(serve(string_of(&out_chars(&o)))),
        Some(Outcome::Failed(err)) => Effect::Answer(refuse(err.as_str(), "GET")),
    }
}

/// What `get_common_info` does next.
pub open spec fn common_info(done: Option<OutcomeV>) -> EffectV {
    match done {
        None => EffectV::Run(podman(seq!["info"@, "--format=json"@], OnFailure::Report)),
        Some(OutcomeV::Finished(o)) => EffectV::Answer(served(out_text(o))),
        Some(OutcomeV::Failed(e)) => EffectV::Answer(listing_failed(e)),
    }
}

/// Podman's system information: runs `podman info --format=json` and
/// answers with what it printed.
pub fn get_common_info(done: Option<Outcome>) -> (e: Effect)
    ensures
        e@ == common_info(outcome_v(done)),
{
    match done {
        None => {
            let a = arg(arg(no_args(), "info"), "--format=json");
            assert(texts_of(a@) =~= seq!["info"@, "--format=json"@]);
            Effect::Run(podman_run(a, OnFailure::Report))
        },
        Some(Outcome::Finished(o)) => Effect::Answer(serve(string_of(&out_chars(&o)))),
        Some(Outcome::Failed(err)) => Effect::Answer(listing_failed_reply(err)),
    }
}

/// The image records podman printed, made a JSON list: bracketed, with a
/// comma before a line break and the closing bracket removed.
pub open spec fn image_listing(out: Seq<char>) -> Seq<char> {
    replace_all(bracketed(out), seq![',', '\n', ']'], seq![']'])
}

/// What `get_common_image_list` does next.
pub open spec fn common_image_list(done: Option<OutcomeV>) -> EffectV {
    match done {
        None => EffectV::Run(podman(seq!["image"@, "ls"@, IMAGE_LIST_FORMAT@], OnFailure::Report)),
        Some(OutcomeV::Finished(o)) => EffectV::Answer(served(image_listing(out_text(o)))),
        Some(OutcomeV::Failed(e)) => EffectV::Answer(listing_failed(e)),
    }
}

/// Every image: runs `podman image ls` and answers with its records as a
/// JSON list.
pub fn get_common_image_list(done: Option<Outcome>) -> (e: Effect)
    ensures
        e@ == common_image_list(outcome_v(done)),
{
    match done {
        None => {
            let a = arg(arg(arg(no_args(), "image"), "ls"), IMAGE_LIST_FORMAT);
            assert(texts_of(a@) =~= seq!["image"@, "ls"@, IMAGE_LIST_FORMAT@]);
            Effect::Run(podman_run(a, OnFailure::Report))
        },
        Some(Outcome::Finished(o)) => {
            let tail: Vec<char> = vec![',', '\n', ']'];
            let close: Vec<char> = vec![']'];
            assert(tail@ =~= seq![',', '\n', ']']);
            assert(close@ =~= seq![']']);
            Effect::Answer(serve(string_of(&replaced(&bracket(&out_chars(&o)), &tail, &close))))
        },
        Some(Outcome::Failed(err)) => Effect::Answer(listing_failed_reply(err)),
    }
}

/// The body of a directory listing: with no output,
/// `{"Code": 200, "Info": none, "State": 0, "Status": "OK"}`; with more than
/// four bytes, the file names joined by commas under `Files` and `State` 1;
/// and an empty object for anything in between.
pub open spec fn files_body(o: OutputV, none: Seq<char>, found: Seq<char>) -> BodyV {
    if o.stdout.len() == 0 {
        BodyV::Object(
            seq![
                ("Code"@, ScalarV::Int(200)),
                ("Info"@, ScalarV::Text(none)),
                ("State"@, ScalarV::Int(0)),
                ("Status"@, ScalarV::Text("OK"@)),
            ],
        )
    } else if o.stdout.len() > 4 {
        BodyV::Object(
            seq![
                ("Code"@, ScalarV::Int(200)),
                ("Info"@, ScalarV::Text(found)),
                ("Files"@, ScalarV::Text(replace_all(out_text(o), seq!['\n'], seq![',']))),
                ("State"@, ScalarV::Int(1)),
                ("Status"@, ScalarV::Text("OK"@)),
            ],
        )
    } else {
        BodyV::Object(seq![])
    }
}

/// What listing the directory `dir` does next: `ls -1 {dir}/` runs, and its
/// output is described by `files_body`.
pub open spec fn files_listed(dir: Seq<char>, none: Seq<char>, found: Seq<char>, done: Option<OutcomeV>) -> EffectV {
    match done {
        None => EffectV::Run(
            InvocationV { program: "ls"@, args: seq!["-1"@, dir + "/"@], on_failure: OnFailure::Report },
        ),
        Some(OutcomeV::Finished(o)) => EffectV::Answer(
            ReplyV { status: 200, body: files_body(o, none, found), log: log_of(200, "Request OK"@, 0, "GET"@) },
        ),
        Some(OutcomeV::Failed(e)) => EffectV::Answer(listing_failed(e)),
    }
}

/// Lists the directory `dir`, as `files_listed` states.
fn list_files(dir: &str, none: &str, found: &str, done: Option<Outcome>) -> (e: Effect)
    ensures
        e@ == files_listed(dir@, none@, found@, outcome_v(done)),
{
    match done {
        None => {
            let a = push_text(arg(no_args(), "-1"), concat2(dir, "/"));
            assert(texts_of(a@) =~= seq!["-1"@, dir@ + "/"@]);
            Effect::Run(Invocation { program: text("ls"), args: a, on_failure: OnFailure::Report })
        },
        Some(Outcome::Finished(o)) => {
            let v: Vec<Field> = if o.stdout.len() == 0 {
                let v = with(Vec::new(), "Code", Scalar::Int(200));
                let v = with(v, "Info", Scalar::Text(text(none)));
                let v = with(v, "State", Scalar::Int(0));
                let v = with(v, "Status", Scalar::Text(text("OK")));
                assert(fields_v(v@) =~= seq![
                    ("Code"@, ScalarV::Int(200)),
                    ("Info"@, ScalarV::Text(none@)),
                    ("State"@, ScalarV::Int(0)),
                    ("Status"@, ScalarV::Text("OK"@)),
                ]);
                v
            } else if o.stdout.len() > 4 {
                let newline: Vec<char> = vec!['\n'];
                let comma: Vec<char> = vec![','];
                assert(newline@ =~= seq!['\n']);
                assert(comma@ =~= seq![',']);
                let files = string_of(&replaced(&out_chars(&o), &newline, &comma));
                let v = with(Vec::new(), "Code", Scalar::Int(200));
                let v = with(v, "Info", Scalar::Text(text(found)));
                let v = with(v, "Files", Scalar::Text(files));
                let v = with(v, "State", Scalar::Int(1));
                let v = with(v, "Status", Scalar::Text(text("OK")));
                assert(fields_v(v@) =~= seq![
                    ("Code"@, ScalarV::Int(200)),
                    ("Info"@, ScalarV::Text(found@)),
                    ("Files"@, ScalarV::Text(replace_all(out_text(o@), seq!['\n'], seq![',']))),
                    ("State"@, ScalarV::Int(1)),
                    ("Status"@, ScalarV::Text("OK"@)),
                ]);
                v
            } else {
                let v: Vec<Field> = Vec::new();
                assert(fields_v(v@) =~= seq![]);
                v
            };
            Effect::Answer(Reply { status: 200, body: Body::Object(v), log: record(200, "Request OK", 0, "GET") })
        },
        Some(Outcome::Failed(err)) => Effect::Answer(listing_failed_reply(err)),
    }
}

/// The env files in the directory `env_path`, listed with `ls -1`.
pub fn get_common_env_files(env_path: &str, done: Option<Outcome>) -> (e: Effect)
    ensures
        e@ == files_listed(env_path@, "No .env files found"@, "Found .env files"@, outcome_v(done)),
{
    list_files(env_path, "No .env files found", "Found .env files", done)
}

/// The secret files in the directory `sec_path`, listed with `ls -1`.
pub fn get_common_secret_files(sec_path: &str, done: Option<Outcome>) -> (e: Effect)
    ensures
        e@ == files_listed(sec_path@, "No secrets files found"@, "Found secret files"@, outcome_v(done)),
{
    list_files(sec_path, "No secrets files found", "Found secret files", done)
}

/// What `post_common_image_list_single` does next for `req`.
pub open spec fn image_list_single(req: GetImageInfo, done: Option<OutcomeV>) -> EffectV {
    match done {
        None => if req.name@.len() == 0 || refused_by(IMAGE_REF_PATTERN@, req.name@) {
            EffectV::Answer(refusal("Information provided is not in correct format"@, "POST"@))
        } else {
            EffectV::Run(podman(seq!["image"@, "inspect"@, req.name@, "--format=json"@], OnFailure::Report))
        },
        Some(OutcomeV::Finished(o)) => EffectV::Answer(served(out_text(o))),
        Some(OutcomeV::Failed(e)) => EffectV::Answer(listing_failed(e)),
    }
}

/// One image's details: the name must be non-empty and pass the image
/// reference check; `podman image inspect {name} --format=json` then runs
/// and its output is the answer.
pub fn post_common_image_list_single(req: &GetImageInfo, done: Option<Outcome>) -> (e: Effect)
    ensures
        e@ == image_list_single(*req, outcome_v(done)),
{
    match done {
        None => {
            if req.name.as_str().is_empty() || refuses(IMAGE_REF_PATTERN, req.name.as_str()) {
                Effect::Answer(refuse("Information provided is not in correct format", "POST"))
            } else {
                let a = arg(push_text(arg(arg(no_args(), "image"), "inspect"), req.name.clone()), "--format=json");
                assert(texts_of(a@) =~= seq!["image"@, "inspect"@, req.name@, "--format=json"@]);
                Effect::Run(podman_run(a, OnFailure::Report))
            }
        },
        Some(Outcome::Finished(o)) => Effect::Answer(serve(string_of(&out_chars(&o)))),
        Some(Outcome::Failed(err)) => Effect::Answer(listing_failed_reply(err)),
    }
}

/// Whether a pull request names a repository, image or version that its
/// checks refuse.
pub open spec fn pull_refused(req: GetImage) -> bool {
    refused_by(REPOSITORY_PATTERN@, req.repository@) || refused_by(NAME_PATTERN@, req.image@)
        || refused_by(VERSION_PATTERN@, req.version@)
}

/// The image reference pulled for `req`: `{repository}/{image}:{version}`,
/// each part trimmed.
pub open spec fn pull_reference(req: GetImage) -> Seq<char> {
    trim(req.repository@) + seq!['/'] + trim(req.image@) + seq![':'] + trim(req.version@)
}

/// What a failed pull is reported as, from podman's error output.
pub open spec fn pull_error(err: Seq<char>) -> Seq<char> {
    if contains(err, "invalid character"@) {
        "Return data contains invalid characters"@
    } else if contains(err, "manifest unknown"@) {
        "Cannot find image at source, manifest unknown"@
    } else if contains(err, "no such host"@) {
        "Cannot connect to repository no such host"@
    } else if contains(err, "authentication required"@) {
        "Cannot download image, authentication required"@
    } else {
        "Unknown Error"@
    }
}

/// Whether the text `s` holds the text `pat`, as `contains` states.
fn holds(s: &Vec<char>, pat: &str) -> (r: bool)
    ensures
        r == contains(s@, pat@),
{
    includes(s, &chars_of(pat))
}

/// What a failed pull is reported as, as `pull_error` states.
fn pull_error_of(err: &Vec<char>) -> (r: &'static str)
    ensures
        r@ == pull_error(err@),
{
    if holds(err, "invalid character") {
        "Return data contains invalid characters"
    } else if holds(err, "manifest unknown") {
        "Cannot find image at source, manifest unknown"
    } else if holds(err, "no such host") {
        "Cannot connect to repository no such host"
    } else if holds(err, "authentication required") {
        "Cannot download image, authentication required"
    } else {
        "Unknown Error"
    }
}

/// What `post_common_container_image` does next for `req`.
pub open spec fn container_image(req: GetImage, done: Option<OutcomeV>) -> EffectV {
    match done {
        None => if pull_refused(req) {
            EffectV::Answer(refusal("Information provided is not in correct format"@, "POST"@))
        } else {
            EffectV::Run(podman(seq!["image"@, "pull"@, pull_reference(req)], OnFailure::Report))
        },
        Some(OutcomeV::Finished(o)) => if o.stdout.len() > 0 {
            EffectV::Answer(
                ReplyV {
                    status: 201,
                    body: BodyV::Object(
                        seq![
                            ("Code"@, ScalarV::Text("201"@)),
                            ("Info"@, ScalarV::Text("Image successfully pulled"@)),
                            ("ID"@, ScalarV::Text(trim(out_text(o)))),
                            ("Status"@, ScalarV::Text("Created"@)),
                        ],
                    ),
                    log: log_of(201, "Created"@, 0, "GET"@),
                },
            )
        } else {
            EffectV::Answer(refusal(pull_error(err_text(o)), "POST"@))
        },
        Some(OutcomeV::Failed(e)) => EffectV::Answer(refusal(e, "POST"@)),
    }
}

/// Pulls an image: repository, image and version must pass their checks;
/// `podman image pull {repository}/{image}:{version}` then runs, and the
/// identifier it prints is the answer, or its error output is read for
/// the reason of the failure.
pub fn post_common_container_image(req: &GetImage, done: Option<Outcome>) -> (e: Effect)
    ensures
        e@ == container_image(*req, outcome_v(done)),
{
    match done {
        None => {
            if refuses(REPOSITORY_PATTERN, req.repository.as_str()) || refuses(NAME_PATTERN, req.image.as_str())
                || refuses(VERSION_PATTERN, req.version.as_str()) {
                Effect::Answer(refuse("Information provided is not in correct format", "POST"))
            } else {
                let mut r = trimmed(&chars_of(req.repository.as_str()));
                r.push('/');
                push_all(&mut r, &trimmed(&chars_of(req.image.as_str())));
                r.push(':');
                push_all(&mut r, &trimmed(&chars_of(req.version.as_str())));
                assert(r@ =~= pull_reference(*req));
                let a = push_text(arg(arg(no_args(), "image"), "pull"), string_of(&r));
                assert(texts_of(a@) =~= seq!["image"@, "pull"@, pull_reference(*req)]);
                Effect::Run(podman_run(a, OnFailure::Report))
            }
        },
        Some(Outcome::Finished(o)) => {
            if o.stdout.len() > 0 {
                let v = with(Vec::new(), "Code", Scalar::Text(text("201")));
                let v = with(v, "Info", Scalar::Text(text("Image successfully pulled")));
                let v = with(v, "ID", Scalar::Text(string_of(&trimmed(&out_chars(&o)))));
                let v = with(v, "Status", Scalar::Text(text("Created")));
                assert(fields_v(v@) =~= seq![
                    ("Code"@, ScalarV::Text("201"@)),
                    ("Info"@, ScalarV::Text("Image successfully pulled"@)),
                    ("ID"@, ScalarV::Text(trim(out_text(o@)))),
                    ("Status"@, ScalarV::Text("Created"@)),
                ]);
                Effect::Answer(Reply { status: 201, body: Body::Object(v), log: record(201, "Created", 0, "GET") })
            } else {
                Effect::Answer(refuse(pull_error_of(&err_chars(&o)), "POST"))
            }
        },
        Some(Outcome::Failed(err)) => Effect::Answer(refuse(err.as_str(), "POST")),
    }
}

/// Whether a login request is refused: an empty repository, user name or
/// password, or one that its check refuses.
pub open spec fn login_refused(req: RepoLogin) -> bool {
    req.username@.len() == 0 || req.password@.len() == 0 || req.repository@.len() == 0
        || refused_by(REPOSITORY_PATTERN@, req.repository@) || refused_by(VERSION_PATTERN@, req.username@)
        || refused_by(PASSWORD_PATTERN@, req.password@)
}

/// The command line, run in bash under a pseudo terminal, that logs in to
/// the repository of `req`.
pub open spec fn login_command(req: RepoLogin) -> Seq<char> {
    "podman login '"@ + req.repository@ + "' --username='"@ + req.username@ + "' --password='"@
        + req.password@ + "'"@
}

/// What a failed login is reported as, from what the command printed.
pub open spec fn login_error(out: Seq<char>) -> Seq<char> {
    if contains(out, "invalid username"@) {
        "Cannot login, invalid username/password"@
    } else if contains(out, "no such host"@) {
        "Cannot connect to source, no such host"@
    } else {
        "Unknown Error"@
    }
}

/// What `post_common_repository_login` does next for `req`.
pub open spec fn repository_login(req: RepoLogin, done: Option<OutputV>) -> EffectV {
    match done {
        None => if login_refused(req) {
            EffectV::Answer(refusal("Information provided is not in correct format"@, "POST"@))
        } else {
            EffectV::Shell(login_command(req))
        },
        Some(o) => if o.code == Some(0i32) {
            EffectV::Answer(
                answered(200, 200, "Successfully logged in to repository"@, "OK"@, log_of(200, "Created"@, 0, "GET"@)),
            )
        } else {
            EffectV::Answer(refusal(login_error(out_text(o)), "POST"@))
        },
    }
}

/// Logs in to a repository: repository, user name and password must be
/// non-empty and pass their checks; `podman login` then runs in bash, and
/// its exit code 0 means success.
pub fn post_common_repository_login(req: &RepoLogin, done: Option<Output>) -> (e: Effect)
    ensures
        e@ == repository_login(*req, output_v(done)),
{
    match done {
        None => {
            if req.username.as_str().is_empty() || req.password.as_str().is_empty()
                || req.repository.as_str().is_empty() || refuses(REPOSITORY_PATTERN, req.repository.as_str())
                || refuses(VERSION_PATTERN, req.username.as_str()) || refuses(PASSWORD_PATTERN, req.password.as_str()) {
                Effect::Answer(refuse("Information provided is not in correct format", "POST"))
            } else {
                let mut c = chars_of("podman login '");
                push_all(&mut c, &chars_of(req.repository.as_str()));
                push_all(&mut c, &chars_of("' --username='"));
                push_all(&mut c, &chars_of(req.username.as_str()));
                push_all(&mut c, &chars_of("' --password='"));
                push_all(&mut c, &chars_of(req.password.as_str()));
                push_all(&mut c, &chars_of("'"));
                assert(c@ =~= login_command(*req));
                Effect::Shell(string_of(&c))
            }
        },
        Some(o) => {
            if o.code == Some(0i32) {
                Effect::Answer(
                    answer(200, 200, text("Successfully logged in to repository"), "OK", record(200, "Created", 0, "GET")),
                )
            } else {
                let out = out_chars(&o);
                let why = if holds(&out, "invalid username") {
                    "Cannot login, invalid username/password"
                } else if holds(&out, "no such host") {
                    "Cannot connect to source, no such host"
                } else {
                    "Unknown Error"
                };
                Effect::Answer(refuse(why, "POST"))
            }
        },
    }
}

/// What `post_common_repository_logout` does next for `req`.
pub open spec fn repository_logout(req: RepoLogOut, done: Option<OutputV>) -> EffectV {
    match done {
        None => if req.repository@.len() == 0 || refused_by(REPOSITORY_PATTERN@, req.repository@) {
            EffectV::Answer(refusal("Information provided is not in correct format"@, "POST"@))
        } else {
            EffectV::Shell("podman logout '"@ + req.repository@ + "'"@)
        },
        Some(o) => if o.code == Some(0i32) {
            EffectV::Answer(
                ReplyV {
                    status: 200,
                    body: BodyV::Object(
                        seq![
                            ("Code"@, ScalarV::Int(200)),
                            ("Message"@, ScalarV::Text("Successfully logged out from repository"@)),
                            ("Status"@, ScalarV::Text("OK"@)),
                        ],
                    ),
                    log: log_of(200, "Created"@, 0, "GET"@),
                },
            )
        } else if contains(out_text(o), "not logged into"@) {
            EffectV::Answer(refusal("Already logged out of repository"@, "POST"@))
        } else {
            EffectV::Answer(refusal("Unknown Error"@, "POST"@))
        },
    }
}

/// Logs out of a repository: the repository must be non-empty and pass its
/// check; `podman logout` then runs in bash, and its exit code 0 means
/// success.
pub fn post_common_repository_logout(req: &RepoLogOut, done: Option<Output>) -> (e: Effect)
    ensures
        e@ == repository_logout(*req, output_v(done)),
{
    match done {
        None => {
            if req.repository.as_str().is_empty() || refuses(REPOSITORY_PATTERN, req.repository.as_str()) {
                Effect::Answer(refuse("Information provided is not in correct format", "POST"))
            } else {
                Effect::Shell(crate::text::concat3("podman logout '", req.repository.as_str(), "'"))
            }
        },
        Some(o) => {
            if o.code == Some(0i32) {
                let v = with(Vec::new(), "Code", Scalar::Int(200));
                let v = with(v, "Message", Scalar::Text(text("Successfully logged out from repository")));
                let v = with(v, "Status", Scalar::Text(text("OK")));
                assert(fields_v(v@) =~= seq![
                    ("Code"@, ScalarV::Int(200)),
                    ("Message"@, ScalarV::Text("Successfully logged out from repository"@)),
                    ("Status"@, ScalarV::Text("OK"@)),
                ]);
                Effect::Answer(Reply { status: 200, body: Body::Object(v), log: record(200, "Created", 0, "GET") })
            } else if holds(&out_chars(&o), "not logged into") {
                Effect::Answer(refuse("Already logged out of repository", "POST"))
            } else {
                Effect::Answer(refuse("Unknown Error", "POST"))
            }
        },
    }
}

/// What `delete_common_images` does next for `req`, when the configured
/// common key is `key`.
pub open spec fn common_images_delete(req: DeleteImages, key: Seq<char>, done: Option<OutputV>) -> EffectV {
    match done {
        None => if req.key@ == key {
            EffectV::Run(podman(seq!["image"@, "prune"@, "--all"@, "--force"@], OnFailure::Propagate))
        } else {
            EffectV::Answer(refusal("Missing or incorrect data"@, "DELETE"@))
        },
        Some(o) => if o.code == Some(0i32) {
            EffectV::Answer(
                ReplyV {
                    status: 200,
                    body: BodyV::Object(
                        seq![
                            ("Code"@, ScalarV::Int(200)),
                            ("Name"@, ScalarV::Text("Unused images has been deleted"@)),
                            ("Status"@, ScalarV::Text("OK"@)),
                        ],
                    ),
                    log: log_extra(
                        200,
                        "Request OK"@,
                        0,
                        "DELETE"@,
                        " oCMAPIDeleteID=0 oCMAPIDeleteType=PruneImages"@,
                    ),
                },
            )
        } else {
            EffectV::Answer(refusal("Could not prune images"@, "DELETE"@))
        },
    }
}

/// Removes every unused image: the key must be the configured common key;
/// `podman image prune --all --force` then runs, and its exit code 0 means
/// success.
pub fn delete_common_images(req: &DeleteImages, key: &str, done: Option<Output>) -> (e: Effect)
    ensures
        e@ == common_images_delete(*req, key@, output_v(done)),
{
    match done {
        None => {
            if crate::text::same_text(req.key.as_str(), key) {
                let a = arg(arg(arg(arg(no_args(), "image"), "prune"), "--all"), "--force");
                assert(texts_of(a@) =~= seq!["image"@, "prune"@, "--all"@, "--force"@]);
                Effect::Run(podman_run(a, OnFailure::Propagate))
            } else {
                Effect::Answer(refuse("Missing or incorrect data", "DELETE"))
            }
        },
        Some(o) => {
            if o.code == Some(0i32) {
                let v = with(Vec::new(), "Code", Scalar::Int(200));
                let v = with(v, "Name", Scalar::Text(text("Unused images has been deleted")));
                let v = with(v, "Status", Scalar::Text(text("OK")));
                assert(fields_v(v@) =~= seq![
                    ("Code"@, ScalarV::Int(200)),
                    ("Name"@, ScalarV::Text("Unused images has been deleted"@)),
                    ("Status"@, ScalarV::Text("OK"@)),
                ]);
                Effect::Answer(
                    Reply {
                        status: 200,
                        body: Body::Object(v),
                        log: record_with(
                            200,
                            "Request OK",
                            0,
                            "DELETE",
                            text(" oCMAPIDeleteID=0 oCMAPIDeleteType=PruneImages"),
                        ),
                    },
                )
            } else {
                Effect::Answer(refuse("Could not prune images", "DELETE"))
            }
        },
    }
}

/// Draws a `u32` from `rand::rng()` with `RngExt::random`. Nothing is
/// stated of the value: any `u32` may come back.
#[verifier::external_body]
fn random_u32() -> (r: u32) {
    let mut rng = rand::rng();
    rand::RngExt::random::<u32>(&mut rng)
}

/// A random `u32` as decimal text.
pub fn rand_number() -> (r: String)
    ensures
        exists|n: u32| r@ == decimal(n as int),
{
    let n = random_u32();
    let r = string_of(&decimal_of(n as i64));
    assert(r@ == decimal(n as int));
    r
}

/// The text of `actix_web::http::header::ContentType::json()`: the crate
/// builds it from `mime::APPLICATION_JSON`, which prints as
/// `application/json`.
#[verifier::external_body]
fn json_content_type() -> (r: String)
    ensures
        r@ == "application/json"@,
{
    actix_web::http::header::ContentType::json().to_string()
}

/// The text of `actix_web::http::header::ContentType::html()`: the crate
/// builds it from `mime::TEXT_HTML_UTF_8`, which prints as
/// `text/html; charset=utf-8`.
#[verifier::external_body]
fn html_content_type() -> (r: String)
    ensures
        r@ == "text/html; charset=utf-8"@,
{
    actix_web::http::header::ContentType::html().to_string()
}

/// The headers every reply carries: the API version, then the content type
/// of JSON replies, then that of HTML pages.
pub fn api_headers() -> (r: Vec<String>)
    ensures
        texts_of(r@) == seq!["1"@, "application/json"@, "text/html; charset=utf-8"@],
{
    let r = push_text(push_text(push_text(Vec::new(), text("1")), json_content_type()), html_content_type());
    assert(texts_of(r@) =~= seq!["1"@, "application/json"@, "text/html; charset=utf-8"@]);
    r
}

/// The API's own page: `html` sent with status 200, logged as a GET that
/// went well.
pub fn api_info_web(html: String) -> (r: Reply)
    ensures
        r@ == (ReplyV { status: 200, body: BodyV::Page(html@), log: log_of(200, "Request OK"@, 0, "GET"@) }),
{
    Reply { status: 200, body: Body::Page(html), log: record(200, "Request OK", 0, "GET") }
}

} // verus!
