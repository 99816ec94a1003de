//! The pods part of the API.
use vstd::prelude::*;
use crate::checks::{NAME_PATTERN, refused_by, refuses};
use crate::containers::{
    Lookup, container_status, container_status_of, field_format, flattened, get_failed,
    get_failed_reply, nothing_matched, nothing_matched_reply, settable_state, settable_state_of,
};
use crate::create::{appended, created, created_reply, option_args, option_args_of, without, without_banned};
use crate::effect::{Effect, EffectV, Event, OnFailure, Outcome, OutcomeV, Output, OutputV, outcome_v, push_text};
use crate::models::{CreatePod, DeletePod, StatePod};
use crate::number::{parse_i32_of, parsed_i32};
use crate::output::{
    arg, err_chars, err_text, listing, listing_of, no_args, out_chars, out_text, podman, podman_run,
    printed_names, printed_names_of, short_list, short_list_of, unquoted, unquoted_of,
};
use crate::reply::{
    BodyV, Reply, ReplyV, Scalar, ScalarV, answer, answered, log_extra, log_of, message,
    message_body, record, record_with, refusal, refuse, serve, served, text,
};
use crate::text::{
    begins_with, bytes_exceed, chars_of, concat2, concat3, includes, lower_text, lowered, push_all,
    replace_all, replaced, same_text, starts_with, contains, string_of, texts_of, trim, trimmed,
};
use vstd::utf8::{decode_utf8, encode_utf8, valid_utf8};

verus! {

/// The `--format` argument that lists every pod.
pub const POD_STATE_FORMAT: &'static str = "--format='\n            { \"Name\": {{json .Name}},\n            \"ID\": {{json .Id}},\n            \"Status\": {{json .Status}} },'";

/// The `--format` argument that lists the pods in one state.
pub const POD_QUERY_FORMAT: &'static str = "--format='\n            { \"Name\": {{json .Name}},\n            \"ID\": {{json .ID}},\n            \"Status\": {{json .Status}} },'";

/// The `--format` argument that shows one pod found by name.
pub const POD_BY_NAME_FORMAT: &'static str = "--format='\n            { \"Name\": {{json .Name}},\n            \"ID\": {{json .Id}},\n            \"Status\": {{json .Status}} }'";

/// The `--format` argument that shows one pod found by ID.
pub const POD_BY_ID_FORMAT: &'static str = "--format='\n                        { \"Name\": {{json .Name}},\n                        \"ID\": {{json .Id}},\n                        \"Status\": {{json .Status}} }'";

/// What `get_pods_status` does next.
pub open spec fn pods_status(done: Option<OutcomeV>) -> EffectV {
    match done {
        None => EffectV::Run(podman(seq!["pod"@, "list"@, POD_STATE_FORMAT@], OnFailure::Report)),
        Some(OutcomeV::Finished(o)) => EffectV::Answer(served(listing(out_text(o)))),
        Some(OutcomeV::Failed(e)) => EffectV::Answer(
            answered(500, 400, e, "Bad Request"@, log_of(400, "Bad Request"@, 4, "GET"@)),
        ),
    }
}

/// Every pod: runs `podman pod list` and answers with its records as a
/// JSON list.
pub fn get_pods_status(done: Option<Outcome>) -> (e: Effect)
    ensures
        e@ == pods_status(outcome_v(done)),
{
    match done {
        None => {
            let a = arg(arg(arg(no_args(), "pod"), "list"), POD_STATE_FORMAT);
            assert(texts_of(a@) =~= seq!["pod"@, "list"@, POD_STATE_FORMAT@]);
            Effect::Run(podman_run(a, OnFailure::Report))
        },
        Some(Outcome::Finished(o)) => Effect::Answer(serve(string_of(&listing_of(&out_chars(&o))))),
        Some(Outcome::Failed(err)) => Effect::Answer(
            answer(500, 400, err, "Bad Request", record(400, "Bad Request", 4, "GET")),
        ),
    }
}

/// The filter of a pod state query: `status=` and the state made lower
/// case, or `status=ERROR` when that is not a state pods are listed by.
pub open spec fn pod_filter(state: Seq<char>) -> Seq<char> {
    if container_status(lower_text(state)) {
        "status="@ + lower_text(state)
    } else {
        "status=ERROR"@
    }
}

/// What `get_pods_status_query` does next for the state `state`.
pub open spec fn pods_status_query(state: Seq<char>, done: Option<OutcomeV>) -> EffectV {
    let filter = pod_filter(state);
    match done {
        None => EffectV::Run(
            podman(
                seq!["pod"@, "list"@, "--filter="@ + filter, POD_QUERY_FORMAT@],
                OnFailure::Report,
            ),
        ),
        Some(OutcomeV::Finished(o)) => if filter == "status=ERROR"@ {
            EffectV::Answer(refusal("Could not process data"@, "GET"@))
        } else if o.stdout.len() > 4 {
            EffectV::Answer(served(listing(out_text(o))))
        } else {
            EffectV::Answer(
                nothing_matched(
                    "No pods matching query status: "@ + replace_all(filter, "status="@, seq![]),
                    "None"@,
                ),
            )
        },
        Some(OutcomeV::Failed(e)) => EffectV::Answer(get_failed(e)),
    }
}

/// The pods in one state: `podman pod list --filter=status={state}` runs,
/// with `ERROR` in place of a state other than created, exited, paused,
/// running or unknown (in any case); such a state is then refused, and
/// otherwise the records are the answer, or 404 when there are none.
pub fn get_pods_status_query(state: &str, done: Option<Outcome>) -> (e: Effect)
    ensures
        e@ == pods_status_query(state@, outcome_v(done)),
{
    let wanted = lowered(state);
    let filter = if container_status_of(wanted.as_str()) {
        concat2("status=", wanted.as_str())
    } else {
        text("status=ERROR")
    };
    match done {
        None => {
            let a = arg(arg(no_args(), "pod"), "list");
            let a = arg(arg(a, concat2("--filter=", filter.as_str()).as_str()), POD_QUERY_FORMAT);
            assert(texts_of(a@) =~= seq!["pod"@, "list"@, "--filter="@ + filter@, POD_QUERY_FORMAT@]);
            Effect::Run(podman_run(a, OnFailure::Report))
        },
        Some(Outcome::Finished(o)) => {
            if same_text(filter.as_str(), "status=ERROR") {
                Effect::Answer(refuse("Could not process data", "GET"))
            } else if o.stdout.len() > 4 {
                Effect::Answer(serve(string_of(&listing_of(&out_chars(&o)))))
            } else {
                let pat = chars_of("status=");
                proof {
                    reveal_strlit("status=");
                }
                let mut info = chars_of("No pods matching query status: ");
                push_all(&mut info, &replaced(&chars_of(filter.as_str()), &pat, &Vec::new()));
                assert(info@ =~= "No pods matching query status: "@ + replace_all(
                    filter@,
                    "status="@,
                    seq![],
                ));
                Effect::Answer(nothing_matched_reply(string_of(&info), "None"))
            }
        },
        Some(Outcome::Failed(err)) => Effect::Answer(get_failed_reply(err)),
    }
}

/// What `get_pods_single_state_query` does next for `id`.
pub open spec fn pods_single_state(id: Seq<char>, stage: Lookup) -> EffectV {
    match stage {
        Lookup::Start => if id.len() == 0 || refused_by(NAME_PATTERN@, id) {
            EffectV::Answer(refusal("Information provided is not in correct format"@, "POST"@))
        } else {
            EffectV::Run(
                podman(
                    seq!["pod"@, "ps"@, "--filter"@, "name="@ + id, POD_BY_NAME_FORMAT@],
                    OnFailure::Report,
                ),
            )
        },
        Lookup::ByName(Outcome::Finished(o)) => if o@.stdout.len() > 4 {
            EffectV::Answer(served(unquoted(out_text(o@))))
        } else {
            EffectV::Run(
                podman(
                    seq!["pod"@, "ps"@, "--filter"@, "id="@ + id, POD_BY_ID_FORMAT@],
                    OnFailure::Report,
                ),
            )
        },
        Lookup::ById(Outcome::Finished(o)) => if o@.stdout.len() > 4 {
            EffectV::Answer(served(unquoted(out_text(o@))))
        } else {
            EffectV::Answer(nothing_matched("No containers matching name or ID: "@ + id, "Not Found"@))
        },
        Lookup::ByName(Outcome::Failed(e)) => EffectV::Answer(get_failed(e@)),
        Lookup::ById(Outcome::Failed(e)) => EffectV::Answer(get_failed(e@)),
    }
}

/// One pod's state: `id` must be a non-empty name; the pod is looked up by
/// name, then by ID, and the first search that prints more than four bytes
/// gives the answer; 404 when neither does.
pub fn get_pods_single_state_query(id: &str, stage: Lookup) -> (e: Effect)
    ensures
        e@ == pods_single_state(id@, stage),
{
    match stage {
        Lookup::Start => {
            if id.is_empty() || refuses(NAME_PATTERN, id) {
                Effect::Answer(refuse("Information provided is not in correct format", "POST"))
            } else {
                let a = arg(arg(arg(no_args(), "pod"), "ps"), "--filter");
                let a = arg(arg(a, concat2("name=", id).as_str()), POD_BY_NAME_FORMAT);
                assert(texts_of(a@) =~= seq!["pod"@, "ps"@, "--filter"@, "name="@ + id@, POD_BY_NAME_FORMAT@]);
                Effect::Run(podman_run(a, OnFailure::Report))
            }
        },
        Lookup::ByName(Outcome::Finished(o)) => {
            if o.stdout.len() > 4 {
                Effect::Answer(serve(string_of(&unquoted_of(&out_chars(&o)))))
            } else {
                let a = arg(arg(arg(no_args(), "pod"), "ps"), "--filter");
                let a = arg(arg(a, concat2("id=", id).as_str()), POD_BY_ID_FORMAT);
                assert(texts_of(a@) =~= seq!["pod"@, "ps"@, "--filter"@, "id="@ + id@, POD_BY_ID_FORMAT@]);
                Effect::Run(podman_run(a, OnFailure::Report))
            }
        },
        Lookup::ById(Outcome::Finished(o)) => {
            if o.stdout.len() > 4 {
                Effect::Answer(serve(string_of(&unquoted_of(&out_chars(&o)))))
            } else {
                Effect::Answer(
                    nothing_matched_reply(concat2("No containers matching name or ID: ", id), "Not Found"),
                )
            }
        },
        Lookup::ByName(Outcome::Failed(err)) => Effect::Answer(get_failed_reply(err)),
        Lookup::ById(Outcome::Failed(err)) => Effect::Answer(get_failed_reply(err)),
    }
}

/// The field a pod short list asks for: `Name` for `name`, `ID` for `id`
/// (either in any case), and `ERROR` for anything else.
pub open spec fn pod_list_key(asked: Seq<char>) -> Seq<char> {
    let wanted = lower_text(asked);
    if wanted == "name"@ {
        "Name"@
    } else if wanted == "id"@ {
        "ID"@
    } else {
        "ERROR"@
    }
}

/// The field a pod short list asks for, as `pod_list_key` states.
fn pod_list_key_of(asked: &str) -> (r: &'static str)
    ensures
        r@ == pod_list_key(asked@),
{
    let wanted = lowered(asked);
    if same_text(wanted.as_str(), "name") {
        "Name"
    } else if same_text(wanted.as_str(), "id") {
        "ID"
    } else {
        "ERROR"
    }
}

/// What `get_pods_short_list` does next when `asked` names the field.
pub open spec fn pods_short_list(asked: Seq<char>, done: Option<OutcomeV>) -> EffectV {
    let key = pod_list_key(asked);
    match done {
        None => if key == "ERROR"@ {
            EffectV::Answer(refusal("Not a valid list option"@, "POST"@))
        } else {
            EffectV::Run(podman(seq!["pod"@, "ps"@, field_format(key)], OnFailure::Report))
        },
        Some(OutcomeV::Finished(o)) => EffectV::Answer(
            served(
                short_list(if key == "Name"@ { "Names"@ } else { key }, printed_names(o)),
            ),
        ),
        Some(OutcomeV::Failed(e)) => EffectV::Answer(get_failed(e)),
    }
}

/// The names or IDs of all pods: `asked` is `name` or `id` in any case;
/// the answer is `{"Names": [...]}` or `{"ID": [...]}` from what
/// `podman pod ps` printed.
pub fn get_pods_short_list(asked: &str, done: Option<Outcome>) -> (e: Effect)
    ensures
        e@ == pods_short_list(asked@, outcome_v(done)),
{
    let key = pod_list_key_of(asked);
    match done {
        None => {
            if same_text(key, "ERROR") {
                Effect::Answer(refuse("Not a valid list option", "POST"))
            } else {
                let a = arg(arg(arg(no_args(), "pod"), "ps"), concat3("--format={{ .", key, " }}").as_str());
                assert(texts_of(a@) =~= seq!["pod"@, "ps"@, field_format(key@)]);
                Effect::Run(podman_run(a, OnFailure::Report))
            }
        },
        Some(Outcome::Finished(o)) => {
            let shown = if same_text(key, "Name") {
                "Names"
            } else {
                key
            };
            Effect::Answer(serve(short_list_of(shown, &printed_names_of(&o))))
        },
        Some(Outcome::Failed(err)) => Effect::Answer(get_failed_reply(err)),
    }
}

/// The options that are never passed to `podman pod create`.
pub open spec fn pod_banned() -> Seq<Seq<char>> {
    seq!["--help"@]
}

/// The arguments of `podman pod create` for `req`, or `None` when its
/// options string is refused.
pub open spec fn pod_create_args(req: CreatePod) -> Option<Seq<Seq<char>>> {
    match option_args(req.options@) {
        Some(opts) => Some(without(seq!["pod"@, "create"@, "--name="@ + req.name@] + opts, pod_banned())),
        None => None,
    }
}

/// What `post_pods_create` does next for `req`.
pub open spec fn pods_create(req: CreatePod, done: Option<OutcomeV>) -> EffectV {
    match done {
        None => if !(encode_utf8(req.name@).len() > 2) {
            EffectV::Answer(refusal("Required tags are missing information"@, "POST"@))
        } else {
            match pod_create_args(req) {
                Some(a) => EffectV::Run(podman(a, OnFailure::Report)),
                None => EffectV::Answer(
                    refusal(
                        "Check options tag, must be at least 4 characters long and start with -- to be valid"@,
                        "POST"@,
                    ),
                ),
            }
        },
        Some(o) => EffectV::Answer(created("pod"@, "Pod"@, o)),
    }
}

/// Creates a pod: the name must take more than two bytes; the options
/// become arguments (`--help` dropped), and the answer follows the
/// `podman pod create` run.
pub fn post_pods_create(req: &CreatePod, done: Option<Outcome>) -> (e: Effect)
    ensures
        e@ == pods_create(*req, outcome_v(done)),
{
    match done {
        None => {
            if !bytes_exceed(&chars_of(req.name.as_str()), 2) {
                return Effect::Answer(refuse("Required tags are missing information", "POST"));
            }
            match option_args_of(req.options.as_str()) {
                Some(opts) => {
                    let a = arg(arg(no_args(), "pod"), "create");
                    let a = push_text(a, concat2("--name=", req.name.as_str()));
                    assert(texts_of(a@) =~= seq!["pod"@, "create"@, "--name="@ + req.name@]);
                    let a = appended(a, &opts);
                    let banned = arg(no_args(), "--help");
                    assert(texts_of(banned@) =~= pod_banned());
                    Effect::Run(podman_run(without_banned(a, &banned), OnFailure::Report))
                },
                None => Effect::Answer(
                    refuse(
                        "Check options tag, must be at least 4 characters long and start with -- to be valid",
                        "POST",
                    ),
                ),
            }
        },
        Some(o) => Effect::Answer(created_reply("pod", "Pod", o)),
    }
}

/// Whether a pod name is refused by the state change: it starts with `-`,
/// holds a space, or is empty.
pub open spec fn bad_pod_name(name: Seq<char>) -> bool {
    starts_with(name, seq!['-']) || contains(name, seq![' ']) || name.len() == 0
}

/// What `post_pods_setstate` does next for `req`.
pub open spec fn pods_setstate(req: StatePod, done: Option<OutcomeV>) -> EffectV {
    let wanted = lower_text(req.state@);
    match done {
        None => if bad_pod_name(req.name@) || !settable_state(wanted) {
            EffectV::Answer(refusal("State/Name provided is not correct format or value"@, "POST"@))
        } else {
            EffectV::Run(podman(seq!["pod"@, wanted, req.name@], OnFailure::Report))
        },
        Some(OutcomeV::Finished(o)) => if o.stdout.len() > 4 {
            EffectV::Answer(
                answered(
                    200,
                    200,
                    "Sucessfully set Pod '"@ + replace_all(trim(out_text(o)), seq!['\n'], seq![])
                        + "' state to '"@ + wanted + "'"@,
                    "OK"@,
                    log_extra(
                        200,
                        "Request OK"@,
                        0,
                        "POST"@,
                        " oCMAPIPodName="@ + req.name@ + " oCMAPISetState="@ + req.state@,
                    ),
                ),
            )
        } else {
            EffectV::Answer(
                ReplyV {
                    status: 400,
                    body: message(
                        400,
                        replace_all(replace_all(err_text(o), seq!['\n'], seq![]), seq!['\t'], seq![]),
                        "Bad Request"@,
                    ),
                    log: log_of(404, "Not Found"@, 0, "POST"@),
                },
            )
        },
        Some(OutcomeV::Failed(e)) => EffectV::Answer(
            answered(
                500,
                500,
                e,
                "Internal Server Error"@,
                log_of(500, "Internal Server Error"@, 6, "POST"@),
            ),
        ),
    }
}

/// Sets a pod's state: the name must not start with `-`, hold a space or
/// be empty, and the state, made lower case, must be start, stop, pause,
/// unpause or restart; `podman pod {state} {name}` then runs, and printing
/// more than four bytes means success.
pub fn post_pods_setstate(req: &StatePod, done: Option<Outcome>) -> (e: Effect)
    ensures
        e@ == pods_setstate(*req, outcome_v(done)),
{
    let wanted = lowered(req.state.as_str());
    match done {
        None => {
            let name = chars_of(req.name.as_str());
            let d: Vec<char> = vec!['-'];
            let sp: Vec<char> = vec![' '];
            assert(d@ =~= seq!['-']);
            assert(sp@ =~= seq![' ']);
            let bad_name = begins_with(&name, &d) || includes(&name, &sp) || name.len() == 0;
            if bad_name || !settable_state_of(wanted.as_str()) {
                Effect::Answer(refuse("State/Name provided is not correct format or value", "POST"))
            } else {
                let a = push_text(push_text(arg(no_args(), "pod"), wanted), req.name.clone());
                assert(texts_of(a@) =~= seq!["pod"@, lower_text(req.state@), req.name@]);
                Effect::Run(podman_run(a, OnFailure::Report))
            }
        },
        Some(Outcome::Finished(o)) => {
            if o.stdout.len() > 4 {
                let newline: Vec<char> = vec!['\n'];
                assert(newline@ =~= seq!['\n']);
                let result = replaced(&trimmed(&out_chars(&o)), &newline, &Vec::new());
                let mut info = chars_of("Sucessfully set Pod '");
                push_all(&mut info, &result);
                push_all(&mut info, &chars_of("' state to '"));
                push_all(&mut info, &chars_of(wanted.as_str()));
                push_all(&mut info, &chars_of("'"));
                let mut extra = chars_of(" oCMAPIPodName=");
                push_all(&mut extra, &chars_of(req.name.as_str()));
                push_all(&mut extra, &chars_of(" oCMAPISetState="));
                push_all(&mut extra, &chars_of(req.state.as_str()));
                assert(info@ =~= "Sucessfully set Pod '"@ + replace_all(trim(out_text(o@)), seq!['\n'], seq![])
                    + "' state to '"@ + wanted@ + "'"@);
                assert(extra@ =~= " oCMAPIPodName="@ + req.name@ + " oCMAPISetState="@ + req.state@);
                Effect::Answer(
                    answer(
                        200,
                        200,
                        string_of(&info),
                        "OK",
                        record_with(200, "Request OK", 0, "POST", string_of(&extra)),
                    ),
                )
            } else {
                Effect::Answer(
                    Reply {
                        status: 400,
                        body: message_body(400, string_of(&flattened(&err_chars(&o))), "Bad Request"),
                        log: record(404, "Not Found", 0, "POST"),
                    },
                )
            }
        },
        Some(Outcome::Failed(err)) => Effect::Answer(
            answer(500, 500, err, "Internal Server Error", record(500, "Internal Server Error", 6, "POST")),
        ),
    }
}

/// How far a pod deletion has come.
#[derive(Clone)]
pub enum PodRemoval {
    /// Nothing has been done yet.
    Start,
    /// The shell command that counts the pod's containers ran.
    Counted(Output),
    /// `podman pod rm` ran.
    Removed(Output),
}

/// The command line, run in bash under a pseudo terminal, that prints how
/// many containers the pod `name` has.
pub open spec fn pod_count_command(name: Seq<char>) -> Seq<char> {
    "podman pod ps --format='{{ .NumberOfContainers }}' --filter name='"@ + name + "' --ctr-names"@
}

/// What `fake_tty::get_stdout` makes of `bytes`: the text they encode with
/// each `\r\n` made `\n`, when they are valid UTF-8.
pub open spec fn tty_text(bytes: Seq<u8>) -> Option<Seq<char>> {
    if valid_utf8(bytes) {
        Some(replace_all(decode_utf8(bytes), seq!['\r', '\n'], seq!['\n']))
    } else {
        None
    }
}

/// Calls `fake_tty::get_stdout`, which decodes `bytes` with
/// `String::from_utf8` and replaces each `\r\n` with `\n`; the decoding
/// error becomes `None`. The contract is that of the crate's Linux and
/// Android build, which this server runs on: on macOS and FreeBSD the crate
/// also drops a leading `^D` and two backspaces, which is not stated here.
#[verifier::external_body]
fn tty_stdout(bytes: Vec<u8>) -> (r: Option<String>)
    ensures
        match r {
            Some(s) => tty_text(bytes@) == Some(s@),
            None => tty_text(bytes@) is None,
        },
{
    match fake_tty::get_stdout(bytes) {
        Ok(s) => Some(s),
        Err(_) => None,
    }
}

/// The number of containers the count command printed: its output read as
/// text, trimmed and parsed as an `i32`, and 0 where any step fails.
pub open spec fn attached_count(o: OutputV) -> int {
    let t = match tty_text(o.stdout) {
        Some(t) => t,
        None => seq![],
    };
    match parsed_i32(trim(t)) {
        Some(v) => v,
        None => 0,
    }
}

/// The number of containers the count command printed, as
/// `attached_count` states.
fn attached_count_of(o: &Output) -> (r: i32)
    ensures
        r as int == attached_count(o@),
{
    let t = match tty_stdout(o.stdout.clone()) {
        Some(t) => chars_of(t.as_str()),
        None => Vec::new(),
    };
    match parse_i32_of(&trimmed(&t)) {
        Some(v) => v,
        None => 0,
    }
}

/// The answer when a pod was removed.
pub open spec fn pod_deleted(name: Seq<char>) -> ReplyV {
    ReplyV {
        status: 200,
        body: BodyV::Object(
            seq![
                ("Code"@, ScalarV::Int(200)),
                ("Name"@, ScalarV::Text("Pod '"@ + name + "' has been deleted"@)),
                ("Status"@, ScalarV::Text("Ok"@)),
            ],
        ),
        log: log_extra(200, "Request OK"@, 0, "DELETE"@, " oCMAPIDeleteID="@ + name + " oCMAPIDeleteType=pod"@),
    }
}

/// What `delete_pods_data` does next for `req`, when the configured pods
/// key is `key`.
pub open spec fn pods_delete(req: DeletePod, key: Seq<char>, stage: PodRemoval) -> EffectV {
    match stage {
        PodRemoval::Start => if refused_by(NAME_PATTERN@, req.name@) {
            EffectV::Answer(refusal("Name provided is not in correct format"@, "POST"@))
        } else if req.key@.len() == 0 || req.key@ != key {
            EffectV::Answer(refusal("Missing or incorrect data"@, "DELETE"@))
        } else {
            EffectV::Shell(pod_count_command(req.name@))
        },
        PodRemoval::Counted(o) => if attached_count(o@) == 1 {
            EffectV::Run(podman(seq!["pod"@, "rm"@, req.name@], OnFailure::Propagate))
        } else {
            EffectV::Answer(refusal("Cannot remove pod '"@ + req.name@ + "' check your data"@, "GET"@))
        },
        PodRemoval::Removed(o) => if o@.code == Some(0i32) {
            EffectV::Answer(pod_deleted(req.name@))
        } else {
            EffectV::Answer(refusal("Cannot remove pod '"@ + req.name@ + "'"@, "GET"@))
        },
    }
}

/// Deletes a pod: the name must pass the name check and the key must be
/// the configured pods key; only a pod whose container count (its infra
/// container alone) reads 1 is removed with `podman pod rm`, whose exit
/// code decides the answer.
pub fn delete_pods_data(req: &DeletePod, key: &str, stage: PodRemoval) -> (e: Effect)
    ensures
        e@ == pods_delete(*req, key@, stage),
{
    match stage {
        PodRemoval::Start => {
            if refuses(NAME_PATTERN, req.name.as_str()) {
                Effect::Answer(refuse("Name provided is not in correct format", "POST"))
            } else if req.key.as_str().is_empty() || !same_text(req.key.as_str(), key) {
                Effect::Answer(refuse("Missing or incorrect data", "DELETE"))
            } else {
                Effect::Shell(
                    concat3(
                        "podman pod ps --format='{{ .NumberOfContainers }}' --filter name='",
                        req.name.as_str(),
                        "' --ctr-names",
                    ),
                )
            }
        },
        PodRemoval::Counted(o) => {
            if attached_count_of(&o) == 1 {
                let a = push_text(arg(arg(no_args(), "pod"), "rm"), req.name.clone());
                assert(texts_of(a@) =~= seq!["pod"@, "rm"@, req.name@]);
                Effect::Run(podman_run(a, OnFailure::Propagate))
            } else {
                let info = concat3("Cannot remove pod '", req.name.as_str(), "' check your data");
                Effect::Answer(refuse(info.as_str(), "GET"))
            }
        },
        PodRemoval::Removed(o) => {
            if o.code == Some(0i32) {
                let v = crate::reply::with(Vec::new(), "Code", Scalar::Int(200));
                let v = crate::reply::with(
                    v,
                    "Name",
                    Scalar::Text(concat3("Pod '", req.name.as_str(), "' has been deleted")),
                );
                let v = crate::reply::with(v, "Status", Scalar::Text(text("Ok")));
                assert(crate::reply::fields_v(v@) =~= seq![
                    ("Code"@, ScalarV::Int(200)),
                    ("Name"@, ScalarV::Text("Pod '"@ + req.name@ + "' has been deleted"@)),
                    ("Status"@, ScalarV::Text("Ok"@)),
                ]);
                let extra = concat3(" oCMAPIDeleteID=", req.name.as_str(), " oCMAPIDeleteType=pod");
                Effect::Answer(
                    Reply {
                        status: 200,
                        body: crate::reply::Body::Object(v),
                        log: record_with(200, "Request OK", 0, "DELETE", extra),
                    },
                )
            } else {
                let info = concat3("Cannot remove pod '", req.name.as_str(), "'");
                Effect::Answer(refuse(info.as_str(), "GET"))
            }
        },
    }
}

/// The stage a pod deletion reaches when its command brought back `ev`;
/// `None` when `ev` does not answer the command.
pub open spec fn pod_removal_next(stage: PodRemoval, ev: Event) -> Option<PodRemoval> {
    match ev {
        Event::Finished(o) => match stage {
            PodRemoval::Start => Some(PodRemoval::Counted(o)),
            PodRemoval::Counted(_) => Some(PodRemoval::Removed(o)),
            PodRemoval::Removed(_) => None,
        },
        _ => None,
    }
}

/// The stage a pod deletion reaches, as `pod_removal_next` states.
pub fn delete_pods_data_next(stage: PodRemoval, ev: Event) -> (r: Option<PodRemoval>)
    ensures
        r == pod_removal_next(stage, ev),
{
    match ev {
        Event::Finished(o) => match stage {
            PodRemoval::Start => Some(PodRemoval::Counted(o)),
            PodRemoval::Counted(_) => Some(PodRemoval::Removed(o)),
            PodRemoval::Removed(_) => None,
        },
        _ => None,
    }
}

} // verus!
