//! The containers part of the API.
use vstd::prelude::*;
use crate::checks::{NAME_PATTERN, refused_by, refuses};
use crate::create::{appended, created, created_reply, option_args, option_args_of, without, without_banned};
use crate::effect::{Effect, EffectV, Event, OnFailure, Outcome, OutcomeV, Output, OutputV, outcome_v, output_v, push_text};
use crate::models::{CreateContainer, DeleteContainer, DeleteVolume, StateContainer};
use crate::output::{
    arg, bracket, bracketed, err_chars, err_text, listing, listing_of, no_args, out_chars, out_text,
    podman, podman_run, printed_names, printed_names_of, short_list, short_list_of, unquoted,
    unquoted_of,
};
use crate::reply::{
    Body, BodyV, Reply, ReplyV, Scalar, ScalarV, answer, answered, fields_v, log_extra, log_of,
    record, record_with, refusal, refuse, serve, served, text, with,
};
use crate::text::{
    begins_with, bytes_exceed, chars_of, concat2, concat3, includes, lower_text, lowered, push_all,
    replace_all, replaced, same, same_text, starts_with, contains, string_of, texts_of, trim,
    trimmed,
};
use vstd::utf8::encode_utf8;

verus! {

/// The `--format` argument that lists every container's state.
pub const CONTAINER_STATE_FORMAT: &'static str = "--format='\n            { \"Names\": {{json .Names}},\n            \"State\": {{json .State}},\n            \"Status\": {{json .Status}},\n            \"Exited\": {{json .Exited}},\n            \"ExitCode\": {{json .ExitCode}} },'";

/// The `--format` argument that lists the containers in one state.
pub const CONTAINER_QUERY_FORMAT: &'static str = "--format='\n            { \"Names\": {{json .Names}},\n            \"ID\": {{json .ID}},\n            \"State\": {{json .State}},\n            \"Status\": {{json .Status}},\n            \"Exited\": {{json .Exited}},\n            \"ExitCode\": {{json .ExitCode}} },'";

/// The `--format` argument that shows one container found by name.
pub const CONTAINER_BY_NAME_FORMAT: &'static str = "--format='\n            { \"Name\": {{json .Names}},\n            \"ID\": {{json .ID}},\n            \"State\": {{json .State}},\n            \"Status\": {{json .Status}},\n            \"Exited\": {{json .Exited}},\n            \"ExitCode\": {{json .ExitCode}} }'";

/// The `--format` argument that shows one container found by ID.
pub const CONTAINER_BY_ID_FORMAT: &'static str = "--format='\n                        { \"Name\": {{json .Names}},\n                        \"ID\": {{json .ID}},\n                        \"State\": {{json .State}},\n                        \"Status\": {{json .Status}},\n                        \"Exited\": {{json .Exited}},\n                        \"ExitCode\": {{json .ExitCode}} }'";

/// What `get_containers_state` does next.
pub open spec fn containers_state(done: Option<OutcomeV>) -> EffectV {
    match done {
        None => EffectV::Run(
            podman(seq!["ps"@, "--all"@, CONTAINER_STATE_FORMAT@], OnFailure::Report),
        ),
        Some(OutcomeV::Finished(o)) => EffectV::Answer(served(listing(out_text(o)))),
        Some(OutcomeV::Failed(e)) => EffectV::Answer(refusal(e, "GET"@)),
    }
}

/// The state of every container: runs `podman ps --all` and answers with
/// its records as a JSON list.
pub fn get_containers_state(done: Option<Outcome>) -> (e: Effect)
    ensures
        e@ == containers_state(outcome_v(done)),
{
    match done {
        None => {
            let a = arg(arg(arg(no_args(), "ps"), "--all"), CONTAINER_STATE_FORMAT);
            assert(texts_of(a@) =~= seq!["ps"@, "--all"@, CONTAINER_STATE_FORMAT@]);
            Effect::Run(podman_run(a, OnFailure::Report))
        },
        Some(Outcome::Finished(o)) => Effect::Answer(serve(string_of(&listing_of(&out_chars(&o))))),
        Some(Outcome::Failed(err)) => Effect::Answer(refuse(err.as_str(), "GET")),
    }
}

/// The states containers and pods can be listed by.
pub open spec fn container_status(s: Seq<char>) -> bool {
    s == "created"@ || s == "exited"@ || s == "paused"@ || s == "running"@ || s == "unknown"@
}

/// Whether `s` is one of the states a container can be asked for by.
pub(crate) fn container_status_of(s: &str) -> (r: bool)
    ensures
        r == container_status(s@),
{
    same_text(s, "created") || same_text(s, "exited") || same_text(s, "paused") || same_text(
        s,
        "running",
    ) || same_text(s, "unknown")
}

/// The 404 answer when nothing matched: a JSON list holding
/// `{"Code": 404, "Info": info, "Status": status}`.
pub open spec fn nothing_matched(info: Seq<char>, status: Seq<char>) -> ReplyV {
    ReplyV {
        status: 404,
        body: BodyV::Listed(
            seq![
                ("Code"@, ScalarV::Int(404)),
                ("Info"@, ScalarV::Text(info)),
                ("Status"@, ScalarV::Text(status)),
            ],
        ),
        log: log_of(404, "Not Found"@, 0, "GET"@),
    }
}

/// The 404 answer when nothing matched, as `nothing_matched` states.
pub fn nothing_matched_reply(info: String, status: &str) -> (r: Reply)
    ensures
        r@ == nothing_matched(info@, status@),
{
    let v = with(Vec::new(), "Code", Scalar::Int(404));
    let v = with(v, "Info", Scalar::Text(info));
    let v = with(v, "Status", Scalar::Text(text(status)));
    assert(fields_v(v@) =~= seq![
        ("Code"@, ScalarV::Int(404)),
        ("Info"@, ScalarV::Text(info@)),
        ("Status"@, ScalarV::Text(status@)),
    ]);
    Reply { status: 404, body: Body::Listed(v), log: record(404, "Not Found", 0, "GET") }
}

/// The 500 answer when podman could not be run for a GET request.
pub open spec fn get_failed(e: Seq<char>) -> ReplyV {
    answered(500, 500, e, "Internal Server Error"@, log_of(500, "Internal Server Error"@, 6, "GET"@))
}

/// The 500 answer when podman could not be run, as `get_failed` states.
pub fn get_failed_reply(e: String) -> (r: Reply)
    ensures
        r@ == get_failed(e@),
{
    answer(500, 500, e, "Internal Server Error", record(500, "Internal Server Error", 6, "GET"))
}

/// What `get_containers_state_query` does next for the state `state`.
pub open spec fn containers_state_query(state: Seq<char>, done: Option<OutcomeV>) -> EffectV {
    let wanted = lower_text(state);
    let filter = "status="@ + wanted;
    match done {
        None => if container_status(wanted) {
            EffectV::Run(
                podman(
                    seq!["container"@, "ps"@, "--filter"@, filter, CONTAINER_QUERY_FORMAT@],
                    OnFailure::Report,
                ),
            )
        } else {
            EffectV::Answer(refusal("Not a valid status option"@, "GET"@))
        },
        Some(OutcomeV::Finished(o)) => if o.stdout.len() > 4 {
            EffectV::Answer(served(listing(out_text(o))))
        } else {
            EffectV::Answer(
                nothing_matched(
                    "No containers matching query status: "@ + replace_all(filter, "status="@, seq![]),
                    "None"@,
                ),
            )
        },
        Some(OutcomeV::Failed(e)) => EffectV::Answer(get_failed(e)),
    }
}

/// The containers in one state: `state`, made lower case, must be one of
/// created, exited, paused, running or unknown; then
/// `podman container ps --filter status={state}` runs and its records are
/// the answer, or 404 when there are none.
pub fn get_containers_state_query(state: &str, done: Option<Outcome>) -> (e: Effect)
    ensures
        e@ == containers_state_query(state@, outcome_v(done)),
{
    let wanted = lowered(state);
    let filter = concat2("status=", wanted.as_str());
    match done {
        None => {
            if container_status_of(wanted.as_str()) {
                let a = arg(arg(arg(no_args(), "container"), "ps"), "--filter");
                let a = arg(arg(a, filter.as_str()), CONTAINER_QUERY_FORMAT);
                assert(texts_of(a@) =~= seq![
                    "container"@,
                    "ps"@,
                    "--filter"@,
                    filter@,
                    CONTAINER_QUERY_FORMAT@,
                ]);
                Effect::Run(podman_run(a, OnFailure::Report))
            } else {
                Effect::Answer(refuse("Not a valid status option", "GET"))
            }
        },
        Some(Outcome::Finished(o)) => {
            if o.stdout.len() > 4 {
                Effect::Answer(serve(string_of(&listing_of(&out_chars(&o)))))
            } else {
                let pat = chars_of("status=");
                proof {
                    reveal_strlit("status=");
                }
                let mut info = chars_of("No containers matching query status: ");
                push_all(&mut info, &replaced(&chars_of(filter.as_str()), &pat, &Vec::new()));
                assert(info@ =~= "No containers matching query status: "@ + replace_all(
                    filter@,
                    "status="@,
                    seq![],
                ));
                Effect::Answer(nothing_matched_reply(string_of(&info), "None"))
            }
        },
        Some(Outcome::Failed(err)) => Effect::Answer(get_failed_reply(err)),
    }
}

/// How far a lookup of one container or pod, by name and then by ID, has
/// come.
#[derive(Clone)]
pub enum Lookup {
    /// Nothing has been done yet.
    Start,
    /// The search by name ran.
    ByName(Outcome),
    /// The search by name found nothing, and the search by ID ran.
    ById(Outcome),
}

/// What `get_containers_single_state_query` does next for `id`.
pub open spec fn containers_single_state(id: Seq<char>, stage: Lookup) -> EffectV {
    match stage {
        Lookup::Start => if id.len() == 0 || refused_by(NAME_PATTERN@, id) {
            EffectV::Answer(refusal("Information provided is not in correct format"@, "POST"@))
        } else {
            EffectV::Run(
                podman(
                    seq![
                        "container"@,
                        "ps"@,
                        "--all"@,
                        "--filter"@,
                        "name="@ + id,
                        CONTAINER_BY_NAME_FORMAT@,
                    ],
                    OnFailure::Report,
                ),
            )
        },
        Lookup::ByName(Outcome::Finished(o)) => if o@.stdout.len() > 4 {
            EffectV::Answer(served(unquoted(out_text(o@))))
        } else {
            EffectV::Run(
                podman(
                    seq![
                        "container"@,
                        "ps"@,
                        "--all"@,
                        "--filter"@,
                        "id="@ + id,
                        CONTAINER_BY_ID_FORMAT@,
                    ],
                    OnFailure::Report,
                ),
            )
        },
        Lookup::ById(Outcome::Finished(o)) => if o@.stdout.len() > 4 {
            EffectV::Answer(served(unquoted(out_text(o@))))
        } else {
            EffectV::Answer(nothing_matched("No containers matching name or ID: "@ + id, "Not Found"@))
        },
        Lookup::ByName(Outcome::Failed(e)) => EffectV::Answer(get_failed(e@)),
        Lookup::ById(Outcome::Failed(e)) => EffectV::Answer(get_failed(e@)),
    }
}

/// One container's state: `id` must be a non-empty name; the container is
/// looked up by name, then by ID, and the first search that prints more
/// than four bytes gives the answer; 404 when neither does.
pub fn get_containers_single_state_query(id: &str, stage: Lookup) -> (e: Effect)
    ensures
        e@ == containers_single_state(id@, stage),
{
    match stage {
        Lookup::Start => {
            if id.is_empty() || refuses(NAME_PATTERN, id) {
                Effect::Answer(refuse("Information provided is not in correct format", "POST"))
            } else {
                let a = arg(arg(arg(arg(no_args(), "container"), "ps"), "--all"), "--filter");
                let a = arg(arg(a, concat2("name=", id).as_str()), CONTAINER_BY_NAME_FORMAT);
                assert(texts_of(a@) =~= seq![
                    "container"@,
                    "ps"@,
                    "--all"@,
                    "--filter"@,
                    "name="@ + id@,
                    CONTAINER_BY_NAME_FORMAT@,
                ]);
                Effect::Run(podman_run(a, OnFailure::Report))
            }
        },
        Lookup::ByName(Outcome::Finished(o)) => {
            if o.stdout.len() > 4 {
                Effect::Answer(serve(string_of(&unquoted_of(&out_chars(&o)))))
            } else {
                let a = arg(arg(arg(arg(no_args(), "container"), "ps"), "--all"), "--filter");
                let a = arg(arg(a, concat2("id=", id).as_str()), CONTAINER_BY_ID_FORMAT);
                assert(texts_of(a@) =~= seq![
                    "container"@,
                    "ps"@,
                    "--all"@,
                    "--filter"@,
                    "id="@ + id@,
                    CONTAINER_BY_ID_FORMAT@,
                ]);
                Effect::Run(podman_run(a, OnFailure::Report))
            }
        },
        Lookup::ById(Outcome::Finished(o)) => {
            if o.stdout.len() > 4 {
                Effect::Answer(serve(string_of(&unquoted_of(&out_chars(&o)))))
            } else {
                Effect::Answer(
                    nothing_matched_reply(concat2("No containers matching name or ID: ", id), "Not Found"),
                )
            }
        },
        Lookup::ByName(Outcome::Failed(err)) => Effect::Answer(get_failed_reply(err)),
        Lookup::ById(Outcome::Failed(err)) => Effect::Answer(get_failed_reply(err)),
    }
}

/// The field a short list asks for: `Names` for `name`, `ID` for `id`
/// (either in any case), and `ERROR` for anything else.
pub open spec fn container_list_key(asked: Seq<char>) -> Seq<char> {
    let wanted = lower_text(asked);
    if wanted == "name"@ {
        "Names"@
    } else if wanted == "id"@ {
        "ID"@
    } else {
        "ERROR"@
    }
}

/// The field a short list asks for, as `container_list_key` states.
fn container_list_key_of(asked: &str) -> (r: &'static str)
    ensures
        r@ == container_list_key(asked@),
{
    let wanted = lowered(asked);
    if same_text(wanted.as_str(), "name") {
        "Names"
    } else if same_text(wanted.as_str(), "id") {
        "ID"
    } else {
        "ERROR"
    }
}

/// The `--format` argument that prints one field per line.
pub open spec fn field_format(key: Seq<char>) -> Seq<char> {
    "--format={{ ."@ + key + " }}"@
}

/// How far a short list of containers has come.
#[derive(Clone)]
pub enum ShortListing {
    /// Nothing has been done yet.
    Start,
    /// The infra containers were listed.
    Infra(Outcome),
    /// All containers were listed, after the infra containers.
    Listed(Output, Outcome),
}

/// What `get_containers_short_list` does next when `asked` names the field.
pub open spec fn containers_short_list(asked: Seq<char>, stage: ShortListing) -> EffectV {
    let key = container_list_key(asked);
    match stage {
        ShortListing::Start => if key == "ERROR"@ {
            EffectV::Answer(refusal("Not a valid list option"@, "POST"@))
        } else {
            EffectV::Run(
                podman(
                    seq!["container"@, "ps"@, "--all"@, "--filter"@, "name=infra"@, field_format(key)],
                    OnFailure::Report,
                ),
            )
        },
        ShortListing::Infra(Outcome::Failed(e)) => EffectV::Answer(
            answered(500, 400, e@, "Bad Request"@, log_of(400, "Bad Request"@, 4, "GET"@)),
        ),
        ShortListing::Infra(Outcome::Finished(o)) => EffectV::Run(
            podman(seq!["container"@, "ps"@, "--all"@, field_format(key)], OnFailure::Report),
        ),
        ShortListing::Listed(infra, Outcome::Finished(o)) => EffectV::Answer(
            served(short_list(key, without(printed_names(o@), printed_names(infra@)))),
        ),
        ShortListing::Listed(infra, Outcome::Failed(e)) => EffectV::Answer(get_failed(e@)),
    }
}

/// The names or IDs of all containers but the infra containers of pods:
/// `asked` is `name` or `id` in any case; podman lists the infra
/// containers, then all containers, and the answer is
/// `{"Names": [...]}` or `{"ID": [...]}` without the infra entries.
pub fn get_containers_short_list(asked: &str, stage: ShortListing) -> (e: Effect)
    ensures
        e@ == containers_short_list(asked@, stage),
{
    let key = container_list_key_of(asked);
    let format = concat3("--format={{ .", key, " }}");
    match stage {
        ShortListing::Start => {
            if same_text(key, "ERROR") {
                Effect::Answer(refuse("Not a valid list option", "POST"))
            } else {
                let a = arg(arg(arg(arg(no_args(), "container"), "ps"), "--all"), "--filter");
                let a = arg(arg(a, "name=infra"), format.as_str());
                assert(texts_of(a@) =~= seq![
                    "container"@,
                    "ps"@,
                    "--all"@,
                    "--filter"@,
                    "name=infra"@,
                    field_format(key@),
                ]);
                Effect::Run(podman_run(a, OnFailure::Report))
            }
        },
        ShortListing::Infra(Outcome::Failed(err)) => Effect::Answer(
            answer(500, 400, err, "Bad Request", record(400, "Bad Request", 4, "GET")),
        ),
        ShortListing::Infra(Outcome::Finished(o)) => {
            let a = arg(arg(arg(arg(no_args(), "container"), "ps"), "--all"), format.as_str());
            assert(texts_of(a@) =~= seq!["container"@, "ps"@, "--all"@, field_format(key@)]);
            Effect::Run(podman_run(a, OnFailure::Report))
        },
        ShortListing::Listed(infra, Outcome::Finished(o)) => {
            let names = without_banned(printed_names_of(&o), &printed_names_of(&infra));
            Effect::Answer(serve(short_list_of(key, &names)))
        },
        ShortListing::Listed(infra, Outcome::Failed(err)) => Effect::Answer(get_failed_reply(err)),
    }
}

/// The options that are never passed to `podman container create`.
pub open spec fn container_banned() -> Seq<Seq<char>> {
    seq!["--help"@, "--tty"@, "--attach"@, "--quiet"@, "--rm"@]
}

/// The arguments of `podman container create` for `req`, or `None` when
/// its options string is refused.
pub open spec fn container_create_args(req: CreateContainer) -> Option<Seq<Seq<char>>> {
    match option_args(req.options@) {
        Some(opts) => Some(
            without(
                seq!["container"@, "create"@, "--name="@ + req.name@] + opts,
                container_banned(),
            ).push(req.image@),
        ),
        None => None,
    }
}

/// What `post_containers_create` does next for `req`.
pub open spec fn containers_create(req: CreateContainer, done: Option<OutcomeV>) -> EffectV {
    match done {
        None => if !(encode_utf8(req.name@).len() > 2 && encode_utf8(req.image@).len() > 5) {
            EffectV::Answer(refusal("Required tags are missing information"@, "POST"@))
        } else {
            match container_create_args(req) {
                Some(a) => EffectV::Run(podman(a, OnFailure::Report)),
                None => EffectV::Answer(
                    refusal(
                        "Check options tag, must be at least 4 characters long and start with -- to be valid"@,
                        "POST"@,
                    ),
                ),
            }
        },
        Some(o) => EffectV::Answer(created("container"@, "Container"@, o)),
    }
}

/// Creates a container: the name must take more than two bytes and the
/// image more than five; the options become arguments (`--help`, `--tty`,
/// `--attach`, `--quiet` and `--rm` dropped), the image comes last, and
/// the answer follows the `podman container create` run.
pub fn post_containers_create(req: &CreateContainer, done: Option<Outcome>) -> (e: Effect)
    ensures
        e@ == containers_create(*req, outcome_v(done)),
{
    match done {
        None => {
            if !(bytes_exceed(&chars_of(req.name.as_str()), 2) && bytes_exceed(
                &chars_of(req.image.as_str()),
                5,
            )) {
                return Effect::Answer(refuse("Required tags are missing information", "POST"));
            }
            match option_args_of(req.options.as_str()) {
                Some(opts) => {
                    let mut a = arg(arg(no_args(), "container"), "create");
                    a = push_text(a, concat2("--name=", req.name.as_str()));
                    assert(texts_of(a@) =~= seq!["container"@, "create"@, "--name="@ + req.name@]);
                    let a = appended(a, &opts);
                    let banned = arg(arg(arg(arg(arg(no_args(), "--help"), "--tty"), "--attach"), "--quiet"), "--rm");
                    assert(texts_of(banned@) =~= container_banned());
                    let a = without_banned(a, &banned);
                    let a = push_text(a, req.image.clone());
                    Effect::Run(podman_run(a, OnFailure::Report))
                },
                None => Effect::Answer(
                    refuse(
                        "Check options tag, must be at least 4 characters long and start with -- to be valid",
                        "POST",
                    ),
                ),
            }
        },
        Some(o) => Effect::Answer(created_reply("container", "Container", o)),
    }
}

/// The states a container or pod can be set to.
pub open spec fn settable_state(s: Seq<char>) -> bool {
    s == "start"@ || s == "stop"@ || s == "pause"@ || s == "unpause"@ || s == "restart"@
}

/// Whether `s` is a state a container or pod can be set to.
pub fn settable_state_of(s: &str) -> (r: bool)
    ensures
        r == settable_state(s@),
{
    same_text(s, "start") || same_text(s, "stop") || same_text(s, "pause") || same_text(
        s,
        "unpause",
    ) || same_text(s, "restart")
}

/// Whether a container name is refused by the state change: it starts with
/// `-` (or `--`), holds a space, or is empty.
pub open spec fn bad_container_name(name: Seq<char>) -> bool {
    starts_with(name, seq!['-', '-']) || starts_with(name, seq!['-']) || contains(name, seq![' '])
        || name.len() == 0
}

/// Whether a state change is refused: a bad name, a state that is not one
/// of start, stop, pause, unpause or restart in any case, or the state text
/// `ERROR` itself.
pub open spec fn container_change_refused(req: StateContainer) -> bool {
    bad_container_name(req.name@) || !settable_state(lower_text(req.state@)) || req.state@
        == "ERROR"@
}

/// What `post_containers_setstate` does next for `req`.
pub open spec fn containers_setstate(req: StateContainer, done: Option<OutcomeV>) -> EffectV {
    let wanted = lower_text(req.state@);
    match done {
        None => if container_change_refused(req) {
            EffectV::Answer(
                refusal("State/Name provided is not in correct format or a valid state"@, "POST"@),
            )
        } else {
            EffectV::Run(podman(seq!["container"@, wanted, req.name@], OnFailure::Report))
        },
        Some(OutcomeV::Finished(o)) => if o.stdout.len() > 4 {
            EffectV::Answer(
                answered(
                    200,
                    200,
                    "Container '"@ + replace_all(trim(out_text(o)), seq!['\n'], seq![])
                        + "' has been set to '"@ + wanted + "' state"@,
                    "OK"@,
                    log_extra(
                        200,
                        "Request OK"@,
                        0,
                        "POST"@,
                        " oCMAPIContainerName="@ + req.name@ + " oCMAPISetState="@ + req.state@,
                    ),
                ),
            )
        } else {
            EffectV::Answer(
                ReplyV {
                    status: 400,
                    body: BodyV::Listed(
                        seq![
                            ("Code"@, ScalarV::Int(400)),
                            ("Info"@, ScalarV::Text(replace_all(
                                replace_all(err_text(o), seq!['\n'], seq![]),
                                seq!['\t'],
                                seq![],
                            ))),
                            ("State"@, ScalarV::Text("Bad 'Request"@)),
                        ],
                    ),
                    log: log_of(400, "Bad 'Request"@, 0, "POST"@),
                },
            )
        },
        Some(OutcomeV::Failed(e)) => EffectV::Answer(
            answered(
                500,
                500,
                e,
                "Internal Server Error"@,
                log_of(500, "Internal Server Error"@, 6, "POST"@),
            ),
        ),
    }
}

/// `s` with its line breaks and tabs dropped.
pub(crate) fn flattened(s: &Vec<char>) -> (r: Vec<char>)
    ensures
        r@ == replace_all(replace_all(s@, seq!['\n'], seq![]), seq!['\t'], seq![]),
{
    let newline: Vec<char> = vec!['\n'];
    let tab: Vec<char> = vec!['\t'];
    assert(newline@ =~= seq!['\n']);
    assert(tab@ =~= seq!['\t']);
    replaced(&replaced(s, &newline, &Vec::new()), &tab, &Vec::new())
}

/// Sets a container's state: the name must not start with `-`, hold a
/// space or be empty, and the state, made lower case, must be start, stop,
/// pause, unpause or restart; `podman container {state} {name}` then runs,
/// and printing more than four bytes means success.
pub fn post_containers_setstate(req: &StateContainer, done: Option<Outcome>) -> (e: Effect)
    ensures
        e@ == containers_setstate(*req, outcome_v(done)),
{
    let wanted = lowered(req.state.as_str());
    match done {
        None => {
            let name = chars_of(req.name.as_str());
            let dd: Vec<char> = vec!['-', '-'];
            let d: Vec<char> = vec!['-'];
            let sp: Vec<char> = vec![' '];
            assert(dd@ =~= seq!['-', '-']);
            assert(d@ =~= seq!['-']);
            assert(sp@ =~= seq![' ']);
            let bad_name = begins_with(&name, &dd) || begins_with(&name, &d) || includes(&name, &sp)
                || name.len() == 0;
            assert(bad_name == bad_container_name(req.name@));
            if bad_name || !settable_state_of(wanted.as_str()) || same_text(req.state.as_str(), "ERROR") {
                Effect::Answer(
                    refuse("State/Name provided is not in correct format or a valid state", "POST"),
                )
            } else {
                let a = push_text(push_text(arg(no_args(), "container"), wanted), req.name.clone());
                assert(texts_of(a@) =~= seq!["container"@, lower_text(req.state@), req.name@]);
                Effect::Run(podman_run(a, OnFailure::Report))
            }
        },
        Some(Outcome::Finished(o)) => {
            if o.stdout.len() > 4 {
                let newline: Vec<char> = vec!['\n'];
                assert(newline@ =~= seq!['\n']);
                let result = replaced(&trimmed(&out_chars(&o)), &newline, &Vec::new());
                let mut info = chars_of("Container '");
                push_all(&mut info, &result);
                push_all(&mut info, &chars_of("' has been set to '"));
                push_all(&mut info, &chars_of(wanted.as_str()));
                push_all(&mut info, &chars_of("' state"));
                let mut extra = chars_of(" oCMAPIContainerName=");
                push_all(&mut extra, &chars_of(req.name.as_str()));
                push_all(&mut extra, &chars_of(" oCMAPISetState="));
                push_all(&mut extra, &chars_of(req.state.as_str()));
                assert(info@ =~= "Container '"@ + replace_all(trim(out_text(o@)), seq!['\n'], seq![])
                    + "' has been set to '"@ + wanted@ + "' state"@);
                assert(extra@ =~= " oCMAPIContainerName="@ + req.name@ + " oCMAPISetState="@
                    + req.state@);
                Effect::Answer(
                    answer(
                        200,
                        200,
                        string_of(&info),
                        "OK",
                        record_with(200, "Request OK", 0, "POST", string_of(&extra)),
                    ),
                )
            } else {
                let v = with(Vec::new(), "Code", Scalar::Int(400));
                let v = with(v, "Info", Scalar::Text(string_of(&flattened(&err_chars(&o)))));
                let v = with(v, "State", Scalar::Text(text("Bad 'Request")));
                assert(fields_v(v@) =~= seq![
                    ("Code"@, ScalarV::Int(400)),
                    ("Info"@, ScalarV::Text(replace_all(
                        replace_all(err_text(o@), seq!['\n'], seq![]),
                        seq!['\t'],
                        seq![],
                    ))),
                    ("State"@, ScalarV::Text("Bad 'Request"@)),
                ]);
                Effect::Answer(
                    Reply {
                        status: 400,
                        body: Body::Listed(v),
                        log: record(400, "Bad 'Request", 0, "POST"),
                    },
                )
            }
        },
        Some(Outcome::Failed(err)) => Effect::Answer(
            answer(500, 500, err, "Internal Server Error", record(500, "Internal Server Error", 6, "POST")),
        ),
    }
}

/// How far a container deletion has come.
#[derive(Clone)]
pub enum ContainerRemoval {
    /// Nothing has been done yet.
    Start,
    /// `podman container ps` ran to read the container's state.
    Listed(Output),
    /// `podman container rm` ran.
    Removed(Output),
}

/// The state printed by `podman container ps --format='{{ .State }}'`:
/// the output bracketed, then `['` and `'` + line break + `]` dropped.
pub open spec fn listed_state(out: Seq<char>) -> Seq<char> {
    replace_all(replace_all(bracketed(out), seq!['[', '\''], seq![]), seq!['\'', '\n', ']'], seq![])
}

/// The name printed by `podman container rm`: the output bracketed, then
/// `[` and a line break + `]` dropped.
pub open spec fn removed_name(out: Seq<char>) -> Seq<char> {
    replace_all(replace_all(bracketed(out), seq!['['], seq![]), seq!['\n', ']'], seq![])
}

/// Whether a deletion request names a refused name, or a key that is
/// empty or other than the configured one: the checks every deletion of a
/// container or volume makes before anything runs.
pub open spec fn deletion_refused(name: Seq<char>, given: Seq<char>, key: Seq<char>) -> bool {
    refused_by(NAME_PATTERN@, name) || given.len() == 0 || given != key
}

/// The answer to a deletion whose name or key is refused.
pub open spec fn deletion_refusal(name: Seq<char>) -> ReplyV {
    if refused_by(NAME_PATTERN@, name) {
        refusal("Name provided is not in correct format"@, "DELETE"@)
    } else {
        refusal("Missing or incorrect data"@, "DELETE"@)
    }
}

/// The answer to a deletion whose name or key is refused, as
/// `deletion_refusal` states.
fn deletion_refuse(name: &str) -> (r: Reply)
    ensures
        r@ == deletion_refusal(name@),
{
    if refuses(NAME_PATTERN, name) {
        refuse("Name provided is not in correct format", "DELETE")
    } else {
        refuse("Missing or incorrect data", "DELETE")
    }
}

/// Whether a deletion request is refused, as `deletion_refused` states.
fn deletion_refused_of(name: &str, given: &str, key: &str) -> (r: bool)
    ensures
        r == deletion_refused(name@, given@, key@),
{
    refuses(NAME_PATTERN, name) || given.is_empty() || !same_text(given, key)
}

/// What `delete_containers_data` does next for `req`, when the configured
/// containers key is `key`.
pub open spec fn containers_delete(req: DeleteContainer, key: Seq<char>, stage: ContainerRemoval) -> EffectV {
    match stage {
        ContainerRemoval::Start => if deletion_refused(req.name@, req.key@, key) {
            EffectV::Answer(deletion_refusal(req.name@))
        } else {
            EffectV::Run(
                podman(
                    seq![
                        "container"@,
                        "ps"@,
                        "--all"@,
                        "--filter"@,
                        "name="@ + req.name@,
                        "--format='{{ .State }}'"@,
                    ],
                    OnFailure::Propagate,
                ),
            )
        },
        ContainerRemoval::Listed(o) => if listed_state(out_text(o@)) == "exited"@ {
            EffectV::Run(podman(seq!["container"@, "rm"@, req.name@], OnFailure::Propagate))
        } else {
            EffectV::Answer(
                refusal("Container is not in 'exited' state or do not exist"@, "DELETE"@),
            )
        },
        ContainerRemoval::Removed(o) => if removed_name(out_text(o@)) == req.name@ {
            EffectV::Answer(
                answered(
                    200,
                    200,
                    "Container '"@ + req.name@ + "' has been deleted"@,
                    "OK"@,
                    log_extra(
                        200,
                        "Request OK"@,
                        0,
                        "DELETE"@,
                        " oCMAPIDeleteID="@ + req.name@ + " oCMAPIDeleteType=container"@,
                    ),
                ),
            )
        } else {
            EffectV::Answer(refusal("Could not remove container"@, "DELETE"@))
        },
    }
}

/// Deletes a container: the name must pass the name check and the key
/// must be the configured containers key; only a container whose state
/// `podman container ps` prints as `exited` is removed, and the removal
/// went well when `podman container rm` prints the name back.
pub fn delete_containers_data(req: &DeleteContainer, key: &str, stage: ContainerRemoval) -> (e: Effect)
    ensures
        e@ == containers_delete(*req, key@, stage),
{
    match stage {
        ContainerRemoval::Start => {
            if deletion_refused_of(req.name.as_str(), req.key.as_str(), key) {
                Effect::Answer(deletion_refuse(req.name.as_str()))
            } else {
                let filter = concat2("name=", req.name.as_str());
                let a = arg(
                    push_text(arg(arg(arg(arg(no_args(), "container"), "ps"), "--all"), "--filter"), filter),
                    "--format='{{ .State }}'",
                );
                assert(texts_of(a@) =~= seq![
                    "container"@,
                    "ps"@,
                    "--all"@,
                    "--filter"@,
                    "name="@ + req.name@,
                    "--format='{{ .State }}'"@,
                ]);
                Effect::Run(podman_run(a, OnFailure::Propagate))
            }
        },
        ContainerRemoval::Listed(o) => {
            let open: Vec<char> = vec!['[', '\''];
            let close: Vec<char> = vec!['\'', '\n', ']'];
            assert(open@ =~= seq!['[', '\'']);
            assert(close@ =~= seq!['\'', '\n', ']']);
            let state = replaced(&replaced(&bracket(&out_chars(&o)), &open, &Vec::new()), &close, &Vec::new());
            let exited = chars_of("exited");
            if same(&state, &exited) {
                let a = push_text(arg(arg(no_args(), "container"), "rm"), req.name.clone());
                assert(texts_of(a@) =~= seq!["container"@, "rm"@, req.name@]);
                Effect::Run(podman_run(a, OnFailure::Propagate))
            } else {
                Effect::Answer(refuse("Container is not in 'exited' state or do not exist", "DELETE"))
            }
        },
        ContainerRemoval::Removed(o) => {
            let open: Vec<char> = vec!['['];
            let close: Vec<char> = vec!['\n', ']'];
            assert(open@ =~= seq!['[']);
            assert(close@ =~= seq!['\n', ']']);
            let result = replaced(&replaced(&bracket(&out_chars(&o)), &open, &Vec::new()), &close, &Vec::new());
            let name = chars_of(req.name.as_str());
            if same(&result, &name) {
                let info = concat3("Container '", req.name.as_str(), "' has been deleted");
                let extra = concat3(" oCMAPIDeleteID=", req.name.as_str(), " oCMAPIDeleteType=container");
                Effect::Answer(
                    answer(200, 200, info, "OK", record_with(200, "Request OK", 0, "DELETE", extra)),
                )
            } else {
                Effect::Answer(refuse("Could not remove container", "DELETE"))
            }
        },
    }
}

/// What `delete_containers_volume_data` does next for `req`, when the
/// configured containers key is `key` and `done` is what `podman volume rm`
/// gave, once it ran.
pub open spec fn volume_delete(req: DeleteVolume, key: Seq<char>, done: Option<OutputV>) -> EffectV {
    match done {
        None => if deletion_refused(req.name@, req.key@, key) {
            EffectV::Answer(deletion_refusal(req.name@))
        } else {
            EffectV::Run(podman(seq!["volume"@, "rm"@, req.name@], OnFailure::Panic))
        },
        Some(o) => if o.code == Some(0i32) {
            EffectV::Answer(
                answered(
                    200,
                    200,
                    "Volume '"@ + req.name@ + "' has been deleted"@,
                    "OK"@,
                    log_extra(
                        200,
                        "Request OK"@,
                        0,
                        "DELETE"@,
                        " oCMAPIDeleteID="@ + req.name@ + " oCMAPIDeleteType=volume"@,
                    ),
                ),
            )
        } else {
            EffectV::Answer(
                refusal("Cannot remove volume '"@ + req.name@ + "', still used or do not exist"@, "GET"@),
            )
        },
    }
}

/// Deletes a volume: the name must pass the name check and the key must be
/// the configured containers key; `podman volume rm` then runs, and its
/// exit code 0 means the volume is gone.
pub fn delete_containers_volume_data(req: &DeleteVolume, key: &str, done: Option<Output>) -> (e: Effect)
    ensures
        e@ == volume_delete(*req, key@, output_v(done)),
{
    match done {
        None => {
            if deletion_refused_of(req.name.as_str(), req.key.as_str(), key) {
                Effect::Answer(deletion_refuse(req.name.as_str()))
            } else {
                let a = push_text(arg(arg(no_args(), "volume"), "rm"), req.name.clone());
                assert(texts_of(a@) =~= seq!["volume"@, "rm"@, req.name@]);
                Effect::Run(podman_run(a, OnFailure::Panic))
            }
        },
        Some(o) => {
            if o.code == Some(0i32) {
                let info = concat3("Volume '", req.name.as_str(), "' has been deleted");
                let extra = concat3(" oCMAPIDeleteID=", req.name.as_str(), " oCMAPIDeleteType=volume");
                Effect::Answer(
                    answer(200, 200, info, "OK", record_with(200, "Request OK", 0, "DELETE", extra)),
                )
            } else {
                let info = concat3("Cannot remove volume '", req.name.as_str(), "', still used or do not exist");
                Effect::Answer(refuse(info.as_str(), "GET"))
            }
        },
    }
}

/// The stage a lookup reaches when its search brought back `ev`; `None`
/// when `ev` does not answer the search.
pub open spec fn lookup_next(stage: Lookup, ev: Event) -> Option<Lookup> {
    match ev {
        Event::Ran(o) => match stage {
            Lookup::Start => Some(Lookup::ByName(o)),
            Lookup::ByName(_) => Some(Lookup::ById(o)),
            Lookup::ById(_) => None,
        },
        _ => None,
    }
}

/// The stage a lookup reaches, as `lookup_next` states.
pub fn lookup_next_stage(stage: Lookup, ev: Event) -> (r: Option<Lookup>)
    ensures
        r == lookup_next(stage, ev),
{
    match ev {
        Event::Ran(o) => match stage {
            Lookup::Start => Some(Lookup::ByName(o)),
            Lookup::ByName(_) => Some(Lookup::ById(o)),
            Lookup::ById(_) => None,
        },
        _ => None,
    }
}

/// The stage a short list reaches when its listing brought back `ev`: the
/// infra listing, then all containers beside what the infra listing
/// printed; `None` when `ev` does not answer the listing.
pub open spec fn short_list_next(stage: ShortListing, ev: Event) -> Option<ShortListing> {
    match ev {
        Event::Ran(o) => match stage {
            ShortListing::Start => Some(ShortListing::Infra(o)),
            ShortListing::Infra(Outcome::Finished(infra)) => Some(ShortListing::Listed(infra, o)),
            _ => None,
        },
        _ => None,
    }
}

/// The stage a short list reaches, as `short_list_next` states.
pub fn get_containers_short_list_next(stage: ShortListing, ev: Event) -> (r: Option<ShortListing>)
    ensures
        r == short_list_next(stage, ev),
{
    match ev {
        Event::Ran(o) => match stage {
            ShortListing::Start => Some(ShortListing::Infra(o)),
            ShortListing::Infra(Outcome::Finished(infra)) => Some(ShortListing::Listed(infra, o)),
            _ => None,
        },
        _ => None,
    }
}

/// The stage a container deletion reaches when its run brought back `ev`;
/// `None` when `ev` does not answer the run.
pub open spec fn container_removal_next(stage: ContainerRemoval, ev: Event) -> Option<ContainerRemoval> {
    match ev {
        Event::Finished(o) => match stage {
            ContainerRemoval::Start => Some(ContainerRemoval::Listed(o)),
            ContainerRemoval::Listed(_) => Some(ContainerRemoval::Removed(o)),
            ContainerRemoval::Removed(_) => None,
        },
        _ => None,
    }
}

/// The stage a container deletion reaches, as `container_removal_next`
/// states.
pub fn delete_containers_data_next(stage: ContainerRemoval, ev: Event) -> (r: Option<ContainerRemoval>)
    ensures
        r == container_removal_next(stage, ev),
{
    match ev {
        Event::Finished(o) => match stage {
            ContainerRemoval::Start => Some(ContainerRemoval::Listed(o)),
            ContainerRemoval::Listed(_) => Some(ContainerRemoval::Removed(o)),
            ContainerRemoval::Removed(_) => None,
        },
        _ => None,
    }
}

} // verus!
