//! The networks part of the API.
use vstd::prelude::*;
use crate::checks::{NAME_PATTERN, refused_by, refuses};
use crate::create::{created, created_reply, option_args, option_args_of, without, without_banned};
use crate::effect::{Effect, EffectV, Event, OnFailure, Outcome, OutcomeV, Output, outcome_v, push_text};
use crate::models::{CreateNetwork, DeleteNetwork};
use crate::output::{arg, listing, listing_of, no_args, out_chars, out_text, podman, podman_run};
use crate::reply::{answer, answered, log_extra, log_of, record, record_with, refusal, refuse, serve, served, text};
use crate::text::{bytes_exceed, chars_of, push_all, same_text, string_of, texts_of};
use vstd::utf8::encode_utf8;

verus! {

/// The `--format` argument of `podman network ls`.
pub const NETWORK_LIST_FORMAT: &'static str = "--format='\n            { \"Name\": {{json .Name}},\n            \"ID\": {{json .ID}},\n            \"Driver\": {{json .Driver}},\n            \"Created\": {{json .Created}} },'";

/// What `get_networks_info` does next.
pub open spec fn networks_info(done: Option<OutcomeV>) -> EffectV {
    match done {
        None => EffectV::Run(
            podman(seq!["network"@, "ls"@, NETWORK_LIST_FORMAT@], OnFailure::Report),
        ),
        Some(OutcomeV::Finished(o)) => EffectV::Answer(served(listing(out_text(o)))),
        Some(OutcomeV::Failed(e)) => EffectV::Answer(
            answered(500, 400, e, "Bad Request"@, log_of(400, "Bad Request"@, 4, "GET"@)),
        ),
    }
}

/// All networks: runs `podman network ls` and answers with its records as
/// a JSON list, or with the error when podman could not be run.
pub fn get_networks_info(done: Option<Outcome>) -> (e: Effect)
    ensures
        e@ == networks_info(outcome_v(done)),
{
    match done {
        None => {
            let a = arg(arg(arg(no_args(), "network"), "ls"), NETWORK_LIST_FORMAT);
            assert(texts_of(a@) =~= seq!["network"@, "ls"@, NETWORK_LIST_FORMAT@]);
            Effect::Run(podman_run(a, OnFailure::Report))
        },
        Some(Outcome::Finished(o)) => Effect::Answer(serve(string_of(&listing_of(&out_chars(&o))))),
        Some(Outcome::Failed(err)) => Effect::Answer(
            answer(500, 400, err, "Bad Request", record(400, "Bad Request", 4, "GET")),
        ),
    }
}

/// What `get_networks_info_single` does next for the network `id`.
pub open spec fn networks_info_single(id: Seq<char>, done: Option<OutcomeV>) -> EffectV {
    match done {
        None => EffectV::Run(
            podman(seq!["network"@, "inspect"@, id, "--format=json"@], OnFailure::Report),
        ),
        Some(OutcomeV::Finished(o)) => if o.stdout.len() > 4 {
            EffectV::Answer(served(out_text(o)))
        } else {
            EffectV::Answer(
                answered(
                    400,
                    400,
                    "No network found with that name"@,
                    "Bad Request"@,
                    log_of(400, "Bad Request"@, 0, "GET"@),
                ),
            )
        },
        Some(OutcomeV::Failed(e)) => EffectV::Answer(
            answered(
                400,
                500,
                e,
                "Internal Server Error"@,
                log_of(500, "Internal Server Error"@, 4, "GET"@),
            ),
        ),
    }
}

/// One network: runs `podman network inspect {id} --format=json` and
/// answers with its output when that holds more than four bytes, and with
/// 400 otherwise.
pub fn get_networks_info_single(id: &str, done: Option<Outcome>) -> (e: Effect)
    ensures
        e@ == networks_info_single(id@, outcome_v(done)),
{
    match done {
        None => {
            let a = arg(arg(arg(arg(no_args(), "network"), "inspect"), id), "--format=json");
            assert(texts_of(a@) =~= seq!["network"@, "inspect"@, id@, "--format=json"@]);
            Effect::Run(podman_run(a, OnFailure::Report))
        },
        Some(Outcome::Finished(o)) => {
            if o.stdout.len() > 4 {
                Effect::Answer(serve(string_of(&out_chars(&o))))
            } else {
                Effect::Answer(
                    answer(
                        400,
                        400,
                        text("No network found with that name"),
                        "Bad Request",
                        record(400, "Bad Request", 0, "GET"),
                    ),
                )
            }
        },
        Some(Outcome::Failed(err)) => Effect::Answer(
            answer(
                400,
                500,
                err,
                "Internal Server Error",
                record(500, "Internal Server Error", 4, "GET"),
            ),
        ),
    }
}

/// The options that are never passed to `podman network create`.
pub open spec fn network_banned() -> Seq<Seq<char>> {
    seq!["--help"@, "--ignore"@]
}

/// The arguments of `podman network create` for `req`, or `None` when its
/// options string is refused.
pub open spec fn network_create_args(req: CreateNetwork) -> Option<Seq<Seq<char>>> {
    match option_args(req.options@) {
        Some(opts) => Some(
            without(seq!["network"@, "create"@, req.name@] + opts, network_banned()),
        ),
        None => None,
    }
}

/// What `post_networks_create` does next for `req`.
pub open spec fn networks_create(req: CreateNetwork, done: Option<OutcomeV>) -> EffectV {
    match done {
        None => if !(encode_utf8(req.name@).len() > 2) {
            EffectV::Answer(refusal("Required tags are missing information"@, "POST"@))
        } else {
            match network_create_args(req) {
                Some(a) => EffectV::Run(podman(a, OnFailure::Report)),
                None => EffectV::Answer(
                    refusal(
                        "Check options tag, must be at least 4 characters long and start with -- to be valid"@,
                        "POST"@,
                    ),
                ),
            }
        },
        Some(o) => EffectV::Answer(created("network"@, "Network"@, o)),
    }
}

/// Creates a network: the name must take more than two bytes, the options
/// become arguments (`--help` and `--ignore` dropped), and the answer
/// follows the `podman network create` run.
pub fn post_networks_create(req: &CreateNetwork, done: Option<Outcome>) -> (e: Effect)
    ensures
        e@ == networks_create(*req, outcome_v(done)),
{
    match done {
        None => {
            if !bytes_exceed(&chars_of(req.name.as_str()), 2) {
                return Effect::Answer(refuse("Required tags are missing information", "POST"));
            }
            match option_args_of(req.options.as_str()) {
                Some(opts) => {
                    let mut a = arg(arg(no_args(), "network"), "create");
                    a = push_text(a, req.name.clone());
                    let ghost head = texts_of(a@);
                    let mut i: usize = 0;
                    while i < opts.len()
                        invariant
                            i <= opts.len(),
                            texts_of(a@) == head + texts_of(opts@).take(i as int),
                        decreases opts.len() - i,
                    {
                        a = push_text(a, opts[i].clone());
                        assert(head + texts_of(opts@).take(i + 1) =~= (head + texts_of(opts@).take(i as int)).push(opts@[i as int]@));
                        i += 1;
                    }
                    assert(texts_of(opts@).take(opts.len() as int) =~= texts_of(opts@));
                    assert(head =~= seq!["network"@, "create"@, req.name@]);
                    let banned = arg(arg(no_args(), "--help"), "--ignore");
                    assert(texts_of(banned@) =~= network_banned());
                    let a = without_banned(a, &banned);
                    Effect::Run(podman_run(a, OnFailure::Report))
                },
                None => Effect::Answer(
                    refuse(
                        "Check options tag, must be at least 4 characters long and start with -- to be valid",
                        "POST",
                    ),
                ),
            }
        },
        Some(o) => Effect::Answer(created_reply("network", "Network", o)),
    }
}

/// How far a network deletion has come.
#[derive(Clone)]
pub enum NetworkRemoval {
    /// Nothing has been done yet.
    Start,
    /// `podman network inspect` ran to see what is attached.
    Inspected(Outcome),
    /// `podman network rm` ran.
    Removed(Output),
}

/// `Network '{name}'` followed by `rest`.
pub open spec fn network_said(name: Seq<char>, rest: Seq<char>) -> Seq<char> {
    "Network '"@ + name + seq!['\''] + rest
}

/// What `delete_networks_data` does next for `req`, when the configured
/// networks key is `key`.
pub open spec fn networks_delete(req: DeleteNetwork, key: Seq<char>, stage: NetworkRemoval) -> EffectV {
    match stage {
        NetworkRemoval::Start => if refused_by(NAME_PATTERN@, req.name@) {
            EffectV::Answer(refusal("Name provided is not in correct format"@, "POST"@))
        } else if req.key@.len() == 0 || req.key@ != key {
            EffectV::Answer(refusal("Missing or incorrect data"@, "DELETE"@))
        } else {
            EffectV::Run(
                podman(
                    seq!["network"@, "inspect"@, req.name@, "--format='{{json .Containers }}'"@],
                    OnFailure::Report,
                ),
            )
        },
        NetworkRemoval::Inspected(Outcome::Finished(o)) => if o@.stdout.len() > 6 {
            EffectV::Answer(
                answered(
                    400,
                    400,
                    network_said(req.name@, " has containers attached or do not exist"@),
                    "Bad Request"@,
                    log_of(400, "Bad Request"@, 0, "GET"@),
                ),
            )
        } else {
            EffectV::Run(podman(seq!["network"@, "rm"@, req.name@], OnFailure::Propagate))
        },
        NetworkRemoval::Inspected(Outcome::Failed(e)) => EffectV::Answer(refusal(e@, "GET"@)),
        NetworkRemoval::Removed(o) => if o@.code == Some(0i32) {
            EffectV::Answer(
                answered(
                    200,
                    200,
                    network_said(req.name@, " has been deleted"@),
                    "OK"@,
                    log_extra(
                        200,
                        "Request OK"@,
                        0,
                        "DELETE"@,
                        " oCMAPIDeleteID="@ + req.name@ + " oCMAPIDeleteType=network"@,
                    ),
                ),
            )
        } else {
            EffectV::Answer(
                refusal(
                    "Cannot remove network '"@ + req.name@ + "', still connected or do not exist"@,
                    "GET"@,
                ),
            )
        },
    }
}

/// `Network '{name}'` followed by `rest`, as `network_said` states.
fn network_said_of(name: &str, rest: &str) -> (r: String)
    ensures
        r@ == network_said(name@, rest@),
{
    let mut v = chars_of("Network '");
    push_all(&mut v, &chars_of(name));
    v.push('\'');
    push_all(&mut v, &chars_of(rest));
    assert(v@ =~= network_said(name@, rest@));
    string_of(&v)
}

/// Deletes a network: the name must pass the name check and the key must
/// be the configured networks key; a network that `podman network inspect`
/// shows with containers (more than six bytes of output) is kept, any other
/// is removed with `podman network rm`, whose exit code decides the answer.
pub fn delete_networks_data(req: &DeleteNetwork, key: &str, stage: NetworkRemoval) -> (e: Effect)
    ensures
        e@ == networks_delete(*req, key@, stage),
{
    match stage {
        NetworkRemoval::Start => {
            if refuses(NAME_PATTERN, req.name.as_str()) {
                Effect::Answer(refuse("Name provided is not in correct format", "POST"))
            } else if req.key.as_str().is_empty() || !same_text(req.key.as_str(), key) {
                Effect::Answer(refuse("Missing or incorrect data", "DELETE"))
            } else {
                let a = arg(
                    push_text(arg(arg(no_args(), "network"), "inspect"), req.name.clone()),
                    "--format='{{json .Containers }}'",
                );
                assert(texts_of(a@) =~= seq![
                    "network"@,
                    "inspect"@,
                    req.name@,
                    "--format='{{json .Containers }}'"@,
                ]);
                Effect::Run(podman_run(a, OnFailure::Report))
            }
        },
        NetworkRemoval::Inspected(Outcome::Finished(o)) => {
            if o.stdout.len() > 6 {
                Effect::Answer(
                    answer(
                        400,
                        400,
                        network_said_of(req.name.as_str(), " has containers attached or do not exist"),
                        "Bad Request",
                        record(400, "Bad Request", 0, "GET"),
                    ),
                )
            } else {
                let a = push_text(arg(arg(no_args(), "network"), "rm"), req.name.clone());
                assert(texts_of(a@) =~= seq!["network"@, "rm"@, req.name@]);
                Effect::Run(podman_run(a, OnFailure::Propagate))
            }
        },
        NetworkRemoval::Inspected(Outcome::Failed(err)) => Effect::Answer(refuse(err.as_str(), "GET")),
        NetworkRemoval::Removed(o) => {
            if o.code == Some(0i32) {
                let mut extra = chars_of(" oCMAPIDeleteID=");
                push_all(&mut extra, &chars_of(req.name.as_str()));
                push_all(&mut extra, &chars_of(" oCMAPIDeleteType=network"));
                assert(extra@ =~= " oCMAPIDeleteID="@ + req.name@ + " oCMAPIDeleteType=network"@);
                Effect::Answer(
                    answer(
                        200,
                        200,
                        network_said_of(req.name.as_str(), " has been deleted"),
                        "OK",
                        record_with(200, "Request OK", 0, "DELETE", string_of(&extra)),
                    ),
                )
            } else {
                Effect::Answer(
                    refuse(
                        crate::text::concat3(
                            "Cannot remove network '",
                            req.name.as_str(),
                            "', still connected or do not exist",
                        ).as_str(),
                        "GET",
                    ),
                )
            }
        },
    }
}

/// The stage a network deletion reaches when its run brought back `ev`:
/// the inspection reports its start failure, the removal does not; `None`
/// when `ev` does not answer the run.
pub open spec fn network_removal_next(stage: NetworkRemoval, ev: Event) -> Option<NetworkRemoval> {
    match stage {
        NetworkRemoval::Start => match ev {
            Event::Ran(o) => Some(NetworkRemoval::Inspected(o)),
            _ => None,
        },
        NetworkRemoval::Inspected(_) => match ev {
            Event::Finished(o) => Some(NetworkRemoval::Removed(o)),
            _ => None,
        },
        NetworkRemoval::Removed(_) => None,
    }
}

/// The stage a network deletion reaches, as `network_removal_next` states.
pub fn delete_networks_data_next(stage: NetworkRemoval, ev: Event) -> (r: Option<NetworkRemoval>)
    ensures
        r == network_removal_next(stage, ev),
{
    match stage {
        NetworkRemoval::Start => match ev {
            Event::Ran(o) => Some(NetworkRemoval::Inspected(o)),
            _ => None,
        },
        NetworkRemoval::Inspected(_) => match ev {
            Event::Finished(o) => Some(NetworkRemoval::Removed(o)),
            _ => None,
        },
        NetworkRemoval::Removed(_) => None,
    }
}

} // verus!
