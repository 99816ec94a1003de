//! Properties that hold across the request handlers: what is refused
//! before anything runs, what a deletion needs, which options never reach
//! podman, and what every log entry looks like.
use vstd::prelude::*;
use crate::checks::{
    NAME_PATTERN, has_char_outside, lemma_check_patterns_distinct, name_char, password_banned, refused_by, repository_char,
    version_char,
};
use crate::common::{common_images_delete, login_command, login_refused, repository_login};
use crate::containers::{
    CONTAINER_QUERY_FORMAT, containers_setstate, container_list_key, containers_create, containers_state_query,
    ShortListing, Lookup, container_removal_next, containers_short_list, containers_single_state,
    lookup_next, short_list_next,ContainerRemoval, container_banned, container_create_args, containers_delete, listed_state, volume_delete};
use crate::create::{option_args, option_word, without};
use crate::effect::{EffectV, Event, InvocationV, OnFailure, event_fits};
use crate::files::{
    envfile_next, secret_next,EnvFileStage, SecretStage, common_envfile, common_secret, env_file, file_delete};
use crate::logs::{cef_header, log_entry, log_fields, server_event};
use crate::models::{StateContainer, StatePod, CreateContainer, CreateEnvFile, CreateNetwork, CreatePod, CreateSecret, DeleteContainer, DeleteEnvFile, DeleteImages, DeleteNetwork, DeletePod, DeleteSecFile, DeleteVolume, RepoLogin};
use crate::networks::{networks_create, network_removal_next, NetworkRemoval, network_banned, network_create_args, networks_delete};
use crate::output::{out_text, printed_names};
use crate::pods::{pods_setstate, pod_removal_next, pods_single_state, PodRemoval, attached_count, pod_banned, pod_create_args, pod_count_command, pods_delete};
use crate::reply::LogV;
use crate::text::{lower_text, replace_all, split, starts_with, trim, trim_end};
use vstd::utf8::encode_utf8;

verus! {

/// One argument is kept by dropping the banned options exactly when it was
/// given and is not banned.
proof fn lemma_without_contains(args: Seq<Seq<char>>, banned: Seq<Seq<char>>, x: Seq<char>)
    ensures
        without(args, banned).contains(x) <==> (args.contains(x) && !banned.contains(x)),
    decreases args.len(),
{
    if args.len() > 0 {
        let rest = args.drop_last();
        let last = args.last();
        lemma_without_contains(rest, banned, x);
        assert(args =~= rest.push(last));
        assert(args.contains(x) <==> (rest.contains(x) || x == last)) by {
            if args.contains(x) {
                let i = choose|i: int| 0 <= i < args.len() && args[i] == x;
                if i < args.len() - 1 {
                    assert(rest[i] == x);
                }
            }
            if rest.contains(x) {
                let j = choose|j: int| 0 <= j < rest.len() && rest[j] == x;
                assert(args[j] == x);
            }
            assert(args[args.len() - 1] == last);
        }
        if !banned.contains(last) {
            let w = without(rest, banned);
            assert(without(args, banned) == w.push(last));
            assert(w.push(last).contains(x) <==> (w.contains(x) || x == last)) by {
                if w.push(last).contains(x) {
                    let k = choose|k: int| 0 <= k < w.len() + 1 && w.push(last)[k] == x;
                    if k < w.len() {
                        assert(w[k] == x);
                    }
                }
                if w.contains(x) {
                    let k = choose|k: int| 0 <= k < w.len() && w[k] == x;
                    assert(w.push(last)[k] == x);
                }
                assert(w.push(last)[w.len() as int] == last);
            }
        }
    }
}

/// Dropping the banned options keeps exactly the arguments that are not
/// banned: an argument is in the result if and only if it was given and is
/// not banned.
pub proof fn lemma_without_keeps_allowed(args: Seq<Seq<char>>, banned: Seq<Seq<char>>)
    ensures
        forall|x: Seq<char>| #[trigger] without(args, banned).contains(x) <==> (args.contains(x) && !banned.contains(x)),
{
    assert forall|x: Seq<char>| #[trigger] without(args, banned).contains(x) <==> (args.contains(x) && !banned.contains(x)) by {
        lemma_without_contains(args, banned, x);
    }
}

/// `podman container create` never gets one of its banned options
/// (`--help`, `--tty`, `--attach`, `--quiet`, `--rm`) before the image,
/// and the image comes last.
pub proof fn lemma_container_options_filtered(req: CreateContainer)
    ensures
        container_create_args(req) matches Some(a) ==> {
            &&& a.len() > 0
            &&& a.last() == req.image@
            &&& forall|x: Seq<char>| #[trigger] a.drop_last().contains(x) ==> !container_banned().contains(x)
        },
{
    if let Some(a) = container_create_args(req) {
        let opts = crate::create::option_args(req.options@)->0;
        let head = seq!["container"@, "create"@, "--name="@ + req.name@] + opts;
        lemma_without_keeps_allowed(head, container_banned());
        assert(a.drop_last() =~= without(head, container_banned()));
    }
}

/// `podman pod create` never gets `--help`.
pub proof fn lemma_pod_options_filtered(req: CreatePod)
    ensures
        pod_create_args(req) matches Some(a) ==> !a.contains("--help"@),
{
    if let Some(a) = pod_create_args(req) {
        let opts = crate::create::option_args(req.options@)->0;
        lemma_without_keeps_allowed(seq!["pod"@, "create"@, "--name="@ + req.name@] + opts, pod_banned());
        assert(pod_banned()[0] == "--help"@);
    }
}

/// `podman network create` never gets `--help` or `--ignore`.
pub proof fn lemma_network_options_filtered(req: CreateNetwork)
    ensures
        network_create_args(req) matches Some(a) ==> !a.contains("--help"@) && !a.contains("--ignore"@),
{
    if let Some(a) = network_create_args(req) {
        let opts = crate::create::option_args(req.options@)->0;
        lemma_without_keeps_allowed(seq!["network"@, "create"@, req.name@] + opts, network_banned());
        assert(network_banned()[0] == "--help"@);
        assert(network_banned()[1] == "--ignore"@);
    }
}

/// The short list of containers names no infra container of a pod: every
/// name it keeps was printed in the full listing and not in the listing of
/// infra containers.
pub proof fn lemma_short_list_skips_infra(infra: crate::effect::Output, all: crate::effect::Output)
    ensures
        forall|x: Seq<char>| #[trigger] without(printed_names(all@), printed_names(infra@)).contains(x)
            ==> printed_names(all@).contains(x) && !printed_names(infra@).contains(x),
{
    lemma_without_keeps_allowed(printed_names(all@), printed_names(infra@));
}

/// Whether an effect answers at once with a refusal: HTTP 400 and
/// nothing run, written or removed.
pub open spec fn refused_at_once(e: EffectV) -> bool {
    e matches EffectV::Answer(r) && r.status == 400
}

/// A container is never deleted with a key other than the configured one,
/// nor under a name the name check refuses: the request is refused at
/// once.
pub proof fn lemma_container_deletion_guarded(req: DeleteContainer, key: Seq<char>)
    requires
        req.key@ != key || refused_by(NAME_PATTERN@, req.name@),
    ensures
        refused_at_once(containers_delete(req, key, ContainerRemoval::Start)),
{
}

/// A volume is never deleted with a key other than the configured one,
/// nor under a name the name check refuses.
pub proof fn lemma_volume_deletion_guarded(req: DeleteVolume, key: Seq<char>)
    requires
        req.key@ != key || refused_by(NAME_PATTERN@, req.name@),
    ensures
        refused_at_once(volume_delete(req, key, None)),
{
}

/// A pod is never deleted with a key other than the configured one, nor
/// under a name the name check refuses.
pub proof fn lemma_pod_deletion_guarded(req: DeletePod, key: Seq<char>)
    requires
        req.key@ != key || refused_by(NAME_PATTERN@, req.name@),
    ensures
        refused_at_once(pods_delete(req, key, PodRemoval::Start)),
{
}

/// A network is never deleted with a key other than the configured one,
/// nor under a name the name check refuses.
pub proof fn lemma_network_deletion_guarded(req: DeleteNetwork, key: Seq<char>)
    requires
        req.key@ != key || refused_by(NAME_PATTERN@, req.name@),
    ensures
        refused_at_once(networks_delete(req, key, NetworkRemoval::Start)),
{
}

/// An env file is never deleted with a key other than the configured
/// common key, nor under a name the name check refuses.
pub proof fn lemma_env_file_deletion_guarded(req: DeleteEnvFile, key: Seq<char>, dir: Seq<char>)
    requires
        req.key@ != key || refused_by(NAME_PATTERN@, req.name@),
    ensures
        refused_at_once(
            file_delete(
                req.name@,
                req.key@,
                key,
                dir,
                ".env"@,
                "Information missing or bad data"@,
                "File could not be deleted"@,
                "envfile"@,
                None,
            ),
        ),
{
}

/// A secret file is never deleted with a key other than the configured
/// common key, nor under a name the name check refuses.
pub proof fn lemma_secret_file_deletion_guarded(req: DeleteSecFile, key: Seq<char>, dir: Seq<char>)
    requires
        req.key@ != key || refused_by(NAME_PATTERN@, req.name@),
    ensures
        refused_at_once(
            file_delete(
                req.name@,
                req.key@,
                key,
                dir,
                ".tmp"@,
                "Missing or incorrect data"@,
                "File could nbot be deleted"@,
                "secfile"@,
                None,
            ),
        ),
{
}

/// Images are never pruned with a key other than the configured common
/// key.
pub proof fn lemma_prune_guarded(req: DeleteImages, key: Seq<char>)
    requires
        req.key@ != key,
    ensures
        refused_at_once(common_images_delete(req, key, None)),
{
}

/// A container is removed only after its state was read as `exited`.
pub proof fn lemma_container_removed_only_when_exited(req: DeleteContainer, key: Seq<char>, o: crate::effect::Output)
    ensures
        containers_delete(req, key, ContainerRemoval::Listed(o)) is Run ==> listed_state(out_text(o@)) == "exited"@,
{
}

/// A pod is removed only when it holds exactly one container, its infra
/// container.
pub proof fn lemma_pod_removed_only_when_empty(req: DeletePod, key: Seq<char>, o: crate::effect::Output)
    ensures
        pods_delete(req, key, PodRemoval::Counted(o)) is Run ==> attached_count(o@) == 1,
{
}

/// A network is removed only when its inspection printed at most six
/// bytes, that is, no attached containers.
pub proof fn lemma_network_removed_only_when_unused(req: DeleteNetwork, key: Seq<char>, o: crate::effect::Outcome)
    ensures
        networks_delete(req, key, NetworkRemoval::Inspected(o)) is Run ==> (o matches crate::effect::Outcome::Finished(out) && out@.stdout.len() <= 6),
{
}

/// Text from a request goes to bash only once it passed its checks: the
/// pod name in the container count command holds only `A-Za-z0-9_-`, and in
/// the login command the repository holds only `A-Za-z0-9./_-`, the user
/// name only `A-Za-z0-9._-`, and the password none of the banned
/// characters; so none of them holds the single quote that delimits it.
pub proof fn lemma_shell_commands_checked(pod: DeletePod, key: Seq<char>, login: RepoLogin)
    ensures
        pods_delete(pod, key, PodRemoval::Start) is Shell ==> {
            &&& forall|i: int| 0 <= i < pod.name@.len() ==> #[trigger] name_char(pod.name@[i])
            &&& !pod.name@.contains('\'')
            &&& pod.key@ == key
            &&& pods_delete(pod, key, PodRemoval::Start) == EffectV::Shell(pod_count_command(pod.name@))
        },
        repository_login(login, None) is Shell ==> {
            &&& forall|i: int| 0 <= i < login.repository@.len() ==> #[trigger] repository_char(login.repository@[i])
            &&& forall|i: int| 0 <= i < login.username@.len() ==> #[trigger] version_char(login.username@[i])
            &&& forall|i: int| 0 <= i < login.password@.len() ==> !#[trigger] password_banned(login.password@[i])
            &&& !login.repository@.contains('\'') && !login.username@.contains('\'') && !login.password@.contains('\'')
            &&& repository_login(login, None) == EffectV::Shell(login_command(login))
        },
{
    if pods_delete(pod, key, PodRemoval::Start) is Shell {
        assert forall|i: int| 0 <= i < pod.name@.len() implies #[trigger] name_char(pod.name@[i]) by {
            if !name_char(pod.name@[i]) {
                assert(has_char_outside(pod.name@, |c: char| name_char(c)));
            }
        }
        if pod.name@.contains('\'') {
            let j = choose|j: int| 0 <= j < pod.name@.len() && pod.name@[j] == '\'';
            assert(name_char(pod.name@[j]));
        }
    }
    lemma_check_patterns_distinct();
    if repository_login(login, None) is Shell {
        let (r, u, p) = (login.repository@, login.username@, login.password@);
        assert forall|i: int| 0 <= i < r.len() implies #[trigger] repository_char(r[i]) by {
            if !repository_char(r[i]) {
                assert(has_char_outside(r, |c: char| repository_char(c)));
            }
        }
        assert forall|i: int| 0 <= i < u.len() implies #[trigger] version_char(u[i]) by {
            if !version_char(u[i]) {
                assert(has_char_outside(u, |c: char| version_char(c)));
            }
        }
        assert forall|i: int| 0 <= i < p.len() implies !#[trigger] password_banned(p[i]) by {
            if password_banned(p[i]) {
                assert(has_char_outside(p, |c: char| !password_banned(c)));
            }
        }
        if r.contains('\'') {
            let j = choose|j: int| 0 <= j < r.len() && r[j] == '\'';
            assert(repository_char(r[j]));
        }
        if u.contains('\'') {
            let j = choose|j: int| 0 <= j < u.len() && u[j] == '\'';
            assert(version_char(u[j]));
        }
        if p.contains('\'') {
            let j = choose|j: int| 0 <= j < p.len() && p[j] == '\'';
            assert(!password_banned(p[j]));
        }
    }
}

/// An existing env file is overwritten only when `replace` is `yes`; with
/// `replace` set to `yes` or to `no`, a file that does not exist yet is
/// written; what is written goes to `{dir}/{name}.env`.
pub proof fn lemma_env_file_replaced_only_when_asked(req: CreateEnvFile, dir: Seq<char>, exists: bool)
    ensures
        common_envfile(req, dir, EnvFileStage::Probed(exists)) is Write ==> {
            &&& (exists ==> req.replace@ == "yes"@)
            &&& common_envfile(req, dir, EnvFileStage::Probed(exists))->path == env_file(dir, req.name@)
        },
        (req.replace@ == "yes"@ || (req.replace@ == "no"@ && !exists)) ==> common_envfile(
            req,
            dir,
            EnvFileStage::Probed(exists),
        ) is Write,
{
}

/// The temporary file a secret's data is written to is the file removed
/// once `podman secret create` has run, whatever the run gave.
pub proof fn lemma_secret_file_cleaned_up(
    req: CreateSecret,
    dir: Seq<char>,
    n: String,
    code: Option<i32>,
    o: crate::effect::Outcome,
)
    ensures
        common_secret(req, dir, SecretStage::Checked(n, code)) is Write ==> common_secret(
            req,
            dir,
            SecretStage::Created(n, o),
        ) == EffectV::Remove(common_secret(req, dir, SecretStage::Checked(n, code))->path),
{
}

/// Every log entry is a CEF record of this product: it starts with
/// `CEF:1|oCMAPI|API|1.0|`, and so does the entry logged when the server
/// starts or stops.
pub proof fn lemma_entries_are_cef(
    log: LogV,
    vdata: Seq<Seq<char>>,
    server_ip: Seq<char>,
    server_port: Seq<char>,
    started: bool,
    secure: bool,
)
    requires
        vdata.len() >= 5,
    ensures
        starts_with(log_entry(log, vdata, server_ip, server_port), "CEF:1|oCMAPI|API|1.0|"@),
        starts_with(server_event(started, secure, server_port), "CEF:1|oCMAPI|API|1.0|"@),
{
    let prefix = "CEF:1|oCMAPI|API|1.0|"@;
    let f = log_fields(log.code, log.status, log.severity, log.method, vdata, server_ip, server_port);
    let e = log_entry(log, vdata, server_ip, server_port);
    assert(f[0] == cef_header(log.code, log.status, log.severity));
    assert(e.subrange(0, prefix.len() as int) =~= prefix);
    let s = server_event(started, secure, server_port);
    reveal_strlit("CEF:1|oCMAPI|API|1.0|");
    reveal_strlit("CEF:1|oCMAPI|API|1.0|100|Server ");
    assert(s.subrange(0, prefix.len() as int) =~= prefix);
}

/// A secret request never gets stuck: whenever it asks for something other
/// than an answer, what carrying that out brings back leads to its next
/// stage.
pub proof fn lemma_secret_steps_continue(req: CreateSecret, dir: Seq<char>, stage: SecretStage, ev: Event)
    requires
        !(common_secret(req, dir, stage) is Answer),
        event_fits(common_secret(req, dir, stage), ev),
    ensures
        secret_next(stage, ev) is Some,
{
}

/// An env file request never gets stuck, in the same sense.
pub proof fn lemma_envfile_steps_continue(req: CreateEnvFile, dir: Seq<char>, stage: EnvFileStage, ev: Event)
    requires
        !(common_envfile(req, dir, stage) is Answer),
        event_fits(common_envfile(req, dir, stage), ev),
    ensures
        envfile_next(stage, ev) is Some,
{
}

/// A lookup of one container or pod never gets stuck, in the same sense.
pub proof fn lemma_lookup_steps_continue(id: Seq<char>, stage: Lookup, ev: Event)
    ensures
        !(containers_single_state(id, stage) is Answer) && event_fits(containers_single_state(id, stage), ev)
            ==> lookup_next(stage, ev) is Some,
        !(pods_single_state(id, stage) is Answer) && event_fits(pods_single_state(id, stage), ev)
            ==> lookup_next(stage, ev) is Some,
{
}

/// A short list of containers never gets stuck, in the same sense.
pub proof fn lemma_short_list_steps_continue(asked: Seq<char>, stage: ShortListing, ev: Event)
    requires
        !(containers_short_list(asked, stage) is Answer),
        event_fits(containers_short_list(asked, stage), ev),
    ensures
        short_list_next(stage, ev) is Some,
{
}

/// A container deletion never gets stuck, in the same sense.
pub proof fn lemma_container_removal_steps_continue(
    req: DeleteContainer,
    key: Seq<char>,
    stage: ContainerRemoval,
    ev: Event,
)
    requires
        !(containers_delete(req, key, stage) is Answer),
        event_fits(containers_delete(req, key, stage), ev),
    ensures
        container_removal_next(stage, ev) is Some,
{
}

/// A pod deletion never gets stuck, in the same sense.
pub proof fn lemma_pod_removal_steps_continue(req: DeletePod, key: Seq<char>, stage: PodRemoval, ev: Event)
    requires
        !(pods_delete(req, key, stage) is Answer),
        event_fits(pods_delete(req, key, stage), ev),
    ensures
        pod_removal_next(stage, ev) is Some,
{
}

/// A network deletion never gets stuck, in the same sense.
pub proof fn lemma_network_removal_steps_continue(
    req: DeleteNetwork,
    key: Seq<char>,
    stage: NetworkRemoval,
    ev: Event,
)
    requires
        !(networks_delete(req, key, stage) is Answer),
        event_fits(networks_delete(req, key, stage), ev),
    ensures
        network_removal_next(stage, ev) is Some,
{
}

/// Keeping what is not banned changes nothing when no argument is banned.
proof fn lemma_without_none_banned(args: Seq<Seq<char>>, banned: Seq<Seq<char>>)
    requires
        forall|i: int| 0 <= i < args.len() ==> !banned.contains(#[trigger] args[i]),
    ensures
        without(args, banned) == args,
    decreases args.len(),
{
    if args.len() > 0 {
        let rest = args.drop_last();
        assert forall|i: int| 0 <= i < rest.len() implies !banned.contains(#[trigger] rest[i]) by {
            assert(rest[i] == args[i]);
        }
        lemma_without_none_banned(rest, banned);
        assert(!banned.contains(args[args.len() - 1]));
        assert(rest.push(args.last()) =~= args);
    }
}

/// A secret that `podman secret exists` reports missing (exit code 1) is
/// created whatever `replace` says: its data, with each `|` made a line
/// break, trailing white space dropped and one line break added, is written
/// to `{dir}/{name}_{number}.tmp`. One that exists (exit code 0) is written
/// the same way exactly when `replace` is `yes`, trimmed, and is refused
/// otherwise.
pub proof fn lemma_missing_secret_is_created(req: CreateSecret, dir: Seq<char>, n: String)
    ensures
        common_secret(req, dir, SecretStage::Checked(n, Some(1i32))) == (EffectV::Write {
            path: dir + seq!['/'] + req.name@ + seq!['_'] + n@ + ".tmp"@,
            content: trim_end(replace_all(req.data@, seq!['|'], seq!['\n'])).push('\n'),
        }),
        common_secret(req, dir, SecretStage::Checked(n, Some(0i32))) is Write <==> trim(req.replace@) == "yes"@,
        trim(req.replace@) == "yes"@ ==> common_secret(req, dir, SecretStage::Checked(n, Some(0i32)))
            == common_secret(req, dir, SecretStage::Checked(n, Some(1i32))),
{
}

/// A container asked for with a name of more than two bytes, an image of
/// more than five and no options is created by running exactly
/// `podman container create --name={name} {image}`.
pub proof fn lemma_plain_container_create(req: CreateContainer)
    requires
        encode_utf8(req.name@).len() > 2,
        encode_utf8(req.image@).len() > 5,
        req.options@.len() == 0,
    ensures
        containers_create(req, None) == EffectV::Run(
            InvocationV {
                program: "podman"@,
                args: seq!["container"@, "create"@, "--name="@ + req.name@, req.image@],
                on_failure: OnFailure::Report,
            },
        ),
{
    reveal_strlit("container");
    reveal_strlit("create");
    reveal_strlit("--name=");
    reveal_strlit("--help");
    reveal_strlit("--tty");
    reveal_strlit("--attach");
    reveal_strlit("--quiet");
    reveal_strlit("--rm");
    reveal_strlit("podman");
    let base = seq!["container"@, "create"@, "--name="@ + req.name@];
    let banned = container_banned();
    assert(option_args(req.options@) == Some(Seq::<Seq<char>>::empty()));
    assert(base + Seq::<Seq<char>>::empty() =~= base);
    assert forall|i: int| 0 <= i < base.len() implies !banned.contains(#[trigger] base[i]) by {
        if banned.contains(base[i]) {
            let j = choose|j: int| 0 <= j < banned.len() && banned[j] == base[i];
            if i == 2 {
                assert(base[i][2] == 'n');
                assert(banned[j][2] != 'n');
            } else if i == 0 {
                assert(base[i].len() == 9);
            } else {
                assert(base[i][0] == 'c');
            }
        }
    }
    lemma_without_none_banned(base, banned);
    assert(base.push(req.image@) =~= seq!["container"@, "create"@, "--name="@ + req.name@, req.image@]);
}

/// A short list asked for by `id` (in any case) lists IDs: it runs
/// `podman container ps --all --filter name=infra --format={{ .ID }}` and
/// answers under the key `ID`; asked for by `name` it does the same with
/// `.Names` and `Names`.
pub proof fn lemma_short_list_by_id_or_name(asked: Seq<char>)
    ensures
        lower_text(asked) == "id"@ ==> {
            &&& container_list_key(asked) == "ID"@
            &&& containers_short_list(asked, ShortListing::Start) == EffectV::Run(
                InvocationV {
                    program: "podman"@,
                    args: seq![
                        "container"@,
                        "ps"@,
                        "--all"@,
                        "--filter"@,
                        "name=infra"@,
                        "--format={{ .ID }}"@,
                    ],
                    on_failure: OnFailure::Report,
                },
            )
        },
        lower_text(asked) == "name"@ ==> {
            &&& container_list_key(asked) == "Names"@
            &&& containers_short_list(asked, ShortListing::Start) == EffectV::Run(
                InvocationV {
                    program: "podman"@,
                    args: seq![
                        "container"@,
                        "ps"@,
                        "--all"@,
                        "--filter"@,
                        "name=infra"@,
                        "--format={{ .Names }}"@,
                    ],
                    on_failure: OnFailure::Report,
                },
            )
        },
{
    reveal_strlit("id");
    reveal_strlit("name");
    reveal_strlit("ID");
    reveal_strlit("Names");
    reveal_strlit("ERROR");
    reveal_strlit("--format={{ .");
    reveal_strlit(" }}");
    reveal_strlit("--format={{ .ID }}");
    reveal_strlit("--format={{ .Names }}");
    reveal_strlit("container");
    reveal_strlit("ps");
    reveal_strlit("--all");
    reveal_strlit("--filter");
    reveal_strlit("name=infra");
    reveal_strlit("podman");
    assert("--format={{ ."@ + "ID"@ + " }}"@ =~= "--format={{ .ID }}"@);
    assert("--format={{ ."@ + "Names"@ + " }}"@ =~= "--format={{ .Names }}"@);
    assert("id"@ != "name"@) by {
        assert("id"@.len() != "name"@.len());
    }
    assert("ID"@ != "ERROR"@) by {
        assert("ID"@.len() != "ERROR"@.len());
    }
    assert("Names"@ != "ERROR"@) by {
        assert("Names"@[0] != "ERROR"@[0]);
    }
    if lower_text(asked) == "id"@ {
        assert(container_list_key(asked) == "ID"@);
        assert(crate::containers::field_format("ID"@) == "--format={{ .ID }}"@);
    }
    if lower_text(asked) == "name"@ {
        assert(container_list_key(asked) == "Names"@);
        assert(crate::containers::field_format("Names"@) == "--format={{ .Names }}"@);
    }
}

/// Containers are listed by each of the states created, exited, paused,
/// running and unknown, in any case: the query runs
/// `podman container ps --filter status={state}` with the state in lower
/// case.
pub proof fn lemma_state_query_runs(state: Seq<char>)
    requires
        lower_text(state) == "created"@ || lower_text(state) == "exited"@ || lower_text(state) == "paused"@
            || lower_text(state) == "running"@ || lower_text(state) == "unknown"@,
    ensures
        containers_state_query(state, None) == EffectV::Run(
            InvocationV {
                program: "podman"@,
                args: seq![
                    "container"@,
                    "ps"@,
                    "--filter"@,
                    "status="@ + lower_text(state),
                    CONTAINER_QUERY_FORMAT@,
                ],
                on_failure: OnFailure::Report,
            },
        ),
{
}

/// The pieces of an options string: split at each `,-`.
pub open spec fn option_pieces(options: Seq<char>) -> Seq<Seq<char>> {
    split(options, seq![',', '-'])
}

/// The argument an option piece becomes: as it stands when it starts with
/// `--`, else with its `-` (taken by the `,-` separator) put back.
pub open spec fn piece_option(piece: Seq<char>) -> Seq<char> {
    if starts_with(piece, seq!['-', '-']) {
        piece
    } else {
        seq!['-'] + piece
    }
}

/// A network is created with the options it was given: for a name of more
/// than two bytes and an options string of more than four bytes that starts
/// with `--`, podman runs `network create` and then exactly the arguments
/// that are the name or an option piece (split at `,-`), but `--help` and
/// `--ignore`.
pub proof fn lemma_network_options_passed(req: CreateNetwork)
    requires
        encode_utf8(req.name@).len() > 2,
        encode_utf8(req.options@).len() > 4,
        starts_with(req.options@, seq!['-', '-']),
    ensures
        networks_create(req, None) is Run,
        networks_create(req, None)->Run_0.program == "podman"@,
        networks_create(req, None)->Run_0.args.take(2) == seq!["network"@, "create"@],
        forall|x: Seq<char>| #[trigger] networks_create(req, None)->Run_0.args.contains(x) <==> {
            &&& (x == "network"@ || x == "create"@ || x == req.name@ || exists|i: int|
                0 <= i < option_pieces(req.options@).len() && x == piece_option(
                    #[trigger] option_pieces(req.options@)[i],
                ))
            &&& x != "--help"@
            &&& x != "--ignore"@
        },
{
    reveal_strlit("network");
    reveal_strlit("create");
    reveal_strlit("--help");
    reveal_strlit("--ignore");
    let pieces = option_pieces(req.options@);
    let opts = pieces.map_values(|p: Seq<char>| option_word(p));
    assert(option_args(req.options@) == Some(opts));
    let head = seq!["network"@, "create"@];
    let all = seq!["network"@, "create"@, req.name@] + opts;
    let banned = network_banned();
    let a = without(all, banned);
    lemma_without_keeps_allowed(all, banned);
    assert(banned =~= seq!["--help"@, "--ignore"@]);
    assert forall|x: Seq<char>| banned.contains(x) <==> (x == "--help"@ || x == "--ignore"@) by {
        if banned.contains(x) {
            let j = choose|j: int| 0 <= j < banned.len() && banned[j] == x;
        }
        if x == "--help"@ {
            assert(banned[0] == x);
        }
        if x == "--ignore"@ {
            assert(banned[1] == x);
        }
    }
    assert forall|x: Seq<char>| all.contains(x) <==> (x == "network"@ || x == "create"@ || x == req.name@
        || exists|i: int| 0 <= i < pieces.len() && x == piece_option(#[trigger] pieces[i])) by {
        if all.contains(x) {
            let j = choose|j: int| 0 <= j < all.len() && all[j] == x;
            if j >= 3 {
                assert(opts[j - 3] == x);
                assert(x == piece_option(pieces[j - 3]));
            }
        }
        if x == "network"@ {
            assert(all[0] == x);
        }
        if x == "create"@ {
            assert(all[1] == x);
        }
        if x == req.name@ {
            assert(all[2] == x);
        }
        if exists|i: int| 0 <= i < pieces.len() && x == piece_option(#[trigger] pieces[i]) {
            let i = choose|i: int| 0 <= i < pieces.len() && x == piece_option(#[trigger] pieces[i]);
            assert(opts[i] == x);
            assert(all[i + 3] == x);
        }
    }
    lemma_without_append(head, seq![req.name@] + opts, banned);
    assert(head + (seq![req.name@] + opts) =~= all);
    assert forall|i: int| 0 <= i < head.len() implies !banned.contains(#[trigger] head[i]) by {
        if i == 0 {
            assert(head[i].len() == 7);
        } else {
            assert(head[i][0] == 'c');
        }
    }
    lemma_without_none_banned(head, banned);
    assert((head + without(seq![req.name@] + opts, banned)).take(2) =~= head);
}

/// Dropping the banned options from two lists one after the other is
/// dropping them from each.
proof fn lemma_without_append(a: Seq<Seq<char>>, b: Seq<Seq<char>>, banned: Seq<Seq<char>>)
    ensures
        without(a + b, banned) == without(a, banned) + without(b, banned),
    decreases b.len(),
{
    if b.len() == 0 {
        assert(a + b =~= a);
        assert(without(a, banned) + without(b, banned) =~= without(a, banned));
    } else {
        lemma_without_append(a, b.drop_last(), banned);
        assert((a + b).drop_last() =~= a + b.drop_last());
        assert((a + b).last() == b.last());
        if !banned.contains(b.last()) {
            assert(without(a, banned) + without(b.drop_last(), banned).push(b.last()) =~= (without(
                a,
                banned,
            ) + without(b.drop_last(), banned)).push(b.last()));
        }
    }
}

/// Whether every character of `name` is one a name may hold,
/// `A-Za-z0-9_-`.
pub open spec fn plain_name(name: Seq<char>) -> bool {
    forall|i: int| 0 <= i < name.len() ==> #[trigger] name_char(name[i])
}

/// A name of allowed characters passes the name check.
proof fn lemma_plain_name_passes(name: Seq<char>)
    requires
        plain_name(name),
    ensures
        !refused_by(NAME_PATTERN@, name),
{
    if has_char_outside(name, |c: char| name_char(c)) {
        let i = choose|i: int| 0 <= i < name.len() && !(|c: char| name_char(c))(#[trigger] name[i]);
        assert(name_char(name[i]));
    }
}

/// A deletion with the configured key and a name of allowed characters
/// goes ahead: a container's state is read with `podman container ps`, a
/// volume is removed with `podman volume rm`, a pod's containers are
/// counted, and a network is inspected.
pub proof fn lemma_deletions_go_ahead(
    c: DeleteContainer,
    v: DeleteVolume,
    p: DeletePod,
    n: DeleteNetwork,
    key: Seq<char>,
)
    ensures
        plain_name(c.name@) && c.key@ == key && key.len() > 0 ==> containers_delete(
            c,
            key,
            ContainerRemoval::Start,
        ) == EffectV::Run(
            InvocationV {
                program: "podman"@,
                args: seq![
                    "container"@,
                    "ps"@,
                    "--all"@,
                    "--filter"@,
                    "name="@ + c.name@,
                    "--format='{{ .State }}'"@,
                ],
                on_failure: OnFailure::Propagate,
            },
        ),
        plain_name(v.name@) && v.key@ == key && key.len() > 0 ==> volume_delete(v, key, None)
            == EffectV::Run(
            InvocationV {
                program: "podman"@,
                args: seq!["volume"@, "rm"@, v.name@],
                on_failure: OnFailure::Panic,
            },
        ),
        plain_name(p.name@) && p.key@ == key && key.len() > 0 ==> pods_delete(p, key, PodRemoval::Start)
            is Shell,
        plain_name(n.name@) && n.key@ == key && key.len() > 0 ==> networks_delete(
            n,
            key,
            NetworkRemoval::Start,
        ) == EffectV::Run(
            InvocationV {
                program: "podman"@,
                args: seq!["network"@, "inspect"@, n.name@, "--format='{{json .Containers }}'"@],
                on_failure: OnFailure::Report,
            },
        ),
{
    if plain_name(c.name@) {
        lemma_plain_name_passes(c.name@);
    }
    if plain_name(v.name@) {
        lemma_plain_name_passes(v.name@);
    }
    if plain_name(p.name@) {
        lemma_plain_name_passes(p.name@);
    }
    if plain_name(n.name@) {
        lemma_plain_name_passes(n.name@);
    }
}

/// A container state change with a name that neither starts with `-` nor
/// holds a space nor is empty, and a state that is start, stop, pause,
/// unpause or restart in any case, runs `podman container {state} {name}`
/// with the state in lower case; a pod state change with such a name and
/// state runs `podman pod {state} {name}`.
pub proof fn lemma_state_changes_run(c: StateContainer, p: StatePod)
    ensures
        ({
            let w = lower_text(c.state@);
            &&& c.name@.len() > 0
            &&& c.name@[0] != '-'
            &&& !c.name@.contains(' ')
            &&& (w == "start"@ || w == "stop"@ || w == "pause"@ || w == "unpause"@ || w == "restart"@)
        }) ==> containers_setstate(c, None) == EffectV::Run(
            InvocationV {
                program: "podman"@,
                args: seq!["container"@, lower_text(c.state@), c.name@],
                on_failure: OnFailure::Report,
            },
        ),
        ({
            let w = lower_text(p.state@);
            &&& p.name@.len() > 0
            &&& p.name@[0] != '-'
            &&& !p.name@.contains(' ')
            &&& (w == "start"@ || w == "stop"@ || w == "pause"@ || w == "unpause"@ || w == "restart"@)
        }) ==> pods_setstate(p, None) == EffectV::Run(
            InvocationV {
                program: "podman"@,
                args: seq!["pod"@, lower_text(p.state@), p.name@],
                on_failure: OnFailure::Report,
            },
        ),
{
    reveal_strlit("ERROR");
    reveal_strlit("error");
    reveal_strlit("start");
    reveal_strlit("stop");
    reveal_strlit("pause");
    reveal_strlit("unpause");
    reveal_strlit("restart");
    reveal_strlit("-");
    reveal_strlit("--");
    reveal_strlit(" ");
    let cn = c.name@;
    let pn = p.name@;
    if cn.len() > 0 && cn[0] != '-' {
        if starts_with(cn, seq!['-']) {
            assert(cn.subrange(0, 1)[0] == cn[0]);
            assert(cn.subrange(0, 1) == seq!['-']);
            assert(seq!['-'][0] == '-');
        }
        if starts_with(cn, seq!['-', '-']) {
            assert(cn.subrange(0, 2)[0] == cn[0]);
            assert(cn.subrange(0, 2) == seq!['-', '-']);
            assert(seq!['-', '-'][0] == '-');
        }
    }
    if pn.len() > 0 && pn[0] != '-' {
        if starts_with(pn, seq!['-']) {
            assert(pn.subrange(0, 1)[0] == pn[0]);
            assert(pn.subrange(0, 1) == seq!['-']);
            assert(seq!['-'][0] == '-');
        }
    }
    if !cn.contains(' ') && crate::text::contains(cn, seq![' ']) {
        let i = choose|i: int| crate::text::occurs_at(cn, seq![' '], i);
        assert(cn.subrange(i, i + 1)[0] == cn[i]);
        assert(cn[i] == ' ');
    }
    if !pn.contains(' ') && crate::text::contains(pn, seq![' ']) {
        let i = choose|i: int| crate::text::occurs_at(pn, seq![' '], i);
        assert(pn.subrange(i, i + 1)[0] == pn[i]);
        assert(pn[i] == ' ');
    }
    let w = lower_text(c.state@);
    if c.state@ == "ERROR"@ {
        assert(crate::text::all_ascii(c.state@));
        assert(w =~= "error"@);
        assert(w[0] == 'e');
        assert("start"@[0] == 's' && "stop"@[0] == 's' && "pause"@[0] == 'p' && "unpause"@[0] == 'u'
            && "restart"@[0] == 'r');
    }
    let cw = w == "start"@ || w == "stop"@ || w == "pause"@ || w == "unpause"@ || w == "restart"@;
    if cn.len() > 0 && cn[0] != '-' && !cn.contains(' ') && cw {
        assert(!crate::containers::bad_container_name(cn));
        assert(crate::containers::settable_state(w));
        assert(c.state@ != "ERROR"@);
        assert(!crate::containers::container_change_refused(c));
    }
}

/// A pod asked for with a name of more than two bytes and no options is
/// created by running exactly `podman pod create --name={name}`.
pub proof fn lemma_plain_pod_create(req: CreatePod)
    requires
        encode_utf8(req.name@).len() > 2,
        req.options@.len() == 0,
    ensures
        crate::pods::pods_create(req, None) == EffectV::Run(
            InvocationV {
                program: "podman"@,
                args: seq!["pod"@, "create"@, "--name="@ + req.name@],
                on_failure: OnFailure::Report,
            },
        ),
{
    reveal_strlit("pod");
    reveal_strlit("create");
    reveal_strlit("--name=");
    reveal_strlit("--help");
    let base = seq!["pod"@, "create"@, "--name="@ + req.name@];
    let banned = pod_banned();
    assert(option_args(req.options@) == Some(Seq::<Seq<char>>::empty()));
    assert(base + Seq::<Seq<char>>::empty() =~= base);
    assert forall|i: int| 0 <= i < base.len() implies !banned.contains(#[trigger] base[i]) by {
        if banned.contains(base[i]) {
            let j = choose|j: int| 0 <= j < banned.len() && banned[j] == base[i];
            if i == 2 {
                assert(base[i][2] != banned[j][2]);
            } else if i == 0 {
                assert(base[i].len() == 3);
            } else {
                assert(base[i][0] == 'c');
            }
        }
    }
    lemma_without_none_banned(base, banned);
}

/// Pods are listed by each of the states created, exited, paused, running
/// and unknown, in any case: the query filters on `status={state}` in
/// lower case and, once podman printed more than four bytes, answers with
/// them; it is never refused as unprocessable.
pub proof fn lemma_pod_state_query_runs(state: Seq<char>, o: crate::effect::OutputV)
    requires
        lower_text(state) == "created"@ || lower_text(state) == "exited"@ || lower_text(state) == "paused"@
            || lower_text(state) == "running"@ || lower_text(state) == "unknown"@,
    ensures
        crate::pods::pods_status_query(state, None) == EffectV::Run(
            InvocationV {
                program: "podman"@,
                args: seq![
                    "pod"@,
                    "list"@,
                    "--filter=status="@ + lower_text(state),
                    crate::pods::POD_QUERY_FORMAT@,
                ],
                on_failure: OnFailure::Report,
            },
        ),
        o.stdout.len() > 4 ==> crate::pods::pods_status_query(
            state,
            Some(crate::effect::OutcomeV::Finished(o)),
        ) == EffectV::Answer(crate::reply::served(crate::output::listing(out_text(o)))),
{
    reveal_strlit("--filter=");
    reveal_strlit("status=");
    reveal_strlit("--filter=status=");
    reveal_strlit("status=ERROR");
    reveal_strlit("created");
    reveal_strlit("exited");
    reveal_strlit("paused");
    reveal_strlit("running");
    reveal_strlit("unknown");
    let w = lower_text(state);
    assert("--filter="@ + ("status="@ + w) =~= "--filter=status="@ + w);
    assert("status="@ + w != "status=ERROR"@) by {
        assert(("status="@ + w)[7] != "status=ERROR"@[7] || ("status="@ + w).len() != "status=ERROR"@.len());
    }
}

/// Whether every character of `t` satisfies `allowed`.
pub open spec fn all_chars(t: Seq<char>, allowed: spec_fn(char) -> bool) -> bool {
    forall|i: int| 0 <= i < t.len() ==> allowed(#[trigger] t[i])
}

/// Text whose characters all belong to a check's class passes that check.
proof fn lemma_class_passes(t: Seq<char>)
    ensures
        all_chars(t, |c: char| crate::checks::image_ref_char(c)) ==> !refused_by(
            crate::checks::IMAGE_REF_PATTERN@,
            t,
        ),
        all_chars(t, |c: char| repository_char(c)) ==> !refused_by(crate::checks::REPOSITORY_PATTERN@, t),
        all_chars(t, |c: char| version_char(c)) ==> !refused_by(crate::checks::VERSION_PATTERN@, t),
        all_chars(t, |c: char| crate::checks::labels_char(c)) ==> !refused_by(
            crate::checks::LABELS_PATTERN@,
            t,
        ),
        all_chars(t, |c: char| !password_banned(c)) ==> !refused_by(crate::checks::PASSWORD_PATTERN@, t),
        all_chars(t, |c: char| name_char(c)) ==> !refused_by(NAME_PATTERN@, t),
{
    lemma_check_patterns_distinct();
}

/// Requests whose fields hold only the characters their checks allow go
/// ahead: an env file is probed at `{dir}/{name}.env`; a secret first
/// probes the secrets directory; an env or secret file deletion with the
/// configured key removes `{dir}/{name}.env` or `{dir}/{name}.tmp`.
pub proof fn lemma_file_requests_go_ahead(
    env: CreateEnvFile,
    secret: CreateSecret,
    del_env: DeleteEnvFile,
    del_sec: DeleteSecFile,
    key: Seq<char>,
    dir: Seq<char>,
)
    ensures
        plain_name(env.name@) ==> common_envfile(env, dir, EnvFileStage::Start) == EffectV::Probe(
            dir + seq!['/'] + env.name@ + ".env"@,
        ),
        plain_name(secret.name@) && all_chars(secret.labels@, |c: char| crate::checks::labels_char(c))
            ==> common_secret(secret, dir, SecretStage::Start) == EffectV::Probe(dir),
        plain_name(del_env.name@) && del_env.key@ == key && key.len() > 0 ==> file_delete(
            del_env.name@,
            del_env.key@,
            key,
            dir,
            ".env"@,
            "Information missing or bad data"@,
            "File could not be deleted"@,
            "envfile"@,
            None,
        ) == EffectV::Remove(dir + seq!['/'] + del_env.name@ + ".env"@),
        plain_name(del_sec.name@) && del_sec.key@ == key && key.len() > 0 ==> file_delete(
            del_sec.name@,
            del_sec.key@,
            key,
            dir,
            ".tmp"@,
            "Missing or incorrect data"@,
            "File could nbot be deleted"@,
            "secfile"@,
            None,
        ) == EffectV::Remove(dir + seq!['/'] + del_sec.name@ + ".tmp"@),
{
    lemma_class_passes(env.name@);
    lemma_class_passes(secret.name@);
    lemma_class_passes(secret.labels@);
    lemma_class_passes(del_env.name@);
    lemma_class_passes(del_sec.name@);
}

/// Image and repository requests whose fields hold only the characters
/// their checks allow go ahead: an image is inspected with
/// `podman image inspect {name} --format=json`, pulled from
/// `{repository}/{image}:{version}` (each trimmed), and a repository is
/// logged in to or out of in bash.
pub proof fn lemma_image_requests_go_ahead(
    info: crate::models::GetImageInfo,
    pull: crate::models::GetImage,
    login: RepoLogin,
    logout: crate::models::RepoLogOut,
)
    ensures
        info.name@.len() > 0 && all_chars(info.name@, |c: char| crate::checks::image_ref_char(c))
            ==> crate::common::image_list_single(info, None) == EffectV::Run(
            InvocationV {
                program: "podman"@,
                args: seq!["image"@, "inspect"@, info.name@, "--format=json"@],
                on_failure: OnFailure::Report,
            },
        ),
        all_chars(pull.repository@, |c: char| repository_char(c)) && all_chars(
            pull.image@,
            |c: char| name_char(c),
        ) && all_chars(pull.version@, |c: char| version_char(c)) ==> crate::common::container_image(
            pull,
            None,
        ) == EffectV::Run(
            InvocationV {
                program: "podman"@,
                args: seq![
                    "image"@,
                    "pull"@,
                    trim(pull.repository@) + seq!['/'] + trim(pull.image@) + seq![':'] + trim(
                        pull.version@,
                    ),
                ],
                on_failure: OnFailure::Report,
            },
        ),
        login.repository@.len() > 0 && login.username@.len() > 0 && login.password@.len() > 0
            && all_chars(login.repository@, |c: char| repository_char(c)) && all_chars(
            login.username@,
            |c: char| version_char(c),
        ) && all_chars(login.password@, |c: char| !password_banned(c)) ==> repository_login(
            login,
            None,
        ) == EffectV::Shell(
            "podman login '"@ + login.repository@ + "' --username='"@ + login.username@
                + "' --password='"@ + login.password@ + "'"@,
        ),
        logout.repository@.len() > 0 && all_chars(logout.repository@, |c: char| repository_char(c))
            ==> crate::common::repository_logout(logout, None) == EffectV::Shell(
            "podman logout '"@ + logout.repository@ + "'"@,
        ),
{
    lemma_class_passes(info.name@);
    lemma_class_passes(pull.repository@);
    lemma_class_passes(pull.image@);
    lemma_class_passes(pull.version@);
    lemma_class_passes(login.repository@);
    lemma_class_passes(login.username@);
    lemma_class_passes(login.password@);
    lemma_class_passes(logout.repository@);
}

} // verus!
