use ocmapi::common::{
    get_common_env_files, get_common_image_list, get_common_stats, post_common_container_image,
    post_common_repository_login, post_common_repository_logout, delete_common_images, api_info_web,
};
use ocmapi::containers::{
    delete_containers_data, delete_containers_data_next, delete_containers_volume_data,
    get_containers_short_list, get_containers_short_list_next,
    get_containers_state_query, post_containers_create, post_containers_setstate,
    ContainerRemoval, ShortListing,
};
use ocmapi::effect::{Effect, Event, Invocation, OnFailure, Outcome, Output, ran_outcome};
use ocmapi::files::{
    delete_common_envfile, delete_common_secfile, post_common_envfile, post_common_envfile_next,
    post_common_secret, post_common_secret_next,
    EnvFileStage, SecretStage,
};
use ocmapi::models::{
    CreateContainer, CreateEnvFile, CreatePod, CreateSecret, DeleteContainer, DeleteEnvFile,
    DeleteImages, DeletePod, DeleteSecFile, DeleteVolume, GetImage, RepoLogOut, RepoLogin,
    StateContainer, StatePod, DeleteNetwork,
};
use ocmapi::networks::{delete_networks_data, NetworkRemoval};
use ocmapi::pods::{
    delete_pods_data, get_pods_short_list, get_pods_status_query, post_pods_create,
    post_pods_setstate, PodRemoval,
};
use ocmapi::reply::{Body, Reply, Scalar};

fn answer(e: Effect) -> Reply {
    match e {
        Effect::Answer(r) => r,
        _ => panic!("expected an answer"),
    }
}

fn run(e: Effect) -> Invocation {
    match e {
        Effect::Run(i) => i,
        _ => panic!("expected a run"),
    }
}

fn shown(v: &Scalar) -> String {
    match v {
        Scalar::Int(n) => n.to_string(),
        Scalar::Text(s) => format!("'{}'", s),
    }
}

fn fields(b: &Body) -> Vec<(String, String)> {
    match b {
        Body::Object(v) | Body::Listed(v) => v.iter().map(|f| (f.key.clone(), shown(&f.value))).collect(),
        _ => panic!("expected a JSON body"),
    }
}

fn pairs(v: &[(&str, &str)]) -> Vec<(String, String)> {
    v.iter().map(|(k, s)| (k.to_string(), s.to_string())).collect()
}

fn raw(b: &Body) -> String {
    match b {
        Body::Raw(s) => s.clone(),
        _ => panic!("expected a raw body"),
    }
}

fn finished(code: i32, stdout: &[u8], stderr: &[u8]) -> Output {
    Output {
        code: Some(code),
        status_text: format!("exit status: {}", code),
        stdout: stdout.to_vec(),
        stderr: stderr.to_vec(),
    }
}

fn strings(v: &[&str]) -> Vec<String> {
    v.iter().map(|s| s.to_string()).collect()
}

#[test]
fn stats_runs_podman_then_answers() {
    let i = run(get_common_stats(None));
    assert_eq!(i.program, "podman");
    assert_eq!(i.args, strings(&["stats", "--no-stream", "--format=json"]));
    assert!(i.on_failure == OnFailure::Report);
    let r = answer(get_common_stats(Some(Outcome::Finished(finished(0, b"  [{\"id\":1}]\n", b"")))));
    assert_eq!(r.status, 200);
    assert_eq!(raw(&r.body), "[{\"id\":1}]");
    let r = answer(get_common_stats(Some(Outcome::Finished(finished(0, b"[]\n", b"")))));
    assert_eq!(r.status, 404);
    assert_eq!(r.log.severity, 4);
    let r = answer(get_common_stats(Some(Outcome::Failed("no podman".to_string()))));
    assert_eq!(r.status, 500);
    assert_eq!(fields(&r.body), pairs(&[("Code", "500"), ("Info", "'no podman'"), ("Status", "'Internal Server Error'")]));
}

#[test]
fn image_list_is_made_a_json_list() {
    let out = b"{ \"Names\": [\"a\"] },\n{ \"Names\": [\"b\"] },\n";
    let r = answer(get_common_image_list(Some(Outcome::Finished(finished(0, out, b"")))));
    assert_eq!(raw(&r.body), "[{ \"Names\": [\"a\"] },\n{ \"Names\": [\"b\"] }]");
}

#[test]
fn env_file_listing_by_output_size() {
    let i = run(get_common_env_files("/srv/env", None));
    assert_eq!(i.program, "ls");
    assert_eq!(i.args, strings(&["-1", "/srv/env/"]));
    let r = answer(get_common_env_files("/srv/env", Some(Outcome::Finished(finished(0, b"", b"")))));
    assert_eq!(fields(&r.body), pairs(&[("Code", "200"), ("Info", "'No .env files found'"), ("State", "0"), ("Status", "'OK'")]));
    let r = answer(get_common_env_files("/srv/env", Some(Outcome::Finished(finished(0, b"a.env\nb.env\n", b"")))));
    assert_eq!(
        fields(&r.body),
        pairs(&[("Code", "200"), ("Info", "'Found .env files'"), ("Files", "'a.env,b.env,'"), ("State", "1"), ("Status", "'OK'")])
    );
    let r = answer(get_common_env_files("/srv/env", Some(Outcome::Finished(finished(0, b"a\n", b"")))));
    assert!(fields(&r.body).is_empty());
    let r = answer(get_common_env_files("/srv/env", Some(Outcome::Failed("denied".to_string()))));
    assert_eq!(r.status, 400);
    assert_eq!(r.log.status, "Internal Server Error");
}

#[test]
fn container_state_query_checks_the_state() {
    let i = run(get_containers_state_query("RUNNING", None));
    assert_eq!(i.args[0..4].to_vec(), strings(&["container", "ps", "--filter", "status=running"]));
    let r = answer(get_containers_state_query("sleeping", None));
    assert_eq!(r.status, 400);
    assert_eq!(fields(&r.body)[1], ("Info".to_string(), "'Not a valid status option'".to_string()));
    let r = answer(get_containers_state_query("exited", Some(Outcome::Finished(finished(0, b"\n", b"")))));
    assert_eq!(r.status, 404);
    assert!(matches!(r.body, Body::Listed(_)));
    assert_eq!(fields(&r.body)[1], ("Info".to_string(), "'No containers matching query status: exited'".to_string()));
}

#[test]
fn container_short_list_drops_infra_containers() {
    let i = run(get_containers_short_list("Name", ShortListing::Start));
    assert_eq!(i.args, strings(&["container", "ps", "--all", "--filter", "name=infra", "--format={{ .Names }}"]));
    let infra = finished(0, b"abc-infra\n", b"");
    let all = finished(0, b"web\nabc-infra\ndb\n", b"");
    let r = answer(get_containers_short_list("name", ShortListing::Listed(infra, Outcome::Finished(all))));
    assert_eq!(raw(&r.body), "{\"Names\":[\"web\", \"db\"]}");
    let r = answer(get_containers_short_list("size", ShortListing::Start));
    assert_eq!(r.status, 400);
}

#[test]
fn container_create_filters_options() {
    let req = CreateContainer {
        name: "web".to_string(),
        image: "docker.io/nginx".to_string(),
        options: "--rm,--tty,-p=8080:80,--env=A=1".to_string(),
    };
    let i = run(post_containers_create(&req, None));
    assert_eq!(i.args, strings(&["container", "create", "--name=web", "-p=8080:80", "--env=A=1", "docker.io/nginx"]));
    let short = CreateContainer { name: "ab".to_string(), image: "docker.io/nginx".to_string(), options: String::new() };
    assert_eq!(answer(post_containers_create(&short, None)).status, 400);
    let bad = CreateContainer { name: "web".to_string(), image: "docker.io/nginx".to_string(), options: "-p=1".to_string() };
    let r = answer(post_containers_create(&bad, None));
    assert_eq!(fields(&r.body)[1].1, "'Check options tag, must be at least 4 characters long and start with -- to be valid'");
    let r = answer(post_containers_create(&req, Some(Outcome::Finished(finished(0, b"4f2a\n", b"")))));
    assert_eq!(r.status, 201);
    assert_eq!(fields(&r.body), pairs(&[("Code", "'201'"), ("Info", "'Successfully created container'"), ("ID", "'4f2a'"), ("Status", "'Created'")]));
    assert_eq!(r.log.extra, " oCMAPICreateID=\"4f2a\" oCMAPICreateType=Container");
    let r = answer(post_containers_create(&req, Some(Outcome::Finished(finished(125, b"", b"Error: a\nb\n")))));
    assert_eq!(fields(&r.body)[1].1, "'Error: a, b'");
}

#[test]
fn container_state_change() {
    let req = StateContainer { name: "web".to_string(), state: "Stop".to_string() };
    let i = run(post_containers_setstate(&req, None));
    assert_eq!(i.args, strings(&["container", "stop", "web"]));
    let bad = StateContainer { name: "-web".to_string(), state: "stop".to_string() };
    assert_eq!(answer(post_containers_setstate(&bad, None)).status, 400);
    let bad = StateContainer { name: "web".to_string(), state: "kill".to_string() };
    assert_eq!(answer(post_containers_setstate(&bad, None)).status, 400);
    let r = answer(post_containers_setstate(&req, Some(Outcome::Finished(finished(0, b"web01\n", b"")))));
    assert_eq!(fields(&r.body)[1].1, "'Container 'web01' has been set to 'stop' state'");
    assert_eq!(r.log.extra, " oCMAPIContainerName=web oCMAPISetState=Stop");
    let r = answer(post_containers_setstate(&req, Some(Outcome::Finished(finished(125, b"web", b"Error: no\tsuch\n")))));
    assert_eq!(r.status, 400);
    assert!(matches!(r.body, Body::Listed(_)));
    assert_eq!(fields(&r.body)[1].1, "'Error: nosuch'");
    assert_eq!(fields(&r.body)[2].1, "'Bad 'Request'");
}

#[test]
fn container_deletion_steps() {
    let req = DeleteContainer { name: "web".to_string(), key: "k2".to_string() };
    let r = answer(delete_containers_data(&req, "other", ContainerRemoval::Start));
    assert_eq!(fields(&r.body)[1].1, "'Missing or incorrect data'");
    let bad = DeleteContainer { name: "we b".to_string(), key: "k2".to_string() };
    let r = answer(delete_containers_data(&bad, "k2", ContainerRemoval::Start));
    assert_eq!(fields(&r.body)[1].1, "'Name provided is not in correct format'");
    let i = run(delete_containers_data(&req, "k2", ContainerRemoval::Start));
    assert_eq!(i.args, strings(&["container", "ps", "--all", "--filter", "name=web", "--format='{{ .State }}'"]));
    assert!(i.on_failure == OnFailure::Propagate);
    let i = run(delete_containers_data(&req, "k2", ContainerRemoval::Listed(finished(0, b"'exited'\n", b""))));
    assert_eq!(i.args, strings(&["container", "rm", "web"]));
    let r = answer(delete_containers_data(&req, "k2", ContainerRemoval::Listed(finished(0, b"'running'\n", b""))));
    assert_eq!(fields(&r.body)[1].1, "'Container is not in 'exited' state or do not exist'");
    let r = answer(delete_containers_data(&req, "k2", ContainerRemoval::Removed(finished(0, b"web\n", b""))));
    assert_eq!(r.status, 200);
    assert_eq!(fields(&r.body)[1].1, "'Container 'web' has been deleted'");
    assert_eq!(r.log.extra, " oCMAPIDeleteID=web oCMAPIDeleteType=container");
    let r = answer(delete_containers_data(&req, "k2", ContainerRemoval::Removed(finished(1, b"", b"no"))));
    assert_eq!(fields(&r.body)[1].1, "'Could not remove container'");
}

#[test]
fn volume_deletion_follows_the_exit_code() {
    let req = DeleteVolume { name: "data".to_string(), key: "k2".to_string() };
    let i = run(delete_containers_volume_data(&req, "k2", None));
    assert_eq!(i.args, strings(&["volume", "rm", "data"]));
    assert!(i.on_failure == OnFailure::Panic);
    let r = answer(delete_containers_volume_data(&req, "k2", Some(finished(0, b"data\n", b""))));
    assert_eq!(fields(&r.body)[1].1, "'Volume 'data' has been deleted'");
    let r = answer(delete_containers_volume_data(&req, "k2", Some(finished(2, b"", b""))));
    assert_eq!(fields(&r.body)[1].1, "'Cannot remove volume 'data', still used or do not exist'");
    assert_eq!(r.log.method, "GET");
    let empty = DeleteVolume { name: "data".to_string(), key: String::new() };
    assert_eq!(answer(delete_containers_volume_data(&empty, "", None)).status, 400);
}

#[test]
fn pod_queries_and_lists() {
    let i = run(get_pods_status_query("bogus", None));
    assert_eq!(i.args[2], "--filter=status=ERROR");
    let r = answer(get_pods_status_query("bogus", Some(Outcome::Finished(finished(0, b"", b"")))));
    assert_eq!(fields(&r.body)[1].1, "'Could not process data'");
    let r = answer(get_pods_status_query("Paused", Some(Outcome::Finished(finished(0, b"", b"")))));
    assert_eq!(fields(&r.body)[1].1, "'No pods matching query status: paused'");
    let i = run(get_pods_short_list("ID", None));
    assert_eq!(i.args, strings(&["pod", "ps", "--format={{ .ID }}"]));
    let r = answer(get_pods_short_list("NAME", Some(Outcome::Finished(finished(0, b"a\nb\n", b"")))));
    assert_eq!(raw(&r.body), "{\"Names\":[\"a\", \"b\"]}");
}

#[test]
fn pod_creation_and_state() {
    let req = CreatePod { name: "pod1".to_string(), options: "--help,--share=net".to_string() };
    let i = run(post_pods_create(&req, None));
    assert_eq!(i.args, strings(&["pod", "create", "--name=pod1", "--share=net"]));
    let st = StatePod { name: "pod1".to_string(), state: "ReStart".to_string() };
    let i = run(post_pods_setstate(&st, None));
    assert_eq!(i.args, strings(&["pod", "restart", "pod1"]));
    let r = answer(post_pods_setstate(&st, Some(Outcome::Finished(finished(0, b" 1f2e\n", b"")))));
    assert_eq!(fields(&r.body)[1].1, "'Sucessfully set Pod '1f2e' state to 'restart''");
    let r = answer(post_pods_setstate(&st, Some(Outcome::Finished(finished(125, b"", b"Error:\tno\n")))));
    assert_eq!(r.status, 400);
    assert_eq!(r.log.code, 404);
    assert_eq!(fields(&r.body)[1].1, "'Error:no'");
    let bad = StatePod { name: "pod 1".to_string(), state: "start".to_string() };
    assert_eq!(fields(&answer(post_pods_setstate(&bad, None)).body)[1].1, "'State/Name provided is not correct format or value'");
}

#[test]
fn pod_deletion_counts_containers_first() {
    let req = DeletePod { name: "pod1".to_string(), key: "k3".to_string() };
    match delete_pods_data(&req, "k3", PodRemoval::Start) {
        Effect::Shell(c) => assert_eq!(c, "podman pod ps --format='{{ .NumberOfContainers }}' --filter name='pod1' --ctr-names"),
        _ => panic!("expected a shell command"),
    }
    let i = run(delete_pods_data(&req, "k3", PodRemoval::Counted(finished(0, b" 1\r\n", b""))));
    assert_eq!(i.args, strings(&["pod", "rm", "pod1"]));
    let r = answer(delete_pods_data(&req, "k3", PodRemoval::Counted(finished(0, b"2\r\n", b""))));
    assert_eq!(fields(&r.body)[1].1, "'Cannot remove pod 'pod1' check your data'");
    let r = answer(delete_pods_data(&req, "k3", PodRemoval::Counted(finished(0, b"\xff1", b""))));
    assert_eq!(r.status, 400);
    let r = answer(delete_pods_data(&req, "k3", PodRemoval::Removed(finished(0, b"", b""))));
    assert_eq!(fields(&r.body), pairs(&[("Code", "200"), ("Name", "'Pod 'pod1' has been deleted'"), ("Status", "'Ok'")]));
    let bad = DeletePod { name: "p;d".to_string(), key: "k3".to_string() };
    assert_eq!(answer(delete_pods_data(&bad, "k3", PodRemoval::Start)).log.method, "POST");
}

#[test]
fn network_deletion_needs_an_unused_network() {
    let req = DeleteNetwork { name: "net".to_string(), key: "k4".to_string() };
    let i = run(delete_networks_data(&req, "k4", NetworkRemoval::Start));
    assert_eq!(i.args[0..3].to_vec(), strings(&["network", "inspect", "net"]));
    let r = answer(delete_networks_data(&req, "k4", NetworkRemoval::Inspected(Outcome::Finished(finished(0, b"{\"abc\":{}}\n", b"")))));
    assert_eq!(fields(&r.body)[1].1, "'Network 'net' has containers attached or do not exist'");
    let i = run(delete_networks_data(&req, "k4", NetworkRemoval::Inspected(Outcome::Finished(finished(0, b"{}\n", b"")))));
    assert_eq!(i.args, strings(&["network", "rm", "net"]));
    let r = answer(delete_networks_data(&req, "k4", NetworkRemoval::Removed(finished(2, b"", b"Error: in use\n"))));
    assert_eq!(r.status, 400);
    assert_eq!(fields(&r.body)[1].1, "'Cannot remove network 'net', still connected or do not exist'");
    assert_eq!(r.log.method, "GET");
    assert_eq!(r.log.severity, 4);
    let r = answer(delete_networks_data(&req, "k4", NetworkRemoval::Removed(finished(0, b"net\n", b""))));
    assert_eq!(r.status, 200);
    assert_eq!(fields(&r.body)[1].1, "'Network 'net' has been deleted'");
    assert_eq!(r.log.extra, " oCMAPIDeleteID=net oCMAPIDeleteType=network");
}

#[test]
fn env_file_is_written_only_as_asked() {
    let req = CreateEnvFile { name: "app".to_string(), content: "A=1|B=2|  ".to_string(), replace: "no".to_string() };
    match post_common_envfile(&req, "/srv/env", EnvFileStage::Start) {
        Effect::Probe(p) => assert_eq!(p, "/srv/env/app.env"),
        _ => panic!("expected a probe"),
    }
    match post_common_envfile(&req, "/srv/env", EnvFileStage::Probed(false)) {
        Effect::Write { path, content } => {
            assert_eq!(path, "/srv/env/app.env");
            assert_eq!(content, "A=1\nB=2\n");
        },
        _ => panic!("expected a write"),
    }
    let r = answer(post_common_envfile(&req, "/srv/env", EnvFileStage::Probed(true)));
    assert_eq!(fields(&r.body)[1].1, "'File already exist, set replace to yes or change the name'");
    assert_eq!(r.log.severity, 6);
    let yes = CreateEnvFile { name: "app".to_string(), content: "A=1".to_string(), replace: "yes".to_string() };
    for exists in [false, true] {
        match post_common_envfile(&yes, "/srv/env", EnvFileStage::Probed(exists)) {
            Effect::Write { path, content } => {
                assert_eq!(path, "/srv/env/app.env");
                assert_eq!(content, "A=1\n");
            },
            _ => panic!("expected a write"),
        }
    }
    let odd = CreateEnvFile { name: "app".to_string(), content: String::new(), replace: "maybe".to_string() };
    let r = answer(post_common_envfile(&odd, "/srv/env", EnvFileStage::Probed(false)));
    assert_eq!(fields(&r.body)[1].1, "'Replace tag must contain only yes or no'");
    let r = answer(post_common_envfile(&req, "/srv/env", EnvFileStage::Written));
    assert_eq!(r.status, 201);
    assert_eq!(r.log.extra, " oCMAPIEnvFile=/srv/env/app.env oCMAPICreateType=EnvFile");
}

#[test]
fn file_deletions() {
    let env = DeleteEnvFile { name: "app".to_string(), key: "k1".to_string() };
    match delete_common_envfile(&env, "k1", "/srv/env", None) {
        Effect::Remove(p) => assert_eq!(p, "/srv/env/app.env"),
        _ => panic!("expected a removal"),
    }
    let r = answer(delete_common_envfile(&env, "k1", "/srv/env", Some(true)));
    assert_eq!(fields(&r.body), pairs(&[("Code", "200"), ("Info", "'File has been deleted'"), ("File", "'app.env'"), ("Status", "'OK'")]));
    let r = answer(delete_common_envfile(&env, "zz", "/srv/env", None));
    assert_eq!(fields(&r.body)[1].1, "'Information missing or bad data'");
    let sec = DeleteSecFile { name: "s1".to_string(), key: "k1".to_string() };
    let r = answer(delete_common_secfile(&sec, "k1", "/srv/sec", Some(false)));
    assert_eq!(fields(&r.body)[1].1, "'File could nbot be deleted'");
    let r = answer(delete_common_secfile(&sec, "k1", "/srv/sec", Some(true)));
    assert_eq!(r.log.extra, " oCMAPIDeleteID=s1 oCMAPIDeleteType=secfile");
}

#[test]
fn secret_creation_cleans_up() {
    let req = CreateSecret {
        name: "db".to_string(),
        data: "pw|x".to_string(),
        labels: "env=prod,tier=db".to_string(),
        replace: " yes ".to_string(),
    };
    assert!(matches!(post_common_secret(&req, "/srv/sec", SecretStage::Start), Effect::Probe(_)));
    let spaced = CreateSecret {
        name: "db".to_string(),
        data: "pw".to_string(),
        labels: "env=prod, tier=db".to_string(),
        replace: "no".to_string(),
    };
    let r = answer(post_common_secret(&spaced, "/srv/sec", SecretStage::Start));
    assert_eq!(fields(&r.body)[1].1, "'Labels provided is not in correct format'");
    assert!(matches!(post_common_secret(&req, "/srv/sec", SecretStage::Located(true)), Effect::Draw));
    match post_common_secret(&req, "/srv/sec", SecretStage::Checked("42".to_string(), Some(0))) {
        Effect::Write { path, content } => {
            assert_eq!(path, "/srv/sec/db_42.tmp");
            assert_eq!(content, "pw\nx\n");
        },
        _ => panic!("expected a write"),
    }
    let i = run(post_common_secret(&req, "/srv/sec", SecretStage::Written("42".to_string())));
    assert_eq!(
        i.args,
        strings(&["secret", "create", "--label=env=prod", "--label=tier=db", "--replace=true", "db", "/srv/sec/db_42.tmp"])
    );
    let done = Outcome::Finished(finished(0, b"abc123\n", b""));
    match post_common_secret(&req, "/srv/sec", SecretStage::Created("42".to_string(), done)) {
        Effect::Remove(p) => assert_eq!(p, "/srv/sec/db_42.tmp"),
        _ => panic!("expected a removal"),
    }
    let r = answer(post_common_secret(&req, "/srv/sec", SecretStage::Cleaned(Outcome::Finished(finished(0, b"abc123\n", b"")))));
    assert_eq!(r.status, 201);
    assert_eq!(fields(&r.body)[2].1, "'abc123'");
}

#[test]
fn image_pull_reports_the_reason() {
    let req = GetImage { repository: "docker.io/library".to_string(), image: "nginx".to_string(), version: "1.25".to_string() };
    let i = run(post_common_container_image(&req, None));
    assert_eq!(i.args, strings(&["image", "pull", "docker.io/library/nginx:1.25"]));
    let r = answer(post_common_container_image(&req, Some(Outcome::Finished(finished(125, b"", b"Error: manifest unknown\n")))));
    assert_eq!(fields(&r.body)[1].1, "'Cannot find image at source, manifest unknown'");
    let r = answer(post_common_container_image(&req, Some(Outcome::Finished(finished(125, b"", b"weird")))));
    assert_eq!(fields(&r.body)[1].1, "'Unknown Error'");
    let r = answer(post_common_container_image(&req, Some(Outcome::Finished(finished(0, b" sha256:1\n", b"")))));
    assert_eq!(r.status, 201);
    assert_eq!(fields(&r.body)[2].1, "'sha256:1'");
}

#[test]
fn repository_login_and_logout() {
    let req = RepoLogin { repository: "quay.io".to_string(), username: "me".to_string(), password: "pw".to_string() };
    match post_common_repository_login(&req, None) {
        Effect::Shell(c) => assert_eq!(c, "podman login 'quay.io' --username='me' --password='pw'"),
        _ => panic!("expected a shell command"),
    }
    let r = answer(post_common_repository_login(&req, Some(finished(0, b"Login Succeeded!", b""))));
    assert_eq!(r.status, 200);
    assert_eq!(r.log.status, "Created");
    let r = answer(post_common_repository_login(&req, Some(finished(1, b"Error: invalid username/password", b""))));
    assert_eq!(fields(&r.body)[1].1, "'Cannot login, invalid username/password'");
    let bad = RepoLogin { repository: "quay.io".to_string(), username: "me".to_string(), password: "p'w".to_string() };
    assert_eq!(answer(post_common_repository_login(&bad, None)).status, 400);
    let out = RepoLogOut { repository: "quay.io".to_string() };
    let r = answer(post_common_repository_logout(&out, Some(finished(1, b"Error: not logged into quay.io", b""))));
    assert_eq!(fields(&r.body)[1].1, "'Already logged out of repository'");
    let r = answer(post_common_repository_logout(&out, Some(finished(0, b"", b""))));
    assert_eq!(fields(&r.body)[1], ("Message".to_string(), "'Successfully logged out from repository'".to_string()));
}

#[test]
fn image_prune_needs_the_common_key() {
    let req = DeleteImages { key: "k1".to_string() };
    let i = run(delete_common_images(&req, "k1", None));
    assert_eq!(i.args, strings(&["image", "prune", "--all", "--force"]));
    let r = answer(delete_common_images(&req, "k9", None));
    assert_eq!(fields(&r.body)[1].1, "'Missing or incorrect data'");
    let r = answer(delete_common_images(&req, "k1", Some(finished(0, b"", b""))));
    assert_eq!(r.log.extra, " oCMAPIDeleteID=0 oCMAPIDeleteType=PruneImages");
}

#[test]
fn api_page_is_sent_as_html() {
    let r = api_info_web("<html></html>".to_string());
    assert_eq!(r.status, 200);
    assert!(matches!(r.body, Body::Page(ref s) if s == "<html></html>"));
}

#[test]
fn deletions_with_a_wrong_key_run_nothing() {
    let v = DeleteVolume { name: "data".to_string(), key: "nope".to_string() };
    let r = answer(delete_containers_volume_data(&v, "k2", None));
    assert_eq!(fields(&r.body)[1].1, "'Missing or incorrect data'");
    let p = DeletePod { name: "pod1".to_string(), key: "nope".to_string() };
    let r = answer(delete_pods_data(&p, "k3", PodRemoval::Start));
    assert_eq!(fields(&r.body)[1].1, "'Missing or incorrect data'");
    assert_eq!(r.log.method, "DELETE");
    let n = DeleteNetwork { name: "net".to_string(), key: String::new() };
    let r = answer(delete_networks_data(&n, "k4", NetworkRemoval::Start));
    assert_eq!(r.status, 400);
    let s = DeleteSecFile { name: "s1".to_string(), key: "nope".to_string() };
    let r = answer(delete_common_secfile(&s, "k1", "/srv/sec", None));
    assert_eq!(fields(&r.body)[1].1, "'Missing or incorrect data'");
    let c = DeleteContainer { name: "web".to_string(), key: String::new() };
    let r = answer(delete_containers_data(&c, "", ContainerRemoval::Start));
    assert_eq!(fields(&r.body)[1].1, "'Missing or incorrect data'");
}

#[test]
fn stages_follow_what_came_back() {
    let s = post_common_secret_next(SecretStage::Start, Event::Exists(true)).unwrap();
    assert!(matches!(s, SecretStage::Located(true)));
    let s = post_common_secret_next(s, Event::Drawn("7".to_string())).unwrap();
    assert!(matches!(s, SecretStage::Drawn(ref n) if n == "7"));
    let s = post_common_secret_next(s, Event::Exists(true)).unwrap();
    assert!(matches!(s, SecretStage::Probed(ref n, true) if n == "7"));
    let s = post_common_secret_next(s, Event::Drawn("8".to_string())).unwrap();
    assert!(matches!(s, SecretStage::Redrawn(ref n) if n == "8"));
    let s = post_common_secret_next(s, Event::Code(Some(1))).unwrap();
    assert!(matches!(s, SecretStage::Checked(ref n, Some(1)) if n == "8"));
    assert!(post_common_secret_next(s, Event::Exists(false)).is_none());
    let e = post_common_envfile_next(EnvFileStage::Start, Event::Exists(false)).unwrap();
    assert!(matches!(e, EnvFileStage::Probed(false)));
    let infra = Outcome::Finished(finished(0, b"abc-infra\n", b""));
    let st = get_containers_short_list_next(ShortListing::Infra(infra), Event::Ran(Outcome::Failed("x".to_string()))).unwrap();
    match st {
        ShortListing::Listed(i, Outcome::Failed(e)) => {
            assert_eq!(i.stdout, b"abc-infra\n".to_vec());
            assert_eq!(e, "x");
        },
        _ => panic!("expected the full listing stage"),
    }
    let c = delete_containers_data_next(ContainerRemoval::Start, Event::Finished(finished(0, b"'exited'\n", b""))).unwrap();
    assert!(matches!(c, ContainerRemoval::Listed(_)));
    assert!(delete_containers_data_next(c, Event::Written).is_none());
    assert!(ran_outcome(Event::Written).is_none());
}
