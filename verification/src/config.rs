//! The server's configuration: the values read from the configuration
//! file, checked for the required ones and trimmed.
use vstd::prelude::*;
use crate::text::{chars_of, contains, includes, lemma_trim_idempotent, push_all, string_of, trim, trimmed};

verus! {

/// The values of the configuration file as they were read: `[server]`
/// listen, port and ssl; `[certificate]` certfile and keyfile; `[session]`
/// cookiename; `[auth]` salt, username and password; `[logs]` logpath;
/// `[env]` envpath; `[secrets]` secpath; and the four `[keys]`.
pub struct RawConfig {
    pub listen: String,
    pub port: String,
    pub ssl: String,
    pub certfile: String,
    pub keyfile: String,
    pub cookiename: String,
    pub salt: String,
    pub username: String,
    pub password: String,
    pub logpath: String,
    pub envpath: String,
    pub secpath: String,
    pub common_security_key: String,
    pub containers_security_key: String,
    pub pods_security_key: String,
    pub networks_security_key: String,
}

/// The configuration the server runs with: every value trimmed, and the
/// address to listen on as `{listen}:{port}`.
pub struct Settings {
    pub server_address: String,
    pub server_ip: String,
    pub server_port: String,
    pub use_ssl: String,
    pub cert_path: String,
    pub cert_privkey: String,
    pub cookie_name: String,
    pub cred_salt: String,
    pub cred_user: String,
    pub cred_passwd: String,
    pub log_path: String,
    pub env_path: String,
    pub sec_path: String,
    pub common_key: String,
    pub containers_key: String,
    pub pods_key: String,
    pub networks_key: String,
}

/// Whether `s` holds something besides white space.
pub open spec fn filled(s: Seq<char>) -> bool {
    trim(s).len() > 0
}

/// Whether every required value is there: all but the certificate, the
/// key file and the log path, and the certificate and key file too when
/// ssl is `yes`.
pub open spec fn config_complete(c: RawConfig) -> bool {
    &&& filled(c.listen@)
    &&& filled(c.port@)
    &&& filled(c.ssl@)
    &&& filled(c.username@)
    &&& filled(c.password@)
    &&& filled(c.salt@)
    &&& filled(c.cookiename@)
    &&& filled(c.envpath@)
    &&& filled(c.secpath@)
    &&& filled(c.common_security_key@)
    &&& filled(c.containers_security_key@)
    &&& filled(c.pods_security_key@)
    &&& filled(c.networks_security_key@)
    &&& (trim(c.ssl@) == "yes"@ ==> filled(c.certfile@) && filled(c.keyfile@))
}

/// Whether `s` is the settings made of `c`: each value trimmed, and the
/// address `{listen}:{port}`.
pub open spec fn settings_of(c: RawConfig, s: Settings) -> bool {
    &&& s.server_address@ == trim(c.listen@) + seq![':'] + trim(c.port@)
    &&& s.server_ip@ == trim(c.listen@)
    &&& s.server_port@ == trim(c.port@)
    &&& s.use_ssl@ == trim(c.ssl@)
    &&& s.cert_path@ == trim(c.certfile@)
    &&& s.cert_privkey@ == trim(c.keyfile@)
    &&& s.cookie_name@ == trim(c.cookiename@)
    &&& s.cred_salt@ == trim(c.salt@)
    &&& s.cred_user@ == trim(c.username@)
    &&& s.cred_passwd@ == trim(c.password@)
    &&& s.log_path@ == trim(c.logpath@)
    &&& s.env_path@ == trim(c.envpath@)
    &&& s.sec_path@ == trim(c.secpath@)
    &&& s.common_key@ == trim(c.common_security_key@)
    &&& s.containers_key@ == trim(c.containers_security_key@)
    &&& s.pods_key@ == trim(c.pods_security_key@)
    &&& s.networks_key@ == trim(c.networks_security_key@)
}

/// `s` trimmed.
fn trim_text(s: &String) -> (r: String)
    ensures
        r@ == trim(s@),
{
    string_of(&trimmed(&chars_of(s.as_str())))
}

/// Whether `s` holds something besides white space, as `filled` states.
fn filled_of(s: &String) -> (r: bool)
    ensures
        r == filled(s@),
{
    trimmed(&chars_of(s.as_str())).len() > 0
}

/// Checks the configuration read from the file: `None` when a required
/// value is missing (as `config_complete` states), else the settings made
/// of it.
pub fn configuration(c: &RawConfig) -> (r: Option<Settings>)
    ensures
        r is Some <==> config_complete(*c),
        r matches Some(s) ==> settings_of(*c, s),
{
    let ssl = trim_text(&c.ssl);
    let mut complete = filled_of(&c.listen) && filled_of(&c.port) && filled_of(&c.ssl) && filled_of(
        &c.username,
    ) && filled_of(&c.password) && filled_of(&c.salt) && filled_of(&c.cookiename) && filled_of(
        &c.envpath,
    ) && filled_of(&c.secpath) && filled_of(&c.common_security_key) && filled_of(
        &c.containers_security_key,
    ) && filled_of(&c.pods_security_key) && filled_of(&c.networks_security_key);
    if crate::text::same_text(ssl.as_str(), "yes") {
        complete = complete && filled_of(&c.certfile) && filled_of(&c.keyfile);
    }
    if !complete {
        return None;
    }
    let ip = trim_text(&c.listen);
    let port = trim_text(&c.port);
    let mut address = chars_of(ip.as_str());
    address.push(':');
    push_all(&mut address, &chars_of(port.as_str()));
    assert(address@ =~= trim(c.listen@) + seq![':'] + trim(c.port@));
    Some(
        Settings {
            server_address: string_of(&address),
            server_ip: ip,
            server_port: port,
            use_ssl: ssl,
            cert_path: trim_text(&c.certfile),
            cert_privkey: trim_text(&c.keyfile),
            cookie_name: trim_text(&c.cookiename),
            cred_salt: trim_text(&c.salt),
            cred_user: trim_text(&c.username),
            cred_passwd: trim_text(&c.password),
            log_path: trim_text(&c.logpath),
            env_path: trim_text(&c.envpath),
            sec_path: trim_text(&c.secpath),
            common_key: trim_text(&c.common_security_key),
            containers_key: trim_text(&c.containers_security_key),
            pods_key: trim_text(&c.pods_security_key),
            networks_key: trim_text(&c.networks_security_key),
        },
    )
}

/// The settings hold no white space at either end of any value but the
/// address: trimming them again changes nothing.
pub proof fn lemma_settings_trimmed(c: RawConfig, s: Settings)
    requires
        settings_of(c, s),
    ensures
        trim(s.server_ip@) == s.server_ip@,
        trim(s.server_port@) == s.server_port@,
        trim(s.use_ssl@) == s.use_ssl@,
        trim(s.cert_path@) == s.cert_path@,
        trim(s.cert_privkey@) == s.cert_privkey@,
        trim(s.cookie_name@) == s.cookie_name@,
        trim(s.cred_salt@) == s.cred_salt@,
        trim(s.cred_user@) == s.cred_user@,
        trim(s.cred_passwd@) == s.cred_passwd@,
        trim(s.log_path@) == s.log_path@,
        trim(s.env_path@) == s.env_path@,
        trim(s.sec_path@) == s.sec_path@,
        trim(s.common_key@) == s.common_key@,
        trim(s.containers_key@) == s.containers_key@,
        trim(s.pods_key@) == s.pods_key@,
        trim(s.networks_key@) == s.networks_key@,
{
    lemma_trim_idempotent(c.listen@);
    lemma_trim_idempotent(c.port@);
    lemma_trim_idempotent(c.ssl@);
    lemma_trim_idempotent(c.certfile@);
    lemma_trim_idempotent(c.keyfile@);
    lemma_trim_idempotent(c.cookiename@);
    lemma_trim_idempotent(c.salt@);
    lemma_trim_idempotent(c.username@);
    lemma_trim_idempotent(c.password@);
    lemma_trim_idempotent(c.logpath@);
    lemma_trim_idempotent(c.envpath@);
    lemma_trim_idempotent(c.secpath@);
    lemma_trim_idempotent(c.common_security_key@);
    lemma_trim_idempotent(c.containers_security_key@);
    lemma_trim_idempotent(c.pods_security_key@);
    lemma_trim_idempotent(c.networks_security_key@);
}

/// A complete configuration gives a login that can be hashed: the trimmed
/// salt and password are not empty.
pub proof fn lemma_complete_config_has_login(c: RawConfig, s: Settings)
    requires
        config_complete(c),
        settings_of(c, s),
    ensures
        s.cred_salt@.len() > 0,
        s.cred_passwd@.len() > 0,
        s.cred_user@.len() > 0,
{
}

/// The address probed before the server starts, to see whether its port is
/// taken: `127.0.0.1:{port}` when the server listens on `0.0.0.0`, else
/// the address itself.
pub open spec fn probe_address(address: Seq<char>, port: Seq<char>) -> Seq<char> {
    if contains(address, "0.0.0.0"@) {
        "127.0.0.1:"@ + port
    } else {
        address
    }
}

/// The address probed before the server starts, as `probe_address`
/// states.
pub fn probe_address_of(address: &str, port: &str) -> (r: String)
    ensures
        r@ == probe_address(address@, port@),
{
    if includes(&chars_of(address), &chars_of("0.0.0.0")) {
        let mut v = chars_of("127.0.0.1:");
        push_all(&mut v, &chars_of(port));
        string_of(&v)
    } else {
        address.to_owned()
    }
}

} // verus!
