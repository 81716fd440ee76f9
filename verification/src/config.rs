//! Server configuration, loaded once at startup and immutable afterwards.

use vstd::prelude::*;

verus! {

/// Top-level configuration of the server.
#[derive(Clone)]
pub struct Config {
    pub name: String,
    pub port: u16,
    pub log_path: String,
    pub enable_logs: bool,
    pub ssl: SslConfig,
    pub auth: AuthConfig,
    pub project: ProjectConfig,
    pub token_path: String,
}

/// TLS settings; certificate loading itself is I/O and lives outside the
/// verified core.
#[derive(Clone)]
pub struct SslConfig {
    pub enable_ssl: bool,
    pub certificate_path: String,
    pub certificate_key_path: String,
}

/// Which credentials a caller must present.
#[derive(Clone, Copy, Debug, PartialEq, Eq, Structural)]
pub enum AuthType {
    Token,
    Address,
    Both,
}

/// How an allowed address is interpreted.
#[derive(Clone, Copy, Debug, PartialEq, Eq, Structural)]
pub enum AddressType {
    IP,
    Hostname,
}

/// Authorization settings: the kind of check and the allow-lists it uses.
#[derive(Clone)]
pub struct AuthConfig {
    pub auth_type: AuthType,
    pub address_type: AddressType,
    pub allowed_addresses: Vec<String>,
    pub allowed_tokens: Vec<String>,
}

/// Per-project settings: queue capacity, pacing, and the build description.
#[derive(Clone)]
pub struct ProjectConfig {
    pub allow_multi_build: bool,
    pub max_pending_build: u32,
    pub next_build_delay: u32,
    pub flush_interval: u32,
    pub build: BuildConfig,
    pub project_path: String,
}

impl ProjectConfig {
    /// The capture flush period: the configured interval, floored to
    /// 500 ms to bound lock contention.
    pub fn flush_period_millis(&self) -> (r: u32)
        ensures
            r == (if self.flush_interval >= 500 {
                self.flush_interval
            } else {
                500u32
            }),
    {
        if self.flush_interval >= 500 {
            self.flush_interval
        } else {
            500
        }
    }
}

/// One declared payload entry of a submission.
#[derive(Clone)]
pub struct Payload {
    pub kind: PayloadType,
    pub key1: String,
    pub key2: Option<String>,
}

/// How a payload entry is consumed: as an environment variable, a template
/// parameter, or a file materialized under the project root.
#[derive(Clone, Copy, Debug, PartialEq, Eq, Structural)]
pub enum PayloadType {
    Env,
    Param,
    File,
}

impl PayloadType {
    /// Parses the configuration spelling of a payload kind.
    pub fn from_str(input: &str) -> (r: Result<PayloadType, ()>)
        ensures
            r == Ok::<PayloadType, ()>(PayloadType::Env) <==> input@ == "env"@,
            r == Ok::<PayloadType, ()>(PayloadType::Param) <==> input@ == "param"@,
            r == Ok::<PayloadType, ()>(PayloadType::File) <==> input@ == "file"@,
            r is Err <==> (input@ != "env"@ && input@ != "param"@ && input@ != "file"@),
    {
        proof {
            reveal_strlit("env");
            reveal_strlit("param");
            reveal_strlit("file");
            assert("env"@.len() == 3);
            assert("param"@.len() == 5);
            assert("file"@.len() == 4);
        }
        if crate::strings::str_eq(input, "env") {
            Ok(PayloadType::Env)
        } else if crate::strings::str_eq(input, "param") {
            Ok(PayloadType::Param)
        } else if crate::strings::str_eq(input, "file") {
            Ok(PayloadType::File)
        } else {
            Err(())
        }
    }
}

/// The build pipeline: required payload entries, the primary step list, the
/// post-hook lists, and where results are reported.
#[derive(Clone)]
pub struct BuildConfig {
    pub payload: Vec<Payload>,
    pub unique_build_key: String,
    pub on_success_failure: String,
    pub on_success_error_payload: Vec<Payload>,
    pub commands: Vec<CommandConfig>,
    pub run_on_success: Vec<CommandConfig>,
    pub run_on_failure: Vec<CommandConfig>,
}

/// One configured shell step.
#[derive(Clone)]
pub struct CommandConfig {
    pub command: String,
    pub title: String,
    pub extract_envs: Vec<String>,
    pub abort_on_error: bool,
    pub send_to_sock: bool,
}

/// Default for a step's `send_to_sock` flag when the configuration omits it.
pub fn default_to_sock() -> (r: bool)
    ensures
        r == true,
{
    true
}

/// Default for a step's `abort_on_error` flag when the configuration omits it.
pub fn default_on_error() -> (r: bool)
    ensures
        r == true,
{
    true
}

} // verus!
