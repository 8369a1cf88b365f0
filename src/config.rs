//! The builder's configuration, given once at start-up.
use vstd::prelude::*;

verus! {

/// What `str::parse::<u32>` makes of a text.
pub uninterp spec fn parsed_u32(s: Seq<char>) -> Option<u32>;

/// Relies on `str::parse::<u32>`: the number written in `s`, or `None`.
#[verifier::external_body]
fn parse_u32(s: &str) -> (r: Option<u32>)
    ensures
        r == parsed_u32(s@),
{
    s.parse::<u32>().ok()
}

#[derive(Clone, Copy, Debug, PartialEq, Eq, Structural)]
pub enum ConfigError {
    /// The CPU limit is not a number.
    InvalidCpuLimit,
}

pub open spec fn default_workspace() -> Seq<char> {
    ".rustwide"@
}

pub open spec fn default_toolchain() -> Seq<char> {
    "nightly"@
}

/// The builder's settings.
pub struct BuilderConfig {
    pub workspace_path: String,
    pub inside_docker: bool,
    pub sandbox_image: Option<String>,
    pub toolchain: String,
    pub cpu_limit: Option<u32>,
}

impl BuilderConfig {
    /// Builds the configuration from the raw settings, each of which may be
    /// missing: the workspace defaults to `.rustwide`, the toolchain to
    /// `nightly`; the builder runs inside a container only when that setting
    /// is `true`; a CPU limit, when given, must be a number.
    pub fn from_settings(
        workspace: Option<String>,
        inside_docker: Option<String>,
        sandbox_image: Option<String>,
        toolchain: Option<String>,
        cpu_limit: Option<String>,
    ) -> (r: Result<BuilderConfig, ConfigError>)
        ensures
            r is Err <==> (cpu_limit is Some && parsed_u32(cpu_limit->Some_0@) is None),
            r is Err ==> r->Err_0 == ConfigError::InvalidCpuLimit,
            r is Ok ==> {
                let c = r->Ok_0;
                &&& c.workspace_path@ == match workspace {
                    Some(w) => w@,
                    None => default_workspace(),
                }
                &&& c.inside_docker == (inside_docker is Some && inside_docker->Some_0@ == "true"@)
                &&& c.sandbox_image == sandbox_image
                &&& c.toolchain@ == match toolchain {
                    Some(t) => t@,
                    None => default_toolchain(),
                }
                &&& c.cpu_limit == match cpu_limit {
                    Some(s) => parsed_u32(s@),
                    None => None,
                }
            },
    {
        let limit = match &cpu_limit {
            Some(s) => match parse_u32(s.as_str()) {
                Some(n) => Some(n),
                None => {
                    return Err(ConfigError::InvalidCpuLimit);
                },
            },
            None => None,
        };
        let docker = match &inside_docker {
            Some(d) => *d == String::from_str("true"),
            None => false,
        };
        let workspace_path = match workspace {
            Some(w) => w,
            None => String::from_str(".rustwide"),
        };
        let toolchain = match toolchain {
            Some(t) => t,
            None => String::from_str("nightly"),
        };
        Ok(BuilderConfig { workspace_path, inside_docker: docker, sandbox_image, toolchain, cpu_limit: limit })
    }
}

} // verus!
