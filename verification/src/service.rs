//! The fixed shape of the service: its routes, its cross-origin policy and
//! the address it listens on.

use vstd::prelude::*;

verus! {

/// The port the service listens on.
pub const LISTEN_PORT: u16 = 8001;

/// An HTTP method that the service answers to.
#[derive(Clone, Copy, Debug, PartialEq, Eq, Structural)]
pub enum Method {
    Get,
    Post,
}

/// One of the three things the service does.
#[derive(Clone, Copy, Debug, PartialEq, Eq, Structural)]
pub enum Endpoint {
    /// Accept an email for sending.
    SendEmail,
    /// Report on an address.
    CheckEmail,
    /// Say that the service is up.
    Healthcheck,
}

impl Endpoint {
    /// The method under which the endpoint is mounted.
    pub open spec fn spec_method(self) -> Method {
        match self {
            Endpoint::SendEmail => Method::Post,
            Endpoint::CheckEmail => Method::Get,
            Endpoint::Healthcheck => Method::Get,
        }
    }

    /// The path pattern under which the endpoint is mounted. A segment that
    /// starts with a colon binds the text found there as the parameter.
    pub open spec fn spec_path(self) -> Seq<char> {
        match self {
            Endpoint::SendEmail => "/v1/smtp/:which"@,
            Endpoint::CheckEmail => "/v1/check/email/:email"@,
            Endpoint::Healthcheck => "/healthcheck"@,
        }
    }

    /// The method under which the endpoint is mounted.
    pub fn method(self) -> (method: Method)
        ensures
            method == self.spec_method(),
    {
        match self {
            Endpoint::SendEmail => Method::Post,
            Endpoint::CheckEmail => Method::Get,
            Endpoint::Healthcheck => Method::Get,
        }
    }

    /// The path pattern under which the endpoint is mounted.
    pub fn path(self) -> (path: &'static str)
        ensures
            path@ == self.spec_path(),
    {
        match self {
            Endpoint::SendEmail => "/v1/smtp/:which",
            Endpoint::CheckEmail => "/v1/check/email/:email",
            Endpoint::Healthcheck => "/healthcheck",
        }
    }
}

/// The routing table: every endpoint of the service, each exactly once.
pub open spec fn route_table() -> Seq<Endpoint> {
    seq![Endpoint::SendEmail, Endpoint::CheckEmail, Endpoint::Healthcheck]
}

/// The routing table, for the program that mounts the endpoints.
pub fn routes() -> (table: Vec<Endpoint>)
    ensures
        table@ == route_table(),
{
    let mut table: Vec<Endpoint> = Vec::new();
    table.push(Endpoint::SendEmail);
    table.push(Endpoint::CheckEmail);
    table.push(Endpoint::Healthcheck);
    table
}

/// The routing table names every endpoint, and none twice.
pub proof fn lemma_route_table_complete(endpoint: Endpoint)
    ensures
        route_table().contains(endpoint),
        route_table().no_duplicates(),
{
    let table = route_table();
    assert(table[0] == Endpoint::SendEmail);
    assert(table[1] == Endpoint::CheckEmail);
    assert(table[2] == Endpoint::Healthcheck);
}

/// No two endpoints share a path pattern, so a path selects at most one.
pub proof fn lemma_paths_distinct(a: Endpoint, b: Endpoint)
    requires
        a != b,
    ensures
        a.spec_path() != b.spec_path(),
{
    reveal_strlit("/v1/smtp/:which");
    reveal_strlit("/v1/check/email/:email");
    reveal_strlit("/healthcheck");
    assert(Endpoint::SendEmail.spec_path().len() == 15);
    assert(Endpoint::CheckEmail.spec_path().len() == 22);
    assert(Endpoint::Healthcheck.spec_path().len() == 12);
}

/// Who may call the service from another origin.
#[derive(Clone, Debug, PartialEq, Eq)]
pub struct CorsPolicy {
    /// The methods a cross-origin caller may use.
    pub allow_methods: Vec<Method>,
    /// Whether every origin is admitted.
    pub allow_any_origin: bool,
}

impl CorsPolicy {
    /// Whether the policy admits a request with `method` from `origin`.
    pub open spec fn permits(self, method: Method, origin: Seq<char>) -> bool {
        self.allow_any_origin && self.allow_methods@.contains(method)
    }
}

/// The policy of the service: `GET` and `POST`, from any origin.
pub fn cors_policy() -> (policy: CorsPolicy)
    ensures
        policy.allow_methods@ == seq![Method::Get, Method::Post],
        policy.allow_any_origin,
        forall|method: Method, origin: Seq<char>| #[trigger] policy.permits(method, origin),
{
    let mut allow_methods: Vec<Method> = Vec::new();
    allow_methods.push(Method::Get);
    allow_methods.push(Method::Post);
    let policy = CorsPolicy { allow_methods, allow_any_origin: true };
    assert forall|method: Method, origin: Seq<char>| #[trigger]
        policy.permits(method, origin) by {
        assert(policy.allow_methods@[0] == Method::Get);
        assert(policy.allow_methods@[1] == Method::Post);
    }
    policy
}

/// The address the service binds: the listening port on all interfaces.
pub fn listen_address() -> (address: &'static str)
    ensures
        address@ == "0.0.0.0:8001"@,
{
    "0.0.0.0:8001"
}

} // verus!
