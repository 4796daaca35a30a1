//! Eligibility of a scenario for a test environment.
use vstd::prelude::*;
use vstd::string::*;

verus! {

/// The deployment shape of a test environment.
#[derive(Clone, Copy, Debug, PartialEq, Eq, Structural)]
pub enum Topology {
    Single,
    ReplicaSet,
    Sharded,
    ShardedReplicaSet,
    LoadBalanced,
}

/// Whether a scenario needs, refuses or accepts a serverless deployment.
#[derive(Clone, Copy, Debug, PartialEq, Eq, Structural)]
pub enum Serverless {
    Require,
    Forbid,
    Allow,
}

impl Serverless {
    pub open spec fn admits(self, is_serverless: bool) -> bool {
        match self {
            Serverless::Require => is_serverless,
            Serverless::Forbid => !is_serverless,
            Serverless::Allow => true,
        }
    }

    /// Whether a deployment that is (or is not) serverless meets this gate.
    pub fn can_run(&self, is_serverless: bool) -> (r: bool)
        ensures
            r == self.admits(is_serverless),
    {
        match self {
            Serverless::Require => is_serverless,
            Serverless::Forbid => !is_serverless,
            Serverless::Allow => true,
        }
    }
}

/// A server version as its three numeric components.
#[derive(Clone, Copy, Debug, PartialEq, Eq, Structural)]
pub struct ServerVersion {
    pub major: u64,
    pub minor: u64,
    pub patch: u64,
}

/// A snapshot of what the evaluator reads of the live environment.
#[derive(Clone, Copy, Debug)]
pub struct TestEnvironment {
    pub server_version: ServerVersion,
    pub topology: Topology,
    pub is_serverless: bool,
    pub auth_enabled: bool,
}

/// One eligibility clause set; every clause is optional. `P` is the type of
/// the declared server-parameter document, which an outside matcher compares.
#[derive(Clone, Debug)]
pub struct RunOnRequirement<P> {
    pub min_server_version: Option<String>,
    pub max_server_version: Option<String>,
    pub topologies: Option<Vec<Topology>>,
    pub server_parameters: Option<P>,
    pub serverless: Option<Serverless>,
    pub auth: Option<bool>,
}

/// A version bound that is not a valid version requirement.
#[derive(Clone, Debug)]
pub enum RequirementError {
    InvalidVersionBound(String),
}

/// What semantic-version requirement matching gives for the requirement text
/// `req` and the version `major.minor.patch`: nothing when `req` does not parse.
pub uninterp spec fn requirement_matches(req: Seq<char>, major: u64, minor: u64, patch: u64) -> Option<bool>;

/// Relies on `semver::VersionReq::parse` and `semver::VersionReq::matches`:
/// parses the requirement text and, when it parses, tests the version.
#[verifier::external_body]
fn version_satisfies(req: &str, v: &ServerVersion) -> (r: Option<bool>)
    ensures
        r == requirement_matches(req@, v.major, v.minor, v.patch),
{
    match semver::VersionReq::parse(req) {
        Ok(q) => Some(q.matches(&semver::Version::new(v.major, v.minor, v.patch))),
        Err(_) => None,
    }
}

/// The outcome of a version bound clause written with operator `op`:
/// `Some(true)` when absent, nothing when the bound does not parse.
pub open spec fn bound_outcome(bound: Option<String>, op: Seq<char>, v: ServerVersion) -> Option<bool> {
    match bound {
        None => Some(true),
        Some(b) => requirement_matches(op + b@, v.major, v.minor, v.patch),
    }
}

impl<P> RunOnRequirement<P> {
    pub open spec fn min_outcome(self, env: TestEnvironment) -> Option<bool> {
        bound_outcome(self.min_server_version, ">= "@, env.server_version)
    }

    pub open spec fn max_outcome(self, env: TestEnvironment) -> Option<bool> {
        bound_outcome(self.max_server_version, "<= "@, env.server_version)
    }

    pub open spec fn topology_holds(self, env: TestEnvironment) -> bool {
        self.topologies is Some ==> self.topologies->0@.contains(env.topology)
    }

    pub open spec fn parameters_hold(self, parameters_match: bool) -> bool {
        self.server_parameters is Some ==> parameters_match
    }

    pub open spec fn serverless_holds(self, env: TestEnvironment) -> bool {
        self.serverless is Some ==> self.serverless->0.admits(env.is_serverless)
    }

    pub open spec fn auth_holds(self, env: TestEnvironment) -> bool {
        self.auth is Some ==> self.auth->0 == env.auth_enabled
    }

    /// Every clause that is neither a version bound holds.
    pub open spec fn other_clauses_hold(self, env: TestEnvironment, parameters_match: bool) -> bool {
        self.topology_holds(env) && self.parameters_hold(parameters_match) && self.serverless_holds(env)
            && self.auth_holds(env)
    }

    /// The evaluation outcome: clauses are checked in order and the first
    /// failing one decides `false`; nothing when a version bound reached in
    /// that order does not parse.
    pub open spec fn outcome(self, env: TestEnvironment, parameters_match: bool) -> Option<bool> {
        match self.min_outcome(env) {
            None => None,
            Some(false) => Some(false),
            Some(true) => match self.max_outcome(env) {
                None => None,
                Some(false) => Some(false),
                Some(true) => Some(self.other_clauses_hold(env, parameters_match)),
            },
        }
    }

    /// The outcome of the version bounds alone, in order: nothing when a
    /// bound reached does not parse.
    pub open spec fn bounds_outcome(self, v: ServerVersion) -> Option<bool> {
        match bound_outcome(self.min_server_version, ">= "@, v) {
            None => None,
            Some(false) => Some(false),
            Some(true) => bound_outcome(self.max_server_version, "<= "@, v),
        }
    }

    /// Checks the lower, then the upper version bound against `v`. A bound
    /// `b` is the requirement `>= b` or `<= b`; one that does not parse is
    /// reported with that requirement text.
    pub fn version_bounds_hold(&self, v: &ServerVersion) -> (r: Result<bool, RequirementError>)
        ensures
            r is Ok <==> self.bounds_outcome(*v) is Some,
            r matches Ok(b) ==> self.bounds_outcome(*v) == Some(b),
            r matches Err(RequirementError::InvalidVersionBound(t)) ==> requirement_matches(
                t@,
                v.major,
                v.minor,
                v.patch,
            ) is None && ((self.min_server_version matches Some(m) && t@ == ">= "@ + m@) || (
            self.max_server_version matches Some(m) && t@ == "<= "@ + m@)),
    {
        if let Some(min_version) = &self.min_server_version {
            let mut req = String::from_str(">= ");
            req.append(min_version.as_str());
            match version_satisfies(req.as_str(), v) {
                None => return Err(RequirementError::InvalidVersionBound(req)),
                Some(false) => return Ok(false),
                Some(true) => {},
            }
        }
        if let Some(max_version) = &self.max_server_version {
            let mut req = String::from_str("<= ");
            req.append(max_version.as_str());
            match version_satisfies(req.as_str(), v) {
                None => return Err(RequirementError::InvalidVersionBound(req)),
                Some(false) => return Ok(false),
                Some(true) => {},
            }
        }
        Ok(true)
    }

    /// Decides whether a scenario may run in `env`. `parameters_match` is what
    /// the document matcher reported for the declared server parameters
    /// against the environment's; it is read only when parameters are declared.
    /// A version bound that does not parse, reached before any clause fails,
    /// is answered with `InvalidVersionBound` and its requirement text.
    pub fn can_run_on(&self, env: &TestEnvironment, parameters_match: bool) -> (r: Result<bool, RequirementError>)
        ensures
            r is Ok <==> self.outcome(*env, parameters_match) is Some,
            r matches Ok(b) ==> self.outcome(*env, parameters_match) == Some(b),
            r matches Err(RequirementError::InvalidVersionBound(t)) ==> requirement_matches(
                t@,
                env.server_version.major,
                env.server_version.minor,
                env.server_version.patch,
            ) is None && ((self.min_server_version matches Some(m) && t@ == ">= "@ + m@) || (
            self.max_server_version matches Some(m) && t@ == "<= "@ + m@)),
    {
        match self.version_bounds_hold(&env.server_version) {
            Err(e) => return Err(e),
            Ok(false) => return Ok(false),
            Ok(true) => {},
        }
        if let Some(topologies) = &self.topologies {
            let mut found = false;
            let mut i: usize = 0;
            while i < topologies.len()
                invariant
                    i <= topologies.len(),
                    found <==> exists|k: int| 0 <= k < i && topologies@[k] == env.topology,
                decreases topologies.len() - i,
            {
                if topologies[i] == env.topology {
                    found = true;
                }
                i = i + 1;
            }
            if !found {
                return Ok(false);
            }
        }
        if self.server_parameters.is_some() && !parameters_match {
            return Ok(false);
        }
        if let Some(serverless) = &self.serverless {
            if !serverless.can_run(env.is_serverless) {
                return Ok(false);
            }
        }
        if let Some(auth) = self.auth {
            if auth != env.auth_enabled {
                return Ok(false);
            }
        }
        Ok(true)
    }
}

/// The outcome over several requirements, any one of which suffices: the
/// first that admits decides `true`, and the first whose version bound does
/// not parse, reached before that, decides nothing.
pub open spec fn any_outcome<P>(
    reqs: Seq<RunOnRequirement<P>>,
    env: TestEnvironment,
    parameters_match: Seq<bool>,
) -> Option<bool>
    decreases reqs.len(),
{
    if reqs.len() == 0 {
        Some(false)
    } else {
        match reqs[0].outcome(env, parameters_match[0]) {
            None => None,
            Some(true) => Some(true),
            Some(false) => any_outcome(reqs.drop_first(), env, parameters_match.drop_first()),
        }
    }
}

/// Decides whether a scenario with several requirements may run in `env`:
/// it may when any one of them admits the environment. `parameters_match[i]`
/// is the matcher's verdict on the server parameters of `requirements[i]`.
pub fn can_run_on_any<P>(
    requirements: &Vec<RunOnRequirement<P>>,
    env: &TestEnvironment,
    parameters_match: &Vec<bool>,
) -> (r: Result<bool, RequirementError>)
    requires
        parameters_match@.len() == requirements@.len(),
    ensures
        r is Ok <==> any_outcome(requirements@, *env, parameters_match@) is Some,
        r matches Ok(b) ==> any_outcome(requirements@, *env, parameters_match@) == Some(b),
{
    let mut i: usize = 0;
    assert(requirements@.subrange(0, requirements@.len() as int) =~= requirements@);
    assert(parameters_match@.subrange(0, parameters_match@.len() as int) =~= parameters_match@);
    while i < requirements.len()
        invariant
            i <= requirements@.len() == parameters_match@.len(),
            any_outcome(requirements@, *env, parameters_match@) == any_outcome(
                requirements@.subrange(i as int, requirements@.len() as int),
                *env,
                parameters_match@.subrange(i as int, parameters_match@.len() as int),
            ),
        decreases requirements.len() - i,
    {
        let ghost rs = requirements@.subrange(i as int, requirements@.len() as int);
        let ghost ps = parameters_match@.subrange(i as int, parameters_match@.len() as int);
        assert(rs[0] == requirements@[i as int]);
        assert(ps[0] == parameters_match@[i as int]);
        assert(rs.drop_first() =~= requirements@.subrange(i + 1, requirements@.len() as int));
        assert(ps.drop_first() =~= parameters_match@.subrange(i + 1, parameters_match@.len() as int));
        match requirements[i].can_run_on(env, parameters_match[i]) {
            Err(e) => return Err(e),
            Ok(true) => return Ok(true),
            Ok(false) => {},
        }
        i = i + 1;
    }
    Ok(false)
}

/// A requirement that declares no clause admits every environment.
pub proof fn empty_requirement_admits_all<P>(env: TestEnvironment, parameters_match: bool)
    ensures
        (RunOnRequirement::<P> {
            min_server_version: None,
            max_server_version: None,
            topologies: None,
            server_parameters: None,
            serverless: None,
            auth: None,
        }).outcome(env, parameters_match) == Some(true),
{
}

/// When both version bounds can be evaluated, a requirement admits an
/// environment exactly when every declared clause holds, whatever the order
/// of the clauses: the outcome is their conjunction.
pub proof fn outcome_is_conjunction_of_clauses<P>(
    r: RunOnRequirement<P>,
    env: TestEnvironment,
    parameters_match: bool,
)
    requires
        r.min_outcome(env) is Some,
        r.max_outcome(env) is Some,
    ensures
        r.outcome(env, parameters_match) == Some(
            r.min_outcome(env)->0 && r.max_outcome(env)->0 && r.topology_holds(env)
                && r.parameters_hold(parameters_match) && r.serverless_holds(env) && r.auth_holds(
                env,
            ),
        ),
{
}

/// A requirement one of whose declared clauses fails never admits the
/// environment, whichever clause it is and whatever the others declare:
/// the outcome is `false`, or nothing when a version bound checked earlier
/// does not parse.
pub proof fn failing_clause_never_admits<P>(
    r: RunOnRequirement<P>,
    env: TestEnvironment,
    parameters_match: bool,
)
    requires
        r.min_outcome(env) == Some(false) || r.max_outcome(env) == Some(false) || !r.topology_holds(
            env,
        ) || !r.parameters_hold(parameters_match) || !r.serverless_holds(env) || !r.auth_holds(env),
    ensures
        r.outcome(env, parameters_match) != Some(true),
        r.outcome(env, parameters_match) is None ==> r.min_outcome(env) is None || r.max_outcome(
            env,
        ) is None,
{
}

/// A failing lower version bound decides `false` before anything else is
/// looked at, even an upper bound that cannot be evaluated.
pub proof fn failed_minimum_rejects<P>(r: RunOnRequirement<P>, env: TestEnvironment, parameters_match: bool)
    requires
        r.min_outcome(env) == Some(false),
    ensures
        r.outcome(env, parameters_match) == Some(false),
{
}

} // verus!
