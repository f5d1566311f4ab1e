//! Decisions of the CI-server commands: which builds to ask for, which
//! build to deploy, and which build type a repository maps to.
use vstd::prelude::*;

use crate::build_locator::{build_text, BuildLocator, BuildTypeFilter};
use crate::build_type_locator::BuildTypeLocator;
use crate::issue::{digits_value, is_digit};
use crate::normalize::{field_list, normalize_field_names};
use crate::text::{chars_of, push_char, replace_all, replaced, str_eq};

verus! {

/// The build-type argument of the build commands.
pub enum ArgBuildType {
    /// Regular builds named `Build`.
    Build,
    /// Deployment build types.
    Deploy,
    /// No build-type filter.
    Any,
    /// Build types picked by a query text.
    Custom(String),
}

/// The ASCII lowercase form of a character.
pub open spec fn lower_char(c: char) -> char {
    if 'A' <= c && c <= 'Z' {
        ((c as u8) + 32u8) as char
    } else {
        c
    }
}

/// The ASCII lowercase form of a text.
pub open spec fn ascii_lower(s: Seq<char>) -> Seq<char> {
    s.map_values(|c: char| lower_char(c))
}

/// The lowercase names of the fixed build-type arguments.
pub open spec fn names_build(l: Seq<char>) -> bool {
    l == "build"@ || l == "b"@
}

pub open spec fn names_deploy(l: Seq<char>) -> bool {
    l == "deploy"@ || l == "d"@
}

pub open spec fn names_any(l: Seq<char>) -> bool {
    l == "any"@
}

/// The ASCII lowercase form of `s`.
pub fn to_ascii_lowercase(s: &str) -> (r: String)
    ensures
        r@ == ascii_lower(s@),
{
    let v = chars_of(s);
    let mut r = String::new();
    let mut i: usize = 0;
    while i < v.len()
        invariant
            v@ == s@,
            i <= v@.len(),
            r@ == ascii_lower(v@.subrange(0, i as int)),
        decreases v@.len() - i,
    {
        let c = v[i];
        let l = if 'A' <= c && c <= 'Z' {
            ((c as u8) + 32u8) as char
        } else {
            c
        };
        push_char(&mut r, l);
        assert(ascii_lower(v@.subrange(0, i + 1)) =~= ascii_lower(v@.subrange(0, i as int)).push(lower_char(c)));
        i = i + 1;
    }
    assert(v@.subrange(0, v@.len() as int) =~= v@);
    r
}

impl ArgBuildType {
    /// Reads the argument, without regard to ASCII case: `build` or `b`,
    /// `deploy` or `d`, `any`, or else a query text, kept in lowercase.
    pub fn from_arg(s: &str) -> (r: Self)
        ensures
            names_build(ascii_lower(s@)) ==> r is Build,
            names_deploy(ascii_lower(s@)) ==> r is Deploy,
            names_any(ascii_lower(s@)) ==> r is Any,
            !names_build(ascii_lower(s@)) && !names_deploy(ascii_lower(s@)) && !names_any(
                ascii_lower(s@),
            ) ==> (r matches ArgBuildType::Custom(c) && c@ == ascii_lower(s@)),
    {
        let l = to_ascii_lowercase(s);
        proof {
            reveal_strlit("build");
            reveal_strlit("b");
            reveal_strlit("deploy");
            reveal_strlit("d");
            reveal_strlit("any");
            assert("build"@.len() == 5 && "b"@.len() == 1 && "deploy"@.len() == 6);
            assert("d"@.len() == 1 && "any"@.len() == 3 && "b"@[0] != "d"@[0]);
        }
        if str_eq(l.as_str(), "build") || str_eq(l.as_str(), "b") {
            ArgBuildType::Build
        } else if str_eq(l.as_str(), "deploy") || str_eq(l.as_str(), "d") {
            ArgBuildType::Deploy
        } else if str_eq(l.as_str(), "any") {
            ArgBuildType::Any
        } else {
            ArgBuildType::Custom(l)
        }
    }

    /// The argument as text: `build`, `deploy`, `any`, or the query text.
    pub fn to_arg_string(self) -> (r: String)
        ensures
            self is Build ==> r@ == "build"@,
            self is Deploy ==> r@ == "deploy"@,
            self is Any ==> r@ == "any"@,
            self matches ArgBuildType::Custom(c) ==> r@ == c@,
    {
        match self {
            ArgBuildType::Build => {
                let mut r = String::new();
                r.append("build");
                r
            },
            ArgBuildType::Deploy => {
                let mut r = String::new();
                r.append("deploy");
                r
            },
            ArgBuildType::Any => {
                let mut r = String::new();
                r.append("any");
                r
            },
            ArgBuildType::Custom(c) => c,
        }
    }
}

/// Every character is an ASCII digit.
pub open spec fn all_digits(d: Seq<char>) -> bool {
    forall|k: int| 0 <= k < d.len() ==> is_digit(#[trigger] d[k])
}

/// The text after an optional leading sign.
pub open spec fn unsigned_part(s: Seq<char>) -> Seq<char> {
    if s.len() > 0 && (s[0] == '-' || s[0] == '+') {
        s.drop_first()
    } else {
        s
    }
}

/// A text read as an `i32` the way Rust's integer parsing reads it: an
/// optional `+` or `-`, then one or more ASCII digits, in range.
pub open spec fn parsed_i32(s: Seq<char>) -> Option<int> {
    let d = unsigned_part(s);
    let v: int = if s.len() > 0 && s[0] == '-' {
        -(digits_value(d) as int)
    } else {
        digits_value(d) as int
    };
    if d.len() > 0 && all_digits(d) && i32::MIN <= v <= i32::MAX {
        Some(v)
    } else {
        None
    }
}

/// The value of `v[start..]` when it is all digits and at most `cap`.
fn read_digits(v: &Vec<char>, start: usize, cap: u64) -> (r: Option<u64>)
    requires
        start <= v@.len(),
        cap <= u32::MAX,
    ensures
        r matches Some(x) ==> all_digits(v@.subrange(start as int, v@.len() as int)) && x
            == digits_value(v@.subrange(start as int, v@.len() as int)) && x <= cap,
        r is None ==> !all_digits(v@.subrange(start as int, v@.len() as int)) || digits_value(
            v@.subrange(start as int, v@.len() as int),
        ) > cap,
{
    let n = v.len();
    let ghost d = v@.subrange(start as int, n as int);
    let mut value: u64 = 0;
    let mut i = start;
    assert(v@.subrange(start as int, start as int) =~= Seq::<char>::empty());
    while i < n
        invariant
            n == v@.len(),
            start <= i <= n,
            cap <= u32::MAX,
            d == v@.subrange(start as int, n as int),
            forall|k: int| start <= k < i ==> is_digit(#[trigger] v@[k]),
            value as nat == digits_value(v@.subrange(start as int, i as int)),
            value <= cap,
        decreases n - i,
    {
        let c = v[i];
        if !('0' <= c && c <= '9') {
            assert(d[i - start] == c);
            return None;
        }
        let ghost sub = v@.subrange(start as int, i + 1);
        assert(sub.drop_last() =~= v@.subrange(start as int, i as int));
        assert(sub.last() == c);
        let next = value * 10 + (c as u32 - '0' as u32) as u64;
        assert(digits_value(sub) == next);
        if next > cap {
            proof {
                assert(d.subrange(0, i + 1 - start) =~= sub);
                if all_digits(d) {
                    lemma_digits_value_prefix(d, i + 1 - start);
                }
            }
            return None;
        }
        value = next;
        i = i + 1;
    }
    assert(all_digits(d)) by {
        assert forall|k: int| 0 <= k < d.len() implies is_digit(#[trigger] d[k]) by {
            assert(d[k] == v@[k + start]);
        }
    }
    Some(value)
}

/// Reads a build identifier; `None` when the text is not an `i32`.
pub fn parse_build_id(s: &str) -> (r: Option<i32>)
    ensures
        r matches Some(v) ==> parsed_i32(s@) == Some(v as int),
        r is None ==> parsed_i32(s@) is None,
{
    let v = chars_of(s);
    let n = v.len();
    if n == 0 {
        return None;
    }
    let neg = v[0] == '-';
    let start: usize = if v[0] == '-' || v[0] == '+' { 1 } else { 0 };
    proof {
        if start == 1 {
            assert(v@.subrange(1, n as int) =~= v@.drop_first());
        } else {
            assert(v@.subrange(0, n as int) =~= v@);
        }
    }
    if start >= n {
        return None;
    }
    match read_digits(&v, start, 2147483648u64) {
        None => None,
        Some(x) => {
            if neg {
                Some((0i64 - x as i64) as i32)
            } else if x <= 2147483647u64 {
                Some(x as i32)
            } else {
                None
            }
        },
    }
}

/// A run of digits is worth at least as much as each of its prefixes.
pub proof fn lemma_digits_value_prefix(d: Seq<char>, k: int)
    requires
        0 <= k <= d.len(),
        all_digits(d),
    ensures
        digits_value(d.subrange(0, k)) <= digits_value(d),
    decreases d.len(),
{
    if k < d.len() {
        lemma_digits_value_prefix(d.drop_last(), k);
        assert(d.drop_last().subrange(0, k) =~= d.subrange(0, k));
    } else {
        assert(d.subrange(0, k) =~= d);
    }
}

/// Where a service is reached and the token that authorizes requests.
pub struct Config {
    pub host: String,
    pub auth_token: String,
}

impl Config {
    /// The base URL of the service.
    pub fn host(&self) -> (r: &str)
        ensures
            r@ == self.host@,
    {
        self.host.as_str()
    }

    /// The bearer token.
    pub fn auth_token(&self) -> (r: &str)
        ensures
            r@ == self.auth_token@,
    {
        self.auth_token.as_str()
    }
}

/// The CI server's settings: its client configuration and the build type
/// of each repository, by repository name.
pub struct TeamcitySettings {
    pub client: Config,
    pub build_types: Vec<(String, String)>,
}

/// No build type is configured for the repository.
#[derive(Debug, PartialEq, Eq, Structural)]
pub enum SettingsError {
    NoBuildTypeForRepo,
}

impl TeamcitySettings {
    /// The build type configured for a repository: the first entry under its
    /// name.
    pub fn default_build_type(&self, repo_name: &str) -> (r: Result<String, SettingsError>)
        ensures
            r matches Ok(v) ==> exists|k: int|
                0 <= k < self.build_types@.len() && (#[trigger] self.build_types@[k]).0@ == repo_name@
                    && self.build_types@[k].1@ == v@ && forall|j: int|
                    0 <= j < k ==> (#[trigger] self.build_types@[j]).0@ != repo_name@,
            r is Err ==> forall|k: int|
                0 <= k < self.build_types@.len() ==> (#[trigger] self.build_types@[k]).0@
                    != repo_name@,
    {
        let mut i: usize = 0;
        while i < self.build_types.len()
            invariant
                i <= self.build_types@.len(),
                forall|j: int| 0 <= j < i ==> (#[trigger] self.build_types@[j]).0@ != repo_name@,
            decreases self.build_types@.len() - i,
        {
            let entry = &self.build_types[i];
            if str_eq(entry.0.as_str(), repo_name) {
                let mut v = String::new();
                v.append(entry.1.as_str());
                return Ok(v);
            }
            i = i + 1;
        }
        Err(SettingsError::NoBuildTypeForRepo)
    }
}

/// Why the last build cannot be deployed.
#[derive(Debug, PartialEq, Eq, Structural)]
pub enum BuildStateError {
    /// The build with this identifier failed.
    Failed(i32),
    /// The build with this identifier is still queued.
    Queued(i32),
}

/// Checks that a build can be deployed: a failed status refuses it first,
/// then a queued state; any other build is accepted.
pub fn check_last_build(id: i32, state: &str, status: Option<&str>) -> (r: Result<(), BuildStateError>)
    ensures
        (status matches Some(st) && st@ == "FAILURE"@) ==> r == Err::<(), BuildStateError>(BuildStateError::Failed(id)),
        !(status matches Some(st) && st@ == "FAILURE"@) && state@ == "queued"@ ==> r == Err::<(), BuildStateError>(BuildStateError::Queued(id)),
        !(status matches Some(st) && st@ == "FAILURE"@) && state@ != "queued"@ ==> r is Ok,
{
    let failed = match status {
        Some(st) => str_eq(st, "FAILURE"),
        None => false,
    };
    if failed {
        Err(BuildStateError::Failed(id))
    } else if str_eq(state, "queued") {
        Err(BuildStateError::Queued(id))
    } else {
        Ok(())
    }
}

/// The locator of the build to deploy: the build with the given identifier
/// when there is one; otherwise the last build of the build type on the
/// branch, triggered by the current user unless a branch was named.
pub fn deploy_locator(id: Option<i32>, build_type: Option<String>, branch: Option<String>, branch_given: bool) -> (r: BuildLocator)
    ensures
        id is Some ==> r.id == id && r.user is None && r.build_type is None && r.branch is None,
        id is None ==> {
            &&& r.id is None
            &&& r.branch == branch
            &&& (r.build_type matches Some(BuildTypeFilter::Id(t)) ==> (build_type matches Some(b) && b@ == t@))
            &&& (r.build_type matches Some(BuildTypeFilter::Locator(_)) ==> false)
            &&& (r.build_type is None <==> build_type is None)
            &&& (branch_given ==> r.user is None)
            &&& (!branch_given ==> (r.user matches Some(u) && u@ == "current"@))
        },
        r.count is None,
        r.personal is None,
        r.default_filter is None,
{
    let l = BuildLocator::new();
    if id.is_some() {
        l.id(id)
    } else {
        let bt = match build_type {
            Some(b) => Some(BuildTypeFilter::Id(b)),
            None => None,
        };
        let l = l.build_type(bt).branch(branch);
        if !branch_given {
            let mut u = String::new();
            u.append("current");
            l.user(Some(u))
        } else {
            l
        }
    }
}

/// The build-type clause for a build-type argument: the preset locators for
/// builds and deployments, the chosen candidates for a query, none for any.
/// `candidates` holds the identifiers picked for a query, if the pick
/// succeeded.
pub fn build_type_filter(arg: ArgBuildType, candidates: Option<Vec<String>>) -> (r: Option<BuildTypeFilter>)
    ensures
        arg is Build ==> (r matches Some(BuildTypeFilter::Locator(l)) && l.id is None && (l.type_ matches Some(t) && t@ == "regular"@) && (l.name matches Some(n) && n@ == "Build"@) && l.items@.len() == 0),
        arg is Deploy ==> (r matches Some(BuildTypeFilter::Locator(l)) && l.id is None && (l.type_ matches Some(t) && t@ == "deployment"@) && l.name is None && l.items@.len() == 0),
        arg is Any ==> r is None,
        arg is Custom && candidates is None ==> r is None,
        arg is Custom && candidates is Some ==> (r matches Some(BuildTypeFilter::Locator(l)) && l.id is None && l.type_ is None && l.name is None && l.items@.len() == candidates.unwrap()@.len() && forall|k: int| 0 <= k < l.items@.len() ==> ((#[trigger] l.items@[k]).id matches Some(x) && x@ == candidates.unwrap()@[k]@) && l.items@[k].type_ is None && l.items@[k].name is None && l.items@[k].items@.len() == 0),
{
    match arg {
        ArgBuildType::Build => Some(BuildTypeFilter::Locator(BuildTypeLocator::only_builds())),
        ArgBuildType::Deploy => Some(BuildTypeFilter::Locator(BuildTypeLocator::only_deploys())),
        ArgBuildType::Any => None,
        ArgBuildType::Custom(_) => match candidates {
            Some(ids) => Some(BuildTypeFilter::Locator(BuildTypeLocator::from_ids(&ids))),
            None => None,
        },
    }
}

/// The locator of the build list: the branch, the build-type clause, the
/// author and the limit, with personal builds and the server's default
/// filter turned off.
pub fn builds_locator(branch: String, build_type: Option<BuildTypeFilter>, author: Option<String>, limit: Option<u8>) -> (r: BuildLocator)
    ensures
        r.id is None,
        r.branch == Some(branch),
        r.build_type == build_type,
        r.user == author,
        r.count == limit,
        r.personal == Some(false),
        r.default_filter == Some(false),
{
    BuildLocator::new().count(limit).user(author).branch(Some(branch)).default_filter(Some(false)).personal(Some(false)).build_type(build_type)
}

/// The field list of a build-type listing, with each build type's fields
/// nested under `buildType`.
pub open spec fn build_types_fields_spec() -> Seq<char> {
    replaced(
        field_list(seq!["count"@, "href"@, "nextHref"@, "prevHref"@, "buildType"@]),
        "buildType"@,
        "buildType"@ + "("@ + field_list(seq!["id"@, "name"@, "webUrl"@, "r#type"@]) + ")"@,
    )
}

/// The field list of a user listing, with each user's fields nested under
/// `user`.
pub open spec fn users_fields_spec() -> Seq<char> {
    replaced(
        field_list(seq!["count"@, "user"@]),
        "user"@,
        "user"@ + "("@ + field_list(seq!["username"@, "name"@, "id"@]) + ")"@,
    )
}

/// The field list of a build listing: each build's fields under `build`,
/// the trigger's under `triggered`, and its user's under `user`.
pub open spec fn builds_fields_spec() -> Seq<char> {
    let user = field_list(seq!["username"@, "name"@, "id"@]);
    let triggered = replaced(field_list(seq!["r#type"@, "date"@, "user"@]), "user"@, "user"@ + "("@ + user + ")"@);
    let build = replaced(
        field_list(
            seq![
                "id"@,
                "buildTypeId"@,
                "status"@,
                "state"@,
                "branchName"@,
                "webUrl"@,
                "finishOnAgentDate"@,
                "triggered"@,
            ],
        ),
        "triggered"@,
        "triggered"@ + "("@ + triggered + ")"@,
    );
    replaced(field_list(seq!["build"@]), "build"@, "build"@ + "("@ + build + ")"@)
}

fn fields_of(names: &Vec<&str>) -> (r: String)
    ensures
        r@ == field_list(names@.map_values(|f: &str| f@)),
{
    normalize_field_names(names.as_slice())
}

/// `outer` with `key` replaced by `key(inner)`.
fn nest(outer: &str, key: &str, inner: &str) -> (r: String)
    requires
        key@.len() > 0,
    ensures
        r@ == replaced(outer@, key@, key@ + "("@ + inner@ + ")"@),
{
    let mut with = String::new();
    with.append(key);
    with.append("(");
    with.append(inner);
    with.append(")");
    replace_all(outer, key, with.as_str())
}

/// The field list of a build-type listing.
pub fn build_types_fields() -> (r: String)
    ensures
        r@ == build_types_fields_spec(),
{
    let on: Vec<&str> = vec!["count", "href", "nextHref", "prevHref", "buildType"];
    let inn: Vec<&str> = vec!["id", "name", "webUrl", "r#type"];
    assert(on@.map_values(|f: &str| f@) =~= seq!["count"@, "href"@, "nextHref"@, "prevHref"@, "buildType"@]);
    assert(inn@.map_values(|f: &str| f@) =~= seq!["id"@, "name"@, "webUrl"@, "r#type"@]);
    let outer = fields_of(&on);
    let inner = fields_of(&inn);
    proof {
        reveal_strlit("buildType");
    }
    nest(outer.as_str(), "buildType", inner.as_str())
}

/// The field list of a user listing.
pub fn users_fields() -> (r: String)
    ensures
        r@ == users_fields_spec(),
{
    let on: Vec<&str> = vec!["count", "user"];
    let inn: Vec<&str> = vec!["username", "name", "id"];
    assert(on@.map_values(|f: &str| f@) =~= seq!["count"@, "user"@]);
    assert(inn@.map_values(|f: &str| f@) =~= seq!["username"@, "name"@, "id"@]);
    let outer = fields_of(&on);
    let inner = fields_of(&inn);
    proof {
        reveal_strlit("user");
    }
    nest(outer.as_str(), "user", inner.as_str())
}

/// The field list of a build listing.
pub fn builds_fields() -> (r: String)
    ensures
        r@ == builds_fields_spec(),
{
    proof {
        reveal_strlit("user");
        reveal_strlit("triggered");
        reveal_strlit("build");
    }
    let un: Vec<&str> = vec!["username", "name", "id"];
    let tn: Vec<&str> = vec!["r#type", "date", "user"];
    let bn: Vec<&str> = vec!["id", "buildTypeId", "status", "state", "branchName", "webUrl", "finishOnAgentDate", "triggered"];
    let on: Vec<&str> = vec!["build"];
    assert(un@.map_values(|f: &str| f@) =~= seq!["username"@, "name"@, "id"@]);
    assert(tn@.map_values(|f: &str| f@) =~= seq!["r#type"@, "date"@, "user"@]);
    assert(bn@.map_values(|f: &str| f@) =~= seq!["id"@, "buildTypeId"@, "status"@, "state"@, "branchName"@, "webUrl"@, "finishOnAgentDate"@, "triggered"@]);
    assert(on@.map_values(|f: &str| f@) =~= seq!["build"@]);
    let user = fields_of(&un);
    let tf = fields_of(&tn);
    let triggered = nest(tf.as_str(), "user", user.as_str());
    let bf = fields_of(&bn);
    let build = nest(bf.as_str(), "triggered", triggered.as_str());
    let of = fields_of(&on);
    nest(of.as_str(), "build", build.as_str())
}

/// The path that lists all build types.
pub fn build_types_path() -> (r: String)
    ensures
        r@ == "/app/rest/buildTypes?fields="@ + build_types_fields_spec(),
{
    let f = build_types_fields();
    let mut r = String::new();
    r.append("/app/rest/buildTypes?fields=");
    r.append(f.as_str());
    r
}

/// The path that lists the deployment build types that depend on a build
/// type, in projects that are not archived.
pub fn deployment_list_path(build_type_id: &str) -> (r: String)
    ensures
        r@ == "/app/rest/buildTypes?locator=type:deployment,project(archived:false),snapshotDependency(from:(id:"@
            + build_type_id@ + "))&fields="@ + build_types_fields_spec(),
{
    let f = build_types_fields();
    let mut r = String::new();
    r.append("/app/rest/buildTypes?locator=type:deployment,project(archived:false),snapshotDependency(from:(id:");
    r.append(build_type_id);
    r.append("))&fields=");
    r.append(f.as_str());
    r
}

/// The path that lists users.
pub fn users_path() -> (r: String)
    ensures
        r@ == "/app/rest/users?fields="@ + users_fields_spec(),
{
    let f = users_fields();
    let mut r = String::new();
    r.append("/app/rest/users?fields=");
    r.append(f.as_str());
    r
}

/// The path that reads the last build a locator selects.
pub fn last_build_path(locator: &BuildLocator) -> (r: String)
    ensures
        r@ == "/app/rest/builds/"@ + build_text(*locator) + "?fields=id,buildTypeId,branchName,number,state,status"@,
{
    let l = locator.to_string();
    let mut r = String::new();
    r.append("/app/rest/builds/");
    r.append(l.as_str());
    r.append("?fields=id,buildTypeId,branchName,number,state,status");
    r
}

/// The path that lists the builds a locator selects.
pub fn builds_path(locator: &BuildLocator) -> (r: String)
    ensures
        r@ == "/app/rest/builds?locator="@ + build_text(*locator) + "&fields="@ + builds_fields_spec(),
{
    let l = locator.to_string();
    let f = builds_fields();
    let mut r = String::new();
    r.append("/app/rest/builds?locator=");
    r.append(l.as_str());
    r.append("&fields=");
    r.append(f.as_str());
    r
}

/// The path that queues builds.
pub fn build_queue_path() -> (r: String)
    ensures
        r@ == "/app/rest/buildQueue"@,
{
    let mut r = String::new();
    r.append("/app/rest/buildQueue");
    r
}

} // verus!
