//! The build locator: filter criteria over CI builds, serialized into the CI
//! server's locator language.
use vstd::prelude::*;

use crate::build_type_locator::{
    lemma_locator_nested, locator_clauses, locator_text, opt_clause, opt_view, plain_locator, plain_opt,
    views, BuildTypeLocator,
};
use crate::clauses::{
    clause_key, clean, lemma_plain_clause, lemma_split_joined, lemma_wrapped_clause, no_colon, plain,
    split_clauses,
};
use crate::text::{
    bool_text, lemma_decimal_digits, decimal, join_commas, joined, push_bool, push_decimal, push_signed_decimal,
    signed_decimal, str_eq,
};

verus! {

/// What the `buildType` clause of a build locator holds.
pub enum BuildTypeFilter {
    /// One build type, by its identifier.
    Id(String),
    /// A nested build-type locator, written in parentheses.
    Locator(BuildTypeLocator),
}

/// Criteria that select CI builds. Each is optional; `count` is 5 when
/// absent.
pub struct BuildLocator {
    pub id: Option<i32>,
    pub user: Option<String>,
    pub build_type: Option<BuildTypeFilter>,
    pub count: Option<u8>,
    pub branch: Option<String>,
    pub personal: Option<bool>,
    pub default_filter: Option<bool>,
}

/// The number of builds asked for when no count is given.
pub const DEFAULT_COUNT: u8 = 5;

pub open spec fn opt_bool_text(b: Option<bool>) -> Option<Seq<char>> {
    match b {
        Some(v) => Some(bool_text(v)),
        None => None,
    }
}

pub open spec fn opt_id_text(i: Option<i32>) -> Option<Seq<char>> {
    match i {
        Some(v) => Some(signed_decimal(v as int)),
        None => None,
    }
}

/// The value of the `buildType` clause.
pub open spec fn filter_text(f: BuildTypeFilter) -> Seq<char> {
    match f {
        BuildTypeFilter::Id(s) => s@,
        BuildTypeFilter::Locator(l) => "("@ + locator_text(l) + ")"@,
    }
}

pub open spec fn opt_filter_text(f: Option<BuildTypeFilter>) -> Option<Seq<char>> {
    match f {
        Some(v) => Some(filter_text(v)),
        None => None,
    }
}

/// The count that the locator asks for.
pub open spec fn effective_count(c: Option<u8>) -> nat {
    match c {
        Some(v) => v as nat,
        None => DEFAULT_COUNT as nat,
    }
}

/// The `branch` clause: the branch named `any` stands for the default
/// branch filter of the repository.
pub open spec fn branch_clause(b: Option<String>) -> Seq<Seq<char>> {
    match b {
        Some(s) => if s@ == "any"@ {
            seq!["branch:default:any"@]
        } else {
            seq!["branch:"@ + s@]
        },
        None => Seq::empty(),
    }
}

/// The clauses of a build locator, in emission order: `defaultFilter`,
/// `personal`, `id`, `user`, `buildType`, `count`, `branch`.
pub open spec fn build_clauses(l: BuildLocator) -> Seq<Seq<char>> {
    opt_clause("defaultFilter:"@, opt_bool_text(l.default_filter))
        + opt_clause("personal:"@, opt_bool_text(l.personal))
        + opt_clause("id:"@, opt_id_text(l.id))
        + opt_clause("user:"@, opt_view(l.user))
        + opt_clause("buildType:"@, opt_filter_text(l.build_type))
        + seq!["count:"@ + decimal(effective_count(l.count))]
        + branch_clause(l.branch)
}

/// The serialized build locator: its clauses joined by commas.
pub open spec fn build_text(l: BuildLocator) -> Seq<char> {
    joined(build_clauses(l))
}

impl BuildTypeFilter {
    /// The clause value, as the locator writes it.
    pub fn to_string(&self) -> (r: String)
        ensures
            r@ == filter_text(*self),
    {
        match self {
            BuildTypeFilter::Id(s) => {
                let mut r = String::new();
                r.append(s.as_str());
                r
            },
            BuildTypeFilter::Locator(l) => l.to_nested(),
        }
    }
}

impl BuildLocator {
    /// A locator with no criteria set.
    pub fn new() -> (r: Self)
        ensures
            r.id is None,
            r.user is None,
            r.build_type is None,
            r.count is None,
            r.branch is None,
            r.personal is None,
            r.default_filter is None,
    {
        BuildLocator {
            id: None,
            user: None,
            build_type: None,
            count: None,
            branch: None,
            personal: None,
            default_filter: None,
        }
    }

    /// Sets the build identifier; `None` leaves the clause out.
    pub fn id(self, v: Option<i32>) -> (r: Self)
        ensures
            r.id == v,
            r.user == self.user,
            r.build_type == self.build_type,
            r.count == self.count,
            r.branch == self.branch,
            r.personal == self.personal,
            r.default_filter == self.default_filter,
    {
        BuildLocator { id: v, user: self.user, build_type: self.build_type, count: self.count, branch: self.branch, personal: self.personal, default_filter: self.default_filter }
    }

    /// Sets the user who triggered the build; `None` leaves the clause out.
    pub fn user(self, v: Option<String>) -> (r: Self)
        ensures
            r.user == v,
            r.id == self.id,
            r.build_type == self.build_type,
            r.count == self.count,
            r.branch == self.branch,
            r.personal == self.personal,
            r.default_filter == self.default_filter,
    {
        BuildLocator { user: v, id: self.id, build_type: self.build_type, count: self.count, branch: self.branch, personal: self.personal, default_filter: self.default_filter }
    }

    /// Sets the build type; `None` leaves the clause out.
    pub fn build_type(self, v: Option<BuildTypeFilter>) -> (r: Self)
        ensures
            r.build_type == v,
            r.id == self.id,
            r.user == self.user,
            r.count == self.count,
            r.branch == self.branch,
            r.personal == self.personal,
            r.default_filter == self.default_filter,
    {
        BuildLocator { build_type: v, id: self.id, user: self.user, count: self.count, branch: self.branch, personal: self.personal, default_filter: self.default_filter }
    }

    /// Sets the number of builds; `None` leaves the clause out.
    pub fn count(self, v: Option<u8>) -> (r: Self)
        ensures
            r.count == v,
            r.id == self.id,
            r.user == self.user,
            r.build_type == self.build_type,
            r.branch == self.branch,
            r.personal == self.personal,
            r.default_filter == self.default_filter,
    {
        BuildLocator { count: v, id: self.id, user: self.user, build_type: self.build_type, branch: self.branch, personal: self.personal, default_filter: self.default_filter }
    }

    /// Sets the branch; `None` leaves the clause out.
    pub fn branch(self, v: Option<String>) -> (r: Self)
        ensures
            r.branch == v,
            r.id == self.id,
            r.user == self.user,
            r.build_type == self.build_type,
            r.count == self.count,
            r.personal == self.personal,
            r.default_filter == self.default_filter,
    {
        BuildLocator { branch: v, id: self.id, user: self.user, build_type: self.build_type, count: self.count, personal: self.personal, default_filter: self.default_filter }
    }

    /// Sets whether personal builds are selected; `None` leaves the clause out.
    pub fn personal(self, v: Option<bool>) -> (r: Self)
        ensures
            r.personal == v,
            r.id == self.id,
            r.user == self.user,
            r.build_type == self.build_type,
            r.count == self.count,
            r.branch == self.branch,
            r.default_filter == self.default_filter,
    {
        BuildLocator { personal: v, id: self.id, user: self.user, build_type: self.build_type, count: self.count, branch: self.branch, default_filter: self.default_filter }
    }

    /// Sets whether the server's default filter applies; `None` leaves the clause out.
    pub fn default_filter(self, v: Option<bool>) -> (r: Self)
        ensures
            r.default_filter == v,
            r.id == self.id,
            r.user == self.user,
            r.build_type == self.build_type,
            r.count == self.count,
            r.branch == self.branch,
            r.personal == self.personal,
    {
        BuildLocator { default_filter: v, id: self.id, user: self.user, build_type: self.build_type, count: self.count, branch: self.branch, personal: self.personal }
    }

    /// The locator in the CI server's query language.
    pub fn to_string(&self) -> (r: String)
        ensures
            r@ == build_text(*self),
    {
        let mut parts: Vec<String> = Vec::new();
        let ghost c0 = views(parts@);
        if let Some(b) = self.default_filter {
            let mut c = String::new();
            c.append("defaultFilter:");
            push_bool(&mut c, b);
            parts.push(c);
        }
        let ghost c1 = views(parts@);
        assert(c1 =~= c0 + opt_clause("defaultFilter:"@, opt_bool_text(self.default_filter)));
        if let Some(b) = self.personal {
            let mut c = String::new();
            c.append("personal:");
            push_bool(&mut c, b);
            parts.push(c);
        }
        let ghost c2 = views(parts@);
        assert(c2 =~= c1 + opt_clause("personal:"@, opt_bool_text(self.personal)));
        if let Some(id) = self.id {
            let mut c = String::new();
            c.append("id:");
            push_signed_decimal(&mut c, id as i64);
            parts.push(c);
        }
        let ghost c3 = views(parts@);
        assert(c3 =~= c2 + opt_clause("id:"@, opt_id_text(self.id)));
        if let Some(user) = &self.user {
            let mut c = String::new();
            c.append("user:");
            c.append(user.as_str());
            parts.push(c);
        }
        let ghost c4 = views(parts@);
        assert(c4 =~= c3 + opt_clause("user:"@, opt_view(self.user)));
        if let Some(f) = &self.build_type {
            let mut c = String::new();
            c.append("buildType:");
            let v = f.to_string();
            c.append(v.as_str());
            parts.push(c);
        }
        let ghost c5 = views(parts@);
        assert(c5 =~= c4 + opt_clause("buildType:"@, opt_filter_text(self.build_type)));
        let count: u8 = match self.count {
            Some(c) => c,
            None => DEFAULT_COUNT,
        };
        let mut c = String::new();
        c.append("count:");
        push_decimal(&mut c, count as u64);
        parts.push(c);
        let ghost c6 = views(parts@);
        assert(c6 =~= c5 + seq!["count:"@ + decimal(effective_count(self.count))]);
        if let Some(branch) = &self.branch {
            let mut c = String::new();
            if str_eq(branch.as_str(), "any") {
                c.append("branch:default:any");
            } else {
                c.append("branch:");
                c.append(branch.as_str());
            }
            parts.push(c);
        }
        assert(views(parts@) =~= c6 + branch_clause(self.branch));
        assert(views(parts@) =~= build_clauses(*self));
        join_commas(&parts)
    }
}

/// No criteria set: none of the optional clauses.
pub open spec fn no_criteria(l: BuildLocator) -> bool {
    &&& l.id is None
    &&& l.user is None
    &&& l.build_type is None
    &&& l.count is None
    &&& l.branch is None
    &&& l.personal is None
    &&& l.default_filter is None
}

/// A build-type locator with no criteria serializes to the empty string; a
/// build locator with no criteria serializes to its one implicit clause,
/// the default count.
pub proof fn lemma_no_criteria_text(t: BuildTypeLocator, l: BuildLocator)
    requires
        t.id is None,
        t.type_ is None,
        t.name is None,
        t.items@.len() == 0,
        no_criteria(l),
    ensures
        locator_text(t) == Seq::<char>::empty(),
        build_text(l) == "count:5"@,
{
    assert(locator_clauses(t) =~= Seq::<Seq<char>>::empty());
    reveal_strlit("count:");
    reveal_strlit("count:5");
    assert(decimal(5) =~= seq!['5']);
    assert(build_clauses(l) =~= seq!["count:"@ + decimal(5)]);
    assert(build_text(l) =~= "count:5"@);
}

/// With only a branch set, the branch clause follows the default count:
/// the branch `any` is written `branch:default:any`, any other branch `b` is
/// written `branch:b`.
pub proof fn lemma_branch_only_clauses(l: BuildLocator, b: String)
    requires
        l.id is None,
        l.user is None,
        l.build_type is None,
        l.count is None,
        l.personal is None,
        l.default_filter is None,
        l.branch == Some(b),
    ensures
        b@ == "any"@ ==> build_clauses(l) == seq!["count:5"@, "branch:default:any"@],
        b@ != "any"@ ==> build_clauses(l) == seq!["count:5"@, "branch:"@ + b@],
        b@ == "any"@ ==> build_text(l) == "count:5,branch:default:any"@,
        b@ != "any"@ ==> build_text(l) == "count:5,branch:"@ + b@,
{
    reveal_strlit("count:");
    reveal_strlit("count:5");
    reveal_strlit("branch:default:any");
    reveal_strlit("count:5,branch:default:any");
    reveal_strlit("count:5,branch:");
    reveal_strlit("branch:");
    assert(decimal(5) =~= seq!['5']);
    assert("count:"@ + decimal(5) =~= "count:5"@);
    let e = Seq::<Seq<char>>::empty();
    assert(opt_clause("defaultFilter:"@, opt_bool_text(l.default_filter)) =~= e);
    assert(opt_clause("personal:"@, opt_bool_text(l.personal)) =~= e);
    assert(opt_clause("id:"@, opt_id_text(l.id)) =~= e);
    assert(opt_clause("user:"@, opt_view(l.user)) =~= e);
    assert(opt_clause("buildType:"@, opt_filter_text(l.build_type)) =~= e);
    let two = build_clauses(l);
    assert(two =~= seq!["count:5"@] + branch_clause(l.branch));
    assert(two.drop_last() =~= seq!["count:5"@]);
    assert(two.drop_last().drop_last() =~= e);
    assert(joined(two.drop_last()) == "count:5"@);
    assert(build_text(l) == "count:5"@ + seq![','] + two.last());
    if b@ == "any"@ {
        assert(two =~= seq!["count:5"@, "branch:default:any"@]);
        assert(build_text(l) =~= "count:5,branch:default:any"@);
    } else {
        assert(two =~= seq!["count:5"@, "branch:"@ + b@]);
        assert(build_text(l) =~= "count:5,branch:"@ + b@);
    }
}

/// `t` stands in `s` at some position.
pub open spec fn occurs_in(t: Seq<char>, s: Seq<char>) -> bool {
    exists|i: int| 0 <= i && i + t.len() <= s.len() && #[trigger] s.subrange(i, i + t.len()) == t
}

/// Each clause stands in the joined text.
pub proof fn lemma_joined_contains(parts: Seq<Seq<char>>, k: int)
    requires
        0 <= k < parts.len(),
    ensures
        occurs_in(parts[k], joined(parts)),
    decreases parts.len(),
{
    let j = joined(parts);
    let t = parts[k];
    if parts.len() == 1 {
        assert(j.subrange(0int, 0int + t.len()) =~= t);
    } else if k == parts.len() - 1 {
        let w: int = joined(parts.drop_last()).len() as int + 1;
        assert(j.subrange(w, w + t.len()) =~= t);
    } else {
        let d = parts.drop_last();
        lemma_joined_contains(d, k);
        assert(d[k] == t);
        let i = choose|i: int| 0 <= i && i + t.len() <= joined(d).len() && #[trigger] joined(d).subrange(i, i + t.len()) == t;
        assert(j.subrange(i, i + t.len()) =~= joined(d).subrange(i, i + t.len()));
    }
}

/// The serialized locator always holds the count clause: `count:5` when no
/// count is set, `count:n` for a count `n`.
pub proof fn lemma_count_clause(l: BuildLocator)
    ensures
        occurs_in("count:"@ + decimal(effective_count(l.count)), build_text(l)),
        l.count is None ==> effective_count(l.count) == 5,
        l.count is None ==> occurs_in("count:5"@, build_text(l)),
{
    let cs = build_clauses(l);
    let pre = opt_clause("defaultFilter:"@, opt_bool_text(l.default_filter))
        + opt_clause("personal:"@, opt_bool_text(l.personal))
        + opt_clause("id:"@, opt_id_text(l.id))
        + opt_clause("user:"@, opt_view(l.user))
        + opt_clause("buildType:"@, opt_filter_text(l.build_type));
    let k = pre.len() as int;
    assert(cs[k] == "count:"@ + decimal(effective_count(l.count)));
    lemma_joined_contains(cs, k);
    reveal_strlit("count:");
    reveal_strlit("count:5");
    assert(decimal(5) =~= seq!['5']);
    assert("count:"@ + decimal(5) =~= "count:5"@);
}

/// A build-type clause whose texts hold no comma and no parenthesis.
pub open spec fn plain_filter(f: Option<BuildTypeFilter>) -> bool {
    match f {
        Some(BuildTypeFilter::Id(s)) => plain(s@),
        Some(BuildTypeFilter::Locator(l)) => plain_locator(l),
        None => true,
    }
}

/// The key, when the clause is present.
pub open spec fn opt_key(present: bool, key: Seq<char>) -> Seq<Seq<char>> {
    if present {
        seq![key]
    } else {
        Seq::empty()
    }
}

/// The keys of the clauses a locator sets, in emission order; `count` is
/// always among them.
pub open spec fn set_keys(l: BuildLocator) -> Seq<Seq<char>> {
    opt_key(l.default_filter is Some, "defaultFilter"@) + opt_key(l.personal is Some, "personal"@)
        + opt_key(l.id is Some, "id"@) + opt_key(l.user is Some, "user"@) + opt_key(
        l.build_type is Some,
        "buildType"@,
    ) + seq!["count"@] + opt_key(l.branch is Some, "branch"@)
}

pub open spec fn keys_of(cs: Seq<Seq<char>>) -> Seq<Seq<char>> {
    cs.map_values(|c: Seq<char>| clause_key(c))
}

proof fn lemma_piece(lit: Seq<char>, key: Seq<char>, v: Option<Seq<char>>)
    requires
        lit == key + seq![':'],
        plain(key),
        no_colon(key),
        v matches Some(x) ==> plain(x),
    ensures
        forall|i: int| 0 <= i < opt_clause(lit, v).len() ==> clean(#[trigger] opt_clause(lit, v)[i]),
        keys_of(opt_clause(lit, v)) == opt_key(v is Some, key),
{
    if let Some(x) = v {
        lemma_plain_clause(key, x);
        assert(lit + x == key + seq![':'] + x);
        assert(keys_of(opt_clause(lit, v)) =~= seq![key]);
    } else {
        assert(keys_of(opt_clause(lit, v)) =~= Seq::<Seq<char>>::empty());
    }
}

proof fn lemma_plain_bool(b: bool)
    ensures
        plain(bool_text(b)),
{
    reveal_strlit("true");
    reveal_strlit("false");
}

proof fn lemma_plain_number(i: int)
    ensures
        plain(signed_decimal(i)),
        i >= 0 ==> plain(decimal(i as nat)),
{
    if i >= 0 {
        lemma_decimal_digits(i as nat);
    } else {
        lemma_decimal_digits((-i) as nat);
        let s = signed_decimal(i);
        let d = decimal((-i) as nat);
        assert forall|k: int| 0 <= k < s.len() implies s[k] != ',' && s[k] != '(' && s[k] != ')' by {
            if k > 0 {
                assert(s[k] == d[k - 1]);
            }
        }
    }
}

proof fn lemma_key_literals()
    ensures
        "defaultFilter:"@ == "defaultFilter"@ + seq![':'],
        "personal:"@ == "personal"@ + seq![':'],
        "id:"@ == "id"@ + seq![':'],
        "user:"@ == "user"@ + seq![':'],
        "buildType:"@ == "buildType"@ + seq![':'],
        "count:"@ == "count"@ + seq![':'],
        "branch:"@ == "branch"@ + seq![':'],
        "branch:default:any"@ == "branch"@ + seq![':'] + "default:any"@,
        plain("defaultFilter"@) && no_colon("defaultFilter"@),
        plain("personal"@) && no_colon("personal"@),
        plain("id"@) && no_colon("id"@),
        plain("user"@) && no_colon("user"@),
        plain("buildType"@) && no_colon("buildType"@),
        plain("count"@) && no_colon("count"@),
        plain("branch"@) && no_colon("branch"@),
        plain("default:any"@),
{
    reveal_strlit("defaultFilter:");
    reveal_strlit("defaultFilter");
    reveal_strlit("personal:");
    reveal_strlit("personal");
    reveal_strlit("id:");
    reveal_strlit("id");
    reveal_strlit("user:");
    reveal_strlit("user");
    reveal_strlit("buildType:");
    reveal_strlit("buildType");
    reveal_strlit("count:");
    reveal_strlit("count");
    reveal_strlit("branch:");
    reveal_strlit("branch");
    reveal_strlit("branch:default:any");
    reveal_strlit("default:any");
    assert("defaultFilter:"@ =~= "defaultFilter"@ + seq![':']);
    assert("personal:"@ =~= "personal"@ + seq![':']);
    assert("id:"@ =~= "id"@ + seq![':']);
    assert("user:"@ =~= "user"@ + seq![':']);
    assert("buildType:"@ =~= "buildType"@ + seq![':']);
    assert("count:"@ =~= "count"@ + seq![':']);
    assert("branch:"@ =~= "branch"@ + seq![':']);
    assert("branch:default:any"@ =~= "branch"@ + seq![':'] + "default:any"@);
}

/// Each clause set before the build type is clean and has its key.
proof fn lemma_front_pieces(l: BuildLocator)
    requires
        plain_opt(l.user),
    ensures
        forall|i: int| 0 <= i < front_clauses(l).len() ==> clean(#[trigger] front_clauses(l)[i]),
        keys_of(front_clauses(l)) == opt_key(l.default_filter is Some, "defaultFilter"@) + opt_key(
            l.personal is Some,
            "personal"@,
        ) + opt_key(l.id is Some, "id"@) + opt_key(l.user is Some, "user"@),
{
    lemma_key_literals();
    let a = opt_clause("defaultFilter:"@, opt_bool_text(l.default_filter));
    let b = opt_clause("personal:"@, opt_bool_text(l.personal));
    let c = opt_clause("id:"@, opt_id_text(l.id));
    let d = opt_clause("user:"@, opt_view(l.user));
    if let Some(x) = l.default_filter {
        lemma_plain_bool(x);
    }
    lemma_piece("defaultFilter:"@, "defaultFilter"@, opt_bool_text(l.default_filter));
    if let Some(x) = l.personal {
        lemma_plain_bool(x);
    }
    lemma_piece("personal:"@, "personal"@, opt_bool_text(l.personal));
    if let Some(x) = l.id {
        lemma_plain_number(x as int);
    }
    lemma_piece("id:"@, "id"@, opt_id_text(l.id));
    lemma_piece("user:"@, "user"@, opt_view(l.user));
    let cs = front_clauses(l);
    assert forall|i: int| 0 <= i < cs.len() implies clean(#[trigger] cs[i]) by {
        let n1 = a.len() as int;
        let n2 = n1 + b.len();
        let n3 = n2 + c.len();
        if i < n1 {
            assert(cs[i] == a[i]);
        } else if i < n2 {
            assert(cs[i] == b[i - n1]);
        } else if i < n3 {
            assert(cs[i] == c[i - n2]);
        } else {
            assert(cs[i] == d[i - n3]);
        }
    }
    assert(keys_of(cs) =~= keys_of(a) + keys_of(b) + keys_of(c) + keys_of(d));
}

/// Each clause from the build type on is clean and has its key.
proof fn lemma_back_pieces(l: BuildLocator)
    requires
        plain_opt(l.branch),
        plain_filter(l.build_type),
    ensures
        forall|i: int| 0 <= i < back_clauses(l).len() ==> clean(#[trigger] back_clauses(l)[i]),
        keys_of(back_clauses(l)) == opt_key(l.build_type is Some, "buildType"@) + seq!["count"@]
            + opt_key(l.branch is Some, "branch"@),
{
    lemma_key_literals();
    reveal_strlit("(");
    reveal_strlit(")");
    let e = opt_clause("buildType:"@, opt_filter_text(l.build_type));
    let f = seq!["count:"@ + decimal(effective_count(l.count))];
    let g = branch_clause(l.branch);
    match l.build_type {
        Some(BuildTypeFilter::Locator(t)) => {
            lemma_locator_nested(t);
            lemma_wrapped_clause("buildType"@, locator_text(t));
            assert("("@ + locator_text(t) + ")"@ =~= seq!['('] + locator_text(t) + seq![')']);
            assert(e[0] == "buildType"@ + seq![':'] + (seq!['('] + locator_text(t) + seq![')']));
            assert(keys_of(e) =~= seq!["buildType"@]);
        },
        _ => {
            lemma_piece("buildType:"@, "buildType"@, opt_filter_text(l.build_type));
        },
    }
    lemma_plain_number(effective_count(l.count) as int);
    lemma_plain_clause("count"@, decimal(effective_count(l.count)));
    assert(keys_of(f) =~= seq!["count"@]);
    match l.branch {
        Some(br) => {
            if br@ == "any"@ {
                lemma_plain_clause("branch"@, "default:any"@);
            } else {
                lemma_plain_clause("branch"@, br@);
            }
            assert(keys_of(g) =~= seq!["branch"@]);
        },
        None => {
            assert(keys_of(g) =~= Seq::<Seq<char>>::empty());
        },
    }
    let cs = back_clauses(l);
    assert forall|i: int| 0 <= i < cs.len() implies clean(#[trigger] cs[i]) by {
        let n1 = e.len() as int;
        if i < n1 {
            assert(cs[i] == e[i]);
        } else if i == n1 {
            assert(cs[i] == f[0]);
        } else {
            assert(cs[i] == g[i - n1 - 1]);
        }
    }
    assert(keys_of(cs) =~= keys_of(e) + keys_of(f) + keys_of(g));
}

pub open spec fn front_clauses(l: BuildLocator) -> Seq<Seq<char>> {
    opt_clause("defaultFilter:"@, opt_bool_text(l.default_filter))
        + opt_clause("personal:"@, opt_bool_text(l.personal))
        + opt_clause("id:"@, opt_id_text(l.id))
        + opt_clause("user:"@, opt_view(l.user))
}

pub open spec fn back_clauses(l: BuildLocator) -> Seq<Seq<char>> {
    opt_clause("buildType:"@, opt_filter_text(l.build_type))
        + seq!["count:"@ + decimal(effective_count(l.count))]
        + branch_clause(l.branch)
}

/// Splitting the serialized locator at its top-level commas gives back its
/// clauses, so reading the keys back recovers exactly the keys of the
/// clauses that were set (with the implicit count), in order. This holds
/// when the texts the locator carries hold no comma and no parenthesis.
#[verifier::rlimit(60)]
pub proof fn lemma_round_trip(l: BuildLocator)
    requires
        plain_opt(l.user),
        plain_opt(l.branch),
        plain_filter(l.build_type),
    ensures
        split_clauses(build_text(l)) == build_clauses(l),
        keys_of(split_clauses(build_text(l))) == set_keys(l),
{
    lemma_front_pieces(l);
    lemma_back_pieces(l);
    let fr = front_clauses(l);
    let bk = back_clauses(l);
    let cs = build_clauses(l);
    assert(cs =~= fr + bk);
    assert forall|i: int| 0 <= i < cs.len() implies clean(#[trigger] cs[i]) by {
        if i < fr.len() {
            assert(cs[i] == fr[i]);
        } else {
            assert(cs[i] == bk[i - fr.len()]);
        }
    }
    lemma_split_joined(cs);
    assert(keys_of(cs) =~= keys_of(fr) + keys_of(bk));
    assert(keys_of(cs) =~= set_keys(l));
}

} // verus!
