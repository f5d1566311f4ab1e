//! The build-type locator: a filter over CI pipeline definitions, written in
//! the CI server's locator language.
use vstd::prelude::*;

use crate::clauses::{lemma_joined_nested, lemma_plain_clean, lemma_plain_concat, lemma_wrapped_nested, nested, plain};
use crate::text::{join_commas, joined};

verus! {

/// Criteria that select build types. Absent criteria are left out of the
/// serialized form; each item is a nested locator, any of which may match.
pub struct BuildTypeLocator {
    pub id: Option<String>,
    pub type_: Option<String>,
    pub name: Option<String>,
    pub items: Vec<BuildTypeLocator>,
}

/// One clause `key` + `value` when the value is present, none otherwise.
pub open spec fn opt_clause(key: Seq<char>, value: Option<Seq<char>>) -> Seq<Seq<char>> {
    match value {
        Some(v) => seq![key + v],
        None => Seq::empty(),
    }
}

pub open spec fn opt_view(o: Option<String>) -> Option<Seq<char>> {
    match o {
        Some(s) => Some(s@),
        None => None,
    }
}

/// The `item:(...)` clauses of a sequence of nested locators, in order.
pub open spec fn item_clauses(items: Seq<BuildTypeLocator>) -> Seq<Seq<char>>
    decreases items,
{
    if items.len() == 0 {
        Seq::empty()
    } else {
        item_clauses(items.subrange(0, items.len() - 1)).push(
            "item:("@ + locator_text(items[items.len() - 1]) + ")"@,
        )
    }
}

/// The clauses of a build-type locator, in emission order: `id`, `type`,
/// `name`, then one `item:(...)` per nested locator.
pub open spec fn locator_clauses(l: BuildTypeLocator) -> Seq<Seq<char>>
    decreases l, 0nat,
{
    opt_clause("id:"@, opt_view(l.id)) + opt_clause("type:"@, opt_view(l.type_)) + opt_clause(
        "name:"@,
        opt_view(l.name),
    ) + item_clauses(l.items@)
}

/// The serialized build-type locator: its clauses joined by commas.
pub open spec fn locator_text(l: BuildTypeLocator) -> Seq<char>
    decreases l, 1nat,
{
    joined(locator_clauses(l))
}

/// An optional text that is plain when present.
pub open spec fn plain_opt(o: Option<String>) -> bool {
    match o {
        Some(s) => plain(s@),
        None => true,
    }
}

/// A locator whose texts, at every level, hold no comma and no parenthesis.
pub open spec fn plain_locator(l: BuildTypeLocator) -> bool
    decreases l,
{
    &&& plain_opt(l.id)
    &&& plain_opt(l.type_)
    &&& plain_opt(l.name)
    &&& forall|i: int| 0 <= i < l.items@.len() ==> plain_locator(#[trigger] l.items@[i])
}

proof fn lemma_opt_clause_nested(key: Seq<char>, o: Option<String>)
    requires
        plain(key),
        plain_opt(o),
    ensures
        forall|i: int| 0 <= i < opt_clause(key, opt_view(o)).len() ==> nested(
            #[trigger] opt_clause(key, opt_view(o))[i],
        ),
{
    if let Some(v) = o {
        lemma_plain_concat(key, v@);
        lemma_plain_clean(key + v@);
    }
}

proof fn lemma_items_nested(items: Seq<BuildTypeLocator>)
    requires
        forall|i: int| 0 <= i < items.len() ==> plain_locator(#[trigger] items[i]),
    ensures
        forall|i: int| 0 <= i < item_clauses(items).len() ==> nested(#[trigger] item_clauses(items)[i]),
    decreases items,
{
    if items.len() > 0 {
        let init = items.subrange(0, items.len() - 1);
        let last = items[items.len() - 1];
        assert forall|i: int| 0 <= i < init.len() implies plain_locator(#[trigger] init[i]) by {
            assert(init[i] == items[i]);
        }
        lemma_items_nested(init);
        lemma_locator_nested(last);
        reveal_strlit("item:(");
        reveal_strlit("item:");
        reveal_strlit(")");
        assert(plain("item:"@));
        lemma_wrapped_nested("item:"@, locator_text(last));
        let cl = "item:("@ + locator_text(last) + ")"@;
        assert(cl =~= "item:"@ + seq!['('] + locator_text(last) + seq![')']);
        let prev = item_clauses(init);
        let ic = item_clauses(items);
        assert(ic == prev.push(cl));
        assert forall|i: int| 0 <= i < ic.len() implies nested(#[trigger] ic[i]) by {
            if i < prev.len() {
                assert(ic[i] == prev[i]);
            }
        }
    }
}

/// A plain locator serializes to a nested text: balanced, never closing
/// more than it opened.
pub proof fn lemma_locator_nested(l: BuildTypeLocator)
    requires
        plain_locator(l),
    ensures
        nested(locator_text(l)),
    decreases l,
{
    reveal_strlit("id:");
    reveal_strlit("type:");
    reveal_strlit("name:");
    assert(plain("id:"@));
    assert(plain("type:"@));
    assert(plain("name:"@));
    lemma_opt_clause_nested("id:"@, l.id);
    lemma_opt_clause_nested("type:"@, l.type_);
    lemma_opt_clause_nested("name:"@, l.name);
    assert forall|i: int| 0 <= i < l.items@.len() implies plain_locator(#[trigger] l.items@[i]) by {}
    lemma_items_nested(l.items@);
    let a = opt_clause("id:"@, opt_view(l.id));
    let b = opt_clause("type:"@, opt_view(l.type_));
    let c = opt_clause("name:"@, opt_view(l.name));
    let d = item_clauses(l.items@);
    let cs = locator_clauses(l);
    assert(cs == a + b + c + d);
    assert forall|i: int| 0 <= i < cs.len() implies nested(#[trigger] cs[i]) by {
        if i < a.len() {
            assert(cs[i] == a[i]);
        } else if i < a.len() + b.len() {
            assert(cs[i] == b[i - a.len()]);
        } else if i < a.len() + b.len() + c.len() {
            assert(cs[i] == c[i - a.len() - b.len()]);
        } else {
            assert(cs[i] == d[i - a.len() - b.len() - c.len()]);
        }
    }
    lemma_joined_nested(cs);
}

/// A locator of one build type by identifier, with no other criteria.
pub open spec fn is_id_locator(l: BuildTypeLocator, id: Seq<char>) -> bool {
    &&& l.id matches Some(x) && x@ == id
    &&& l.type_ is None
    &&& l.name is None
    &&& l.items@.len() == 0
}

/// The clause of one candidate build type.
pub open spec fn candidate_clause(id: Seq<char>) -> Seq<char> {
    "item:("@ + ("id:"@ + id) + ")"@
}

proof fn lemma_candidate_items(items: Seq<BuildTypeLocator>, ids: Seq<Seq<char>>)
    requires
        items.len() == ids.len(),
        forall|k: int| 0 <= k < items.len() ==> is_id_locator(#[trigger] items[k], ids[k]),
    ensures
        item_clauses(items) == ids.map_values(|id: Seq<char>| candidate_clause(id)),
    decreases items.len(),
{
    if items.len() > 0 {
        let n = items.len() - 1;
        let init = items.subrange(0, n);
        assert forall|k: int| 0 <= k < init.len() implies is_id_locator(#[trigger] init[k], ids.subrange(0, n)[k]) by {
            assert(init[k] == items[k]);
        }
        lemma_candidate_items(init, ids.subrange(0, n));
        let last = items[n];
        assert(is_id_locator(last, ids[n]));
        assert(locator_clauses(last) =~= seq!["id:"@ + ids[n]]);
        assert(locator_text(last) == "id:"@ + ids[n]);
        assert(ids.map_values(|id: Seq<char>| candidate_clause(id)) =~= ids.subrange(0, n).map_values(
            |id: Seq<char>| candidate_clause(id),
        ).push(candidate_clause(ids[n])));
    } else {
        assert(ids.map_values(|id: Seq<char>| candidate_clause(id)) =~= Seq::<Seq<char>>::empty());
    }
}

/// A locator of candidate build types serializes to one
/// `item:(id:...)` clause per identifier, in the order given.
pub proof fn lemma_candidates_text(l: BuildTypeLocator, ids: Seq<Seq<char>>)
    requires
        l.id is None,
        l.type_ is None,
        l.name is None,
        l.items@.len() == ids.len(),
        forall|k: int| 0 <= k < ids.len() ==> is_id_locator(#[trigger] l.items@[k], ids[k]),
    ensures
        locator_text(l) == joined(ids.map_values(|id: Seq<char>| candidate_clause(id))),
{
    lemma_candidate_items(l.items@, ids);
    assert(locator_clauses(l) =~= item_clauses(l.items@));
}

/// The clause `key` + `value`, as a new string.
fn clause(key: &str, value: &str) -> (r: String)
    ensures
        r@ == key@ + value@,
{
    let mut c = String::new();
    c.append(key);
    c.append(value);
    c
}

pub open spec fn views(v: Seq<String>) -> Seq<Seq<char>> {
    v.map_values(|p: String| p@)
}

/// Appends the clause for an optional value.
fn push_opt_clause(parts: &mut Vec<String>, key: &str, value: &Option<String>)
    ensures
        views(final(parts)@) == views(old(parts)@) + opt_clause(key@, opt_view(*value)),
{
    match value {
        Some(v) => {
            parts.push(clause(key, v.as_str()));
            assert(views(final(parts)@) =~= views(old(parts)@) + opt_clause(key@, opt_view(*value)));
        },
        None => {
            assert(views(final(parts)@) =~= views(old(parts)@) + opt_clause(key@, opt_view(*value)));
        },
    }
}

impl BuildTypeLocator {
    /// A locator with no criteria.
    pub fn new() -> (r: Self)
        ensures
            r.id is None,
            r.type_ is None,
            r.name is None,
            r.items@.len() == 0,
    {
        BuildTypeLocator { id: None, type_: None, name: None, items: Vec::new() }
    }

    /// Regular builds named `Build`.
    pub fn only_builds() -> (r: Self)
        ensures
            r.id is None,
            r.type_ matches Some(t) && t@ == "regular"@,
            r.name matches Some(n) && n@ == "Build"@,
            r.items@.len() == 0,
    {
        let mut t = String::new();
        t.append("regular");
        let mut n = String::new();
        n.append("Build");
        BuildTypeLocator { id: None, type_: Some(t), name: Some(n), items: Vec::new() }
    }

    /// Build types of the deployment kind.
    pub fn only_deploys() -> (r: Self)
        ensures
            r.id is None,
            r.type_ matches Some(t) && t@ == "deployment"@,
            r.name is None,
            r.items@.len() == 0,
    {
        let mut t = String::new();
        t.append("deployment");
        BuildTypeLocator { id: None, type_: Some(t), name: None, items: Vec::new() }
    }

    /// A locator that matches any of the given build-type identifiers, one
    /// nested `id` locator per identifier, in order.
    pub fn from_ids(ids: &Vec<String>) -> (r: Self)
        ensures
            r.id is None,
            r.type_ is None,
            r.name is None,
            r.items@.len() == ids@.len(),
            forall|k: int| 0 <= k < ids@.len() ==> {
                &&& (#[trigger] r.items@[k]).id matches Some(x) && x@ == ids@[k]@
                &&& r.items@[k].type_ is None
                &&& r.items@[k].name is None
                &&& r.items@[k].items@.len() == 0
            },
    {
        let mut items: Vec<BuildTypeLocator> = Vec::new();
        let mut i: usize = 0;
        while i < ids.len()
            invariant
                i <= ids@.len(),
                items@.len() == i,
                forall|k: int| 0 <= k < i ==> {
                    &&& (#[trigger] items@[k]).id matches Some(x) && x@ == ids@[k]@
                    &&& items@[k].type_ is None
                    &&& items@[k].name is None
                    &&& items@[k].items@.len() == 0
                },
            decreases ids@.len() - i,
        {
            let mut id = String::new();
            id.append(ids[i].as_str());
            items.push(BuildTypeLocator { id: Some(id), type_: None, name: None, items: Vec::new() });
            i = i + 1;
        }
        BuildTypeLocator { id: None, type_: None, name: None, items }
    }

    /// The locator in the CI server's query language.
    pub fn to_string(&self) -> (r: String)
        ensures
            r@ == locator_text(*self),
        decreases self,
    {
        let mut parts: Vec<String> = Vec::new();
        push_opt_clause(&mut parts, "id:", &self.id);
        push_opt_clause(&mut parts, "type:", &self.type_);
        push_opt_clause(&mut parts, "name:", &self.name);
        let ghost base = views(parts@);
        assert(base =~= opt_clause("id:"@, opt_view(self.id)) + opt_clause("type:"@, opt_view(self.type_)) + opt_clause("name:"@, opt_view(self.name)));
        let mut i: usize = 0;
        assert(self.items@.subrange(0, 0) =~= Seq::<BuildTypeLocator>::empty());
        assert(base + item_clauses(self.items@.subrange(0, 0)) =~= base);
        while i < self.items.len()
            invariant
                i <= self.items@.len(),
                views(parts@) == base + item_clauses(self.items@.subrange(0, i as int)),
            decreases self.items@.len() - i,
        {
            let inner = self.items[i].to_string();
            let mut c = String::new();
            c.append("item:(");
            c.append(inner.as_str());
            c.append(")");
            let ghost prev = parts@;
            parts.push(c);
            proof {
                let sub = self.items@.subrange(0, i + 1);
                assert(sub.subrange(0, sub.len() - 1) =~= self.items@.subrange(0, i as int));
                assert(sub[sub.len() - 1] == self.items@[i as int]);
                assert(views(parts@) =~= views(prev).push(c@));
            }
            i = i + 1;
        }
        assert(self.items@.subrange(0, self.items@.len() as int) =~= self.items@);
        join_commas(&parts)
    }

    /// The locator wrapped in parentheses, as it stands when nested in
    /// another locator.
    pub fn to_nested(&self) -> (r: String)
        ensures
            r@ == "("@ + locator_text(*self) + ")"@,
    {
        let mut r = String::new();
        r.append("(");
        let inner = self.to_string();
        r.append(inner.as_str());
        r.append(")");
        r
    }
}

} // verus!
