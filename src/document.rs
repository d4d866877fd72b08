//! The configuration document: a tree of plain values, and how conditions
//! and actions are read from it.
//!
//! A condition is a table with a single entry whose key names its kind:
//! `And` and `Or` hold an array of conditions, `Not` holds one condition,
//! `HasLabels` holds an array of label names, and `IsIssue` and
//! `IsPullRequest` hold an empty array. An action is a table with a single
//! entry `Log` that holds a table.
use vstd::prelude::*;
use vstd::string::*;

use crate::actions::{Action, Log};
use crate::actions::views_of;
use crate::conditions::{And, Condition, HasLabels, IsIssue, IsPullRequest, Not, Or};

verus! {

broadcast use vstd::std_specs::vec::group_vec_axioms;

/// A value of the configuration document.
#[derive(Debug)]
pub enum ConfigValue {
    Nil,
    Bool(bool),
    Int(i64),
    Str(String),
    Array(Vec<ConfigValue>),
    Table(Vec<Entry>),
}

/// One key and its value in a table.
#[derive(Debug)]
pub struct Entry {
    pub key: String,
    pub value: ConfigValue,
}

/// Why a configuration document was refused.
#[derive(Debug)]
pub enum ConfigError {
    /// A tag that names no condition or action kind.
    UnknownTag(String),
    /// A value whose shape is not the one its place calls for; the text
    /// names what was expected.
    WrongShape(String),
    /// A required field is absent.
    MissingField(String),
}

/// `v` is a table with exactly one entry, keyed `tag`.
pub open spec fn is_tagged(v: &ConfigValue, tag: Seq<char>) -> bool {
    v is Table && v->Table_0.len() == 1 && v->Table_0[0].key@ == tag
}

/// The value under the single entry of a tagged table.
pub open spec fn tagged_body(v: &ConfigValue) -> &ConfigValue {
    &v->Table_0[0].value
}

/// `v` is an array of exactly the strings `names`.
pub open spec fn is_name_list(v: &ConfigValue, names: Seq<String>) -> bool {
    v is Array && v->Array_0.len() == names.len() && forall|i: int|
        0 <= i < names.len() ==> {
            let item = #[trigger] v->Array_0[i];
            item is Str && item->Str_0@ == names[i]@
        }
}

/// The kind names a condition table may carry.
pub open spec fn is_condition_tag(k: Seq<char>) -> bool {
    k == "And"@ || k == "Or"@ || k == "Not"@ || k == "HasLabels"@ || k == "IsIssue"@ || k
        == "IsPullRequest"@
}

/// The document `v` describes the condition `c`.
pub open spec fn describes(v: &ConfigValue, c: &Condition) -> bool
    decreases v, 0int,
{
    if v is Table && v->Table_0.len() == 1 {
        let b = &v->Table_0[0].value;
        let k = v->Table_0[0].key@;
        match c {
            Condition::And(a) => k == "And"@ && b is Array && b->Array_0.len() == a.0.len()
                && describe_all_from(&b->Array_0, &a.0, 0),
            Condition::Or(o) => k == "Or"@ && b is Array && b->Array_0.len() == o.0.len()
                && describe_all_from(&b->Array_0, &o.0, 0),
            Condition::Not(n) => k == "Not"@ && describes(b, &*n.0),
            Condition::HasLabels(h) => k == "HasLabels"@ && is_name_list(b, h.0@),
            Condition::IsIssue(_) => k == "IsIssue"@ && b is Array && b->Array_0.len() == 0,
            Condition::IsPullRequest(_) => k == "IsPullRequest"@ && b is Array && b->Array_0.len()
                == 0,
        }
    } else {
        false
    }
}

/// From index `i` on, each document of `vs` describes the condition of `cs`
/// at the same index.
pub open spec fn describe_all_from(vs: &Vec<ConfigValue>, cs: &Vec<Condition>, i: int) -> bool
    decreases vs, vs.len() - i,
{
    if 0 <= i < vs.len() {
        i < cs.len() && describes(&vs[i], &cs[i]) && describe_all_from(vs, cs, i + 1)
    } else {
        true
    }
}

/// `v` describes some condition.
pub open spec fn is_condition_doc(v: &ConfigValue) -> bool {
    exists|c: Condition| describes(v, &c)
}

/// Compares a key with a literal.
fn key_is(k: &String, lit: &str) -> (r: bool)
    ensures
        r == (k@ == lit@),
{
    *k == String::from_str(lit)
}

/// Reads an array of label names.
#[verifier::loop_isolation(false)]
fn parse_names(v: &ConfigValue) -> (r: Result<Vec<String>, ConfigError>)
    ensures
        r is Ok <==> exists|names: Seq<String>| is_name_list(v, names),
        r matches Ok(names) ==> is_name_list(v, names@),
{
    match v {
        ConfigValue::Array(items) => {
            let mut names: Vec<String> = Vec::new();
            let mut i: usize = 0;
            while i < items.len()
                invariant
                    i <= items.len(),
                    names.len() == i,
                    forall|j: int| 0 <= j < i ==> {
                        let item = #[trigger] items@[j];
                        item is Str && item->Str_0@ == names@[j]@
                    },
                decreases items.len() - i,
            {
                match &items[i] {
                    ConfigValue::Str(s) => names.push(s.clone()),
                    _ => {
                        proof {
                            assert forall|ns: Seq<String>| !is_name_list(v, ns) by {
                                if is_name_list(v, ns) {
                                    assert(v->Array_0[i as int] is Str);
                                }
                            }
                        }
                        return Err(ConfigError::WrongShape(String::from_str("a label name")));
                    },
                }
                i += 1;
            }
            assert(is_name_list(v, names@));
            Ok(names)
        },
        _ => Err(ConfigError::WrongShape(String::from_str("a list of label names"))),
    }
}

/// `v` is an array of documents describing `cs`, one by one.
pub open spec fn describes_list(v: &ConfigValue, cs: &Vec<Condition>) -> bool {
    v is Array && v->Array_0.len() == cs.len() && describe_all_from(&v->Array_0, cs, 0)
}

/// `describe_all_from` is the statement over each remaining index.
pub proof fn lemma_describe_all_from(vs: &Vec<ConfigValue>, cs: &Vec<Condition>, i: int)
    requires
        0 <= i,
        vs.len() == cs.len(),
    ensures
        describe_all_from(vs, cs, i) == (forall|j: int| i <= j < vs.len() ==> describes(#[trigger] &vs[j], &cs[j])),
    decreases vs.len() - i,
{
    if i < vs.len() {
        lemma_describe_all_from(vs, cs, i + 1);
        if describe_all_from(vs, cs, i) {
            assert forall|j: int| i <= j < vs.len() implies describes(#[trigger] &vs[j], &cs[j]) by {
                if j > i {
                    assert(i + 1 <= j < vs.len());
                }
            }
        }
        if forall|j: int| i <= j < vs.len() ==> describes(#[trigger] &vs[j], &cs[j]) {
            assert(describes(&vs[i], &cs[i]));
        }
    }
}

/// The kind names of conditions are pairwise distinct.
proof fn lemma_condition_tags_distinct()
    ensures
        "And"@ != "Or"@,
        "And"@ != "Not"@,
        "And"@ != "HasLabels"@,
        "And"@ != "IsIssue"@,
        "And"@ != "IsPullRequest"@,
        "Or"@ != "Not"@,
        "Or"@ != "HasLabels"@,
        "Or"@ != "IsIssue"@,
        "Or"@ != "IsPullRequest"@,
        "Not"@ != "HasLabels"@,
        "Not"@ != "IsIssue"@,
        "Not"@ != "IsPullRequest"@,
        "HasLabels"@ != "IsIssue"@,
        "HasLabels"@ != "IsPullRequest"@,
        "IsIssue"@ != "IsPullRequest"@,
{
    reveal_strlit("And");
    reveal_strlit("Or");
    reveal_strlit("Not");
    reveal_strlit("HasLabels");
    reveal_strlit("IsIssue");
    reveal_strlit("IsPullRequest");
    assert("And"@.len() != "Or"@.len() || "And"@[0] != "Or"@[0] || "And"@[1] != "Or"@[1] || "And"@[2] != "Or"@[2]);
    assert("And"@.len() != "Not"@.len() || "And"@[0] != "Not"@[0] || "And"@[1] != "Not"@[1] || "And"@[2] != "Not"@[2]);
    assert("And"@.len() != "HasLabels"@.len() || "And"@[0] != "HasLabels"@[0] || "And"@[1] != "HasLabels"@[1] || "And"@[2] != "HasLabels"@[2]);
    assert("And"@.len() != "IsIssue"@.len() || "And"@[0] != "IsIssue"@[0] || "And"@[1] != "IsIssue"@[1] || "And"@[2] != "IsIssue"@[2]);
    assert("And"@.len() != "IsPullRequest"@.len() || "And"@[0] != "IsPullRequest"@[0] || "And"@[1] != "IsPullRequest"@[1] || "And"@[2] != "IsPullRequest"@[2]);
    assert("Or"@.len() != "Not"@.len() || "Or"@[0] != "Not"@[0] || "Or"@[1] != "Not"@[1] || "Or"@[2] != "Not"@[2]);
    assert("Or"@.len() != "HasLabels"@.len() || "Or"@[0] != "HasLabels"@[0] || "Or"@[1] != "HasLabels"@[1] || "Or"@[2] != "HasLabels"@[2]);
    assert("Or"@.len() != "IsIssue"@.len() || "Or"@[0] != "IsIssue"@[0] || "Or"@[1] != "IsIssue"@[1] || "Or"@[2] != "IsIssue"@[2]);
    assert("Or"@.len() != "IsPullRequest"@.len() || "Or"@[0] != "IsPullRequest"@[0] || "Or"@[1] != "IsPullRequest"@[1] || "Or"@[2] != "IsPullRequest"@[2]);
    assert("Not"@.len() != "HasLabels"@.len() || "Not"@[0] != "HasLabels"@[0] || "Not"@[1] != "HasLabels"@[1] || "Not"@[2] != "HasLabels"@[2]);
    assert("Not"@.len() != "IsIssue"@.len() || "Not"@[0] != "IsIssue"@[0] || "Not"@[1] != "IsIssue"@[1] || "Not"@[2] != "IsIssue"@[2]);
    assert("Not"@.len() != "IsPullRequest"@.len() || "Not"@[0] != "IsPullRequest"@[0] || "Not"@[1] != "IsPullRequest"@[1] || "Not"@[2] != "IsPullRequest"@[2]);
    assert("HasLabels"@.len() != "IsIssue"@.len() || "HasLabels"@[0] != "IsIssue"@[0] || "HasLabels"@[1] != "IsIssue"@[1] || "HasLabels"@[2] != "IsIssue"@[2]);
    assert("HasLabels"@.len() != "IsPullRequest"@.len() || "HasLabels"@[0] != "IsPullRequest"@[0] || "HasLabels"@[1] != "IsPullRequest"@[1] || "HasLabels"@[2] != "IsPullRequest"@[2]);
    assert("IsIssue"@.len() != "IsPullRequest"@.len() || "IsIssue"@[0] != "IsPullRequest"@[0] || "IsIssue"@[1] != "IsPullRequest"@[1] || "IsIssue"@[2] != "IsPullRequest"@[2]);
}

/// Reads a condition.
pub fn parse_condition(v: &ConfigValue) -> (r: Result<Condition, ConfigError>)
    ensures
        r is Ok <==> is_condition_doc(v),
        r matches Ok(c) ==> describes(v, &c),
        !(v is Table && v->Table_0.len() == 1) ==> r matches Err(ConfigError::WrongShape(_)),
        v is Table && v->Table_0.len() == 1 && !is_condition_tag(v->Table_0[0].key@) ==> (r matches Err(
            ConfigError::UnknownTag(t),
        ) && t@ == v->Table_0[0].key@),
    decreases v, 0int,
{
    let entries = match v {
        ConfigValue::Table(es) => es,
        _ => {
            return Err(ConfigError::WrongShape(String::from_str("a table naming one condition kind")));
        },
    };
    if entries.len() != 1 {
        return Err(ConfigError::WrongShape(String::from_str("a table naming one condition kind")));
    }
    let key = &entries[0].key;
    let body = &entries[0].value;
    proof {
        lemma_condition_tags_distinct();
    }
    let and = key_is(key, "And");
    if and || key_is(key, "Or") {
        match parse_condition_list(body) {
            Ok(children) => {
                if and {
                    let c = Condition::And(And(children));
                    assert(describes(v, &c));
                    Ok(c)
                } else {
                    let c = Condition::Or(Or(children));
                    assert(describes(v, &c));
                    Ok(c)
                }
            },
            Err(e) => {
                proof {
                    assert forall|c: Condition| !describes(v, &c) by {
                        match c {
                            Condition::And(a) => assert(!describes_list(body, &a.0)),
                            Condition::Or(o) => assert(!describes_list(body, &o.0)),
                            _ => {},
                        }
                    }
                }
                Err(e)
            },
        }
    } else if key_is(key, "Not") {
        match parse_condition(body) {
            Ok(inner) => {
                let c = Condition::Not(Not(Box::new(inner)));
                assert(describes(v, &c));
                Ok(c)
            },
            Err(e) => {
                proof {
                    assert forall|c: Condition| !describes(v, &c) by {
                        match c {
                            Condition::Not(n) => assert(!describes(body, &*n.0)),
                            _ => {},
                        }
                    }
                }
                Err(e)
            },
        }
    } else if key_is(key, "HasLabels") {
        match parse_names(body) {
            Ok(names) => {
                let c = Condition::HasLabels(HasLabels(names));
                assert(describes(v, &c));
                Ok(c)
            },
            Err(e) => {
                proof {
                    assert forall|c: Condition| !describes(v, &c) by {
                        match c {
                            Condition::HasLabels(h) => assert(!is_name_list(body, h.0@)),
                            _ => {},
                        }
                    }
                }
                Err(e)
            },
        }
    } else if key_is(key, "IsIssue") || key_is(key, "IsPullRequest") {
        let empty = match body {
            ConfigValue::Array(items) => items.len() == 0,
            _ => false,
        };
        if !empty {
            return Err(ConfigError::WrongShape(String::from_str("an empty list")));
        }
        if key_is(key, "IsIssue") {
            let c = Condition::IsIssue(IsIssue());
            assert(describes(v, &c));
            Ok(c)
        } else {
            let c = Condition::IsPullRequest(IsPullRequest());
            assert(describes(v, &c));
            Ok(c)
        }
    } else {
        Err(ConfigError::UnknownTag(key.clone()))
    }
}

/// Reads an array of conditions.
pub fn parse_condition_list(v: &ConfigValue) -> (r: Result<Vec<Condition>, ConfigError>)
    ensures
        r matches Ok(cs) ==> describes_list(v, &cs),
        r is Err ==> forall|cs: Vec<Condition>| !describes_list(v, &cs),
        !(v is Array) ==> r matches Err(ConfigError::WrongShape(_)),
    decreases v, 1int,
{
    match v {
        ConfigValue::Array(items) => {
            let mut cs: Vec<Condition> = Vec::new();
            let mut i: usize = 0;
            while i < items.len()
                invariant
                    *v == ConfigValue::Array(*items),
                    i <= items.len(),
                    cs.len() == i,
                    forall|j: int| 0 <= j < i ==> describes(#[trigger] &items[j], &cs[j]),
                decreases items.len() - i,
            {
                proof {
                    assert(decreases_to!(*items => items[i as int]));
                    assert(decreases_to!(v => v->Array_0));
                }
                match parse_condition(&items[i]) {
                    Ok(c) => {
                        cs.push(c);
                    },
                    Err(e) => {
                        proof {
                            assert forall|other: Vec<Condition>| !describes_list(v, &other) by {
                                if describes_list(v, &other) {
                                    lemma_describe_all_from(items, &other, 0);
                                    assert(describes(&items[i as int], &other[i as int]));
                                }
                            }
                        }
                        return Err(e);
                    },
                }
                i += 1;
            }
            proof {
                lemma_describe_all_from(items, &cs, 0);
            }
            Ok(cs)
        },
        _ => Err(ConfigError::WrongShape(String::from_str("a list of conditions"))),
    }
}

/// `a` and `b` are the same tree: the same kind at each node, the same
/// children in the same order, and the same label names.
pub open spec fn same_tree(a: &Condition, b: &Condition) -> bool
    decreases a, 0int,
{
    match (a, b) {
        (Condition::And(x), Condition::And(y)) => x.0.len() == y.0.len() && same_all_from(&x.0, &y.0, 0),
        (Condition::Or(x), Condition::Or(y)) => x.0.len() == y.0.len() && same_all_from(&x.0, &y.0, 0),
        (Condition::Not(x), Condition::Not(y)) => same_tree(&*x.0, &*y.0),
        (Condition::HasLabels(x), Condition::HasLabels(y)) => views_of(x.0@) == views_of(y.0@),
        (Condition::IsIssue(_), Condition::IsIssue(_)) => true,
        (Condition::IsPullRequest(_), Condition::IsPullRequest(_)) => true,
        _ => false,
    }
}

/// From index `i` on, the trees of `xs` and `ys` are pairwise the same.
pub open spec fn same_all_from(xs: &Vec<Condition>, ys: &Vec<Condition>, i: int) -> bool
    decreases xs, xs.len() - i,
{
    if 0 <= i < xs.len() {
        i < ys.len() && same_tree(&xs[i], &ys[i]) && same_all_from(xs, ys, i + 1)
    } else {
        true
    }
}

/// A document describes at most one tree: reading a condition back from the
/// document of a condition gives the same tree.
pub proof fn lemma_round_trip(v: &ConfigValue, c1: &Condition, c2: &Condition)
    requires
        describes(v, c1),
        describes(v, c2),
    ensures
        same_tree(c1, c2),
    decreases v, 0int,
{
    lemma_condition_tags_distinct();
    let b = &v->Table_0[0].value;
    assert(decreases_to!(v => v->Table_0));
    assert(decreases_to!(v->Table_0 => v->Table_0[0]));
    match (c1, c2) {
        (Condition::And(x), Condition::And(y)) => {
            assert(decreases_to!(b => b->Array_0));
            lemma_round_trip_from(&b->Array_0, &x.0, &y.0, 0);
        },
        (Condition::Or(x), Condition::Or(y)) => {
            assert(decreases_to!(b => b->Array_0));
            lemma_round_trip_from(&b->Array_0, &x.0, &y.0, 0);
        },
        (Condition::Not(x), Condition::Not(y)) => {
            lemma_round_trip(b, &*x.0, &*y.0);
        },
        (Condition::HasLabels(x), Condition::HasLabels(y)) => {
            assert(views_of(x.0@) =~= views_of(y.0@)) by {
                assert forall|i: int| 0 <= i < x.0.len() implies views_of(x.0@)[i] == views_of(y.0@)[i] by {
                    assert(b->Array_0[i]->Str_0@ == x.0@[i]@);
                }
            }
        },
        _ => {},
    }
}

/// The list form of `lemma_round_trip`.
pub proof fn lemma_round_trip_from(vs: &Vec<ConfigValue>, xs: &Vec<Condition>, ys: &Vec<Condition>, i: int)
    requires
        0 <= i,
        vs.len() == xs.len(),
        vs.len() == ys.len(),
        describe_all_from(vs, xs, i),
        describe_all_from(vs, ys, i),
    ensures
        same_all_from(xs, ys, i),
    decreases vs, vs.len() - i,
{
    if i < vs.len() {
        assert(decreases_to!(vs => vs[i]));
        lemma_round_trip(&vs[i], &xs[i], &ys[i]);
        lemma_round_trip_from(vs, xs, ys, i + 1);
    }
}

/// A one-entry table.
fn tagged(tag: &str, body: ConfigValue) -> (r: ConfigValue)
    ensures
        is_tagged(&r, tag@),
        *tagged_body(&r) == body,
{
    let mut entries: Vec<Entry> = Vec::new();
    entries.push(Entry { key: String::from_str(tag), value: body });
    ConfigValue::Table(entries)
}

impl Condition {
    /// The document of this condition.
    pub fn to_value(&self) -> (r: ConfigValue)
        ensures
            describes(&r, self),
        decreases self, 0int,
    {
        proof {
            lemma_condition_tags_distinct();
            reveal_strlit("And");
            reveal_strlit("Or");
            reveal_strlit("Not");
            reveal_strlit("HasLabels");
            reveal_strlit("IsIssue");
            reveal_strlit("IsPullRequest");
        }
        match self {
            Condition::And(a) => {
                let items = conditions_to_values(&a.0);
                proof { lemma_describe_all_from(&items, &a.0, 0); }
                tagged("And", ConfigValue::Array(items))
            },
            Condition::Or(o) => {
                let items = conditions_to_values(&o.0);
                proof { lemma_describe_all_from(&items, &o.0, 0); }
                tagged("Or", ConfigValue::Array(items))
            },
            Condition::Not(n) => tagged("Not", n.0.to_value()),
            Condition::HasLabels(h) => {
                let mut items: Vec<ConfigValue> = Vec::new();
                let mut i: usize = 0;
                while i < h.0.len()
                    invariant
                        i <= h.0.len(),
                        items.len() == i,
                        forall|j: int| 0 <= j < i ==> {
                            let item = #[trigger] items@[j];
                            item is Str && item->Str_0@ == h.0@[j]@
                        },
                    decreases h.0.len() - i,
                {
                    items.push(ConfigValue::Str(h.0[i].clone()));
                    i += 1;
                }
                let r = tagged("HasLabels", ConfigValue::Array(items));
                assert(is_name_list(tagged_body(&r), h.0@));
                r
            },
            Condition::IsIssue(_) => tagged("IsIssue", ConfigValue::Array(Vec::new())),
            Condition::IsPullRequest(_) => tagged("IsPullRequest", ConfigValue::Array(Vec::new())),
        }
    }
}

/// The documents of a list of conditions, in order.
fn conditions_to_values(cs: &Vec<Condition>) -> (r: Vec<ConfigValue>)
    ensures
        r.len() == cs.len(),
        forall|j: int| 0 <= j < cs.len() ==> describes(#[trigger] &r[j], &cs[j]),
    decreases cs, 1int,
{
    let mut items: Vec<ConfigValue> = Vec::new();
    let mut i: usize = 0;
    while i < cs.len()
        invariant
            i <= cs.len(),
            items.len() == i,
            forall|j: int| 0 <= j < i ==> describes(#[trigger] &items[j], &cs[j]),
        decreases cs.len() - i,
    {
        proof {
            assert(decreases_to!(*cs => cs[i as int]));
        }
        items.push(cs[i].to_value());
        i += 1;
    }
    items
}

} // verus!
