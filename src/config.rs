//! The service configuration: settings with defaults, and the rule set.
use vstd::prelude::*;
use vstd::string::*;

use crate::actions::{Action, Log};
use crate::document::{describes, is_condition_doc, is_tagged, parse_condition, tagged_body, ConfigError, ConfigValue, Entry};
use crate::rules::Rule;

verus! {

broadcast use vstd::std_specs::vec::group_vec_axioms;

/// Where and how verbosely the diagnostic log is written.
#[derive(Debug)]
pub struct DebugLogConfig {
    pub enable: bool,
    pub path: String,
    pub prefix: String,
    pub level: String,
}

/// The whole configuration of the service.
#[derive(Debug)]
pub struct Config {
    pub bind_address: String,
    pub debug_log: DebugLogConfig,
    pub rules: Vec<Rule>,
}

/// The name of this library; environment settings carry it as their prefix.
pub fn crate_name() -> (r: &'static str)
    ensures
        r@ == "octoprism"@,
{
    "octoprism"
}

/// The value under the first entry of `es` from index `i` on keyed `key`.
pub open spec fn lookup_from(es: Seq<Entry>, key: Seq<char>, i: int) -> Option<ConfigValue>
    decreases es.len() - i,
{
    if i < 0 || i >= es.len() {
        None
    } else if es[i].key@ == key {
        Some(es[i].value)
    } else {
        lookup_from(es, key, i + 1)
    }
}

/// The value under the first entry of `es` keyed `key`.
pub open spec fn lookup(es: Seq<Entry>, key: Seq<char>) -> Option<ConfigValue> {
    lookup_from(es, key, 0)
}

/// Finds the first entry keyed `key`.
fn find<'a>(es: &'a Vec<Entry>, key: &str) -> (r: Option<&'a ConfigValue>)
    ensures
        match r {
            Some(x) => lookup(es@, key@) == Some(*x),
            None => lookup(es@, key@) is None,
        },
{
    let k = String::from_str(key);
    let mut i: usize = 0;
    while i < es.len()
        invariant
            i <= es.len(),
            k@ == key@,
            lookup(es@, key@) == lookup_from(es@, key@, i as int),
        decreases es.len() - i,
    {
        if es[i].key == k {
            return Some(&es[i].value);
        }
        i += 1;
    }
    None
}

/// A string setting: the text given, or `default` where the setting is
/// absent; `None` where it is given but is no string.
pub open spec fn string_setting(v: Option<ConfigValue>, default: Seq<char>) -> Option<Seq<char>> {
    match v {
        None => Some(default),
        Some(ConfigValue::Str(s)) => Some(s@),
        Some(_) => None,
    }
}

/// A boolean setting: the flag given, or `default` where the setting is
/// absent; `None` where it is given but is no boolean.
pub open spec fn bool_setting(v: Option<ConfigValue>, default: bool) -> Option<bool> {
    match v {
        None => Some(default),
        Some(ConfigValue::Bool(b)) => Some(b),
        Some(_) => None,
    }
}

/// `v` is the document of an action.
pub open spec fn is_action_doc(v: &ConfigValue) -> bool {
    is_tagged(v, "Log"@) && tagged_body(v) is Table
}

/// `v` is an array of action documents.
pub open spec fn is_action_list_doc(v: &ConfigValue) -> bool {
    v is Array && forall|i: int| 0 <= i < v->Array_0.len() ==> is_action_doc(#[trigger] &v->Array_0[i])
}

/// `v` is the document of a rule: a table with a condition and a list of actions.
pub open spec fn is_rule_doc(v: &ConfigValue) -> bool {
    v is Table && match (lookup(v->Table_0@, "condition"@), lookup(v->Table_0@, "actions"@)) {
        (Some(c), Some(a)) => is_condition_doc(&c) && is_action_list_doc(&a),
        _ => false,
    }
}

/// Reads a string setting.
fn read_string(v: Option<&ConfigValue>, default: &str, what: &str) -> (r: Result<String, ConfigError>)
    ensures
        match string_setting(opt_value(v), default@) {
            Some(s) => r matches Ok(t) && t@ == s,
            None => r is Err,
        },
{
    match v {
        None => Ok(String::from_str(default)),
        Some(ConfigValue::Str(s)) => Ok(s.clone()),
        Some(_) => Err(ConfigError::WrongShape(String::from_str(what))),
    }
}

/// Reads a boolean setting.
fn read_bool(v: Option<&ConfigValue>, default: bool, what: &str) -> (r: Result<bool, ConfigError>)
    ensures
        match bool_setting(opt_value(v), default) {
            Some(b) => r == Ok::<bool, ConfigError>(b),
            None => r is Err,
        },
{
    match v {
        None => Ok(default),
        Some(ConfigValue::Bool(b)) => Ok(*b),
        Some(_) => Err(ConfigError::WrongShape(String::from_str(what))),
    }
}

/// The value behind an optional reference.
pub open spec fn opt_value(v: Option<&ConfigValue>) -> Option<ConfigValue> {
    match v {
        Some(x) => Some(*x),
        None => None,
    }
}

/// Reads an action.
pub fn parse_action(v: &ConfigValue) -> (r: Result<Action, ConfigError>)
    ensures
        r is Ok <==> is_action_doc(v),
        !(v is Table && v->Table_0.len() == 1) ==> r matches Err(ConfigError::WrongShape(_)),
        v is Table && v->Table_0.len() == 1 && v->Table_0[0].key@ != "Log"@ ==> (r matches Err(
            ConfigError::UnknownTag(t),
        ) && t@ == v->Table_0[0].key@),
{
    let entries = match v {
        ConfigValue::Table(es) => es,
        _ => {
            return Err(ConfigError::WrongShape(String::from_str("a table naming one action kind")));
        },
    };
    if entries.len() != 1 {
        return Err(ConfigError::WrongShape(String::from_str("a table naming one action kind")));
    }
    if entries[0].key != String::from_str("Log") {
        return Err(ConfigError::UnknownTag(entries[0].key.clone()));
    }
    match &entries[0].value {
        ConfigValue::Table(_) => Ok(Action::Log(Log {})),
        _ => Err(ConfigError::WrongShape(String::from_str("a table of action settings"))),
    }
}

/// Reads a list of actions.
pub fn parse_actions(v: &ConfigValue) -> (r: Result<Vec<Action>, ConfigError>)
    ensures
        r is Ok <==> is_action_list_doc(v),
        r matches Ok(acts) ==> acts.len() == v->Array_0.len(),
{
    let items = match v {
        ConfigValue::Array(items) => items,
        _ => {
            return Err(ConfigError::WrongShape(String::from_str("a list of actions")));
        },
    };
    let mut acts: Vec<Action> = Vec::new();
    let mut i: usize = 0;
    while i < items.len()
        invariant
            *v == ConfigValue::Array(*items),
            i <= items.len(),
            acts.len() == i,
            forall|j: int| 0 <= j < i ==> is_action_doc(#[trigger] &items[j]),
        decreases items.len() - i,
    {
        match parse_action(&items[i]) {
            Ok(a) => acts.push(a),
            Err(e) => {
                assert(!is_action_doc(&v->Array_0[i as int]));
                return Err(e);
            },
        }
        i += 1;
    }
    Ok(acts)
}

/// Reads a rule.
pub fn parse_rule(v: &ConfigValue) -> (r: Result<Rule, ConfigError>)
    ensures
        r is Ok <==> is_rule_doc(v),
        v is Table && lookup(v->Table_0@, "condition"@) is None ==> (r matches Err(
            ConfigError::MissingField(f),
        ) && f@ == "condition"@),
        v is Table && lookup(v->Table_0@, "condition"@) is Some && lookup(v->Table_0@, "actions"@) is None
            ==> (r matches Err(ConfigError::MissingField(f)) && f@ == "actions"@),
        r matches Ok(rule) ==> describes(&lookup(v->Table_0@, "condition"@)->0, &rule.condition)
            && rule.actions.len() == lookup(v->Table_0@, "actions"@)->0->Array_0.len(),
{
    let entries = match v {
        ConfigValue::Table(es) => es,
        _ => {
            return Err(ConfigError::WrongShape(String::from_str("a table describing a rule")));
        },
    };
    let cv = match find(entries, "condition") {
        Some(cv) => cv,
        None => {
            return Err(ConfigError::MissingField(String::from_str("condition")));
        },
    };
    let av = match find(entries, "actions") {
        Some(av) => av,
        None => {
            return Err(ConfigError::MissingField(String::from_str("actions")));
        },
    };
    let condition = match parse_condition(cv) {
        Ok(c) => c,
        Err(e) => {
            return Err(e);
        },
    };
    let actions = match parse_actions(av) {
        Ok(a) => a,
        Err(e) => {
            return Err(e);
        },
    };
    Ok(Rule { condition, actions })
}

/// The entries of the `debug_log` table of `doc`: none where it is absent,
/// `None` where it is no table.
pub open spec fn debug_log_entries(doc: Seq<Entry>) -> Option<Seq<Entry>> {
    match lookup(doc, "debug_log"@) {
        None => Some(Seq::empty()),
        Some(ConfigValue::Table(es)) => Some(es@),
        Some(_) => None,
    }
}

/// The diagnostic log settings of `doc`, with their defaults:
/// `(enable, path, prefix, level)`; `None` where one is malformed.
pub open spec fn debug_log_settings(doc: Seq<Entry>) -> Option<(bool, Seq<char>, Seq<char>, Seq<char>)> {
    match debug_log_entries(doc) {
        None => None,
        Some(t) => match (
            bool_setting(lookup(t, "enable"@), true),
            string_setting(lookup(t, "path"@), "./logs"@),
            string_setting(lookup(t, "prefix"@), "octoprism.log"@),
            string_setting(lookup(t, "level"@), "debug"@),
        ) {
            (Some(e), Some(p), Some(x), Some(l)) => Some((e, p, x, l)),
            _ => None,
        },
    }
}

/// The listen address of `doc`, with its default.
pub open spec fn bind_address_setting(doc: Seq<Entry>) -> Option<Seq<char>> {
    string_setting(lookup(doc, "bind_address"@), "127.0.0.1:8080"@)
}

/// `doc` is a well-formed configuration: every setting has its shape, and
/// `rules` is a list of rule documents.
pub open spec fn is_config_doc(doc: &ConfigValue) -> bool {
    &&& doc is Table
    &&& bind_address_setting(doc->Table_0@) is Some
    &&& debug_log_settings(doc->Table_0@) is Some
    &&& match lookup(doc->Table_0@, "rules"@) {
        Some(ConfigValue::Array(items)) => forall|i: int|
            0 <= i < items.len() ==> is_rule_doc(#[trigger] &items[i]),
        _ => false,
    }
}

impl DebugLogConfig {
    /// Reads the diagnostic log settings, filling in the defaults.
    fn from_entries(t: &Vec<Entry>) -> (r: Result<DebugLogConfig, ConfigError>)
        ensures
            match (
                bool_setting(lookup(t@, "enable"@), true),
                string_setting(lookup(t@, "path"@), "./logs"@),
                string_setting(lookup(t@, "prefix"@), "octoprism.log"@),
                string_setting(lookup(t@, "level"@), "debug"@),
            ) {
                (Some(e), Some(p), Some(x), Some(l)) => r matches Ok(d) && d.enable == e && d.path@ == p
                    && d.prefix@ == x && d.level@ == l,
                _ => r is Err,
            },
    {
        let enable = read_bool(find(t, "enable"), true, "a boolean `debug_log.enable`");
        let path = read_string(find(t, "path"), "./logs", "a string `debug_log.path`");
        let prefix = read_string(find(t, "prefix"), "octoprism.log", "a string `debug_log.prefix`");
        let level = read_string(find(t, "level"), "debug", "a string `debug_log.level`");
        match (enable, path, prefix, level) {
            (Ok(enable), Ok(path), Ok(prefix), Ok(level)) => Ok(DebugLogConfig { enable, path, prefix, level }),
            (Err(e), _, _, _) => Err(e),
            (_, Err(e), _, _) => Err(e),
            (_, _, Err(e), _) => Err(e),
            (_, _, _, Err(e)) => Err(e),
        }
    }
}

impl Config {
    /// Reads the configuration from its document. Absent settings take their
    /// defaults; `rules` is required, and every rule in it must be well formed.
    pub fn from_config(doc: &ConfigValue) -> (r: Result<Config, ConfigError>)
        ensures
            r is Ok <==> is_config_doc(doc),
            !(doc is Table) ==> r matches Err(ConfigError::WrongShape(_)),
            doc is Table && lookup(doc->Table_0@, "rules"@) is None ==> (r matches Err(
                ConfigError::MissingField(f),
            ) && f@ == "rules"@),
            r matches Ok(c) ==> {
                let es = doc->Table_0@;
                let items = lookup(es, "rules"@)->0->Array_0;
                &&& Some(c.bind_address@) == bind_address_setting(es)
                &&& Some((c.debug_log.enable, c.debug_log.path@, c.debug_log.prefix@, c.debug_log.level@))
                    == debug_log_settings(es)
                &&& c.rules.len() == items.len()
                &&& forall|i: int|
                    0 <= i < items.len() ==> {
                        let rule_doc = (#[trigger] items[i])->Table_0@;
                        &&& describes(&lookup(rule_doc, "condition"@)->0, &c.rules[i].condition)
                        &&& c.rules[i].actions.len() == lookup(rule_doc, "actions"@)->0->Array_0.len()
                    }
            },
    {
        let es = match doc {
            ConfigValue::Table(es) => es,
            _ => {
                return Err(ConfigError::WrongShape(String::from_str("a table of settings")));
            },
        };
        let rules_doc = match find(es, "rules") {
            Some(v) => v,
            None => {
                return Err(ConfigError::MissingField(String::from_str("rules")));
            },
        };
        let bind_address = match read_string(find(es, "bind_address"), "127.0.0.1:8080", "a string `bind_address`") {
            Ok(s) => s,
            Err(e) => {
                return Err(e);
            },
        };
        let no_entries: Vec<Entry> = Vec::new();
        let log_entries = match find(es, "debug_log") {
            None => &no_entries,
            Some(ConfigValue::Table(t)) => t,
            Some(_) => {
                return Err(ConfigError::WrongShape(String::from_str("a table `debug_log`")));
            },
        };
        assert(debug_log_entries(es@) == Some(log_entries@));
        let debug_log = match DebugLogConfig::from_entries(log_entries) {
            Ok(d) => d,
            Err(e) => {
                return Err(e);
            },
        };
        let items = match rules_doc {
            ConfigValue::Array(items) => items,
            _ => {
                return Err(ConfigError::WrongShape(String::from_str("a list `rules`")));
            },
        };
        let mut rules: Vec<Rule> = Vec::new();
        let mut i: usize = 0;
        while i < items.len()
            invariant
                *doc == ConfigValue::Table(*es),
                lookup(es@, "rules"@) == Some(ConfigValue::Array(*items)),
                i <= items.len(),
                rules.len() == i,
                forall|j: int| 0 <= j < i ==> is_rule_doc(#[trigger] &items[j]),
                forall|j: int|
                    0 <= j < i ==> {
                        let rule_doc = (#[trigger] items[j])->Table_0@;
                        &&& describes(&lookup(rule_doc, "condition"@)->0, &rules[j].condition)
                        &&& rules[j].actions.len() == lookup(rule_doc, "actions"@)->0->Array_0.len()
                    },
            decreases items.len() - i,
        {
            match parse_rule(&items[i]) {
                Ok(rule) => rules.push(rule),
                Err(e) => {
                    assert(!is_rule_doc(&items[i as int]));
                    return Err(e);
                },
            }
            i += 1;
        }
        Ok(Config { bind_address, debug_log, rules })
    }
}

} // verus!
