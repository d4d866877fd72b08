use octoprism::config::{crate_name, parse_action, parse_rule, Config};
use octoprism::conditions::{And, Condition, HasLabels, IsIssue, IsPullRequest, Not, Or};
use octoprism::document::{parse_condition, parse_condition_list, ConfigError, ConfigValue, Entry};

fn s(text: &str) -> ConfigValue {
    ConfigValue::Str(text.to_string())
}

fn table(entries: Vec<(&str, ConfigValue)>) -> ConfigValue {
    ConfigValue::Table(entries.into_iter().map(|(k, v)| Entry { key: k.to_string(), value: v }).collect())
}

fn tag(name: &str, body: ConfigValue) -> ConfigValue {
    table(vec![(name, body)])
}

fn empty() -> ConfigValue {
    ConfigValue::Array(vec![])
}

fn shape(c: &Condition) -> String {
    match c {
        Condition::And(a) => format!("And({})", a.0.iter().map(shape).collect::<Vec<_>>().join(",")),
        Condition::Or(o) => format!("Or({})", o.0.iter().map(shape).collect::<Vec<_>>().join(",")),
        Condition::Not(n) => format!("Not({})", shape(&n.0)),
        Condition::HasLabels(h) => format!("HasLabels({})", h.0.join(",")),
        Condition::IsIssue(_) => "IsIssue".to_string(),
        Condition::IsPullRequest(_) => "IsPullRequest".to_string(),
    }
}

fn log_action() -> ConfigValue {
    tag("Log", table(vec![]))
}

fn rule_doc(condition: ConfigValue) -> ConfigValue {
    table(vec![("condition", condition), ("actions", ConfigValue::Array(vec![log_action()]))])
}

#[test]
fn parses_nested_condition() {
    let doc = tag(
        "And",
        ConfigValue::Array(vec![
            tag("IsPullRequest", empty()),
            tag("Not", tag("HasLabels", ConfigValue::Array(vec![s("wip"), s("draft")]))),
            tag("Or", ConfigValue::Array(vec![])),
        ]),
    );
    let c = parse_condition(&doc).unwrap();
    assert_eq!(shape(&c), "And(IsPullRequest,Not(HasLabels(wip,draft)),Or())");
}

#[test]
fn round_trip_keeps_tree() {
    let c = Condition::Or(Or(vec![
        Condition::Not(Not(Box::new(Condition::IsIssue(IsIssue())))),
        Condition::And(And(vec![
            Condition::HasLabels(HasLabels(vec!["bug".to_string(), "ui".to_string()])),
            Condition::IsPullRequest(IsPullRequest()),
        ])),
        Condition::And(And(vec![])),
    ]));
    let back = parse_condition(&c.to_value()).unwrap();
    assert_eq!(shape(&back), shape(&c));
    assert_eq!(shape(&back), "Or(Not(IsIssue),And(HasLabels(bug,ui),IsPullRequest),And())");
}

#[test]
fn not_with_two_children_is_refused() {
    let doc = tag("Not", ConfigValue::Array(vec![tag("IsIssue", empty()), tag("IsPullRequest", empty())]));
    assert!(matches!(parse_condition(&doc), Err(ConfigError::WrongShape(_))));
    let config = table(vec![("rules", ConfigValue::Array(vec![rule_doc(doc)]))]);
    assert!(Config::from_config(&config).is_err());
}

#[test]
fn unknown_condition_tag_is_refused() {
    let doc = tag("IsDraft", empty());
    match parse_condition(&doc) {
        Err(ConfigError::UnknownTag(t)) => assert_eq!(t, "IsDraft"),
        other => panic!("unexpected {:?}", other),
    }
}

#[test]
fn malformed_conditions_are_refused() {
    assert!(matches!(parse_condition(&s("IsIssue")), Err(ConfigError::WrongShape(_))));
    let two = table(vec![("IsIssue", empty()), ("IsPullRequest", empty())]);
    assert!(matches!(parse_condition(&two), Err(ConfigError::WrongShape(_))));
    assert!(parse_condition(&tag("IsIssue", ConfigValue::Array(vec![s("x")]))).is_err());
    assert!(parse_condition(&tag("HasLabels", ConfigValue::Array(vec![ConfigValue::Int(3)]))).is_err());
    assert!(parse_condition(&tag("And", tag("IsIssue", empty()))).is_err());
    assert!(parse_condition_list(&ConfigValue::Array(vec![tag("IsIssue", empty()), tag("Nope", empty())])).is_err());
}

#[test]
fn actions_are_read() {
    assert!(parse_action(&log_action()).is_ok());
    match parse_action(&tag("Comment", table(vec![]))) {
        Err(ConfigError::UnknownTag(t)) => assert_eq!(t, "Comment"),
        other => panic!("unexpected {:?}", other),
    }
    assert!(parse_action(&tag("Log", empty())).is_err());
}

#[test]
fn rules_need_condition_and_actions() {
    let rule = parse_rule(&rule_doc(tag("IsIssue", empty()))).unwrap();
    assert_eq!(rule.actions.len(), 1);
    assert_eq!(shape(&rule.condition), "IsIssue");
    let no_actions = table(vec![("condition", tag("IsIssue", empty()))]);
    match parse_rule(&no_actions) {
        Err(ConfigError::MissingField(f)) => assert_eq!(f, "actions"),
        other => panic!("unexpected {:?}", other),
    }
}

#[test]
fn defaults_fill_absent_settings() {
    let config = Config::from_config(&table(vec![("rules", ConfigValue::Array(vec![]))])).unwrap();
    assert_eq!(config.bind_address, "127.0.0.1:8080");
    assert!(config.debug_log.enable);
    assert_eq!(config.debug_log.path, "./logs");
    assert_eq!(config.debug_log.prefix, "octoprism.log");
    assert_eq!(config.debug_log.level, "debug");
    assert!(config.rules.is_empty());
}

#[test]
fn given_settings_override_defaults() {
    let doc = table(vec![
        ("bind_address", s("0.0.0.0:9000")),
        ("debug_log", table(vec![("enable", ConfigValue::Bool(false)), ("level", s("info"))])),
        ("rules", ConfigValue::Array(vec![rule_doc(tag("IsPullRequest", empty()))])),
    ]);
    let config = Config::from_config(&doc).unwrap();
    assert_eq!(config.bind_address, "0.0.0.0:9000");
    assert!(!config.debug_log.enable);
    assert_eq!(config.debug_log.path, "./logs");
    assert_eq!(config.debug_log.level, "info");
    assert_eq!(config.rules.len(), 1);
}

#[test]
fn missing_rules_is_refused() {
    match Config::from_config(&table(vec![("bind_address", s("x"))])) {
        Err(ConfigError::MissingField(f)) => assert_eq!(f, "rules"),
        other => panic!("unexpected {:?}", other.map(|_| ())),
    }
    let bad = table(vec![("rules", ConfigValue::Array(vec![])), ("bind_address", ConfigValue::Int(1))]);
    assert!(matches!(Config::from_config(&bad), Err(ConfigError::WrongShape(_))));
}

#[test]
fn crate_name_is_the_prefix() {
    assert_eq!(crate_name(), "octoprism");
}
