use baitroute_rs::convert::convert_rule;
use baitroute_rs::loader::is_skippable;
use baitroute_rs::loader::provenance_label;
use baitroute_rs::model::BeelzebubConfig;
use baitroute_rs::model::Rule;
use baitroute_rs::model::Rules;
use baitroute_rs::output::frame_document;
use baitroute_rs::output::resolve_output;
use baitroute_rs::output::UsageError;

fn sample_rule(path: &str, body: &str) -> Rule {
    Rule {
        method: "GET".to_string(),
        path: path.to_string(),
        status: 200,
        content_type: None,
        headers: Vec::new(),
        body: body.to_string(),
        filename: None,
    }
}

#[test]
fn routing_key_for_admin_path() {
    let config = BeelzebubConfig::default();
    assert_eq!(config.path_to_regex("/admin"), "^/admin$");
}

#[test]
fn routing_key_for_empty_path() {
    let config = BeelzebubConfig::default();
    assert_eq!(config.path_to_regex(""), "^$");
}

#[test]
fn fresh_config_carries_default_metadata() {
    let config = BeelzebubConfig::default();
    assert_eq!(config.api_version, "v1");
    assert_eq!(config.protocol, "http");
    assert_eq!(config.address, ":8080");
    assert_eq!(config.description, "Baitroute rules");
    assert!(config.commands.is_empty());
}

#[test]
fn convert_copies_fields_and_sets_status() {
    let mut rule = sample_rule("/admin", "forbidden");
    rule.status = 404;
    rule.content_type = Some("text/plain".to_string());
    let cmd = convert_rule(rule, Some("exposures/admin.yaml".to_string()));
    assert_eq!(cmd.regex, "^/admin$");
    assert_eq!(cmd.handler, "forbidden");
    assert_eq!(cmd.status_code, Some(404));
    assert_eq!(cmd.name, Some("exposures/admin.yaml".to_string()));
}

#[test]
fn convert_keeps_rule_own_name_over_provenance() {
    let mut rule = sample_rule("/a", "x");
    rule.filename = Some("own-name".to_string());
    let cmd = convert_rule(rule, Some("derived-name".to_string()));
    assert_eq!(cmd.name, Some("own-name".to_string()));
}

#[test]
fn convert_without_any_name_leaves_none() {
    let rule = sample_rule("/a", "x");
    let cmd = convert_rule(rule, None);
    assert_eq!(cmd.name, None);
}

#[test]
fn convert_empty_headers_yields_empty_set() {
    let rule = sample_rule("/a", "x");
    let cmd = convert_rule(rule, None);
    assert!(cmd.headers.is_empty());
}

#[test]
fn convert_flattens_headers_to_name_value_lines() {
    let mut rule = sample_rule("/a", "x");
    rule.headers = vec![
        ("Content-Type".to_string(), "text/html".to_string()),
        ("Server".to_string(), "nginx".to_string()),
    ];
    let cmd = convert_rule(rule, None);
    assert_eq!(cmd.headers.len(), 2);
    assert!(cmd.headers.contains(&"Content-Type: text/html".to_string()));
    assert!(cmd.headers.contains(&"Server: nginx".to_string()));
}

#[test]
fn colliding_header_lines_collapse_to_one() {
    let mut rule = sample_rule("/a", "x");
    rule.headers = vec![
        ("X".to_string(), "a: b".to_string()),
        ("X: a".to_string(), "b".to_string()),
    ];
    let cmd = convert_rule(rule, None);
    assert_eq!(cmd.headers, vec!["X: a: b".to_string()]);
}

#[test]
fn duplicate_path_across_documents_is_rejected() {
    let mut config = BeelzebubConfig::default();
    let first = Rules(vec![sample_rule("/admin", "first body")]);
    let dups = config.merge_document(first, "exposures/one.yaml");
    assert!(dups.is_empty());

    let second = Rules(vec![sample_rule("/admin", "second body")]);
    let dups = config.merge_document(second, "exposures/two.yaml");
    assert_eq!(dups, vec!["/admin".to_string()]);

    assert_eq!(config.commands.len(), 1);
    assert_eq!(config.commands[0].handler, "first body");
    assert_eq!(config.commands[0].name, Some("exposures/one.yaml".to_string()));
}

#[test]
fn duplicate_path_within_one_document_is_rejected() {
    let mut config = BeelzebubConfig::default();
    let doc = Rules(vec![
        sample_rule("/admin", "first body"),
        sample_rule("/login", "login body"),
        sample_rule("/admin", "second body"),
    ]);
    let dups = config.merge_document(doc, "info/doc.yaml");
    assert_eq!(dups, vec!["/admin".to_string()]);
    assert_eq!(config.commands.len(), 2);
    assert_eq!(config.commands[0].regex, "^/admin$");
    assert_eq!(config.commands[1].regex, "^/login$");
}

#[test]
fn contains_path_compares_on_derived_regex() {
    let mut config = BeelzebubConfig::default();
    let doc = Rules(vec![sample_rule("/admin", "x")]);
    config.merge_document(doc, "a.yaml");
    assert!(config.contains_path("/admin"));
    assert!(!config.contains_path("/admi"));
    assert!(!config.contains_path("^/admin$"));
}

#[test]
fn insert_command_skips_taken_key() {
    let mut config = BeelzebubConfig::default();
    let cmd = convert_rule(sample_rule("/a", "one"), None);
    assert!(config.insert_command("/a", cmd));
    let again = convert_rule(sample_rule("/a", "two"), None);
    assert!(!config.insert_command("/a", again));
    assert_eq!(config.commands.len(), 1);
    assert_eq!(config.commands[0].handler, "one");
}

#[test]
fn update_with_output_path_is_a_usage_error() {
    let config_path = Some("beelzebub.yaml".to_string());
    let r = resolve_output(true, Some("out.yaml".to_string()), &config_path);
    assert_eq!(r, Err(UsageError::UpdateConflictsWithOutput));
}

#[test]
fn update_without_config_is_a_usage_error() {
    let r = resolve_output(true, None, &None);
    assert_eq!(r, Err(UsageError::UpdateWithoutConfig));
}

#[test]
fn update_rewrites_the_loaded_config() {
    let config_path = Some("beelzebub.yaml".to_string());
    let r = resolve_output(true, None, &config_path);
    assert_eq!(r, Ok(Some("beelzebub.yaml".to_string())));
}

#[test]
fn explicit_output_path_wins_without_update() {
    let config_path = Some("beelzebub.yaml".to_string());
    let r = resolve_output(false, Some("out.yaml".to_string()), &config_path);
    assert_eq!(r, Ok(Some("out.yaml".to_string())));
}

#[test]
fn no_output_option_means_standard_output() {
    assert_eq!(resolve_output(false, None, &None), Ok(None));
    let config_path = Some("beelzebub.yaml".to_string());
    assert_eq!(resolve_output(false, None, &config_path), Ok(None));
}

#[test]
fn skip_list_matches_on_path_fragment() {
    let skip_list = vec![
        "circleci-config.yaml".to_string(),
        "CVE-2024-1210.yaml".to_string(),
    ];
    assert!(is_skippable(
        "baitroute/rules/exposures/circleci-config.yaml",
        &skip_list
    ));
    assert!(is_skippable(
        "baitroute/rules/vulnerabilities/CVE-2024-1210.yaml",
        &skip_list
    ));
    assert!(!is_skippable(
        "baitroute/rules/vulnerabilities/CVE-2024-1209.yaml",
        &skip_list
    ));
}

#[test]
fn empty_skip_list_skips_nothing() {
    assert!(!is_skippable("anything.yaml", &Vec::new()));
}

#[test]
fn provenance_label_strips_root_prefix() {
    let label = provenance_label("baitroute/rules/info/trap.yaml", "baitroute/rules/");
    assert_eq!(label, "info/trap.yaml");
}

#[test]
fn provenance_label_keeps_unrelated_path_whole() {
    let label = provenance_label("elsewhere/trap.yaml", "baitroute/rules/");
    assert_eq!(label, "elsewhere/trap.yaml");
}

#[test]
fn framed_document_starts_with_marker_line() {
    assert_eq!(frame_document("commands: []\n"), "---\ncommands: []\n");
}
