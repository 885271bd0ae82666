use bounded_context::cli::parse_invocation;
use bounded_context::content::manifest_content;
use bounded_context::content::mod_file_content;
use bounded_context::content::root_module_content;
use bounded_context::plan::scaffold_plan;
use bounded_context::run::decide_run;
use bounded_context::run::RunOutcome;
use bounded_context::strutil::leaf_name;
use bounded_context::strutil::str_eq;
use bounded_context::template::template_dirs;

const DOMAIN_MOD: &str =
    "pub mod aggregates;\npub mod entities;\npub mod errors;\npub mod events;\npub mod value_objects;\n";
const APPLICATION_MOD: &str =
    "pub mod commands;\npub mod errors;\npub mod policies;\npub mod ports;\npub mod results;\npub mod use_cases;\n";
const PORTS_MOD: &str = "pub mod inbound;\npub mod outbound;\n";
const INFRASTRUCTURE_MOD: &str = "pub mod persistence;\n";
const PLACEHOLDER_MOD: &str = "// module\n";

fn args(v: &[&str]) -> Vec<String> {
    v.iter().map(|s| s.to_string()).collect()
}

#[test]
fn parse_accepts_add_with_name() {
    assert_eq!(parse_invocation(&args(&["add", "shopping"])), Some("shopping".to_string()));
}

#[test]
fn parse_ignores_trailing_arguments() {
    assert_eq!(parse_invocation(&args(&["add", "shopping", "extra"])), Some("shopping".to_string()));
}

#[test]
fn parse_rejects_no_arguments() {
    assert_eq!(parse_invocation(&args(&[])), None);
}

#[test]
fn parse_rejects_missing_name() {
    assert_eq!(parse_invocation(&args(&["add"])), None);
}

#[test]
fn parse_rejects_other_subcommand() {
    assert_eq!(parse_invocation(&args(&["remove", "shopping"])), None);
}

#[test]
fn str_eq_compares_by_characters() {
    assert!(str_eq("domain", "domain"));
    assert!(!str_eq("domain", "Domain"));
    assert!(!str_eq("domain", "domains"));
    assert!(str_eq("", ""));
}

#[test]
fn leaf_name_takes_final_segment() {
    assert_eq!(leaf_name("src/domain"), "domain");
    assert_eq!(leaf_name("src/application/ports/inbound"), "inbound");
    assert_eq!(leaf_name("plain"), "plain");
    assert_eq!(leaf_name("trailing/"), "");
    assert_eq!(leaf_name(""), "");
}

#[test]
fn template_has_seventeen_distinct_dirs() {
    let dirs = template_dirs();
    assert_eq!(dirs.len(), 17);
    let set: std::collections::HashSet<&String> = dirs.iter().collect();
    assert_eq!(set.len(), 17);
}

#[test]
fn template_holds_the_layer_roots() {
    let dirs = template_dirs();
    for root in ["src/domain", "src/application", "src/application/ports", "src/infrastructure"] {
        assert!(dirs.iter().any(|d| d == root), "missing {root}");
    }
}

#[test]
fn template_exact_paths() {
    let dirs = template_dirs();
    let expected = [
        "src/domain",
        "src/domain/aggregates",
        "src/domain/entities",
        "src/domain/errors",
        "src/domain/events",
        "src/domain/value_objects",
        "src/application",
        "src/application/commands",
        "src/application/errors",
        "src/application/policies",
        "src/application/ports",
        "src/application/ports/inbound",
        "src/application/ports/outbound",
        "src/application/results",
        "src/application/use_cases",
        "src/infrastructure",
        "src/infrastructure/persistence",
    ];
    assert_eq!(dirs.len(), expected.len());
    for (d, e) in dirs.iter().zip(expected.iter()) {
        assert_eq!(d, e);
    }
}

#[test]
fn content_selection_table() {
    assert_eq!(mod_file_content("domain"), DOMAIN_MOD);
    assert_eq!(mod_file_content("application"), APPLICATION_MOD);
    assert_eq!(mod_file_content("ports"), PORTS_MOD);
    assert_eq!(mod_file_content("infrastructure"), INFRASTRUCTURE_MOD);
    assert_eq!(mod_file_content("aggregates"), PLACEHOLDER_MOD);
    assert_eq!(mod_file_content("persistence"), PLACEHOLDER_MOD);
    assert_eq!(mod_file_content(""), PLACEHOLDER_MOD);
}

#[test]
fn content_selection_is_case_sensitive() {
    assert_eq!(mod_file_content("Domain"), PLACEHOLDER_MOD);
    assert_eq!(mod_file_content("DOMAIN"), PLACEHOLDER_MOD);
}

#[test]
fn domain_mod_reexports_exactly_five() {
    let content = mod_file_content("domain");
    let lines: Vec<&str> = content.lines().collect();
    assert_eq!(
        lines,
        vec![
            "pub mod aggregates;",
            "pub mod entities;",
            "pub mod errors;",
            "pub mod events;",
            "pub mod value_objects;",
        ]
    );
}

#[test]
fn application_mod_reexports_exactly_six() {
    let content = mod_file_content("application");
    let lines: Vec<&str> = content.lines().collect();
    assert_eq!(
        lines,
        vec![
            "pub mod commands;",
            "pub mod errors;",
            "pub mod policies;",
            "pub mod ports;",
            "pub mod results;",
            "pub mod use_cases;",
        ]
    );
}

#[test]
fn manifest_names_the_package() {
    let manifest = manifest_content("shopping");
    assert_eq!(
        manifest,
        "[package]\nname = \"shopping\"\nversion = \"0.1.0\"\nedition = \"2024\"\n\n[dependencies]\n"
    );
    assert!(manifest.contains("name = \"shopping\""));
    assert!(manifest.contains("version = \"0.1.0\""));
    assert!(manifest.contains("edition = \"2024\""));
    assert!(manifest.contains("[dependencies]"));
}

#[test]
fn root_module_declares_three_layers() {
    assert_eq!(root_module_content(), "pub mod domain;\npub mod application;\npub mod infrastructure;\n");
}

#[test]
fn plan_is_complete() {
    let plan = scaffold_plan("shopping");
    assert_eq!(plan.dirs.len(), 17);
    assert_eq!(plan.mod_files.len(), 17);
    for (dir, file) in plan.dirs.iter().zip(plan.mod_files.iter()) {
        assert_eq!(file.path, format!("{dir}/mod.rs"));
        assert!(file.if_absent);
    }
    assert_eq!(plan.manifest.path, "Cargo.toml");
    assert!(!plan.manifest.if_absent);
    assert!(plan.manifest.content.contains("name = \"shopping\""));
    assert_eq!(plan.root_module.path, "src/lib.rs");
    assert!(!plan.root_module.if_absent);
    assert_eq!(
        plan.root_module.content,
        "pub mod domain;\npub mod application;\npub mod infrastructure;\n"
    );
}

#[test]
fn plan_selects_content_by_leaf() {
    let plan = scaffold_plan("shopping");
    for file in plan.mod_files.iter() {
        let expected = match file.path.as_str() {
            "src/domain/mod.rs" => DOMAIN_MOD,
            "src/application/mod.rs" => APPLICATION_MOD,
            "src/application/ports/mod.rs" => PORTS_MOD,
            "src/infrastructure/mod.rs" => INFRASTRUCTURE_MOD,
            _ => PLACEHOLDER_MOD,
        };
        assert_eq!(file.content, expected, "wrong content at {}", file.path);
    }
}

#[test]
fn scenario_fresh_run_proceeds() {
    let plan = scaffold_plan("shopping");
    assert!(plan.dirs.iter().any(|d| d == "src/domain/aggregates"));
    let aggregates = plan
        .mod_files
        .iter()
        .find(|f| f.path == "src/domain/aggregates/mod.rs")
        .expect("aggregates module file missing");
    assert_eq!(aggregates.content, PLACEHOLDER_MOD);
    match decide_run(&args(&["add", "shopping"]), false) {
        RunOutcome::Proceed { plan, message } => {
            assert_eq!(message, "Bounded context 'shopping' created successfully");
            assert_eq!(plan.dirs.len(), 17);
        }
        _ => panic!("fresh run must proceed"),
    }
}

#[test]
fn scenario_second_run_reports_existing() {
    match decide_run(&args(&["add", "shopping"]), true) {
        RunOutcome::AlreadyExists { message } => {
            assert_eq!(message, "The bounded context 'shopping' already exists");
        }
        _ => panic!("existing target must be reported"),
    }
}

#[test]
fn scenario_no_arguments_is_usage_error() {
    match decide_run(&args(&[]), false) {
        RunOutcome::Usage { message } => {
            assert_eq!(message, "Usage: bounded-context add <name>");
        }
        _ => panic!("missing arguments must be a usage error"),
    }
}
