use countries::exclusion::{is_excluded, Config};
use countries::normalize::{normalize, parse_countries, Country};

fn country(name: &str) -> Country {
    Country { name: name.to_string() }
}

#[test]
fn plain_token_is_kept_verbatim() {
    assert_eq!(normalize("France").name, "France");
    assert_eq!(normalize("").name, "");
}

#[test]
fn underscores_become_spaces() {
    let n = normalize("Some_Country");
    assert_eq!(n.name, "Some Country");
    assert!(!n.name.contains('_'));
    assert_eq!(n.name.chars().count(), "Some_Country".chars().count());
}

#[test]
fn every_underscore_is_rewritten() {
    assert_eq!(normalize("_a__b_").name, "_a__b_".replace('_', " "));
    assert_eq!(normalize("___").name, "   ");
}

#[test]
fn non_ascii_text_is_kept() {
    let n = normalize("Côte_d'Ivoire");
    assert_eq!(n.name, "Côte d'Ivoire");
    assert_eq!(n.name.chars().count(), 13);
    assert_eq!(normalize("São_Tomé_and_Príncipe").name, "São Tomé and Príncipe");
}

#[test]
fn no_other_rewriting() {
    assert_eq!(normalize(" mixed_Case ").name, " mixed Case ");
}

#[test]
fn normalize_is_idempotent() {
    for t in ["France", "Some_Country", "a__b", "", "_"] {
        let once = normalize(t).name;
        assert_eq!(normalize(&once).name, once);
    }
}

#[test]
fn country_parse_rewrites_name() {
    assert_eq!(country("United_Kingdom").parse().name, "United Kingdom");
    assert_eq!(country("Japan").parse().name, "Japan");
}

#[test]
fn parse_countries_keeps_order_and_duplicates() {
    let out = parse_countries(vec![country("New_Zealand"), country("Chad"), country("New_Zealand")]);
    let names: Vec<String> = out.into_iter().map(|c| c.name).collect();
    assert_eq!(names, vec!["New Zealand", "Chad", "New Zealand"]);
    assert!(parse_countries(Vec::new()).is_empty());
}

#[test]
fn every_configured_exclusion_is_excluded() {
    for t in [
        "List_of_states",
        "Other_states",
        "Criteria_for_inclusion",
        "See_also",
        "Notes",
        "References",
        "Bibliography",
    ] {
        assert!(is_excluded(t), "{t}");
    }
}

#[test]
fn exclusion_match_is_exact() {
    assert!(!is_excluded("France"));
    assert!(!is_excluded("list_of_states"));
    assert!(!is_excluded("Notes "));
    assert!(!is_excluded("List of states"));
    assert!(!is_excluded(""));
}

#[test]
fn standard_config() {
    let c = Config::standard();
    assert_eq!(c.source_url, "https://en.wikipedia.org/wiki/List_of_sovereign_states");
    assert_eq!(c.excluded_ids.len(), 7);
    assert!(c.excludes("See_also"));
}

#[test]
fn custom_config_excludes_its_own_ids() {
    let c = Config { source_url: String::new(), excluded_ids: vec!["Menu".to_string()] };
    assert!(c.excludes("Menu"));
    assert!(!c.excludes("Notes"));
    let empty = Config { source_url: String::new(), excluded_ids: Vec::new() };
    assert!(!empty.excludes("Menu"));
}
