// Behaviour of the rule table and normalizer, exercised through the real
// regex engine.

use voxi::rules::RuleTable;

fn env(body: &str) -> String {
    format!("<speak version='1.0'>{}<silence msec='2000'/></speak>", body)
}

#[test]
fn escaping_applied_exactly_once() {
    let t = RuleTable::standard();
    assert_eq!(t.normalize("a & b"), env("a &amp; b"));
}

#[test]
fn escapes_all_five_metacharacters() {
    let t = RuleTable::standard();
    assert_eq!(
        t.normalize("<\"x\">&'y'"),
        env("&lt;&quot;x&quot;&gt;&amp;&apos;y&apos;")
    );
}

#[test]
fn divider_rules_fire_in_declared_order() {
    let t = RuleTable::standard();
    assert_eq!(t.normalize("### Hello ___ World"), env(". Hello . World"));
}

#[test]
fn whole_word_boundary_not_triggered_inside_word() {
    let t = RuleTable::standard();
    assert_eq!(t.normalize("SEOptimize"), env("SEOptimize"));
}

#[test]
fn whole_word_acronym_is_respelled() {
    let t = RuleTable::standard();
    assert_eq!(t.normalize("great SEO work"), env("great S-E-O work"));
}

#[test]
fn url_collapses_to_domain() {
    let t = RuleTable::standard();
    assert_eq!(
        t.normalize("Check https://www.example.com/path?x=1 now"),
        env("Check example.com now")
    );
}

#[test]
fn file_uri_becomes_placeholder() {
    let t = RuleTable::standard();
    assert_eq!(t.normalize("see file:///C:/tmp/x.txt"), env("see file"));
}

#[test]
fn ui_phrase_is_stripped() {
    let t = RuleTable::standard();
    assert_eq!(t.normalize("View keyboard shortcuts now"), env(" now"));
}

#[test]
fn word_rule_is_case_insensitive() {
    let t = RuleTable::standard();
    assert_eq!(t.normalize("on github today"), env("on GitHub today"));
}

#[test]
fn acronym_expands() {
    let t = RuleTable::standard();
    assert_eq!(t.normalize("tbh yes"), env("To be honest yes"));
}

#[test]
fn domain_word_rule_runs_after_url_rule() {
    let t = RuleTable::standard();
    assert_eq!(t.normalize("LeadSynth.com"), env("LeadSynth dot com"));
}

#[test]
fn every_corpus_pattern_compiles() {
    let t = RuleTable::standard();
    assert_eq!(t.len(), 83);
}

#[test]
fn emoji_literal_is_spoken() {
    let t = RuleTable::standard();
    assert_eq!(t.normalize("win üî•!"), env("win  Fire !"));
}
