use kannaka_tui::cli::{launch, Launch};
use kannaka_tui::config::{
    agent_name_in, binary_places, choose_name, find_kannaka_binary, load_agent_name, Place, HOME_RELEASE,
};
use kannaka_tui::settings::{parse_settings, Setting};

fn s(t: &str) -> Option<String> {
    Some(t.to_string())
}

#[test]
fn the_name_comes_from_the_configuration() {
    assert_eq!(load_agent_name(s("[agent]\nid = \"a1\"\ndisplay_name = \"Ann\"\n")), "Ann");
    assert_eq!(load_agent_name(s("[agent]\nid = \"a1\"\ndisplay_name = \"\"\n")), "a1");
    assert_eq!(load_agent_name(s("[agent]\nid = \"a1\"\n")), "a1");
    assert_eq!(load_agent_name(s("[agent]\nid = 7\n")), "unknown");
    assert_eq!(load_agent_name(s("agent = \"x\"\n")), "unknown");
    assert_eq!(load_agent_name(s("[agent\n")), "unknown");
    assert_eq!(load_agent_name(s("[llm]\nmodel = \"m\"\n")), "unknown");
    assert_eq!(load_agent_name(None), "unknown");
}

#[test]
fn a_display_name_wins_over_an_id() {
    assert_eq!(choose_name(s("Ann"), s("a1")), "Ann");
    assert_eq!(choose_name(s(""), s("a1")), "a1");
    assert_eq!(choose_name(s(""), s("")), "");
    assert_eq!(choose_name(s(""), None), "unknown");
    assert_eq!(choose_name(None, None), "unknown");
}

#[test]
fn the_binary_that_was_asked_for_wins() {
    let found = || vec![None, s("/beside/kannaka"), s("/home/kannaka.exe"), None];
    assert_eq!(find_kannaka_binary(s(" /my/kannaka "), found()), "/my/kannaka");
    assert_eq!(find_kannaka_binary(s("  "), found()), "/beside/kannaka");
    assert_eq!(find_kannaka_binary(None, found()), "/beside/kannaka");
    assert_eq!(find_kannaka_binary(None, vec![None, None, None, None]), "kannaka");
}

#[test]
fn the_places_are_looked_at_in_order() {
    let places = binary_places();
    assert_eq!(places.len(), 4);
    assert!(matches!(places[0], (Place::BesideProgram, "kannaka.exe")));
    assert!(matches!(places[1], (Place::BesideProgram, "kannaka")));
    assert!(matches!(places[2], (Place::HomeRelease, "kannaka.exe")));
    assert!(matches!(places[3], (Place::HomeRelease, "kannaka")));
    assert_eq!(HOME_RELEASE, "Source/kannaka-memory/target/release");
}

#[test]
fn flags_are_answered_before_anything_runs() {
    let v = |a: &[&str]| a.iter().map(|x| x.to_string()).collect::<Vec<String>>();
    assert_eq!(launch(&v(&[])), Launch::Run);
    assert_eq!(launch(&v(&["-h", "--version"])), Launch::Version);
    assert_eq!(launch(&v(&["x", "-V"])), Launch::Version);
    assert_eq!(launch(&v(&["--help"])), Launch::Help);
    assert_eq!(launch(&v(&["-h"])), Launch::Help);
    assert_eq!(launch(&v(&["--verbose"])), Launch::Run);
}

#[test]
fn settings_are_read_by_their_kind() {
    let text = "n = 1\nf = 1.5\nb = true\na = [1]\nd = 2020-01-01\ns = \"x\"\n[t]\nk = \"v\"\n[t.u]\nw = \"z\"\n";
    let d = parse_settings(text).unwrap();
    assert_eq!(d.text("s"), s("x"));
    for key in ["n", "f", "b", "a", "d"] {
        assert!(matches!(d.get(key), Some(Setting::Other)), "{key}");
        assert_eq!(d.text(key), None);
    }
    let table = d.get("t").unwrap();
    assert_eq!(table.text("k"), s("v"));
    assert_eq!(table.get("u").unwrap().text("w"), s("z"));
    assert!(d.get("none").is_none() && d.get("s").unwrap().get("k").is_none());
    assert!(parse_settings("[t\n").is_none());
}

#[test]
fn the_name_stands_in_the_agent_table() {
    let text = |x: &str| Setting::Text(x.to_string());
    let entry = |k: &str, v: Setting| (k.to_string(), v);
    let agent = Setting::Table(vec![entry("id", text("a1")), entry("display_name", Setting::Other)]);
    assert_eq!(agent_name_in(&Setting::Table(vec![entry("agent", agent)])), "a1");
    assert_eq!(agent_name_in(&Setting::Table(vec![entry("agent", text("x"))])), "unknown");
    assert_eq!(agent_name_in(&Setting::Table(Vec::new())), "unknown");
    let twice = Setting::Table(vec![entry("id", text("a1")), entry("id", text("a2"))]);
    assert_eq!(agent_name_in(&Setting::Table(vec![entry("agent", twice)])), "a2");
}
