use cimishi::interactive::runner::{config_entry, entries_from_files, merge_entries, sort_by_name};
use cimishi::interactive::ConfigEntry;

fn entry(name: &str, path: &str) -> ConfigEntry {
    ConfigEntry { name: name.to_string(), path: path.to_string() }
}

#[test]
fn config_files_are_recognised_by_extension() {
    let e = config_entry("/c/daily.TOML").unwrap();
    assert_eq!(e.name, "daily");
    assert_eq!(e.path, "/c/daily.TOML");
    assert!(config_entry("/c/x.yaml").is_some());
    assert!(config_entry("/c/x.yml").is_some());
    assert!(config_entry("/c/x.json").is_some());
    assert!(config_entry("/c/x.sparql").is_none());
    assert!(config_entry("/c/README").is_none());
}

#[test]
fn scanned_entries_are_sorted_by_name() {
    let paths = vec!["/c/b.toml".to_string(), "/c/notes.txt".to_string(), "/c/a.json".to_string(), "/c/C.yaml".to_string()];
    let entries = entries_from_files(&paths);
    let names: Vec<&str> = entries.iter().map(|e| e.name.as_str()).collect();
    assert_eq!(names, vec!["C", "a", "b"]);
}

#[test]
fn sort_keeps_equal_names_in_order() {
    let sorted = sort_by_name(vec![entry("b", "1"), entry("a", "2"), entry("b", "3"), entry("ab", "4")]);
    let got: Vec<(&str, &str)> = sorted.iter().map(|e| (e.name.as_str(), e.path.as_str())).collect();
    assert_eq!(got, vec![("a", "2"), ("ab", "4"), ("b", "1"), ("b", "3")]);
}

#[test]
fn local_entries_shadow_global_ones() {
    let local = vec![entry("daily", "local/daily.toml"), entry("adhoc", "local/adhoc.toml")];
    let global = vec![entry("daily", "global/daily.toml"), entry("weekly", "global/weekly.toml")];
    let merged = merge_entries(local, global);
    let got: Vec<(&str, &str)> = merged.iter().map(|e| (e.name.as_str(), e.path.as_str())).collect();
    assert_eq!(got, vec![("adhoc", "local/adhoc.toml"), ("daily", "local/daily.toml"), ("weekly", "global/weekly.toml")]);
}
