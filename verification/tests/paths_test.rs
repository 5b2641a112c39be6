use cimishi::paths::{
    config_dir, config_dir_for, configs_dir, configs_dir_in, data_dir_for, local_config_dir, local_data_dir,
    local_query_dir, queries_dir, queries_dir_in, data_dir,
};

#[test]
fn config_dir_on_linux_uses_platform_dir() {
    let d = config_dir_for(false, Some("/home/u".to_string()), Some("/home/u/.cfg".to_string()));
    assert_eq!(d, "/home/u/.cfg/cimishi");
    let fallback = config_dir_for(false, Some("/home/u".to_string()), None);
    assert_eq!(fallback, "/home/u/.config/cimishi");
    let nothing = config_dir_for(false, None, None);
    assert_eq!(nothing, "./.config/cimishi");
}

#[test]
fn config_dir_on_macos_uses_dot_config() {
    let d = config_dir_for(true, Some("/Users/u".to_string()), Some("/Users/u/Library/Application Support".to_string()));
    assert_eq!(d, "/Users/u/.config/cimishi");
}

#[test]
fn data_dir_choices() {
    assert_eq!(data_dir_for(true, Some("/Users/u".to_string()), None), "/Users/u/.local/share/cimishi/data");
    assert_eq!(data_dir_for(false, None, Some("/var/d".to_string())), "/var/d/cimishi/data");
    assert_eq!(data_dir_for(false, None, None), "./.local/share/cimishi/data");
}

#[test]
fn saved_config_and_query_dirs() {
    assert_eq!(configs_dir_in("/c/cimishi"), "/c/cimishi/configs");
    assert_eq!(queries_dir_in("/c/cimishi"), "/c/cimishi/queries");
    assert_eq!(local_config_dir(), ".cimishi/config");
    assert_eq!(local_query_dir(), ".cimishi/query");
    assert_eq!(local_data_dir(), ".cimishi/data");
}

#[test]
fn configs_and_queries_sit_side_by_side_under_the_config_dir() {
    let c = configs_dir(false);
    let q = queries_dir(false);
    assert_ne!(c, q);
    let base = config_dir(false);
    assert_eq!(std::path::Path::new(&c).parent().unwrap(), std::path::Path::new(&base));
    assert_eq!(std::path::Path::new(&q).parent().unwrap(), std::path::Path::new(&base));
}

#[test]
fn data_dir_ends_with_cimishi_then_data() {
    let d = data_dir(false);
    let p = std::path::Path::new(&d);
    assert_eq!(p.file_name().unwrap(), "data");
    assert_eq!(p.parent().unwrap().file_name().unwrap(), "cimishi");
}
