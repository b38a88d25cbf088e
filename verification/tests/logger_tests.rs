use sahakari::logger::{wrap_line, LogLevel, Logger};
use sahakari::text::{contains_str, ends_with_str, path_basename, starts_with_str, str_eq};
use sahakari::config::Config;

#[test]
fn wrap_line_cuts_exact_chunks() {
    assert_eq!(wrap_line("abcdefgh", 3), vec!["abc", "def", "gh"]);
    assert_eq!(wrap_line("abcdef", 3), vec!["abc", "def"]);
    assert_eq!(wrap_line("ab", 3), vec!["ab"]);
    assert_eq!(wrap_line("", 3), Vec::<String>::new());
    assert_eq!(wrap_line("abc", 1), vec!["a", "b", "c"]);
}

#[test]
fn level_labels_are_fixed_width() {
    assert_eq!(LogLevel::Info.label(), "INFO ");
    assert_eq!(LogLevel::Warning.label(), "WARN ");
    assert_eq!(LogLevel::Error.label(), "ERROR");
}

#[test]
fn logger_appends_and_filters_by_level() {
    let mut logger = Logger::new("/tmp/logs");
    assert_eq!(logger.log_path(), "/tmp/logs");
    logger.log(LogLevel::Info, "starting", None, "t1");
    logger.log(LogLevel::Error, "step failed", Some("exit 1"), "t2");
    logger.log(LogLevel::Info, "done", None, "t3");
    let all = logger.get_logs(None);
    assert_eq!(all.len(), 3);
    assert_eq!(all[1].message, "step failed");
    assert_eq!(all[1].details.as_deref(), Some("exit 1"));
    let errors = logger.get_logs(Some(LogLevel::Error));
    assert_eq!(errors.len(), 1);
    assert_eq!(errors[0].timestamp, "t2");
    assert_eq!(errors[0].level, LogLevel::Error);
    let warnings = logger.get_logs(Some(LogLevel::Warning));
    assert!(warnings.is_empty());
}

#[test]
fn string_predicates_match_their_specifications() {
    assert!(str_eq("abc", "abc"));
    assert!(!str_eq("abc", "abd"));
    assert!(!str_eq("abc", "abcd"));
    assert!(contains_str("database/migrations/m.php", "migrations"));
    assert!(!contains_str("app/Models/User.php", "migrations"));
    assert!(contains_str("x", ""));
    assert!(ends_with_str("app.js", ".js"));
    assert!(!ends_with_str("app.json", ".js"));
    assert!(!ends_with_str("s", ".js"));
    assert!(starts_with_str("https://host", "https://"));
    assert!(!starts_with_str("http://host", "https://"));
}

#[test]
fn basename_takes_the_final_component() {
    assert_eq!(path_basename("/srv/parent/.builds/0a1b2c"), "0a1b2c");
    assert_eq!(path_basename("plain"), "plain");
    assert_eq!(path_basename("dir/"), "");
    assert_eq!(path_basename(""), "");
}

#[test]
fn default_config_is_rooted_in_home() {
    let c = Config::default_for_home("/home/op");
    assert_eq!(c.projects_root, "/var/www/html");
    assert_eq!(c.log_path, "/home/op/.sahakari/logs");
    assert_eq!(c.state_path, "/home/op/.sahakari/state");
}

#[test]
fn with_root_replaces_only_the_root() {
    let c = Config::default_for_home("/home/op");
    let c2 = c.with_root("/srv/www");
    assert_eq!(c2.projects_root, "/srv/www");
    assert_eq!(c2.log_path, c.log_path);
    assert_eq!(c2.state_path, c.state_path);
}
