use spring_init::deps::{token_is_allowed, validate_dependencies};
use spring_init::strutil::{str_equal, trim_str};

#[test]
fn known_tokens_are_kept_in_order() {
    let v = validate_dependencies("web, data-jpa, bogus");
    assert_eq!(v, vec!["web".to_string(), "data-jpa".to_string()]);
}

#[test]
fn empty_input_yields_empty_set() {
    let v = validate_dependencies("");
    assert!(v.is_empty());
}

#[test]
fn whitespace_only_input_yields_empty_set() {
    let v = validate_dependencies("   \t  ");
    assert!(v.is_empty());
}

#[test]
fn unknown_tokens_are_silently_dropped() {
    let v = validate_dependencies("bogus,unknown,, nonsense ");
    assert!(v.is_empty());
}

#[test]
fn surrounding_whitespace_is_trimmed() {
    let v = validate_dependencies("  web  ,\tkafka\n, mysql ");
    assert_eq!(v, vec!["web".to_string(), "kafka".to_string(), "mysql".to_string()]);
}

#[test]
fn duplicates_pass_through_in_order() {
    let v = validate_dependencies("kafka,web,kafka");
    assert_eq!(v, vec!["kafka".to_string(), "web".to_string(), "kafka".to_string()]);
}

#[test]
fn matching_is_case_sensitive() {
    let v = validate_dependencies("Web,WEB,Data-Jpa");
    assert!(v.is_empty());
}

#[test]
fn every_allow_list_member_is_accepted() {
    let all = "web,data-jpa,security,thymeleaf,actuator,batch,kafka,devtools,mail,flyway,\
               liquibase,redis,amqp,validation,h2,web-services,graphql,cache,mysql,postgresql";
    let v = validate_dependencies(all);
    assert_eq!(v.len(), 20);
    assert_eq!(v[0], "web");
    assert_eq!(v[19], "postgresql");
}

#[test]
fn token_membership_is_exact() {
    assert!(token_is_allowed("web"));
    assert!(token_is_allowed("postgresql"));
    assert!(!token_is_allowed("Web"));
    assert!(!token_is_allowed(""));
    assert!(!token_is_allowed("web "));
    assert!(!token_is_allowed("webb"));
}

#[test]
fn trim_removes_only_surrounding_whitespace() {
    assert_eq!(trim_str("  a b  "), "a b");
    assert_eq!(trim_str("\t\nweb\r "), "web");
    assert_eq!(trim_str("web"), "web");
    assert_eq!(trim_str("   "), "");
    assert_eq!(trim_str(""), "");
}

#[test]
fn string_equality_compares_characters() {
    assert!(str_equal("abc", "abc"));
    assert!(!str_equal("abc", "abd"));
    assert!(!str_equal("abc", "abcd"));
    assert!(str_equal("", ""));
}
