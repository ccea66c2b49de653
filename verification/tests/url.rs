use spring_init::request::{build_url, join_commas, ProjectRequest};

#[test]
fn end_to_end_url_for_demo_project() {
    let request = ProjectRequest::new("demo", "com.example.demo", "web, data-jpa, bogus");
    assert_eq!(request.dependencies, vec!["web".to_string(), "data-jpa".to_string()]);
    let url = request.url();
    assert_eq!(
        url,
        "https://start.spring.io/starter.zip?type=maven-project&language=java&bootVersion=3.2.0\
         &baseDir=demo&artifactId=demo&name=demo&packageName=com.example.demo\
         &dependencies=web,data-jpa"
    );
}

#[test]
fn empty_dependency_set_gives_empty_parameter() {
    let request = ProjectRequest::new("demo", "com.example.demo", "");
    assert!(request.dependencies.is_empty());
    let url = request.url();
    assert!(url.ends_with("&dependencies="));
    assert_eq!(
        url,
        "https://start.spring.io/starter.zip?type=maven-project&language=java&bootVersion=3.2.0\
         &baseDir=demo&artifactId=demo&name=demo&packageName=com.example.demo&dependencies="
    );
}

#[test]
fn url_contains_all_variable_fields_verbatim() {
    let deps = vec!["kafka".to_string(), "redis".to_string()];
    let url = build_url("myproj", "org.example.app", &deps);
    assert!(url.starts_with("https://"));
    assert!(url.contains("&baseDir=myproj&"));
    assert!(url.contains("&artifactId=myproj&"));
    assert!(url.contains("&name=myproj&"));
    assert!(url.contains("&packageName=org.example.app&"));
    assert!(url.ends_with("&dependencies=kafka,redis"));
}

#[test]
fn join_commas_matches_expected_values() {
    assert_eq!(join_commas(&vec![]), "");
    assert_eq!(join_commas(&vec!["web".to_string()]), "web");
    assert_eq!(
        join_commas(&vec!["web".to_string(), "data-jpa".to_string(), "h2".to_string()]),
        "web,data-jpa,h2"
    );
}

#[test]
fn archive_file_name_appends_zip_suffix() {
    let request = ProjectRequest::new("demo", "com.example.demo", "");
    assert_eq!(request.archive_file_name(), "demo.zip");
}
