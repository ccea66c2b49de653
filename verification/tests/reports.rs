use spring_init::report::{failure_report, overall_failure_report, success_report};
use spring_init::request::ProjectRequest;
use spring_init::run::Stage;

#[test]
fn success_report_lists_each_dependency() {
    let request = ProjectRequest::new("demo", "com.example.demo", "web, data-jpa, bogus");
    let report = success_report(&request);
    assert_eq!(
        report,
        "\nProject generated successfully!\nSaved on your folder Downloads \n\n\
         Project name \n  demo\nPackage name \n  com.example.demo\n\
         Dependencies\n  web\n  data-jpa\n\n"
    );
}

#[test]
fn success_report_marks_missing_dependencies() {
    let request = ProjectRequest::new("demo", "com.example.demo", "");
    let report = success_report(&request);
    assert_eq!(
        report,
        "\nProject generated successfully!\nSaved on your folder Downloads \n\n\
         Project name \n  demo\nPackage name \n  com.example.demo\n\
         Dependencies\n  No dependencies added\n\n"
    );
}

#[test]
fn failure_reports_name_the_failed_stage() {
    assert_eq!(
        failure_report(Stage::Fetch, "HTTP 500"),
        "Error fetching project: HTTP 500"
    );
    assert_eq!(
        failure_report(Stage::Persist, "read-only destination"),
        "Error creating file: read-only destination"
    );
    assert_eq!(
        overall_failure_report("HTTP 500"),
        "Error generating project: HTTP 500"
    );
}
