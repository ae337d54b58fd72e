use lojidoc::lint::lint_method;
use lojidoc::lint::lint_method_with;
use lojidoc::lint::lint_project;
use lojidoc::lint::lint_var;
use lojidoc::lint::lint_var_with;
use lojidoc::model::member::Member;
use lojidoc::model::method::Method;
use lojidoc::model::object::Object;
use lojidoc::model::param::Param;
use lojidoc::model::project::Project;

#[test]
fn test_lint_method_with_prefixes() {
    let mut method = Method::new();
    method.ch_method_name("foo".to_string());
    method.ch_line_num("3".to_string());
    method.ch_return_type("int".to_string());
    method.add_param(Param {
        desc: String::new(),
        name: "x".to_string(),
        var_type: "int".to_string(),
    });
    let report = lint_method_with(&method, "D ", "R ", "P ");
    assert_eq!("D foo (Line: 3)\nP x in method: foo (Line: 3)\n", report.as_str());
}

#[test]
fn test_lint_method_clean() {
    let mut method = Method::new();
    method.ch_method_name("foo".to_string());
    method.ch_description("Does things.".to_string());
    method.ch_return_type("int".to_string());
    let report = lint_method(&method);
    assert_eq!("", report.as_str());
}

#[test]
fn test_lint_var_with_prefixes() {
    let mut var = Member::new();
    var.ch_name("count".to_string());
    var.ch_line_number("9".to_string());
    let report = lint_var_with(&var, "D ", "T ");
    assert_eq!("D count (Line: 9)\nT count (Line: 9)\n", report.as_str());
}

#[test]
fn test_lint_var_clean() {
    let mut var = Member::new();
    var.ch_name("count".to_string());
    var.ch_type("int".to_string());
    var.ch_signature("int count".to_string());
    let mut described = var.clone();
    described.ch_name("other".to_string());
    described.ch_line_number("4".to_string());
    let mut with_desc = described.clone();
    with_desc.desc = "A counter.".to_string();
    let report = lint_var(&with_desc);
    assert_eq!("", report.as_str());
}

#[test]
fn test_lint_project_empty_when_documented() {
    let mut object = Object::new();
    object.ch_name("Foo".to_string());
    let mut method = Method::new();
    method.ch_method_name("bar".to_string());
    method.ch_description("Fine.".to_string());
    method.ch_return_type("int".to_string());
    object.add_method(method);
    let class = object.to_class();
    let mut proj = Project::new();
    proj.add_class(class);
    let report = lint_project(proj);
    assert_eq!("", report.as_str());
}

#[test]
fn test_lint_project_reports_missing() {
    let mut object = Object::new();
    object.ch_name("Foo".to_string());
    let mut method = Method::new();
    method.ch_method_name("bar".to_string());
    object.add_method(method);
    let class = object.to_class();
    let mut proj = Project::new();
    proj.add_class(class);
    let report = lint_project(proj);
    assert!(!report.is_empty());
    assert!(report.contains("Foo"));
    assert!(report.contains("bar"));
}

#[test]
fn test_lint_project_reports_interface() {
    let mut object = Object::new();
    object.ch_name("Iface".to_string());
    let mut method = Method::new();
    method.ch_method_name("poke".to_string());
    object.add_method(method);
    let inter = object.to_interface();
    let mut proj = Project::new();
    proj.add_interface(inter);
    let report = lint_project(proj);
    assert!(report.contains("Iface"));
    assert!(report.contains("poke"));
}
