use lojidoc::document::gen_class_docs;
use lojidoc::document::gen_interface_docs;
use lojidoc::document::gen_method_docs;
use lojidoc::document::gen_var_docs;
use lojidoc::document::is_java_file;
use lojidoc::document::is_repo_dir;
use lojidoc::document::md_file_stem;
use lojidoc::model::class::Class;
use lojidoc::model::member::Member;
use lojidoc::model::method::Method;
use lojidoc::model::object::Object;
use lojidoc::model::param::Param;
use lojidoc::strutil::dec_string;
use lojidoc::strutil::trim_text;

#[test]
fn test_gen_class_docs_empty() {
    let class = Class::new();
    let doc = gen_class_docs(class);
    let expected = "# Class \n\nAccess:   \npackage:   \n\n## Dependencies\n\n<details>  \n  <summary>  \n    Show dependencies  \n  </summary>  \n  <ul>  \n  </ul>  \n</details>  \n\n";
    assert_eq!(expected, doc.as_str());
}

#[test]
fn test_gen_class_docs_filled() {
    let mut object = Object::new();
    object.ch_name("Foo".to_string());
    object.ch_access("public".to_string());
    object.ch_description("A demo.".to_string());
    object.ch_author("Jane".to_string());
    object.ch_package_name("com.demo".to_string());
    object.add_dependency("java.util.List".to_string());
    let class = object.to_class();
    let doc = gen_class_docs(class);
    let expected = "# Class Foo\n\nAccess: public  \nDescription:  \n > A demo.  \n\nAuthor: Jane  \npackage: com.demo  \n\n## Dependencies\n\n<details>  \n  <summary>  \n    Show dependencies  \n  </summary>  \n  <ul>  \n<li>java.util.List</li>\n  </ul>  \n</details>  \n\n";
    assert_eq!(expected, doc.as_str());
}

#[test]
fn test_gen_interface_docs_basic() {
    let mut object = Object::new();
    object.ch_name("I".to_string());
    object.ch_access("public".to_string());
    object.ch_package_name("com.demo".to_string());
    let inter = object.to_interface();
    let doc = gen_interface_docs(inter);
    let expected = "# Interface I\n\nprivacy: public  \npackage: com.demo  \n\n## Dependencies\n\n<details>  \n  <summary>  \n    Show dependencies  \n  </summary>  \n  <ul>  \n  </ul>  \n</details>  \n\n";
    assert_eq!(expected, doc.as_str());
}

#[test]
fn test_gen_var_docs_empty_and_filled() {
    let none = gen_var_docs(Vec::new(), String::new());
    assert_eq!("## No member variables in this class\n\n", none.as_str());

    let mut member = Member::new();
    member.ch_name("count".to_string());
    member.ch_type("int".to_string());
    let mut vars = Vec::new();
    vars.push(member);
    let doc = gen_var_docs(vars, String::new());
    let expected = "## Member Variables\n\n#### int count\n\n+ Access: package-private  \n\n";
    assert_eq!(expected, doc.as_str());
}

#[test]
fn test_gen_method_docs_filled() {
    let none = gen_method_docs(Vec::new(), String::new());
    assert_eq!("## No methods in this class\n\n", none.as_str());

    let mut method = Method::new();
    method.ch_method_name("bar".to_string());
    method.ch_privacy("public".to_string());
    method.ch_return_type("int".to_string());
    method.ch_description("Adds.".to_string());
    method.add_param(Param {
        desc: "left side".to_string(),
        name: "a".to_string(),
        var_type: "int".to_string(),
    });
    let mut methods = Vec::new();
    methods.push(method);
    let doc = gen_method_docs(methods, String::new());
    let expected = "## Methods\n\n### bar\n\n+ Description: Adds.  \n+ Access: public  \n+ return: int  \n\n| Name | Type | Description |  \n| ----- | ----- | ----- |  \n| a | int | left side |  \n\n\n";
    assert_eq!(expected, doc.as_str());
}

#[test]
fn test_is_java_file() {
    assert!(is_java_file("Foo.java"));
    assert!(is_java_file("dir.with.dots/Foo.java"));
    assert!(!is_java_file("Foo.rs"));
    assert!(!is_java_file("java.txt"));
}

#[test]
fn test_is_repo_dir() {
    assert!(is_repo_dir("/home/user/project/.git"));
    assert!(is_repo_dir("/home/user/project/.hg"));
    assert!(!is_repo_dir("/home/user/.git/objects"));
    assert!(!is_repo_dir("/home/user/project/src"));
}

#[test]
fn test_md_file_stem() {
    let stem = md_file_stem("Foo.md");
    assert_eq!(Some("Foo".to_string()), stem);
    assert_eq!(None, md_file_stem("Foo.java"));
}

#[test]
fn test_dec_string() {
    assert_eq!("0", dec_string(0).as_str());
    assert_eq!("7", dec_string(7).as_str());
    assert_eq!("10", dec_string(10).as_str());
    assert_eq!("905", dec_string(905).as_str());
}

#[test]
fn test_trim_text() {
    assert_eq!("abc", trim_text("  abc\r\n").as_str());
    assert_eq!("", trim_text(" \t ").as_str());
    assert_eq!("a b", trim_text("a b").as_str());
}
