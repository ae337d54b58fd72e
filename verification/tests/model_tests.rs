use lojidoc::model::contents::ApplicationDoc;
use lojidoc::model::method::Method;
use lojidoc::model::object::Object;

#[test]
fn test_class_impl() {
    let mut object = Object::new();
    object.ch_name(String::from("sample"));
    object.ch_package_name("com.stuff.package".to_string());
    object.ch_access("private".to_string());
    object.ch_author("jim smith".to_string());
    let class = object.to_class();

    assert_eq!("sample", object.name.as_str());
    assert_eq!("private", object.access.as_str());
    assert_eq!("com.stuff.package", object.package_name.as_str());
    assert_eq!("com.stuff.package", class.package_name.as_str());
    assert_eq!("sample", class.name.as_str());
    assert_eq!("private", class.access.as_str());
}

#[test]
fn test_method_impl() {
    let mut method = Method::new();
    method.ch_method_name("sample".to_string());
    method.ch_privacy("private".to_string());
    let mut method2 = method.clone();
    method2.ch_method_name("sample2".to_string());

    assert_eq!("sample", method.name.as_str());
    assert_eq!("sample2", method2.name.as_str());
    assert_eq!("private", method2.privacy.as_str());
}

#[test]
fn test_object_version_author() {
    let mut object = Object::new();
    object.ch_version("2.4".to_string());
    object.ch_author("ann".to_string());
    let class = object.to_class();
    assert_eq!("2.4", class.version.as_str());
    assert_eq!("ann", class.author.as_str());
    let inter = object.to_interface();
    assert_eq!("2.4", inter.version.as_str());
    let en = object.to_enumeration();
    assert_eq!("2.4", en.version.as_str());
}

#[test]
fn test_add_package_class() {
    let mut app = ApplicationDoc::new();
    app.add_package_class("com.a".to_string(), "One".to_string());
    app.add_package_class("com.a".to_string(), "Two".to_string());
    app.add_package_class("com.b".to_string(), "Three".to_string());
    assert_eq!(2, app.packages.len());
    assert_eq!("com.a", app.packages[0].name.as_str());
    assert_eq!(2, app.packages[0].members.len());
    assert_eq!("Two", app.packages[0].members[1].as_str());
    assert_eq!("com.b", app.packages[1].name.as_str());
    assert_eq!(1, app.packages[1].members.len());
}

#[test]
fn test_enumeration_builders() {
    let mut en = lojidoc::model::enumeration::Enumeration::new();
    en.ch_name("Color".to_string());
    en.ch_access("public".to_string());
    en.ch_version("1.2".to_string());
    en.add_field(lojidoc::model::enumeration::EnumField {
        name: "RED".to_string(),
        value: "0xFF0000".to_string(),
    });
    en.add_dependency("java.util.List".to_string());
    let copy = en.clone();
    assert_eq!("Color", copy.name.as_str());
    assert_eq!("public", copy.access.as_str());
    assert_eq!("1.2", copy.version.as_str());
    assert_eq!(1, copy.fields.len());
    assert_eq!("RED", copy.fields[0].name.as_str());
    assert_eq!("0xFF0000", copy.fields[0].clone().value.as_str());
    assert_eq!("java.util.List", copy.dependencies[0].as_str());
}

#[test]
fn test_exception_and_param_clone() {
    let e = lojidoc::model::exception::Exception {
        exception_type: "IOException".to_string(),
        desc: "on failure".to_string(),
    };
    let e2 = e.clone();
    assert_eq!("IOException", e2.exception_type.as_str());
    assert_eq!("on failure", e2.desc.as_str());

    let p = lojidoc::model::param::Param {
        desc: "d".to_string(),
        name: "n".to_string(),
        var_type: "t".to_string(),
    };
    let p2 = p.clone();
    assert_eq!("d", p2.desc.as_str());
    assert_eq!("n", p2.name.as_str());
    assert_eq!("t", p2.var_type.as_str());
}

#[test]
fn test_project_and_interface_clone() {
    let mut object = lojidoc::model::object::Object::new();
    object.ch_name("I".to_string());
    object.ch_state(lojidoc::model::object::ObjectState::Interface);
    let inter = object.to_interface();
    let copy = inter.clone();
    assert_eq!("I", copy.name.as_str());
    assert_eq!(inter.file_path, copy.file_path);

    let mut proj = lojidoc::model::project::Project::new();
    proj.add_interface(copy);
    proj.add_enumeration(lojidoc::model::enumeration::Enumeration::new());
    assert_eq!(1, proj.interfaces.len());
    assert_eq!(1, proj.enumerations.len());
    assert_eq!(0, proj.classes.len());
}
