use lojidoc::grammar::JdocToken;
use lojidoc::grammar::Stream;
use lojidoc::model::doc::Doc;
use lojidoc::model::exception::Exception;
use lojidoc::model::method::Method;
use lojidoc::model::object::ObjectType;
use lojidoc::model::param::Param;
use lojidoc::parse::ast::construct_ast;
use lojidoc::parse::builders::get_method;
use lojidoc::parse::builders::match_params;
use lojidoc::parse::docparse::get_doc;
use lojidoc::parse::lexer::lex_contents;

#[test]
fn test_param_match() {
    let mut method = Method::new();
    let mut params: Vec<Param> = Vec::new();

    method.add_param(Param {
        desc: String::new(),
        name: String::from("testParam1"),
        var_type: String::from("String"),
    });
    method.add_param(Param {
        desc: String::new(),
        name: String::from("mapOfLists"),
        var_type: String::from("Map<String, List<String>>"),
    });
    method.add_param(Param {
        desc: String::new(),
        name: String::from("ParamEdgeCase1_IHOPEThisWorks"),
        var_type: String::from("Map<List<Object>, Map<String, List<String>>>"),
    });
    params.push(Param {
        desc: String::from("A map of lists"),
        name: String::from("mapOfLists"),
        var_type: String::new(),
    });
    params.push(Param {
        desc: String::from("A sample string parameter"),
        name: String::from("testParam1"),
        var_type: String::new(),
    });
    params.push(Param {
        desc: String::from("An edge case parameter :)"),
        name: String::from("ParamEdgeCase1_IHOPEThisWorks"),
        var_type: String::new(),
    });

    let res = match_params(&method, &params);

    assert_eq!(res[0].name, String::from("testParam1"));
    assert_eq!(res[0].desc, String::from("A sample string parameter"));
    assert_eq!(res[0].var_type, String::from("String"));

    assert_eq!(res[1].name, String::from("mapOfLists"));
    assert_eq!(res[1].desc, String::from("A map of lists"));
    assert_eq!(res[1].var_type, String::from("Map<String, List<String>>"));

    assert_eq!(res[2].name, String::from("ParamEdgeCase1_IHOPEThisWorks"));
    assert_eq!(res[2].desc, String::from("An edge case parameter :)"));
    assert_eq!(
        res[2].var_type,
        String::from("Map<List<Object>, Map<String, List<String>>>")
    );
}

#[test]
fn test_param_match_declared_order_and_sentinel() {
    let mut method = Method::new();
    method.add_param(Param {
        desc: String::new(),
        name: String::from("a"),
        var_type: String::from("int"),
    });
    method.add_param(Param {
        desc: String::new(),
        name: String::from("b"),
        var_type: String::from("int"),
    });
    method.add_param(Param {
        desc: String::new(),
        name: String::from("c"),
        var_type: String::from("int"),
    });
    let mut documented: Vec<Param> = Vec::new();
    documented.push(Param {
        desc: String::from("B"),
        name: String::from("b"),
        var_type: String::new(),
    });
    documented.push(Param {
        desc: String::from("A"),
        name: String::from("a"),
        var_type: String::new(),
    });

    let res = match_params(&method, &documented);

    assert_eq!(3, res.len());
    assert_eq!("a", res[0].name.as_str());
    assert_eq!("A", res[0].desc.as_str());
    assert_eq!("b", res[1].name.as_str());
    assert_eq!("B", res[1].desc.as_str());
    assert_eq!("c", res[2].name.as_str());
    assert_eq!("No description found", res[2].desc.as_str());
}

#[test]
fn test_doc_param_return() {
    let mut tokens: Vec<JdocToken> = Vec::new();
    tokens.push(JdocToken::Keyword(String::from("@param")));
    tokens.push(JdocToken::Symbol(String::from("x")));
    tokens.push(JdocToken::Symbol(String::from("hello")));
    tokens.push(JdocToken::Keyword(String::from("@return")));
    tokens.push(JdocToken::Symbol(String::from("world")));

    let doc = get_doc(&tokens);

    assert_eq!(1, doc.params.len());
    assert_eq!("x", doc.params[0].name.as_str());
    assert_eq!("hello", doc.params[0].desc.as_str());
    assert_eq!("world", doc.return_desc.as_str());
}

#[test]
fn test_doc_throws_and_deprecated() {
    let mut tokens: Vec<JdocToken> = Vec::new();
    tokens.push(JdocToken::Keyword(String::from("@throws")));
    tokens.push(JdocToken::Symbol(String::from("IOException")));
    tokens.push(JdocToken::Symbol(String::from("on")));
    tokens.push(JdocToken::Symbol(String::from("failure")));
    tokens.push(JdocToken::Keyword(String::from("@deprecated")));
    tokens.push(JdocToken::Symbol(String::from("old")));

    let doc = get_doc(&tokens);

    assert_eq!(1, doc.exceptions.len());
    assert_eq!("IOException", doc.exceptions[0].exception_type.as_str());
    assert_eq!("on failure", doc.exceptions[0].desc.as_str());
    assert_eq!("old", doc.deprecated.as_str());
}

#[test]
fn test_class_with_method() {
    let src = "public class Foo { public void bar() {} }";
    let tokens = lex_contents(&src.to_string());
    let result = construct_ast(tokens);
    match result {
        ObjectType::Class(class) => {
            assert_eq!("Foo", class.name.as_str());
            assert_eq!("public", class.access.as_str());
            assert_eq!(1, class.methods.len());
            assert_eq!("bar", class.methods[0].name.as_str());
            assert_eq!("", class.methods[0].return_type.as_str());
        },
        _ => panic!("expected a class"),
    }
}

#[test]
fn test_class_doc_header() {
    let src = "/** Example. @author Jane @version 1.0 */ public class Foo {";
    let tokens = lex_contents(&src.to_string());
    let result = construct_ast(tokens);
    match result {
        ObjectType::Class(class) => {
            assert_eq!("Foo", class.name.as_str());
            assert_eq!("Example.", class.description.as_str());
            assert_eq!("Jane", class.author.as_str());
            assert_eq!("1.0", class.version.as_str());
        },
        _ => panic!("expected a class"),
    }
}

#[test]
fn test_interface_method() {
    let src = "public interface I { String get(); }";
    let tokens = lex_contents(&src.to_string());
    let result = construct_ast(tokens);
    match result {
        ObjectType::Interface(inter) => {
            assert_eq!("I", inter.name.as_str());
            assert_eq!(1, inter.methods.len());
            assert_eq!("get", inter.methods[0].name.as_str());
            assert_eq!("String", inter.methods[0].return_type.as_str());
        },
        _ => panic!("expected an interface"),
    }
}

#[test]
fn test_class_extends_implements() {
    let src = "public class A extends B implements C, D {";
    let tokens = lex_contents(&src.to_string());
    let result = construct_ast(tokens);
    match result {
        ObjectType::Class(class) => {
            assert_eq!("A", class.name.as_str());
            assert_eq!("B", class.parent.as_str());
            assert_eq!(2, class.interfaces.len());
            assert_eq!("C", class.interfaces[0].as_str());
            assert_eq!("D", class.interfaces[1].as_str());
        },
        _ => panic!("expected a class"),
    }
}

#[test]
fn test_package_import_and_field() {
    let src = "package com.demo;\nimport java.util.List;\npublic class A { private int count; }";
    let tokens = lex_contents(&src.to_string());
    let result = construct_ast(tokens);
    match result {
        ObjectType::Class(class) => {
            assert_eq!("com.demo", class.package_name.as_str());
            assert_eq!(1, class.dependencies.len());
            assert_eq!("java.util.List", class.dependencies[0].as_str());
            assert_eq!(1, class.variables.len());
            assert_eq!("count", class.variables[0].name.as_str());
            assert_eq!("int", class.variables[0].var_type.as_str());
            assert_eq!("private", class.variables[0].access.as_str());
            assert_eq!("3", class.variables[0].line_num.as_str());
        },
        _ => panic!("expected a class"),
    }
}

#[test]
fn test_enum_declaration() {
    // An enum header sets the declaration kind, but only class and
    // interface headers are interpreted by the header builder, so the
    // name slot stays empty.
    let src = "public enum Color {";
    let tokens = lex_contents(&src.to_string());
    let result = construct_ast(tokens);
    match result {
        ObjectType::Enumeration(en) => {
            assert_eq!("", en.name.as_str());
        },
        _ => panic!("expected an enumeration"),
    }
}

#[test]
fn test_empty_input_is_class() {
    let tokens = lex_contents(&String::new());
    let result = construct_ast(tokens);
    match result {
        ObjectType::Class(class) => {
            assert_eq!("", class.name.as_str());
            assert_eq!(0, class.methods.len());
            assert_eq!(0, class.variables.len());
        },
        _ => panic!("expected a class"),
    }
}

#[test]
fn test_parse_idempotent() {
    let src = "/** Doc. @author Jane */ public class Foo extends Bar { private int x; public String get() {} }";
    let first = construct_ast(lex_contents(&src.to_string()));
    let second = construct_ast(lex_contents(&src.to_string()));
    match (first, second) {
        (ObjectType::Class(a), ObjectType::Class(b)) => {
            assert_eq!(a.name, b.name);
            assert_eq!(a.access, b.access);
            assert_eq!(a.parent, b.parent);
            assert_eq!(a.description, b.description);
            assert_eq!(a.author, b.author);
            assert_eq!(a.methods.len(), b.methods.len());
            assert_eq!(a.methods[0].name, b.methods[0].name);
            assert_eq!(a.methods[0].return_type, b.methods[0].return_type);
            assert_eq!(a.variables.len(), b.variables.len());
            assert_eq!(a.variables[0].name, b.variables[0].name);
            let da = lojidoc::document::gen_class_docs(a);
            let db = lojidoc::document::gen_class_docs(b);
            assert_eq!(da, db);
        },
        _ => panic!("expected two classes"),
    }
}

#[test]
fn test_annotation_arguments_skipped() {
    let src = "@Override(value) public class A {";
    let tokens = lex_contents(&src.to_string());
    let result = construct_ast(tokens);
    match result {
        ObjectType::Class(class) => {
            assert_eq!("A", class.name.as_str());
            assert_eq!("public", class.access.as_str());
        },
        _ => panic!("expected a class"),
    }
}

#[test]
fn test_param_match_first_documented_entry_wins() {
    let mut method = Method::new();
    method.add_param(Param {
        desc: String::new(),
        name: String::from("a"),
        var_type: String::from("int"),
    });
    let mut documented: Vec<Param> = Vec::new();
    documented.push(Param {
        desc: String::from("first"),
        name: String::from("a"),
        var_type: String::new(),
    });
    documented.push(Param {
        desc: String::from("second"),
        name: String::from("a"),
        var_type: String::new(),
    });

    let res = match_params(&method, &documented);

    assert_eq!(1, res.len());
    assert_eq!("a", res[0].name.as_str());
    assert_eq!("first", res[0].desc.as_str());
}

#[test]
fn test_method_throws_positional_pairing() {
    let mut gram: Vec<Stream> = Vec::new();
    gram.push(Stream::Exception);
    gram.push(Stream::Variable("IOException".to_string()));
    gram.push(Stream::Variable("SQLException".to_string()));
    let mut doc = Doc::new();
    doc.exceptions.push(Exception {
        exception_type: "IOException".to_string(),
        desc: "on broken pipes".to_string(),
    });

    let method = get_method(&gram, &doc, "4".to_string());

    assert_eq!(2, method.exceptions.len());
    assert_eq!("IOException", method.exceptions[0].exception_type.as_str());
    assert_eq!("on broken pipes", method.exceptions[0].desc.as_str());
    assert_eq!("SQLException", method.exceptions[1].exception_type.as_str());
    assert_eq!("", method.exceptions[1].desc.as_str());
}

#[test]
fn test_method_throws_undocumented_kept() {
    let mut gram: Vec<Stream> = Vec::new();
    gram.push(Stream::Exception);
    gram.push(Stream::Variable("IOException".to_string()));

    let method = get_method(&gram, &Doc::new(), "2".to_string());

    assert_eq!(1, method.exceptions.len());
    assert_eq!("IOException", method.exceptions[0].exception_type.as_str());
    assert_eq!("", method.exceptions[0].desc.as_str());
}

#[test]
fn test_return_type_not_replaced_by_return_doc() {
    let mut gram: Vec<Stream> = Vec::new();
    gram.push(Stream::Type("String".to_string()));
    gram.push(Stream::Variable("get".to_string()));
    let mut doc = Doc::new();
    doc.return_desc = "the stored value".to_string();

    let method = get_method(&gram, &doc, "6".to_string());

    assert_eq!("get", method.name.as_str());
    assert_eq!("String", method.return_type.as_str());
}
