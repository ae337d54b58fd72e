//! The class projection of a parsed declaration.

use vstd::prelude::*;

use crate::model::exception::clone_exceptions;
use crate::model::exception::Exception;
use crate::model::exception::ExceptionV;
use crate::model::member::clone_members;
use crate::model::member::Member;
use crate::model::member::MemberV;
use crate::model::method::clone_methods;
use crate::model::method::Method;
use crate::model::method::MethodV;
use crate::model::spring_data::spring_class_empty;
use crate::model::spring_data::spring_method_empty;
use crate::model::spring_data::SpringClass;
use crate::model::spring_data::SpringClassV;
use crate::strutil::clone_strings;
use crate::strutil::lemma_vec_views;
use crate::strutil::views_of;

verus! {

/// The documentation of one class: header data, imports, members and
/// methods.
#[derive(Debug)]
pub struct Class {
    pub file_path: String,
    pub signature: String,
    pub package_name: String,
    pub deprecation: String,
    pub license: String,
    pub parent: String,
    pub access: String,
    pub version: String,
    pub author: String,
    pub name: String,
    pub spring_data: SpringClass,
    pub description: String,
    pub exceptions: Vec<Exception>,
    pub interfaces: Vec<String>,
    pub dependencies: Vec<String>,
    pub modifiers: Vec<String>,
    pub methods: Vec<Method>,
    pub variables: Vec<Member>,
}

/// Mathematical value of a `Class`.
#[verifier::ext_equal]
pub struct ClassV {
    pub file_path: Seq<char>,
    pub signature: Seq<char>,
    pub package_name: Seq<char>,
    pub deprecation: Seq<char>,
    pub license: Seq<char>,
    pub parent: Seq<char>,
    pub access: Seq<char>,
    pub version: Seq<char>,
    pub author: Seq<char>,
    pub name: Seq<char>,
    pub spring_data: SpringClassV,
    pub description: Seq<char>,
    pub exceptions: Seq<ExceptionV>,
    pub interfaces: Seq<Seq<char>>,
    pub dependencies: Seq<Seq<char>>,
    pub modifiers: Seq<Seq<char>>,
    pub methods: Seq<MethodV>,
    pub variables: Seq<MemberV>,
}

impl View for Class {
    type V = ClassV;

    open spec fn view(&self) -> ClassV {
        ClassV {
            file_path: self.file_path@,
            signature: self.signature@,
            package_name: self.package_name@,
            deprecation: self.deprecation@,
            license: self.license@,
            parent: self.parent@,
            access: self.access@,
            version: self.version@,
            author: self.author@,
            name: self.name@,
            spring_data: self.spring_data@,
            description: self.description@,
            exceptions: views_of(self.exceptions@),
            interfaces: views_of(self.interfaces@),
            dependencies: views_of(self.dependencies@),
            modifiers: views_of(self.modifiers@),
            methods: views_of(self.methods@),
            variables: views_of(self.variables@),
        }
    }
}

impl DeepView for Class {
    type V = ClassV;

    open spec fn deep_view(&self) -> ClassV {
        self.view()
    }
}

/// The mathematical value of a freshly created class.
pub open spec fn class_empty() -> ClassV {
    ClassV {
        file_path: Seq::empty(),
        signature: Seq::empty(),
        package_name: Seq::empty(),
        deprecation: Seq::empty(),
        license: Seq::empty(),
        parent: Seq::empty(),
        access: Seq::empty(),
        version: Seq::empty(),
        author: Seq::empty(),
        name: Seq::empty(),
        spring_data: spring_class_empty(),
        description: Seq::empty(),
        exceptions: Seq::empty(),
        interfaces: Seq::empty(),
        dependencies: Seq::empty(),
        modifiers: Seq::empty(),
        methods: Seq::empty(),
        variables: Seq::empty(),
    }
}

impl Class {
    /// A class with every slot empty.
    pub fn new() -> (r: Class)
        ensures
            r@ == class_empty(),
    {
        let r = Class {
            package_name: String::new(),
            file_path: String::new(),
            signature: String::new(),
            dependencies: Vec::new(),
            deprecation: String::new(),
            license: String::new(),
            parent: String::new(),
            interfaces: Vec::new(),
            access: String::new(),
            version: String::new(),
            author: String::new(),
            name: String::new(),
            spring_data: SpringClass::new(),
            exceptions: Vec::new(),
            description: String::new(),
            modifiers: Vec::new(),
            variables: Vec::new(),
            methods: Vec::new(),
        };
        assert(r@ =~~= class_empty());
        r
    }

    /// Copies the class field for field; the framework metadata slots of the
    /// copied methods start empty.
    pub fn clone(&self) -> (r: Class)
        ensures
            r@ == (ClassV {
                methods: Seq::new(
                    self@.methods.len(),
                    |i: int| (MethodV { spring_data: spring_method_empty(), ..self@.methods[i] }),
                ),
                ..self@
            }),
    {
        let r = Class {
            parent: self.parent.clone(),
            file_path: self.file_path.clone(),
            signature: self.signature.clone(),
            package_name: self.package_name.clone(),
            license: self.license.clone(),
            dependencies: clone_strings(&self.dependencies),
            deprecation: self.deprecation.clone(),
            access: self.access.clone(),
            version: self.version.clone(),
            author: self.author.clone(),
            name: self.name.clone(),
            spring_data: self.spring_data.clone(),
            description: self.description.clone(),
            exceptions: clone_exceptions(&self.exceptions),
            interfaces: clone_strings(&self.interfaces),
            modifiers: clone_strings(&self.modifiers),
            variables: clone_members(&self.variables),
            methods: clone_methods(&self.methods),
        };
        proof {
            lemma_vec_views(&self.dependencies);
            lemma_vec_views(&r.dependencies);
            lemma_vec_views(&self.exceptions);
            lemma_vec_views(&r.exceptions);
            lemma_vec_views(&self.interfaces);
            lemma_vec_views(&r.interfaces);
            lemma_vec_views(&self.modifiers);
            lemma_vec_views(&r.modifiers);
            lemma_vec_views(&self.variables);
            lemma_vec_views(&r.variables);
            lemma_vec_views(&self.methods);
            lemma_vec_views(&r.methods);
            assert(r@ =~~= (ClassV {
                methods: Seq::new(
                    self@.methods.len(),
                    |i: int| (MethodV { spring_data: spring_method_empty(), ..self@.methods[i] }),
                ),
                ..self@
            }));
        }
        r
    }

    /// Records the path of the source file.
    pub fn ch_file_path(&mut self, value: String)
        ensures
            final(self)@ == (ClassV { file_path: value@, ..old(self)@ }),
    {
        self.file_path = value;
    }
}

} // verus!
