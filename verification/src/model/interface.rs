//! The interface projection of a parsed declaration.

use vstd::prelude::*;

use crate::model::member::clone_members;
use crate::model::member::Member;
use crate::model::member::MemberV;
use crate::model::method::clone_methods;
use crate::model::method::Method;
use crate::model::method::MethodV;
use crate::model::spring_data::spring_method_empty;
use crate::strutil::clone_strings;
use crate::strutil::lemma_vec_views;
use crate::strutil::views_of;

verus! {

/// The documentation of one interface: header data, imports, constants and
/// method templates.
#[derive(Debug)]
pub struct Interface {
    pub package_name: String,
    pub deprecation: String,
    pub access: String,
    pub file_path: String,
    pub version: String,
    pub author: String,
    pub name: String,
    pub description: String,
    pub dependencies: Vec<String>,
    pub variables: Vec<Member>,
    pub methods: Vec<Method>,
}

/// Mathematical value of an `Interface`.
#[verifier::ext_equal]
pub struct InterfaceV {
    pub package_name: Seq<char>,
    pub deprecation: Seq<char>,
    pub access: Seq<char>,
    pub file_path: Seq<char>,
    pub version: Seq<char>,
    pub author: Seq<char>,
    pub name: Seq<char>,
    pub description: Seq<char>,
    pub dependencies: Seq<Seq<char>>,
    pub variables: Seq<MemberV>,
    pub methods: Seq<MethodV>,
}

impl View for Interface {
    type V = InterfaceV;

    open spec fn view(&self) -> InterfaceV {
        InterfaceV {
            package_name: self.package_name@,
            deprecation: self.deprecation@,
            access: self.access@,
            file_path: self.file_path@,
            version: self.version@,
            author: self.author@,
            name: self.name@,
            description: self.description@,
            dependencies: views_of(self.dependencies@),
            variables: views_of(self.variables@),
            methods: views_of(self.methods@),
        }
    }
}

impl DeepView for Interface {
    type V = InterfaceV;

    open spec fn deep_view(&self) -> InterfaceV {
        self.view()
    }
}

impl Interface {
    /// Copies the interface field for field; the framework metadata slots of
    /// the copied methods start empty.
    pub fn clone(&self) -> (r: Interface)
        ensures
            r@ == (InterfaceV {
                methods: Seq::new(
                    self@.methods.len(),
                    |i: int| (MethodV { spring_data: spring_method_empty(), ..self@.methods[i] }),
                ),
                ..self@
            }),
    {
        let r = Interface {
            package_name: self.package_name.clone(),
            dependencies: clone_strings(&self.dependencies),
            deprecation: self.deprecation.clone(),
            access: self.access.clone(),
            file_path: self.file_path.clone(),
            version: self.version.clone(),
            author: self.author.clone(),
            name: self.name.clone(),
            description: self.description.clone(),
            variables: clone_members(&self.variables),
            methods: clone_methods(&self.methods),
        };
        proof {
            lemma_vec_views(&self.dependencies);
            lemma_vec_views(&r.dependencies);
            lemma_vec_views(&self.variables);
            lemma_vec_views(&r.variables);
            lemma_vec_views(&self.methods);
            lemma_vec_views(&r.methods);
            assert(r@ =~~= (InterfaceV {
                methods: Seq::new(
                    self@.methods.len(),
                    |i: int| (MethodV { spring_data: spring_method_empty(), ..self@.methods[i] }),
                ),
                ..self@
            }));
        }
        r
    }

    /// Records the path of the source file.
    pub fn ch_file_path(&mut self, value: String)
        ensures
            final(self)@ == (InterfaceV { file_path: value@, ..old(self)@ }),
    {
        self.file_path = value;
    }
}

} // verus!
