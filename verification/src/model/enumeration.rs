//! The enumeration projection of a parsed declaration, and its fields.

use vstd::prelude::*;

use crate::model::exception::clone_exceptions;
use crate::model::exception::Exception;
use crate::model::exception::ExceptionV;
use crate::model::member::clone_members;
use crate::model::member::Member;
use crate::model::member::MemberV;
use crate::model::method::clone_methods;
use crate::model::method::Method;
use crate::model::method::MethodV;
use crate::model::spring_data::spring_method_empty;
use crate::strutil::clone_strings;
use crate::strutil::lemma_vec_views;
use crate::strutil::lemma_views_push;
use crate::strutil::views_of;

verus! {

/// One named constant of an enumeration.
#[derive(Debug)]
pub struct EnumField {
    pub name: String,
    pub value: String,
}

/// Mathematical value of an `EnumField`.
#[verifier::ext_equal]
pub struct EnumFieldV {
    pub name: Seq<char>,
    pub value: Seq<char>,
}

impl View for EnumField {
    type V = EnumFieldV;

    open spec fn view(&self) -> EnumFieldV {
        EnumFieldV { name: self.name@, value: self.value@ }
    }
}

impl DeepView for EnumField {
    type V = EnumFieldV;

    open spec fn deep_view(&self) -> EnumFieldV {
        self.view()
    }
}

impl EnumField {
    /// Copies the field name and value.
    pub fn clone(&self) -> (r: EnumField)
        ensures
            r@ == self@,
    {
        EnumField { name: self.name.clone(), value: self.value.clone() }
    }
}

/// Copies every enumeration field of `v`.
pub fn clone_enum_fields(v: &Vec<EnumField>) -> (r: Vec<EnumField>)
    ensures
        r.deep_view() == v.deep_view(),
{
    let mut out: Vec<EnumField> = Vec::new();
    let mut i: usize = 0;
    while i < v.len()
        invariant
            i <= v@.len(),
            views_of(out@) == views_of(v@).subrange(0, i as int),
        decreases v@.len() - i,
    {
        let ghost pre = out@;
        let c = v[i].clone();
        out.push(c);
        proof {
            lemma_views_push(pre, out@.last());
            assert(views_of(out@) =~= views_of(v@).subrange(0, i + 1));
        }
        i += 1;
    }
    proof {
        lemma_vec_views(v);
        lemma_vec_views(&out);
        assert(views_of(v@).subrange(0, v@.len() as int) =~= views_of(v@));
    }
    out
}

/// The documentation of one enumeration: header data, imports, fields,
/// members and methods.
#[derive(Debug)]
pub struct Enumeration {
    pub file_path: String,
    pub package_name: String,
    pub deprecation: String,
    pub license: String,
    pub access: String,
    pub version: String,
    pub author: String,
    pub name: String,
    pub description: String,
    pub exceptions: Vec<Exception>,
    pub interfaces: Vec<String>,
    pub dependencies: Vec<String>,
    pub modifiers: Vec<String>,
    pub fields: Vec<EnumField>,
    pub methods: Vec<Method>,
    pub variables: Vec<Member>,
}

/// Mathematical value of an `Enumeration`.
#[verifier::ext_equal]
pub struct EnumerationV {
    pub file_path: Seq<char>,
    pub package_name: Seq<char>,
    pub deprecation: Seq<char>,
    pub license: Seq<char>,
    pub access: Seq<char>,
    pub version: Seq<char>,
    pub author: Seq<char>,
    pub name: Seq<char>,
    pub description: Seq<char>,
    pub exceptions: Seq<ExceptionV>,
    pub interfaces: Seq<Seq<char>>,
    pub dependencies: Seq<Seq<char>>,
    pub modifiers: Seq<Seq<char>>,
    pub fields: Seq<EnumFieldV>,
    pub methods: Seq<MethodV>,
    pub variables: Seq<MemberV>,
}

impl View for Enumeration {
    type V = EnumerationV;

    open spec fn view(&self) -> EnumerationV {
        EnumerationV {
            file_path: self.file_path@,
            package_name: self.package_name@,
            deprecation: self.deprecation@,
            license: self.license@,
            access: self.access@,
            version: self.version@,
            author: self.author@,
            name: self.name@,
            description: self.description@,
            exceptions: views_of(self.exceptions@),
            interfaces: views_of(self.interfaces@),
            dependencies: views_of(self.dependencies@),
            modifiers: views_of(self.modifiers@),
            fields: views_of(self.fields@),
            methods: views_of(self.methods@),
            variables: views_of(self.variables@),
        }
    }
}

impl DeepView for Enumeration {
    type V = EnumerationV;

    open spec fn deep_view(&self) -> EnumerationV {
        self.view()
    }
}

/// The mathematical value of a freshly created enumeration.
pub open spec fn enumeration_empty() -> EnumerationV {
    EnumerationV {
        file_path: Seq::empty(),
        package_name: Seq::empty(),
        deprecation: Seq::empty(),
        license: Seq::empty(),
        access: Seq::empty(),
        version: Seq::empty(),
        author: Seq::empty(),
        name: Seq::empty(),
        description: Seq::empty(),
        exceptions: Seq::empty(),
        interfaces: Seq::empty(),
        dependencies: Seq::empty(),
        modifiers: Seq::empty(),
        fields: Seq::empty(),
        methods: Seq::empty(),
        variables: Seq::empty(),
    }
}

impl Enumeration {
    /// An enumeration with every slot empty.
    pub fn new() -> (r: Enumeration)
        ensures
            r@ == enumeration_empty(),
    {
        let r = Enumeration {
            package_name: String::new(),
            file_path: String::new(),
            dependencies: Vec::new(),
            deprecation: String::new(),
            license: String::new(),
            interfaces: Vec::new(),
            access: String::new(),
            version: String::new(),
            author: String::new(),
            name: String::new(),
            exceptions: Vec::new(),
            description: String::new(),
            modifiers: Vec::new(),
            fields: Vec::new(),
            variables: Vec::new(),
            methods: Vec::new(),
        };
        assert(r@ =~~= enumeration_empty());
        r
    }

    /// Copies the enumeration field for field; the framework metadata slots
    /// of the copied methods start empty.
    pub fn clone(&self) -> (r: Enumeration)
        ensures
            r@ == (EnumerationV {
                methods: Seq::new(
                    self@.methods.len(),
                    |i: int| (MethodV { spring_data: spring_method_empty(), ..self@.methods[i] }),
                ),
                ..self@
            }),
    {
        let r = Enumeration {
            file_path: self.file_path.clone(),
            package_name: self.package_name.clone(),
            license: self.license.clone(),
            dependencies: clone_strings(&self.dependencies),
            deprecation: self.deprecation.clone(),
            access: self.access.clone(),
            version: self.version.clone(),
            author: self.author.clone(),
            name: self.name.clone(),
            description: self.description.clone(),
            exceptions: clone_exceptions(&self.exceptions),
            interfaces: clone_strings(&self.interfaces),
            modifiers: clone_strings(&self.modifiers),
            fields: clone_enum_fields(&self.fields),
            variables: clone_members(&self.variables),
            methods: clone_methods(&self.methods),
        };
        proof {
            lemma_vec_views(&self.dependencies);
            lemma_vec_views(&r.dependencies);
            lemma_vec_views(&self.exceptions);
            lemma_vec_views(&r.exceptions);
            lemma_vec_views(&self.interfaces);
            lemma_vec_views(&r.interfaces);
            lemma_vec_views(&self.modifiers);
            lemma_vec_views(&r.modifiers);
            lemma_vec_views(&self.fields);
            lemma_vec_views(&r.fields);
            lemma_vec_views(&self.variables);
            lemma_vec_views(&r.variables);
            lemma_vec_views(&self.methods);
            lemma_vec_views(&r.methods);
            assert(r@ =~~= (EnumerationV {
                methods: Seq::new(
                    self@.methods.len(),
                    |i: int| (MethodV { spring_data: spring_method_empty(), ..self@.methods[i] }),
                ),
                ..self@
            }));
        }
        r
    }

    /// Records the access level.
    pub fn ch_access(&mut self, value: String)
        ensures
            final(self)@ == (EnumerationV { access: value@, ..old(self)@ }),
    {
        self.access = value;
    }

    /// Records the license header text.
    pub fn ch_license(&mut self, value: String)
        ensures
            final(self)@ == (EnumerationV { license: value@, ..old(self)@ }),
    {
        self.license = value;
    }

    /// Records the path of the source file.
    pub fn ch_file_path(&mut self, value: String)
        ensures
            final(self)@ == (EnumerationV { file_path: value@, ..old(self)@ }),
    {
        self.file_path = value;
    }

    /// Records the package name.
    pub fn ch_package_name(&mut self, value: String)
        ensures
            final(self)@ == (EnumerationV { package_name: value@, ..old(self)@ }),
    {
        self.package_name = value;
    }

    /// Records the enumeration name.
    pub fn ch_name(&mut self, value: String)
        ensures
            final(self)@ == (EnumerationV { name: value@, ..old(self)@ }),
    {
        self.name = value;
    }

    /// Records the documented description.
    pub fn ch_description(&mut self, value: String)
        ensures
            final(self)@ == (EnumerationV { description: value@, ..old(self)@ }),
    {
        self.description = value;
    }

    /// Records the documented version.
    pub fn ch_version(&mut self, value: String)
        ensures
            final(self)@ == (EnumerationV { version: value@, ..old(self)@ }),
    {
        self.version = value;
    }

    /// Records the documented author.
    pub fn ch_author(&mut self, value: String)
        ensures
            final(self)@ == (EnumerationV { author: value@, ..old(self)@ }),
    {
        self.author = value;
    }

    /// Appends one method.
    pub fn add_method(&mut self, value: Method)
        ensures
            final(self)@ == (EnumerationV {
                methods: old(self)@.methods.push(value@),
                ..old(self)@
            }),
    {
        let ghost pre = self.methods@;
        let ghost v = value@;
        self.methods.push(value);
        proof {
            lemma_views_push(pre, self.methods@.last());
            assert(views_of(self.methods@) =~= views_of(pre).push(v));
        }
    }

    /// Appends one import dependency.
    pub fn add_dependency(&mut self, value: String)
        ensures
            final(self)@ == (EnumerationV {
                dependencies: old(self)@.dependencies.push(value@),
                ..old(self)@
            }),
    {
        let ghost pre = self.dependencies@;
        let ghost v = value@;
        self.dependencies.push(value);
        proof {
            lemma_views_push(pre, self.dependencies@.last());
            assert(views_of(self.dependencies@) =~= views_of(pre).push(v));
        }
    }

    /// Appends one enumeration field.
    pub fn add_field(&mut self, value: EnumField)
        ensures
            final(self)@ == (EnumerationV { fields: old(self)@.fields.push(value@), ..old(self)@ }),
    {
        let ghost pre = self.fields@;
        let ghost v = value@;
        self.fields.push(value);
        proof {
            lemma_views_push(pre, self.fields@.last());
            assert(views_of(self.fields@) =~= views_of(pre).push(v));
        }
    }

    /// Appends one member variable.
    pub fn add_variable(&mut self, value: Member)
        ensures
            final(self)@ == (EnumerationV {
                variables: old(self)@.variables.push(value@),
                ..old(self)@
            }),
    {
        let ghost pre = self.variables@;
        let ghost v = value@;
        self.variables.push(value);
        proof {
            lemma_views_push(pre, self.variables@.last());
            assert(views_of(self.variables@) =~= views_of(pre).push(v));
        }
    }

    /// Appends one implemented interface.
    pub fn add_interface(&mut self, value: String)
        ensures
            final(self)@ == (EnumerationV {
                interfaces: old(self)@.interfaces.push(value@),
                ..old(self)@
            }),
    {
        let ghost pre = self.interfaces@;
        let ghost v = value@;
        self.interfaces.push(value);
        proof {
            lemma_views_push(pre, self.interfaces@.last());
            assert(views_of(self.interfaces@) =~= views_of(pre).push(v));
        }
    }

    /// Appends one modifier.
    pub fn add_modifier(&mut self, value: String)
        ensures
            final(self)@ == (EnumerationV {
                modifiers: old(self)@.modifiers.push(value@),
                ..old(self)@
            }),
    {
        let ghost pre = self.modifiers@;
        let ghost v = value@;
        self.modifiers.push(value);
        proof {
            lemma_views_push(pre, self.modifiers@.last());
            assert(views_of(self.modifiers@) =~= views_of(pre).push(v));
        }
    }

    /// Appends one thrown exception.
    pub fn add_exception(&mut self, value: Exception)
        ensures
            final(self)@ == (EnumerationV {
                exceptions: old(self)@.exceptions.push(value@),
                ..old(self)@
            }),
    {
        let ghost pre = self.exceptions@;
        let ghost v = value@;
        self.exceptions.push(value);
        proof {
            lemma_views_push(pre, self.exceptions@.last());
            assert(views_of(self.exceptions@) =~= views_of(pre).push(v));
        }
    }
}

} // verus!
