//! The single mutable accumulator of one parse, and its projections.

use vstd::prelude::*;

use crate::model::class::Class;
use crate::model::class::ClassV;
use crate::model::enumeration::clone_enum_fields;
use crate::model::enumeration::EnumField;
use crate::model::enumeration::EnumFieldV;
use crate::model::enumeration::Enumeration;
use crate::model::enumeration::EnumerationV;
use crate::model::exception::clone_exceptions;
use crate::model::exception::Exception;
use crate::model::exception::ExceptionV;
use crate::model::interface::Interface;
use crate::model::interface::InterfaceV;
use crate::model::member::clone_members;
use crate::model::member::Member;
use crate::model::member::MemberV;
use crate::model::method::clone_methods;
use crate::model::method::Method;
use crate::model::method::MethodV;
use crate::model::spring_data::spring_class_empty;
use crate::model::spring_data::spring_method_empty;
use crate::model::spring_data::SpringClass;
use crate::strutil::clone_strings;
use crate::strutil::lemma_vec_views;
use crate::strutil::lemma_views_push;
use crate::strutil::views_of;

verus! {

/// Which kind of top-level declaration the accumulator has seen.
#[derive(Debug, Clone, Copy, PartialEq, Eq, Structural)]
pub enum ObjectState {
    Class,
    Interface,
    Enumeration,
    Unset,
}

/// The declaration builder: the one mutable accumulator of a parse, filled
/// token by token and projected once at end of input.
#[derive(Debug)]
pub struct Object {
    pub state: ObjectState,
    pub file_path: String,
    pub signature: String,
    pub package_name: String,
    pub deprecation: String,
    pub license: String,
    pub parent: String,
    pub access: String,
    pub version: String,
    pub author: String,
    pub name: String,
    pub description: String,
    pub exceptions: Vec<Exception>,
    pub interfaces: Vec<String>,
    pub dependencies: Vec<String>,
    pub fields: Vec<EnumField>,
    pub modifiers: Vec<String>,
    pub methods: Vec<Method>,
    pub variables: Vec<Member>,
}

/// Mathematical value of an `Object`.
#[verifier::ext_equal]
pub struct ObjectV {
    pub state: ObjectState,
    pub file_path: Seq<char>,
    pub signature: Seq<char>,
    pub package_name: Seq<char>,
    pub deprecation: Seq<char>,
    pub license: Seq<char>,
    pub parent: Seq<char>,
    pub access: Seq<char>,
    pub version: Seq<char>,
    pub author: Seq<char>,
    pub name: Seq<char>,
    pub description: Seq<char>,
    pub exceptions: Seq<ExceptionV>,
    pub interfaces: Seq<Seq<char>>,
    pub dependencies: Seq<Seq<char>>,
    pub fields: Seq<EnumFieldV>,
    pub modifiers: Seq<Seq<char>>,
    pub methods: Seq<MethodV>,
    pub variables: Seq<MemberV>,
}

impl View for Object {
    type V = ObjectV;

    open spec fn view(&self) -> ObjectV {
        ObjectV {
            state: self.state,
            file_path: self.file_path@,
            signature: self.signature@,
            package_name: self.package_name@,
            deprecation: self.deprecation@,
            license: self.license@,
            parent: self.parent@,
            access: self.access@,
            version: self.version@,
            author: self.author@,
            name: self.name@,
            description: self.description@,
            exceptions: views_of(self.exceptions@),
            interfaces: views_of(self.interfaces@),
            dependencies: views_of(self.dependencies@),
            fields: views_of(self.fields@),
            modifiers: views_of(self.modifiers@),
            methods: views_of(self.methods@),
            variables: views_of(self.variables@),
        }
    }
}

impl DeepView for Object {
    type V = ObjectV;

    open spec fn deep_view(&self) -> ObjectV {
        self.view()
    }
}

/// The mathematical value of a freshly created builder.
pub open spec fn object_empty() -> ObjectV {
    ObjectV {
        state: ObjectState::Unset,
        file_path: Seq::empty(),
        signature: Seq::empty(),
        package_name: Seq::empty(),
        deprecation: Seq::empty(),
        license: Seq::empty(),
        parent: Seq::empty(),
        access: Seq::empty(),
        version: Seq::empty(),
        author: Seq::empty(),
        name: Seq::empty(),
        description: Seq::empty(),
        exceptions: Seq::empty(),
        interfaces: Seq::empty(),
        dependencies: Seq::empty(),
        fields: Seq::empty(),
        modifiers: Seq::empty(),
        methods: Seq::empty(),
        variables: Seq::empty(),
    }
}

/// The methods of `ob` with their framework metadata slots emptied, as the
/// copying projections leave them.
pub open spec fn methods_projected(ob: ObjectV) -> Seq<MethodV> {
    Seq::new(
        ob.methods.len(),
        |i: int| (MethodV { spring_data: spring_method_empty(), ..ob.methods[i] }),
    )
}

/// The class value that projecting the builder `ob` yields.
pub open spec fn object_to_class(ob: ObjectV) -> ClassV {
    ClassV {
        parent: ob.parent,
        file_path: ob.file_path,
        signature: ob.signature,
        package_name: ob.package_name,
        license: ob.license,
        dependencies: ob.dependencies,
        deprecation: ob.deprecation,
        access: ob.access,
        version: ob.version,
        author: ob.author,
        name: ob.name,
        spring_data: spring_class_empty(),
        description: ob.description,
        exceptions: ob.exceptions,
        interfaces: ob.interfaces,
        modifiers: ob.modifiers,
        methods: methods_projected(ob),
        variables: ob.variables,
    }
}

/// The interface value that projecting the builder `ob` yields.
pub open spec fn object_to_interface(ob: ObjectV) -> InterfaceV {
    InterfaceV {
        package_name: ob.package_name,
        dependencies: ob.dependencies,
        deprecation: ob.deprecation,
        access: ob.access,
        file_path: ob.file_path,
        version: ob.version,
        author: ob.author,
        name: ob.name,
        description: ob.description,
        variables: ob.variables,
        methods: methods_projected(ob),
    }
}

/// The enumeration value that projecting the builder `ob` yields.
pub open spec fn object_to_enumeration(ob: ObjectV) -> EnumerationV {
    EnumerationV {
        file_path: ob.file_path,
        package_name: ob.package_name,
        license: ob.license,
        dependencies: ob.dependencies,
        deprecation: ob.deprecation,
        access: ob.access,
        version: ob.version,
        author: ob.author,
        name: ob.name,
        description: ob.description,
        exceptions: ob.exceptions,
        interfaces: ob.interfaces,
        fields: ob.fields,
        modifiers: ob.modifiers,
        methods: methods_projected(ob),
        variables: ob.variables,
    }
}

impl Object {
    /// A builder with every slot empty.
    pub fn new() -> (r: Object)
        ensures
            r@ == object_empty(),
    {
        let r = Object {
            state: ObjectState::Unset,
            package_name: String::new(),
            file_path: String::new(),
            signature: String::new(),
            dependencies: Vec::new(),
            deprecation: String::new(),
            license: String::new(),
            parent: String::new(),
            interfaces: Vec::new(),
            access: String::new(),
            version: String::new(),
            author: String::new(),
            name: String::new(),
            exceptions: Vec::new(),
            description: String::new(),
            fields: Vec::new(),
            modifiers: Vec::new(),
            variables: Vec::new(),
            methods: Vec::new(),
        };
        assert(r@ =~~= object_empty());
        r
    }

    /// Projects the builder into a class value.
    pub fn to_class(&self) -> (r: Class)
        ensures
            r@ == object_to_class(self@),
    {
        let r = Class {
            parent: self.parent.clone(),
            file_path: self.file_path.clone(),
            signature: self.signature.clone(),
            package_name: self.package_name.clone(),
            license: self.license.clone(),
            dependencies: clone_strings(&self.dependencies),
            deprecation: self.deprecation.clone(),
            access: self.access.clone(),
            version: self.version.clone(),
            author: self.author.clone(),
            name: self.name.clone(),
            spring_data: SpringClass::new(),
            description: self.description.clone(),
            exceptions: clone_exceptions(&self.exceptions),
            interfaces: clone_strings(&self.interfaces),
            modifiers: clone_strings(&self.modifiers),
            variables: clone_members(&self.variables),
            methods: clone_methods(&self.methods),
        };
        proof {
            lemma_vec_views(&self.dependencies);
            lemma_vec_views(&r.dependencies);
            lemma_vec_views(&self.exceptions);
            lemma_vec_views(&r.exceptions);
            lemma_vec_views(&self.interfaces);
            lemma_vec_views(&r.interfaces);
            lemma_vec_views(&self.modifiers);
            lemma_vec_views(&r.modifiers);
            lemma_vec_views(&self.variables);
            lemma_vec_views(&r.variables);
            lemma_vec_views(&self.methods);
            lemma_vec_views(&r.methods);
            assert(r@ =~~= object_to_class(self@));
        }
        r
    }

    /// Projects the builder into an interface value.
    pub fn to_interface(&self) -> (r: Interface)
        ensures
            r@ == object_to_interface(self@),
    {
        let r = Interface {
            package_name: self.package_name.clone(),
            dependencies: clone_strings(&self.dependencies),
            deprecation: self.deprecation.clone(),
            access: self.access.clone(),
            file_path: self.file_path.clone(),
            version: self.version.clone(),
            author: self.author.clone(),
            name: self.name.clone(),
            description: self.description.clone(),
            variables: clone_members(&self.variables),
            methods: clone_methods(&self.methods),
        };
        proof {
            lemma_vec_views(&self.dependencies);
            lemma_vec_views(&r.dependencies);
            lemma_vec_views(&self.variables);
            lemma_vec_views(&r.variables);
            lemma_vec_views(&self.methods);
            lemma_vec_views(&r.methods);
            assert(r@ =~~= object_to_interface(self@));
        }
        r
    }

    /// Projects the builder into an enumeration value.
    pub fn to_enumeration(&self) -> (r: Enumeration)
        ensures
            r@ == object_to_enumeration(self@),
    {
        let r = Enumeration {
            file_path: self.file_path.clone(),
            package_name: self.package_name.clone(),
            license: self.license.clone(),
            dependencies: clone_strings(&self.dependencies),
            deprecation: self.deprecation.clone(),
            access: self.access.clone(),
            version: self.version.clone(),
            author: self.author.clone(),
            name: self.name.clone(),
            description: self.description.clone(),
            exceptions: clone_exceptions(&self.exceptions),
            interfaces: clone_strings(&self.interfaces),
            fields: clone_enum_fields(&self.fields),
            modifiers: clone_strings(&self.modifiers),
            variables: clone_members(&self.variables),
            methods: clone_methods(&self.methods),
        };
        proof {
            lemma_vec_views(&self.dependencies);
            lemma_vec_views(&r.dependencies);
            lemma_vec_views(&self.exceptions);
            lemma_vec_views(&r.exceptions);
            lemma_vec_views(&self.interfaces);
            lemma_vec_views(&r.interfaces);
            lemma_vec_views(&self.fields);
            lemma_vec_views(&r.fields);
            lemma_vec_views(&self.modifiers);
            lemma_vec_views(&r.modifiers);
            lemma_vec_views(&self.variables);
            lemma_vec_views(&r.variables);
            lemma_vec_views(&self.methods);
            lemma_vec_views(&r.methods);
            assert(r@ =~~= object_to_enumeration(self@));
        }
        r
    }

    /// Records the access level.
    pub fn ch_access(&mut self, value: String)
        ensures
            final(self)@ == (ObjectV { access: value@, ..old(self)@ }),
    {
        self.access = value;
    }

    /// Records the raw signature text.
    pub fn ch_signature(&mut self, value: String)
        ensures
            final(self)@ == (ObjectV { signature: value@, ..old(self)@ }),
    {
        self.signature = value;
    }

    /// Records which kind of declaration the file holds.
    pub fn ch_state(&mut self, value: ObjectState)
        ensures
            final(self)@ == (ObjectV { state: value, ..old(self)@ }),
    {
        self.state = value;
    }

    /// Records the license header text.
    pub fn ch_license(&mut self, value: String)
        ensures
            final(self)@ == (ObjectV { license: value@, ..old(self)@ }),
    {
        self.license = value;
    }

    /// Records the package name.
    pub fn ch_package_name(&mut self, value: String)
        ensures
            final(self)@ == (ObjectV { package_name: value@, ..old(self)@ }),
    {
        self.package_name = value;
    }

    /// Records the declaration name.
    pub fn ch_name(&mut self, value: String)
        ensures
            final(self)@ == (ObjectV { name: value@, ..old(self)@ }),
    {
        self.name = value;
    }

    /// Records the documented description.
    pub fn ch_description(&mut self, value: String)
        ensures
            final(self)@ == (ObjectV { description: value@, ..old(self)@ }),
    {
        self.description = value;
    }

    /// Replaces the enumeration fields.
    pub fn ch_fields(&mut self, value: Vec<EnumField>)
        ensures
            final(self)@ == (ObjectV { fields: value.deep_view(), ..old(self)@ }),
    {
        proof {
            lemma_vec_views(&value);
        }
        self.fields = value;
    }

    /// Records the parent class.
    pub fn ch_parent(&mut self, value: String)
        ensures
            final(self)@ == (ObjectV { parent: value@, ..old(self)@ }),
    {
        self.parent = value;
    }

    /// Records the documented version.
    pub fn ch_version(&mut self, value: String)
        ensures
            final(self)@ == (ObjectV { version: value@, ..old(self)@ }),
    {
        self.version = value;
    }

    /// Records the documented author.
    pub fn ch_author(&mut self, value: String)
        ensures
            final(self)@ == (ObjectV { author: value@, ..old(self)@ }),
    {
        self.author = value;
    }

    /// Appends one method.
    pub fn add_method(&mut self, value: Method)
        ensures
            final(self)@ == (ObjectV { methods: old(self)@.methods.push(value@), ..old(self)@ }),
    {
        let ghost pre = self.methods@;
        let ghost v = value@;
        self.methods.push(value);
        proof {
            lemma_views_push(pre, self.methods@.last());
            assert(views_of(self.methods@) =~= views_of(pre).push(v));
        }
    }

    /// Appends one import dependency.
    pub fn add_dependency(&mut self, value: String)
        ensures
            final(self)@ == (ObjectV {
                dependencies: old(self)@.dependencies.push(value@),
                ..old(self)@
            }),
    {
        let ghost pre = self.dependencies@;
        let ghost v = value@;
        self.dependencies.push(value);
        proof {
            lemma_views_push(pre, self.dependencies@.last());
            assert(views_of(self.dependencies@) =~= views_of(pre).push(v));
        }
    }

    /// Appends one member variable.
    pub fn add_variable(&mut self, value: Member)
        ensures
            final(self)@ == (ObjectV {
                variables: old(self)@.variables.push(value@),
                ..old(self)@
            }),
    {
        let ghost pre = self.variables@;
        let ghost v = value@;
        self.variables.push(value);
        proof {
            lemma_views_push(pre, self.variables@.last());
            assert(views_of(self.variables@) =~= views_of(pre).push(v));
        }
    }

    /// Appends one implemented interface.
    pub fn add_interface(&mut self, value: String)
        ensures
            final(self)@ == (ObjectV {
                interfaces: old(self)@.interfaces.push(value@),
                ..old(self)@
            }),
    {
        let ghost pre = self.interfaces@;
        let ghost v = value@;
        self.interfaces.push(value);
        proof {
            lemma_views_push(pre, self.interfaces@.last());
            assert(views_of(self.interfaces@) =~= views_of(pre).push(v));
        }
    }

    /// Appends one modifier.
    pub fn add_modifier(&mut self, value: String)
        ensures
            final(self)@ == (ObjectV {
                modifiers: old(self)@.modifiers.push(value@),
                ..old(self)@
            }),
    {
        let ghost pre = self.modifiers@;
        let ghost v = value@;
        self.modifiers.push(value);
        proof {
            lemma_views_push(pre, self.modifiers@.last());
            assert(views_of(self.modifiers@) =~= views_of(pre).push(v));
        }
    }

    /// Appends one thrown exception.
    pub fn add_exception(&mut self, value: Exception)
        ensures
            final(self)@ == (ObjectV {
                exceptions: old(self)@.exceptions.push(value@),
                ..old(self)@
            }),
    {
        let ghost pre = self.exceptions@;
        let ghost v = value@;
        self.exceptions.push(value);
        proof {
            lemma_views_push(pre, self.exceptions@.last());
            assert(views_of(self.exceptions@) =~= views_of(pre).push(v));
        }
    }
}

/// One parsed source file, tagged by the kind of its top-level declaration.
pub enum ObjectType {
    Class(Class),
    Interface(Interface),
    Enumeration(Enumeration),
}

/// Mathematical value of an `ObjectType`.
#[verifier::ext_equal]
pub enum ObjectTypeV {
    Class(ClassV),
    Interface(InterfaceV),
    Enumeration(EnumerationV),
}

impl View for ObjectType {
    type V = ObjectTypeV;

    open spec fn view(&self) -> ObjectTypeV {
        match self {
            ObjectType::Class(c) => ObjectTypeV::Class(c@),
            ObjectType::Interface(i) => ObjectTypeV::Interface(i@),
            ObjectType::Enumeration(e) => ObjectTypeV::Enumeration(e@),
        }
    }
}

impl DeepView for ObjectType {
    type V = ObjectTypeV;

    open spec fn deep_view(&self) -> ObjectTypeV {
        self.view()
    }
}

} // verus!
