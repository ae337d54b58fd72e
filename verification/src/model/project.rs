//! All declarations gathered from a set of source files.

use vstd::prelude::*;

use crate::model::class::Class;
use crate::model::class::ClassV;
use crate::model::enumeration::Enumeration;
use crate::model::enumeration::EnumerationV;
use crate::model::interface::Interface;
use crate::model::interface::InterfaceV;
use crate::strutil::lemma_views_push;
use crate::strutil::views_of;

verus! {

/// The classes, interfaces and enumerations of one documentation run.
pub struct Project {
    pub classes: Vec<Class>,
    pub interfaces: Vec<Interface>,
    pub enumerations: Vec<Enumeration>,
}

/// Mathematical value of a `Project`.
#[verifier::ext_equal]
pub struct ProjectV {
    pub classes: Seq<ClassV>,
    pub interfaces: Seq<InterfaceV>,
    pub enumerations: Seq<EnumerationV>,
}

impl View for Project {
    type V = ProjectV;

    open spec fn view(&self) -> ProjectV {
        ProjectV {
            classes: views_of(self.classes@),
            interfaces: views_of(self.interfaces@),
            enumerations: views_of(self.enumerations@),
        }
    }
}

impl DeepView for Project {
    type V = ProjectV;

    open spec fn deep_view(&self) -> ProjectV {
        self.view()
    }
}

impl Project {
    /// A project with no declarations yet.
    pub fn new() -> (r: Project)
        ensures
            r@ == (ProjectV {
                classes: Seq::empty(),
                interfaces: Seq::empty(),
                enumerations: Seq::empty(),
            }),
    {
        let r = Project { classes: Vec::new(), interfaces: Vec::new(), enumerations: Vec::new() };
        assert(r@ =~~= (ProjectV {
            classes: Seq::empty(),
            interfaces: Seq::empty(),
            enumerations: Seq::empty(),
        }));
        r
    }

    /// Appends one class.
    pub fn add_class(&mut self, value: Class)
        ensures
            final(self)@ == (ProjectV { classes: old(self)@.classes.push(value@), ..old(self)@ }),
    {
        let ghost pre = self.classes@;
        let ghost v = value@;
        self.classes.push(value);
        proof {
            lemma_views_push(pre, self.classes@.last());
            assert(views_of(self.classes@) =~= views_of(pre).push(v));
        }
    }

    /// Appends one interface.
    pub fn add_interface(&mut self, value: Interface)
        ensures
            final(self)@ == (ProjectV {
                interfaces: old(self)@.interfaces.push(value@),
                ..old(self)@
            }),
    {
        let ghost pre = self.interfaces@;
        let ghost v = value@;
        self.interfaces.push(value);
        proof {
            lemma_views_push(pre, self.interfaces@.last());
            assert(views_of(self.interfaces@) =~= views_of(pre).push(v));
        }
    }

    /// Appends one enumeration.
    pub fn add_enumeration(&mut self, value: Enumeration)
        ensures
            final(self)@ == (ProjectV {
                enumerations: old(self)@.enumerations.push(value@),
                ..old(self)@
            }),
    {
        let ghost pre = self.enumerations@;
        let ghost v = value@;
        self.enumerations.push(value);
        proof {
            lemma_views_push(pre, self.enumerations@.last());
            assert(views_of(self.enumerations@) =~= views_of(pre).push(v));
        }
    }
}

} // verus!
