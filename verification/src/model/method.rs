//! A method: its declaration data merged with its documentation.

use vstd::prelude::*;

use crate::model::exception::clone_exceptions;
use crate::model::exception::Exception;
use crate::model::exception::ExceptionV;
use crate::model::param::clone_params;
use crate::model::param::Param;
use crate::model::param::ParamV;
use crate::model::spring_data::spring_method_empty;
use crate::model::spring_data::SpringMethod;
use crate::model::spring_data::SpringMethodV;
use crate::strutil::clone_strings;
use crate::strutil::lemma_vec_views;
use crate::strutil::lemma_views_push;
use crate::strutil::views_of;

verus! {

/// A method gathered from a declaration and its documentation comment.
#[derive(Debug)]
pub struct Method {
    pub line_num: String,
    pub signature: String,
    pub parameters: Vec<Param>,
    pub modifiers: Vec<String>,
    pub spring_data: SpringMethod,
    pub name: String,
    pub privacy: String,
    pub description: String,
    pub exceptions: Vec<Exception>,
    pub return_type: String,
}

/// Mathematical value of a `Method`.
#[verifier::ext_equal]
pub struct MethodV {
    pub line_num: Seq<char>,
    pub signature: Seq<char>,
    pub parameters: Seq<ParamV>,
    pub modifiers: Seq<Seq<char>>,
    pub spring_data: SpringMethodV,
    pub name: Seq<char>,
    pub privacy: Seq<char>,
    pub description: Seq<char>,
    pub exceptions: Seq<ExceptionV>,
    pub return_type: Seq<char>,
}

impl View for Method {
    type V = MethodV;

    open spec fn view(&self) -> MethodV {
        MethodV {
            line_num: self.line_num@,
            signature: self.signature@,
            parameters: views_of(self.parameters@),
            modifiers: views_of(self.modifiers@),
            spring_data: self.spring_data@,
            name: self.name@,
            privacy: self.privacy@,
            description: self.description@,
            exceptions: views_of(self.exceptions@),
            return_type: self.return_type@,
        }
    }
}

impl DeepView for Method {
    type V = MethodV;

    open spec fn deep_view(&self) -> MethodV {
        self.view()
    }
}

/// The mathematical value of a freshly created method.
pub open spec fn method_empty() -> MethodV {
    MethodV {
        line_num: Seq::empty(),
        signature: Seq::empty(),
        parameters: Seq::empty(),
        modifiers: Seq::empty(),
        spring_data: spring_method_empty(),
        name: Seq::empty(),
        privacy: Seq::empty(),
        description: Seq::empty(),
        exceptions: Seq::empty(),
        return_type: Seq::empty(),
    }
}

impl Method {
    /// A method with every slot empty.
    pub fn new() -> (r: Method)
        ensures
            r@ == method_empty(),
    {
        let r = Method {
            parameters: Vec::new(),
            modifiers: Vec::new(),
            spring_data: SpringMethod::new(),
            exceptions: Vec::new(),
            line_num: String::new(),
            name: String::new(),
            signature: String::new(),
            privacy: String::new(),
            description: String::new(),
            return_type: String::new(),
        };
        assert(r@ =~~= method_empty());
        r
    }

    /// Copies the method field for field; the framework metadata slot of the
    /// copy starts empty.
    pub fn clone(&self) -> (r: Method)
        ensures
            r@ == (MethodV { spring_data: spring_method_empty(), ..self@ }),
    {
        let r = Method {
            line_num: self.line_num.clone(),
            parameters: clone_params(&self.parameters),
            modifiers: clone_strings(&self.modifiers),
            spring_data: SpringMethod::new(),
            exceptions: clone_exceptions(&self.exceptions),
            name: self.name.clone(),
            signature: self.signature.clone(),
            privacy: self.privacy.clone(),
            description: self.description.clone(),
            return_type: self.return_type.clone(),
        };
        proof {
            lemma_vec_views(&self.parameters);
            lemma_vec_views(&r.parameters);
            lemma_vec_views(&self.modifiers);
            lemma_vec_views(&r.modifiers);
            lemma_vec_views(&self.exceptions);
            lemma_vec_views(&r.exceptions);
            assert(r@ =~~= (MethodV { spring_data: spring_method_empty(), ..self@ }));
        }
        r
    }

    /// Records the source line of the declaration.
    pub fn ch_line_num(&mut self, value: String)
        ensures
            final(self)@ == (MethodV { line_num: value@, ..old(self)@ }),
    {
        self.line_num = value;
    }

    /// Records the raw signature text.
    pub fn ch_signature(&mut self, value: String)
        ensures
            final(self)@ == (MethodV { signature: value@, ..old(self)@ }),
    {
        self.signature = value;
    }

    /// Records the access level.
    pub fn ch_privacy(&mut self, value: String)
        ensures
            final(self)@ == (MethodV { privacy: value@, ..old(self)@ }),
    {
        self.privacy = value;
    }

    /// Appends one modifier.
    pub fn add_modifier(&mut self, value: String)
        ensures
            final(self)@ == (MethodV {
                modifiers: old(self)@.modifiers.push(value@),
                ..old(self)@
            }),
    {
        let ghost pre = self.modifiers@;
        let ghost v = value@;
        self.modifiers.push(value);
        proof {
            lemma_views_push(pre, self.modifiers@.last());
            assert(views_of(self.modifiers@) =~= views_of(pre).push(v));
        }
    }

    /// Records the method name.
    pub fn ch_method_name(&mut self, value: String)
        ensures
            final(self)@ == (MethodV { name: value@, ..old(self)@ }),
    {
        self.name = value;
    }

    /// Records the documented description.
    pub fn ch_description(&mut self, value: String)
        ensures
            final(self)@ == (MethodV { description: value@, ..old(self)@ }),
    {
        self.description = value;
    }

    /// Appends one thrown exception.
    pub fn add_exception(&mut self, value: Exception)
        ensures
            final(self)@ == (MethodV {
                exceptions: old(self)@.exceptions.push(value@),
                ..old(self)@
            }),
    {
        let ghost pre = self.exceptions@;
        let ghost v = value@;
        self.exceptions.push(value);
        proof {
            lemma_views_push(pre, self.exceptions@.last());
            assert(views_of(self.exceptions@) =~= views_of(pre).push(v));
        }
    }

    /// Appends one declared parameter.
    pub fn add_param(&mut self, value: Param)
        ensures
            final(self)@ == (MethodV {
                parameters: old(self)@.parameters.push(value@),
                ..old(self)@
            }),
    {
        let ghost pre = self.parameters@;
        let ghost v = value@;
        self.parameters.push(value);
        proof {
            lemma_views_push(pre, self.parameters@.last());
            assert(views_of(self.parameters@) =~= views_of(pre).push(v));
        }
    }

    /// Replaces the whole parameter list.
    pub fn ch_params(&mut self, value: Vec<Param>)
        ensures
            final(self)@ == (MethodV { parameters: value.deep_view(), ..old(self)@ }),
    {
        proof {
            lemma_vec_views(&value);
        }
        self.parameters = value;
    }

    /// Records the return type.
    pub fn ch_return_type(&mut self, value: String)
        ensures
            final(self)@ == (MethodV { return_type: value@, ..old(self)@ }),
    {
        self.return_type = value;
    }
}

/// Copies every method of `v`; the framework metadata slots of the copies
/// start empty.
pub fn clone_methods(v: &Vec<Method>) -> (r: Vec<Method>)
    ensures
        r.deep_view() == Seq::new(
            v.deep_view().len(),
            |i: int| (MethodV { spring_data: spring_method_empty(), ..v.deep_view()[i] }),
        ),
{
    let mut out: Vec<Method> = Vec::new();
    let mut i: usize = 0;
    while i < v.len()
        invariant
            i <= v@.len(),
            views_of(out@) == Seq::new(
                i as nat,
                |j: int| (MethodV { spring_data: spring_method_empty(), ..views_of(v@)[j] }),
            ),
        decreases v@.len() - i,
    {
        let ghost pre = out@;
        let c = v[i].clone();
        out.push(c);
        proof {
            lemma_views_push(pre, out@.last());
            assert(views_of(out@) =~= Seq::new(
                i as nat + 1,
                |j: int| (MethodV { spring_data: spring_method_empty(), ..views_of(v@)[j] }),
            ));
        }
        i += 1;
    }
    proof {
        lemma_vec_views(v);
        lemma_vec_views(&out);
    }
    out
}

} // verus!
