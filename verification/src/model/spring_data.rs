//! Framework (Spring) metadata slots carried by classes, members and
//! methods.

use vstd::prelude::*;

verus! {

/// An HTTP request method named by a request mapping.
#[derive(Debug, Clone, Copy, PartialEq, Eq, Structural)]
pub enum RequestMethod {
    GET,
    POST,
    PUT,
    DELETE,
    PATCH,
}

/// A request mapping: URL patterns, request method, headers and produced
/// content type.
#[derive(Debug)]
pub struct RequestMap {
    pub url: Vec<String>,
    pub method: RequestMethod,
    pub headers: Vec<String>,
    pub produces: String,
}

/// Mathematical value of a `RequestMap`.
#[verifier::ext_equal]
pub struct RequestMapV {
    pub url: Seq<Seq<char>>,
    pub method: RequestMethod,
    pub headers: Seq<Seq<char>>,
    pub produces: Seq<char>,
}

impl View for RequestMap {
    type V = RequestMapV;

    open spec fn view(&self) -> RequestMapV {
        RequestMapV {
            url: crate::strutil::views_of(self.url@),
            method: self.method,
            headers: crate::strutil::views_of(self.headers@),
            produces: self.produces@,
        }
    }
}

impl DeepView for RequestMap {
    type V = RequestMapV;

    open spec fn deep_view(&self) -> RequestMapV {
        self.view()
    }
}

/// Framework metadata of a class: its bean kind and its request mapping.
#[derive(Debug)]
pub struct SpringClass {
    pub bean_type: String,
    pub mapping: RequestMap,
}

/// Mathematical value of a `SpringClass`.
#[verifier::ext_equal]
pub struct SpringClassV {
    pub bean_type: Seq<char>,
    pub mapping: RequestMapV,
}

impl View for SpringClass {
    type V = SpringClassV;

    open spec fn view(&self) -> SpringClassV {
        SpringClassV { bean_type: self.bean_type@, mapping: self.mapping@ }
    }
}

impl DeepView for SpringClass {
    type V = SpringClassV;

    open spec fn deep_view(&self) -> SpringClassV {
        self.view()
    }
}

/// Framework metadata of a member: wiring and configured value.
#[derive(Debug)]
pub struct SpringMember {
    pub autowire: Option<String>,
    pub value: Option<String>,
}

/// Mathematical value of a `SpringMember`.
#[verifier::ext_equal]
pub struct SpringMemberV {
    pub autowire: Option<Seq<char>>,
    pub value: Option<Seq<char>>,
}

impl View for SpringMember {
    type V = SpringMemberV;

    open spec fn view(&self) -> SpringMemberV {
        SpringMemberV { autowire: self.autowire.deep_view(), value: self.value.deep_view() }
    }
}

impl DeepView for SpringMember {
    type V = SpringMemberV;

    open spec fn deep_view(&self) -> SpringMemberV {
        self.view()
    }
}

/// Framework metadata of a method: its mapping and its request inputs.
#[derive(Debug)]
pub struct SpringMethod {
    pub mapping: RequestMap,
    pub request_params: Vec<String>,
    pub request_body: Vec<String>,
}

/// Mathematical value of a `SpringMethod`.
#[verifier::ext_equal]
pub struct SpringMethodV {
    pub mapping: RequestMapV,
    pub request_params: Seq<Seq<char>>,
    pub request_body: Seq<Seq<char>>,
}

impl View for SpringMethod {
    type V = SpringMethodV;

    open spec fn view(&self) -> SpringMethodV {
        SpringMethodV {
            mapping: self.mapping@,
            request_params: crate::strutil::views_of(self.request_params@),
            request_body: crate::strutil::views_of(self.request_body@),
        }
    }
}

impl DeepView for SpringMethod {
    type V = SpringMethodV;

    open spec fn deep_view(&self) -> SpringMethodV {
        self.view()
    }
}

/// The mathematical value of an empty request mapping.
pub open spec fn request_map_empty() -> RequestMapV {
    RequestMapV {
        url: Seq::empty(),
        method: RequestMethod::GET,
        headers: Seq::empty(),
        produces: Seq::empty(),
    }
}

/// The mathematical value of empty class metadata.
pub open spec fn spring_class_empty() -> SpringClassV {
    SpringClassV { bean_type: Seq::empty(), mapping: request_map_empty() }
}

/// The mathematical value of empty method metadata.
pub open spec fn spring_method_empty() -> SpringMethodV {
    SpringMethodV {
        mapping: request_map_empty(),
        request_params: Seq::empty(),
        request_body: Seq::empty(),
    }
}

fn request_map_new() -> (r: RequestMap)
    ensures
        r@ == request_map_empty(),
{
    let r = RequestMap {
        url: Vec::new(),
        method: RequestMethod::GET,
        headers: Vec::new(),
        produces: String::new(),
    };
    assert(r@ =~~= request_map_empty());
    r
}

impl SpringClass {
    /// An empty class metadata slot.
    pub fn new() -> (r: SpringClass)
        ensures
            r@ == spring_class_empty(),
    {
        let r = SpringClass { bean_type: String::new(), mapping: request_map_new() };
        assert(r@ =~~= spring_class_empty());
        r
    }

    /// Copies the metadata field for field.
    pub fn clone(&self) -> (r: SpringClass)
        ensures
            r@ == self@,
    {
        let r = SpringClass { bean_type: self.bean_type.clone(), mapping: self.mapping.clone() };
        assert(r@ =~~= self@);
        r
    }
}

impl RequestMap {
    /// Copies the mapping field for field.
    pub fn clone(&self) -> (r: RequestMap)
        ensures
            r@ == self@,
    {
        let r = RequestMap {
            url: crate::strutil::clone_strings(&self.url),
            method: self.method,
            headers: crate::strutil::clone_strings(&self.headers),
            produces: self.produces.clone(),
        };
        proof {
            crate::strutil::lemma_vec_views(&self.url);
            crate::strutil::lemma_vec_views(&r.url);
            crate::strutil::lemma_vec_views(&self.headers);
            crate::strutil::lemma_vec_views(&r.headers);
            assert(r@ =~~= self@);
        }
        r
    }
}

impl SpringMethod {
    /// An empty method metadata slot.
    pub fn new() -> (r: SpringMethod)
        ensures
            r@ == spring_method_empty(),
    {
        let r = SpringMethod {
            mapping: request_map_new(),
            request_params: Vec::new(),
            request_body: Vec::new(),
        };
        assert(r@ =~~= spring_method_empty());
        r
    }

    /// Copies the metadata field for field.
    pub fn clone(&self) -> (r: SpringMethod)
        ensures
            r@ == self@,
    {
        let r = SpringMethod {
            mapping: self.mapping.clone(),
            request_params: crate::strutil::clone_strings(&self.request_params),
            request_body: crate::strutil::clone_strings(&self.request_body),
        };
        proof {
            crate::strutil::lemma_vec_views(&self.request_params);
            crate::strutil::lemma_vec_views(&r.request_params);
            crate::strutil::lemma_vec_views(&self.request_body);
            crate::strutil::lemma_vec_views(&r.request_body);
            assert(r@ =~~= self@);
        }
        r
    }
}

impl SpringMember {
    /// An empty member metadata slot.
    pub fn new() -> (r: SpringMember)
        ensures
            r@ == (SpringMemberV { autowire: None, value: None }),
    {
        SpringMember { autowire: Option::None, value: Option::None }
    }

    /// Copies the metadata field for field.
    pub fn clone(&self) -> (r: SpringMember)
        ensures
            r@ == self@,
    {
        let autowire = match &self.autowire {
            Option::Some(s) => Option::Some(s.clone()),
            Option::None => Option::None,
        };
        let value = match &self.value {
            Option::Some(s) => Option::Some(s.clone()),
            Option::None => Option::None,
        };
        let r = SpringMember { autowire, value };
        assert(r@ =~~= self@);
        r
    }
}

} // verus!
