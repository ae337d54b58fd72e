//! One documentation comment's parsed fields.

use vstd::prelude::*;

use crate::model::exception::Exception;
use crate::model::exception::ExceptionV;
use crate::model::param::Param;
use crate::model::param::ParamV;
use crate::strutil::views_of;

verus! {

/// The parsed fields of one documentation comment, awaiting attachment to
/// the next declaration.
#[derive(Debug)]
pub struct Doc {
    pub params: Vec<Param>,
    pub description: String,
    pub author: String,
    pub version: String,
    pub exceptions: Vec<Exception>,
    pub deprecated: String,
    pub return_desc: String,
    pub see: String,
}

/// Mathematical value of a `Doc`.
#[verifier::ext_equal]
pub struct DocV {
    pub params: Seq<ParamV>,
    pub description: Seq<char>,
    pub author: Seq<char>,
    pub version: Seq<char>,
    pub exceptions: Seq<ExceptionV>,
    pub deprecated: Seq<char>,
    pub return_desc: Seq<char>,
    pub see: Seq<char>,
}

impl View for Doc {
    type V = DocV;

    open spec fn view(&self) -> DocV {
        DocV {
            params: views_of(self.params@),
            description: self.description@,
            author: self.author@,
            version: self.version@,
            exceptions: views_of(self.exceptions@),
            deprecated: self.deprecated@,
            return_desc: self.return_desc@,
            see: self.see@,
        }
    }
}

impl DeepView for Doc {
    type V = DocV;

    open spec fn deep_view(&self) -> DocV {
        self.view()
    }
}

/// The mathematical value of an empty documentation record.
pub open spec fn doc_empty() -> DocV {
    DocV {
        params: Seq::empty(),
        description: Seq::empty(),
        author: Seq::empty(),
        version: Seq::empty(),
        exceptions: Seq::empty(),
        deprecated: Seq::empty(),
        return_desc: Seq::empty(),
        see: Seq::empty(),
    }
}

impl Doc {
    /// A documentation record with every slot empty.
    pub fn new() -> (r: Doc)
        ensures
            r@ == doc_empty(),
    {
        let r = Doc {
            params: Vec::new(),
            description: String::new(),
            return_desc: String::new(),
            author: String::new(),
            version: String::new(),
            exceptions: Vec::new(),
            deprecated: String::new(),
            see: String::new(),
        };
        assert(r@ =~~= doc_empty());
        r
    }
}

} // verus!
