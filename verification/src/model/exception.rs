//! A thrown exception: its type name and its documented description.

use vstd::prelude::*;

verus! {

/// A thrown exception named by a declaration or a documentation comment.
#[derive(Debug)]
pub struct Exception {
    pub exception_type: String,
    pub desc: String,
}

/// Mathematical value of an `Exception`.
#[verifier::ext_equal]
pub struct ExceptionV {
    pub exception_type: Seq<char>,
    pub desc: Seq<char>,
}

impl View for Exception {
    type V = ExceptionV;

    open spec fn view(&self) -> ExceptionV {
        ExceptionV { exception_type: self.exception_type@, desc: self.desc@ }
    }
}

impl DeepView for Exception {
    type V = ExceptionV;

    open spec fn deep_view(&self) -> ExceptionV {
        self.view()
    }
}

impl Exception {
    /// Copies the exception field for field.
    pub fn clone(&self) -> (r: Exception)
        ensures
            r@ == self@,
    {
        Exception { exception_type: self.exception_type.clone(), desc: self.desc.clone() }
    }
}

/// Copies every exception of `v`.
pub fn clone_exceptions(v: &Vec<Exception>) -> (r: Vec<Exception>)
    ensures
        r.deep_view() == v.deep_view(),
{
    let mut out: Vec<Exception> = Vec::new();
    let mut i: usize = 0;
    while i < v.len()
        invariant
            i <= v@.len(),
            crate::strutil::views_of(out@) == crate::strutil::views_of(v@).subrange(0, i as int),
        decreases v@.len() - i,
    {
        let ghost pre = out@;
        let c = v[i].clone();
        out.push(c);
        proof {
            crate::strutil::lemma_views_push(pre, out@.last());
            assert(crate::strutil::views_of(out@) =~= crate::strutil::views_of(v@).subrange(
                0,
                i + 1,
            ));
        }
        i += 1;
    }
    proof {
        crate::strutil::lemma_vec_views(v);
        crate::strutil::lemma_vec_views(&out);
        assert(crate::strutil::views_of(v@).subrange(0, v@.len() as int) =~= crate::strutil::views_of(v@));
    }
    out
}

} // verus!
