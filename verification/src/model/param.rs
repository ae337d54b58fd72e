//! A method parameter as a standalone record.

use vstd::prelude::*;

verus! {

/// A method parameter: its documented description, its name and its declared
/// type.
#[derive(Debug)]
pub struct Param {
    pub desc: String,
    pub name: String,
    pub var_type: String,
}

/// Mathematical value of a `Param`.
#[verifier::ext_equal]
pub struct ParamV {
    pub desc: Seq<char>,
    pub name: Seq<char>,
    pub var_type: Seq<char>,
}

impl View for Param {
    type V = ParamV;

    open spec fn view(&self) -> ParamV {
        ParamV { desc: self.desc@, name: self.name@, var_type: self.var_type@ }
    }
}

impl DeepView for Param {
    type V = ParamV;

    open spec fn deep_view(&self) -> ParamV {
        self.view()
    }
}

impl Param {
    /// Copies the parameter field for field.
    pub fn clone(&self) -> (r: Param)
        ensures
            r@ == self@,
    {
        let new_desc = self.desc.clone();
        let new_name = self.name.clone();
        let new_type = self.var_type.clone();
        Param { desc: new_desc, name: new_name, var_type: new_type }
    }
}

/// Copies every parameter of `v`.
pub fn clone_params(v: &Vec<Param>) -> (r: Vec<Param>)
    ensures
        r.deep_view() == v.deep_view(),
{
    let mut out: Vec<Param> = Vec::new();
    let mut i: usize = 0;
    while i < v.len()
        invariant
            i <= v@.len(),
            crate::strutil::views_of(out@) == crate::strutil::views_of(v@).subrange(0, i as int),
        decreases v@.len() - i,
    {
        let ghost pre = out@;
        let c = v[i].clone();
        out.push(c);
        proof {
            crate::strutil::lemma_views_push(pre, out@.last());
            assert(crate::strutil::views_of(out@) =~= crate::strutil::views_of(v@).subrange(
                0,
                i + 1,
            ));
        }
        i += 1;
    }
    proof {
        crate::strutil::lemma_vec_views(v);
        crate::strutil::lemma_vec_views(&out);
        assert(crate::strutil::views_of(v@).subrange(0, v@.len() as int) =~= crate::strutil::views_of(v@));
    }
    out
}

} // verus!
