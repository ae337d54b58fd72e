//! A member variable: its declaration data and its documentation.

use vstd::prelude::*;

use crate::strutil::clone_strings;
use crate::strutil::lemma_vec_views;
use crate::strutil::lemma_views_push;
use crate::strutil::views_of;

verus! {

/// A member variable gathered from a declaration and its documentation.
#[derive(Debug)]
pub struct Member {
    pub line_num: String,
    pub signature: String,
    pub desc: String,
    pub modifiers: Vec<String>,
    pub access: String,
    pub name: String,
    pub var_type: String,
}

/// Mathematical value of a `Member`.
#[verifier::ext_equal]
pub struct MemberV {
    pub line_num: Seq<char>,
    pub signature: Seq<char>,
    pub desc: Seq<char>,
    pub modifiers: Seq<Seq<char>>,
    pub access: Seq<char>,
    pub name: Seq<char>,
    pub var_type: Seq<char>,
}

impl View for Member {
    type V = MemberV;

    open spec fn view(&self) -> MemberV {
        MemberV {
            line_num: self.line_num@,
            signature: self.signature@,
            desc: self.desc@,
            modifiers: views_of(self.modifiers@),
            access: self.access@,
            name: self.name@,
            var_type: self.var_type@,
        }
    }
}

impl DeepView for Member {
    type V = MemberV;

    open spec fn deep_view(&self) -> MemberV {
        self.view()
    }
}

/// The mathematical value of a freshly created member.
pub open spec fn member_empty() -> MemberV {
    MemberV {
        line_num: Seq::empty(),
        signature: Seq::empty(),
        desc: Seq::empty(),
        modifiers: Seq::empty(),
        access: Seq::empty(),
        name: Seq::empty(),
        var_type: Seq::empty(),
    }
}

impl Member {
    /// A member with every slot empty.
    pub fn new() -> (r: Member)
        ensures
            r@ == member_empty(),
    {
        let r = Member {
            line_num: String::new(),
            signature: String::new(),
            desc: String::new(),
            access: String::new(),
            name: String::new(),
            modifiers: Vec::new(),
            var_type: String::new(),
        };
        assert(r@ =~~= member_empty());
        r
    }

    /// Copies the member field for field.
    pub fn clone(&self) -> (r: Member)
        ensures
            r@ == self@,
    {
        let r = Member {
            line_num: self.line_num.clone(),
            signature: self.signature.clone(),
            desc: self.desc.clone(),
            access: self.access.clone(),
            name: self.name.clone(),
            modifiers: clone_strings(&self.modifiers),
            var_type: self.var_type.clone(),
        };
        proof {
            lemma_vec_views(&self.modifiers);
            lemma_vec_views(&r.modifiers);
            assert(r@ =~~= self@);
        }
        r
    }

    /// Records the member name.
    pub fn ch_name(&mut self, value: String)
        ensures
            final(self)@ == (MemberV { name: value@, ..old(self)@ }),
    {
        self.name = value;
    }

    /// Records the raw signature text.
    pub fn ch_signature(&mut self, value: String)
        ensures
            final(self)@ == (MemberV { signature: value@, ..old(self)@ }),
    {
        self.signature = value;
    }

    /// Records the access level.
    pub fn ch_access(&mut self, value: String)
        ensures
            final(self)@ == (MemberV { access: value@, ..old(self)@ }),
    {
        self.access = value;
    }

    /// Records the declared type.
    pub fn ch_type(&mut self, value: String)
        ensures
            final(self)@ == (MemberV { var_type: value@, ..old(self)@ }),
    {
        self.var_type = value;
    }

    /// Appends one modifier.
    pub fn add_modifier(&mut self, value: String)
        ensures
            final(self)@ == (MemberV {
                modifiers: old(self)@.modifiers.push(value@),
                ..old(self)@
            }),
    {
        let ghost pre = self.modifiers@;
        let ghost v = value@;
        self.modifiers.push(value);
        proof {
            lemma_views_push(pre, self.modifiers@.last());
            assert(views_of(self.modifiers@) =~= views_of(pre).push(v));
        }
    }

    /// Records the source line of the declaration.
    pub fn ch_line_number(&mut self, value: String)
        ensures
            final(self)@ == (MemberV { line_num: value@, ..old(self)@ }),
    {
        self.line_num = value;
    }
}

/// Copies every member of `v`.
pub fn clone_members(v: &Vec<Member>) -> (r: Vec<Member>)
    ensures
        r.deep_view() == v.deep_view(),
{
    let mut out: Vec<Member> = Vec::new();
    let mut i: usize = 0;
    while i < v.len()
        invariant
            i <= v@.len(),
            views_of(out@) == views_of(v@).subrange(0, i as int),
        decreases v@.len() - i,
    {
        let ghost pre = out@;
        let c = v[i].clone();
        out.push(c);
        proof {
            lemma_views_push(pre, out@.last());
            assert(views_of(out@) =~= views_of(v@).subrange(0, i + 1));
        }
        i += 1;
    }
    proof {
        lemma_vec_views(v);
        lemma_vec_views(&out);
        assert(views_of(v@).subrange(0, v@.len() as int) =~= views_of(v@));
    }
    out
}

} // verus!
