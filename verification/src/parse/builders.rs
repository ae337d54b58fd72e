//! Statement interpretation: turning one statement's buffered stream
//! elements into a member, a method, or header data of the declaration, and
//! reconciling declared parameters with documented ones.

use vstd::prelude::*;

use crate::grammar::Stream;
use crate::grammar::StreamV;
use crate::model::doc::Doc;
use crate::model::doc::DocV;
use crate::model::exception::Exception;
use crate::model::exception::ExceptionV;
use crate::model::member::member_empty;
use crate::model::member::Member;
use crate::model::member::MemberV;
use crate::model::method::method_empty;
use crate::model::method::Method;
use crate::model::method::MethodV;
use crate::model::object::Object;
use crate::model::object::ObjectV;
use crate::model::param::Param;
use crate::model::param::ParamV;
use crate::strutil::before_char;
use crate::strutil::lemma_vec_views;
use crate::strutil::lemma_views_push;
use crate::strutil::seq_has_char;
use crate::strutil::str_eq;
use crate::strutil::str_has_char;
use crate::strutil::take_before_char;
use crate::strutil::views_of;

verus! {

// ------------------------------------------------------------------
// Parameter matching
// ------------------------------------------------------------------

/// What the declared parameter `p` becomes: it keeps its declared name and
/// type, and takes the description of the first same-named documented
/// parameter, or the fixed sentinel description when none documents it.
pub open spec fn matched_param(p: ParamV, docd: Seq<ParamV>) -> ParamV
    decreases docd.len(),
{
    if docd.len() == 0 {
        ParamV { name: p.name, var_type: p.var_type, desc: "No description found"@ }
    } else if docd[0].name == p.name {
        ParamV { name: p.name, var_type: p.var_type, desc: docd[0].desc }
    } else {
        matched_param(p, docd.subrange(1, docd.len() as int))
    }
}

/// The reconciled parameter list: exactly one entry per declared parameter,
/// in declared order.
pub open spec fn match_params_spec(decl: Seq<ParamV>, docd: Seq<ParamV>) -> Seq<ParamV> {
    Seq::new(decl.len(), |i: int| matched_param(decl[i], docd))
}

/// When `j` is the first same-named documented index, the match takes its
/// description.
pub proof fn lemma_matched_param_found(p: ParamV, docd: Seq<ParamV>, j: int)
    requires
        0 <= j < docd.len(),
        forall|k: int| 0 <= k < j ==> docd[k].name != p.name,
        docd[j].name == p.name,
    ensures
        matched_param(p, docd) == (ParamV {
            name: p.name,
            var_type: p.var_type,
            desc: docd[j].desc,
        }),
    decreases j,
{
    if j == 0 {
    } else {
        let rest = docd.subrange(1, docd.len() as int);
        assert(forall|k: int| 0 <= k < j - 1 ==> rest[k].name != p.name);
        assert(rest[j - 1] == docd[j]);
        lemma_matched_param_found(p, rest, j - 1);
    }
}

/// With no same-named documented parameter, the match is the sentinel.
pub proof fn lemma_matched_param_none(p: ParamV, docd: Seq<ParamV>)
    requires
        forall|k: int| 0 <= k < docd.len() ==> docd[k].name != p.name,
    ensures
        matched_param(p, docd) == (ParamV {
            name: p.name,
            var_type: p.var_type,
            desc: "No description found"@,
        }),
    decreases docd.len(),
{
    if docd.len() > 0 {
        let rest = docd.subrange(1, docd.len() as int);
        assert(forall|k: int| 0 <= k < rest.len() ==> rest[k].name != p.name);
        lemma_matched_param_none(p, rest);
    }
}

/// Finds the index of the first documented parameter that bears the same
/// name as `param`.
fn find_documented(param: &Param, jparams: &Vec<Param>) -> (r: Option<usize>)
    ensures
        match r {
            Some(j) => j < jparams@.len() && views_of(jparams@)[j as int].name == param@.name
                && forall|k: int|
                0 <= k < j ==> views_of(jparams@)[k].name != param@.name,
            None => forall|k: int|
                0 <= k < jparams@.len() ==> views_of(jparams@)[k].name != param@.name,
        },
{
    let ghost docd = views_of(jparams@);
    let mut j: usize = 0;
    while j < jparams.len()
        invariant
            j <= jparams@.len(),
            docd == views_of(jparams@),
            docd.len() == jparams@.len(),
            forall|k: int| 0 <= k < j ==> docd[k].name != param@.name,
        decreases jparams@.len() - j,
    {
        proof {
            assert(docd[j as int] == jparams@[j as int]@);
        }
        if str_eq(param.name.as_str(), jparams[j].name.as_str()) {
            return Some(j);
        }
        j += 1;
    }
    None
}

/// Reconciles the declared parameters of `method` with the documented
/// parameters `jparams`: the result has exactly one entry per declared
/// parameter, in declared order; each keeps its declared name and type and
/// takes the description of the first same-named documented entry, or the
/// fixed sentinel description when none matches.
pub fn match_params(method: &Method, jparams: &Vec<Param>) -> (r: Vec<Param>)
    ensures
        r.deep_view() == match_params_spec(method@.parameters, jparams.deep_view()),
        r@.len() == method@.parameters.len(),
{
    proof {
        lemma_vec_views(jparams);
        lemma_vec_views(&method.parameters);
    }
    let ghost decl = method@.parameters;
    let ghost docd = jparams.deep_view();
    let mut new_param: Vec<Param> = Vec::new();
    let mut i: usize = 0;
    while i < method.parameters.len()
        invariant
            i <= method.parameters@.len(),
            decl == views_of(method.parameters@),
            docd == views_of(jparams@),
            decl.len() == method.parameters@.len(),
            docd.len() == jparams@.len(),
            new_param@.len() == i,
            views_of(new_param@) == match_params_spec(decl, docd).subrange(0, i as int),
        decreases method.parameters@.len() - i,
    {
        let param = &method.parameters[i];
        let ghost p = decl[i as int];
        proof {
            assert(p == method.parameters@[i as int]@);
        }
        let matched = match find_documented(param, jparams) {
            Some(j) => {
                proof {
                    lemma_matched_param_found(p, docd, j as int);
                }
                Param {
                    name: param.name.clone(),
                    var_type: param.var_type.clone(),
                    desc: jparams[j].desc.clone(),
                }
            },
            None => {
                proof {
                    lemma_matched_param_none(p, docd);
                }
                Param {
                    name: param.name.clone(),
                    var_type: param.var_type.clone(),
                    desc: "No description found".to_owned(),
                }
            },
        };
        let ghost pre = new_param@;
        new_param.push(matched);
        proof {
            lemma_views_push(pre, new_param@.last());
            assert(new_param@.last()@ == matched_param(p, docd));
            assert(views_of(new_param@) =~= match_params_spec(decl, docd).subrange(0, i + 1));
        }
        i += 1;
    }
    proof {
        lemma_vec_views(&new_param);
        assert(match_params_spec(decl, docd).subrange(0, decl.len() as int) =~= match_params_spec(
            decl,
            docd,
        ));
    }
    new_param
}

// ------------------------------------------------------------------
// Member (field) building
// ------------------------------------------------------------------

/// The member that interpreting `gram` from index `i` onwards yields, given
/// the partial member `m` and whether its type slot is already filled. A
/// literal `=` truncates processing; the first unclaimed type and variable
/// pair becomes type and name.
pub open spec fn member_from(gram: Seq<StreamV>, i: int, m: MemberV, named: bool) -> MemberV
    decreases gram.len() - i,
{
    if i < 0 || i >= gram.len() {
        m
    } else {
        match gram[i] {
            StreamV::Variable(var) => if var == "="@ {
                m
            } else if named {
                MemberV { name: var, ..m }
            } else {
                member_from(gram, i + 1, (MemberV { var_type: var, ..m }), true)
            },
            StreamV::Type(key) => if seq_has_char(key, '=') {
                MemberV { name: before_char(key, '='), ..m }
            } else {
                member_from(gram, i + 1, (MemberV { var_type: key, ..m }), true)
            },
            StreamV::Access(key) => member_from(gram, i + 1, (MemberV { access: key, ..m }), named),
            StreamV::Modifier(key) => member_from(
                gram,
                i + 1,
                (MemberV { modifiers: m.modifiers.push(key), ..m }),
                named,
            ),
            _ => member_from(gram, i + 1, m, named),
        }
    }
}

/// The member that one flushed statement yields, stamped with the current
/// source line.
pub open spec fn member_spec(gram: Seq<StreamV>, line: Seq<char>) -> MemberV {
    member_from(gram, 0, (MemberV { line_num: line, ..member_empty() }), false)
}

/// Interprets one statement's stream elements as a member variable. Returns
/// a partially filled member on irregular input; it never fails.
pub fn get_var(gram_parts: &Vec<Stream>, line_num: String) -> (r: Member)
    ensures
        r@ == member_spec(gram_parts.deep_view(), line_num@),
{
    proof {
        lemma_vec_views(gram_parts);
    }
    let ghost gram = gram_parts.deep_view();
    let mut member = Member::new();
    member.ch_line_number(line_num);
    proof {
        assert(member@ =~~= (MemberV { line_num: member@.line_num, ..member_empty() }));
    }
    let mut member_name = false;
    let mut i: usize = 0;
    while i < gram_parts.len()
        invariant
            i <= gram_parts@.len(),
            gram == gram_parts.deep_view(),
            gram.len() == gram_parts@.len(),
            member_spec(gram, line_num@) == member_from(gram, i as int, member@, member_name),
        decreases gram_parts@.len() - i,
    {
        proof {
            assert(gram[i as int] == gram_parts@[i as int]@);
        }
        match &gram_parts[i] {
            Stream::Variable(var) => {
                if str_eq(var.as_str(), "=") {
                    return member;
                } else if member_name {
                    member.ch_name(var.clone());
                    return member;
                } else {
                    member.ch_type(var.clone());
                    member_name = true;
                }
            },
            Stream::Type(key) => {
                if str_has_char(key.as_str(), '=') {
                    let name = take_before_char(key.as_str(), '=');
                    member.ch_name(name);
                    return member;
                } else {
                    member.ch_type(key.clone());
                    member_name = true;
                }
            },
            Stream::Access(key) => {
                member.ch_access(key.clone());
            },
            Stream::Modifier(key) => {
                member.add_modifier(key.clone());
            },
            _ => {},
        }
        i += 1;
    }
    member
}

// ------------------------------------------------------------------
// Method building
// ------------------------------------------------------------------

/// The method builder's working state: the partial method and the flags
/// that say what the next variable token stands for.
#[verifier::ext_equal]
pub struct MethodBuildV {
    pub m: MethodV,
    pub exception: bool,
    pub method_name: bool,
    pub param_name: bool,
    pub param_type: Seq<char>,
}

/// One step of method building on the stream element `e`.
pub open spec fn method_step(st: MethodBuildV, e: StreamV, jdoc: DocV) -> MethodBuildV {
    match e {
        StreamV::Variable(var) => if st.exception {
            let k = st.m.exceptions.len() as int;
            let d = if k < jdoc.exceptions.len() {
                jdoc.exceptions[k].desc
            } else {
                Seq::empty()
            };
            MethodBuildV {
                m: MethodV {
                    exceptions: st.m.exceptions.push(
                        ExceptionV { desc: d, exception_type: var },
                    ),
                    ..st.m
                },
                ..st
            }
        } else if st.method_name {
            MethodBuildV { m: MethodV { name: var, ..st.m }, method_name: false, ..st }
        } else if st.param_name {
            MethodBuildV {
                m: MethodV {
                    parameters: st.m.parameters.push(
                        ParamV { var_type: st.param_type, name: var, desc: Seq::empty() },
                    ),
                    ..st.m
                },
                param_type: Seq::empty(),
                param_name: false,
                ..st
            }
        } else if st.m.name.len() == 0 {
            MethodBuildV { m: MethodV { return_type: var, ..st.m }, method_name: true, ..st }
        } else {
            st
        },
        StreamV::Type(key) => if st.m.return_type.len() == 0 {
            MethodBuildV { m: MethodV { return_type: key, ..st.m }, method_name: true, ..st }
        } else {
            MethodBuildV { param_type: key, param_name: true, ..st }
        },
        StreamV::Access(key) => MethodBuildV { m: MethodV { privacy: key, ..st.m }, ..st },
        StreamV::Modifier(key) => MethodBuildV {
            m: MethodV { modifiers: st.m.modifiers.push(key), ..st.m },
            ..st
        },
        StreamV::Exception => MethodBuildV { exception: true, ..st },
        _ => st,
    }
}

/// The builder state after the first `i` stream elements.
pub open spec fn method_build_upto(gram: Seq<StreamV>, jdoc: DocV, i: int) -> MethodBuildV
    decreases i,
{
    if i <= 0 {
        MethodBuildV {
            m: method_empty(),
            exception: false,
            method_name: false,
            param_name: false,
            param_type: Seq::empty(),
        }
    } else {
        method_step(method_build_upto(gram, jdoc, i - 1), gram[i - 1], jdoc)
    }
}

/// The method that one flushed statement yields: the built method, stamped
/// with the source line; the declared return type stands, with `void`
/// mapped to empty; the documented description is attached; the parameters
/// are reconciled with the documented ones.
pub open spec fn method_spec(gram: Seq<StreamV>, jdoc: DocV, line: Seq<char>) -> MethodV {
    let m0 = method_build_upto(gram, jdoc, gram.len() as int).m;
    let m1 = MethodV { line_num: line, ..m0 };
    let m2 = if m1.return_type == "void"@ {
        MethodV { return_type: Seq::empty(), ..m1 }
    } else {
        m1
    };
    let m3 = if jdoc.description.len() > 0 {
        MethodV { description: jdoc.description, ..m2 }
    } else {
        m2
    };
    MethodV { parameters: match_params_spec(m3.parameters, jdoc.params), ..m3 }
}

/// Interprets one statement's stream elements as a method, merging the
/// pending documentation record.
pub fn get_method(gram_parts: &Vec<Stream>, java_doc: &Doc, line_num: String) -> (r: Method)
    ensures
        r@ == method_spec(gram_parts.deep_view(), java_doc@, line_num@),
{
    proof {
        lemma_vec_views(gram_parts);
    }
    let ghost gram = gram_parts.deep_view();
    let ghost jdoc = java_doc@;
    let mut method = Method::new();
    let mut exception = false;
    let mut method_name = false;
    let mut param_name = false;
    let mut param_type = String::new();

    let mut i: usize = 0;
    while i < gram_parts.len()
        invariant
            i <= gram_parts@.len(),
            gram == gram_parts.deep_view(),
            gram.len() == gram_parts@.len(),
            jdoc == java_doc@,
            method_build_upto(gram, jdoc, i as int) == (MethodBuildV {
                m: method@,
                exception: exception,
                method_name: method_name,
                param_name: param_name,
                param_type: param_type@,
            }),
        decreases gram_parts@.len() - i,
    {
        proof {
            assert(gram[i as int] == gram_parts@[i as int]@);
            assert(method_build_upto(gram, jdoc, i as int + 1) == method_step(
                method_build_upto(gram, jdoc, i as int),
                gram[i as int],
                jdoc,
            ));
        }
        match &gram_parts[i] {
            Stream::Variable(var) => {
                if exception {
                    let k = method.exceptions.len();
                    let desc = if k < java_doc.exceptions.len() {
                        proof {
                            lemma_vec_views(&java_doc.exceptions);
                            assert(views_of(java_doc.exceptions@)[k as int]
                                == java_doc.exceptions@[k as int]@);
                        }
                        java_doc.exceptions[k].desc.clone()
                    } else {
                        String::new()
                    };
                    method.add_exception(
                        Exception { desc, exception_type: var.clone() },
                    );
                } else if method_name {
                    method.ch_method_name(var.clone());
                    method_name = false;
                } else if param_name {
                    method.add_param(
                        Param { var_type: param_type, name: var.clone(), desc: String::new() },
                    );
                    param_type = String::new();
                    param_name = false;
                } else if method.name.as_str().is_empty() {
                    method.ch_return_type(var.clone());
                    method_name = true;
                }
            },
            Stream::Type(key) => {
                if method.return_type.as_str().is_empty() {
                    method.ch_return_type(key.clone());
                    method_name = true;
                } else {
                    param_type = key.clone();
                    param_name = true;
                }
            },
            Stream::Access(key) => {
                method.ch_privacy(key.clone());
            },
            Stream::Modifier(key) => {
                method.add_modifier(key.clone());
            },
            Stream::Exception => {
                exception = true;
            },
            _ => {},
        }
        proof {
            assert((MethodBuildV {
                m: method@,
                exception: exception,
                method_name: method_name,
                param_name: param_name,
                param_type: param_type@,
            }) =~~= method_build_upto(gram, jdoc, i as int + 1));
        }
        i += 1;
    }
    method.ch_line_num(line_num);

    if str_eq(method.return_type.as_str(), "void") {
        method.ch_return_type(String::new());
    }

    if !java_doc.description.as_str().is_empty() {
        method.ch_description(java_doc.description.clone());
    }

    let n_params: Vec<Param> = match_params(&method, &java_doc.params);
    proof {
        lemma_vec_views(&java_doc.params);
    }
    method.ch_params(n_params);
    proof {
        assert(method@ =~~= method_spec(gram, jdoc, line_num@));
    }
    method
}

// ------------------------------------------------------------------
// Declaration header building
// ------------------------------------------------------------------

/// The header builder's working state: the declaration accumulator and the
/// flags that say what the next variable token stands for.
#[verifier::ext_equal]
pub struct ObjectBuildV {
    pub ob: ObjectV,
    pub implement: bool,
    pub exception: bool,
    pub parent: bool,
    pub class_name: bool,
}

/// One step of header building on the stream element `e`.
pub open spec fn object_step(st: ObjectBuildV, e: StreamV) -> ObjectBuildV {
    match e {
        StreamV::Variable(var) => if st.implement {
            ObjectBuildV { ob: ObjectV { interfaces: st.ob.interfaces.push(var), ..st.ob }, ..st }
        } else if st.exception {
            ObjectBuildV {
                ob: ObjectV {
                    exceptions: st.ob.exceptions.push(
                        ExceptionV { desc: Seq::empty(), exception_type: var },
                    ),
                    ..st.ob
                },
                ..st
            }
        } else if st.class_name {
            ObjectBuildV { ob: ObjectV { name: var, ..st.ob }, class_name: false, ..st }
        } else if st.parent {
            ObjectBuildV { ob: ObjectV { parent: var, ..st.ob }, parent: false, ..st }
        } else {
            st
        },
        StreamV::Object(_) => ObjectBuildV { class_name: true, ..st },
        StreamV::Access(key) => ObjectBuildV { ob: ObjectV { access: key, ..st.ob }, ..st },
        StreamV::Modifier(key) => ObjectBuildV {
            ob: ObjectV { modifiers: st.ob.modifiers.push(key), ..st.ob },
            ..st
        },
        StreamV::Exception => ObjectBuildV {
            exception: true,
            implement: false,
            parent: false,
            class_name: false,
            ..st
        },
        StreamV::Implement => ObjectBuildV {
            exception: false,
            implement: true,
            parent: false,
            class_name: false,
            ..st
        },
        StreamV::Parent => ObjectBuildV {
            exception: false,
            implement: false,
            parent: true,
            class_name: false,
            ..st
        },
        _ => st,
    }
}

/// The builder state after the first `i` stream elements, starting from the
/// accumulator value `ob0`.
pub open spec fn object_build_upto(gram: Seq<StreamV>, ob0: ObjectV, i: int) -> ObjectBuildV
    decreases i,
{
    if i <= 0 {
        ObjectBuildV {
            ob: ob0,
            implement: false,
            exception: false,
            parent: false,
            class_name: false,
        }
    } else {
        object_step(object_build_upto(gram, ob0, i - 1), gram[i - 1])
    }
}

/// The accumulator after interpreting one header statement: names, parent,
/// interfaces, exceptions, access and modifiers from the stream elements,
/// then any documented description, author and version.
pub open spec fn object_spec(gram: Seq<StreamV>, jdoc: DocV, ob0: ObjectV) -> ObjectV {
    let ob = object_build_upto(gram, ob0, gram.len() as int).ob;
    let ob1 = if jdoc.description.len() > 0 {
        ObjectV { description: jdoc.description, ..ob }
    } else {
        ob
    };
    let ob2 = if jdoc.author.len() > 0 {
        ObjectV { author: jdoc.author, ..ob1 }
    } else {
        ob1
    };
    if jdoc.version.len() > 0 {
        ObjectV { version: jdoc.version, ..ob2 }
    } else {
        ob2
    }
}

/// Interprets one header statement's stream elements into the declaration
/// accumulator, merging the pending documentation record. Used for class,
/// interface and enum headers alike.
pub fn get_object(gram_parts: &Vec<Stream>, java_doc: &Doc, ob: &mut Object)
    ensures
        final(ob)@ == object_spec(gram_parts.deep_view(), java_doc@, old(ob)@),
{
    proof {
        lemma_vec_views(gram_parts);
    }
    let ghost gram = gram_parts.deep_view();
    let ghost ob0 = ob@;
    let mut implement = false;
    let mut exception = false;
    let mut parent = false;
    let mut class_name = false;

    let mut i: usize = 0;
    while i < gram_parts.len()
        invariant
            i <= gram_parts@.len(),
            gram == gram_parts.deep_view(),
            gram.len() == gram_parts@.len(),
            object_build_upto(gram, ob0, i as int) == (ObjectBuildV {
                ob: ob@,
                implement: implement,
                exception: exception,
                parent: parent,
                class_name: class_name,
            }),
        decreases gram_parts@.len() - i,
    {
        proof {
            assert(gram[i as int] == gram_parts@[i as int]@);
            assert(object_build_upto(gram, ob0, i as int + 1) == object_step(
                object_build_upto(gram, ob0, i as int),
                gram[i as int],
            ));
        }
        match &gram_parts[i] {
            Stream::Variable(var) => {
                if implement {
                    ob.add_interface(var.clone());
                } else if exception {
                    ob.add_exception(
                        Exception { desc: String::new(), exception_type: var.clone() },
                    );
                } else if class_name {
                    ob.ch_name(var.clone());
                    class_name = false;
                } else if parent {
                    ob.ch_parent(var.clone());
                    parent = false;
                }
            },
            Stream::Object(_) => {
                class_name = true;
            },
            Stream::Access(key) => {
                ob.ch_access(key.clone());
            },
            Stream::Modifier(key) => {
                ob.add_modifier(key.clone());
            },
            Stream::Exception => {
                exception = true;
                implement = false;
                parent = false;
                class_name = false;
            },
            Stream::Implement => {
                exception = false;
                implement = true;
                parent = false;
                class_name = false;
            },
            Stream::Parent => {
                exception = false;
                implement = false;
                parent = true;
                class_name = false;
            },
            _ => {},
        }
        proof {
            assert((ObjectBuildV {
                ob: ob@,
                implement: implement,
                exception: exception,
                parent: parent,
                class_name: class_name,
            }) =~~= object_build_upto(gram, ob0, i as int + 1));
        }
        i += 1;
    }

    if !java_doc.description.as_str().is_empty() {
        ob.ch_description(java_doc.description.clone());
    }
    if !java_doc.author.as_str().is_empty() {
        ob.ch_author(java_doc.author.clone());
    }
    if !java_doc.version.as_str().is_empty() {
        ob.ch_version(java_doc.version.clone());
    }
    proof {
        assert(ob@ =~~= object_spec(gram, java_doc@, ob0));
    }
}

} // verus!
