//! Lint findings: human-readable warnings for missing descriptions, missing
//! return types and undocumented parameters.
//!
//! The warning prefixes are decorated with terminal colours by an outside
//! crate whose output depends on the environment, so the decorated prefixes
//! enter the verified report builders as plain arguments.

use vstd::prelude::*;

use colored::Colorize;

use crate::model::class::ClassV;
use crate::model::interface::InterfaceV;
use crate::model::member::Member;
use crate::model::member::MemberV;
use crate::model::method::Method;
use crate::model::method::MethodV;
use crate::model::param::ParamV;
use crate::model::project::Project;
use crate::strutil::lemma_vec_views;
use crate::strutil::views_of;

verus! {

/// Relies on colored's `Colorize::yellow` on `&str`, rendered to a string;
/// whether colour codes surround the text depends on the environment, so
/// nothing is stated of the result.
#[verifier::external_body]
fn yellow_text(s: &str) -> String {
    s.yellow().to_string()
}

/// Relies on colored's `Colorize::green` and `Colorize::bold`, rendered to
/// a string; whether colour codes surround the text depends on the
/// environment, so nothing is stated of the result.
#[verifier::external_body]
fn green_bold_text(s: &str) -> String {
    s.green().bold().to_string()
}

/// Relies on colored's `Colorize::blue` on `&str`, rendered to a string;
/// whether colour codes surround the text depends on the environment, so
/// nothing is stated of the result.
#[verifier::external_body]
fn blue_text(s: &str) -> String {
    s.blue().to_string()
}

/// One warning per parameter without a description, each opened by the
/// decorated prefix `w`.
pub open spec fn param_warnings_text(
    ps: Seq<ParamV>,
    name: Seq<char>,
    line: Seq<char>,
    w: Seq<char>,
) -> Seq<char>
    decreases ps.len(),
{
    if ps.len() == 0 {
        Seq::empty()
    } else {
        param_warnings_text(ps.drop_last(), name, line, w) + (if ps.last().desc.len() == 0 {
            w + ps.last().name + " in method: "@ + name + " (Line: "@ + line + ")\n"@
        } else {
            Seq::empty()
        })
    }
}

/// The warnings of one method: a missing description, a missing return
/// type, and one line per undocumented parameter.
pub open spec fn lint_method_text(
    m: MethodV,
    w_desc: Seq<char>,
    w_ret: Seq<char>,
    w_param: Seq<char>,
) -> Seq<char> {
    (if m.description.len() == 0 {
        w_desc + m.name + " (Line: "@ + m.line_num + ")\n"@
    } else {
        Seq::empty()
    }) + (if m.return_type.len() == 0 {
        w_ret + m.name + " (Line: "@ + m.line_num + ")\n"@
    } else {
        Seq::empty()
    }) + param_warnings_text(m.parameters, m.name, m.line_num, w_param)
}

/// The warnings of one member variable: a missing description and a
/// missing type.
pub open spec fn lint_var_text(v: MemberV, w_desc: Seq<char>, w_type: Seq<char>) -> Seq<char> {
    (if v.desc.len() == 0 {
        w_desc + v.name + " (Line: "@ + v.line_num + ")\n"@
    } else {
        Seq::empty()
    }) + (if v.var_type.len() == 0 {
        w_type + v.name + " (Line: "@ + v.line_num + ")\n"@
    } else {
        Seq::empty()
    })
}

/// The warnings of every member variable, in order.
pub open spec fn var_reports_text(
    vs: Seq<MemberV>,
    w_desc: Seq<char>,
    w_type: Seq<char>,
) -> Seq<char>
    decreases vs.len(),
{
    if vs.len() == 0 {
        Seq::empty()
    } else {
        var_reports_text(vs.drop_last(), w_desc, w_type) + lint_var_text(
            vs.last(),
            w_desc,
            w_type,
        )
    }
}

/// The warnings of every method, in order.
pub open spec fn method_reports_text(
    ms: Seq<MethodV>,
    w_desc: Seq<char>,
    w_ret: Seq<char>,
    w_param: Seq<char>,
) -> Seq<char>
    decreases ms.len(),
{
    if ms.len() == 0 {
        Seq::empty()
    } else {
        method_reports_text(ms.drop_last(), w_desc, w_ret, w_param) + lint_method_text(
            ms.last(),
            w_desc,
            w_ret,
            w_param,
        )
    }
}

/// One declaration's section of the project report: nothing when it has no
/// warnings, else the decorated header, the name, the decorated file path
/// and the warnings.
pub open spec fn entity_report_text(
    hdr: Seq<char>,
    name: Seq<char>,
    path_dec: Seq<char>,
    warnings: Seq<char>,
) -> Seq<char> {
    if warnings.len() > 0 {
        hdr + name + "\nFile: "@ + path_dec + "\n"@ + warnings + "\n"@
    } else {
        Seq::empty()
    }
}

/// Builds the warnings of one method from the decorated prefixes.
pub fn lint_method_with(method: &Method, w_desc: &str, w_ret: &str, w_param: &str) -> (r: String)
    ensures
        r@ == lint_method_text(method@, w_desc@, w_ret@, w_param@),
{
    let mut method_errs = String::new();
    if method.description.as_str().is_empty() {
        method_errs.append(w_desc);
        method_errs.append(method.name.as_str());
        method_errs.append(" (Line: ");
        method_errs.append(method.line_num.as_str());
        method_errs.append(")\n");
    }
    if method.return_type.as_str().is_empty() {
        method_errs.append(w_ret);
        method_errs.append(method.name.as_str());
        method_errs.append(" (Line: ");
        method_errs.append(method.line_num.as_str());
        method_errs.append(")\n");
    }
    let ghost base = method_errs@;
    let ghost pars = views_of(method.parameters@);
    let mut i: usize = 0;
    while i < method.parameters.len()
        invariant
            i <= method.parameters@.len(),
            pars == views_of(method.parameters@),
            pars.len() == method.parameters@.len(),
            method_errs@ == base + param_warnings_text(
                pars.subrange(0, i as int),
                method@.name,
                method@.line_num,
                w_param@,
            ),
        decreases method.parameters@.len() - i,
    {
        if method.parameters[i].desc.as_str().is_empty() {
            method_errs.append(w_param);
            method_errs.append(method.parameters[i].name.as_str());
            method_errs.append(" in method: ");
            method_errs.append(method.name.as_str());
            method_errs.append(" (Line: ");
            method_errs.append(method.line_num.as_str());
            method_errs.append(")\n");
        }
        proof {
            assert(pars[i as int] == method.parameters@[i as int]@);
            assert(pars.subrange(0, i + 1).drop_last() =~= pars.subrange(0, i as int));
            assert(pars.subrange(0, i + 1).last() == pars[i as int]);
        }
        i += 1;
    }
    proof {
        lemma_vec_views(&method.parameters);
        assert(pars.subrange(0, pars.len() as int) =~= pars);
        assert(method_errs@ =~= lint_method_text(method@, w_desc@, w_ret@, w_param@));
    }
    method_errs
}

/// The warnings of one method, with freshly decorated prefixes. Which
/// decoration the environment yields is not fixed, so the report is stated
/// for some decorated prefixes.
pub fn lint_method(method: &Method) -> (r: String)
    ensures
        exists|wd: Seq<char>, wr: Seq<char>, wp: Seq<char>|
            r@ == lint_method_text(method@, wd, wr, wp),
{
    let w_desc = yellow_text("\tMissing description for method ");
    let w_ret = yellow_text("\tMissing return type for method ");
    let w_param = yellow_text("\tJavadoc parameter not found ");
    let r = lint_method_with(method, w_desc.as_str(), w_ret.as_str(), w_param.as_str());
    proof {
        assert(r@ == lint_method_text(method@, w_desc@, w_ret@, w_param@));
    }
    r
}

/// Builds the warnings of one member variable from the decorated prefixes.
pub fn lint_var_with(var: &Member, w_desc: &str, w_type: &str) -> (r: String)
    ensures
        r@ == lint_var_text(var@, w_desc@, w_type@),
{
    let mut errs = String::new();
    if var.desc.as_str().is_empty() {
        errs.append(w_desc);
        errs.append(var.name.as_str());
        errs.append(" (Line: ");
        errs.append(var.line_num.as_str());
        errs.append(")\n");
    }
    if var.var_type.as_str().is_empty() {
        errs.append(w_type);
        errs.append(var.name.as_str());
        errs.append(" (Line: ");
        errs.append(var.line_num.as_str());
        errs.append(")\n");
    }
    proof {
        assert(errs@ =~= lint_var_text(var@, w_desc@, w_type@));
    }
    errs
}

/// The warnings of one member variable, with freshly decorated prefixes.
/// Which decoration the environment yields is not fixed, so the report is
/// stated for some decorated prefixes.
pub fn lint_var(var: &Member) -> (r: String)
    ensures
        exists|wd: Seq<char>, wt: Seq<char>| r@ == lint_var_text(var@, wd, wt),
{
    let w_desc = yellow_text("\tMissing description for member variable ");
    let w_type = yellow_text("\tMissing return type for member variable ");
    let r = lint_var_with(var, w_desc.as_str(), w_type.as_str());
    proof {
        assert(r@ == lint_var_text(var@, w_desc@, w_type@));
    }
    r
}

/// Builds the warnings of a declaration's members and methods from the
/// decorated prefixes: every member variable's warnings, then every
/// method's.
pub fn lint_members_with(
    variables: &Vec<Member>,
    methods: &Vec<Method>,
    w_vdesc: &str,
    w_vtype: &str,
    w_mdesc: &str,
    w_mret: &str,
    w_param: &str,
) -> (r: String)
    ensures
        r@ == var_reports_text(views_of(variables@), w_vdesc@, w_vtype@) + method_reports_text(
            views_of(methods@),
            w_mdesc@,
            w_mret@,
            w_param@,
        ),
{
    let mut out = String::new();
    let ghost vars = views_of(variables@);
    let mut i: usize = 0;
    while i < variables.len()
        invariant
            i <= variables@.len(),
            vars == views_of(variables@),
            vars.len() == variables@.len(),
            out@ == var_reports_text(vars.subrange(0, i as int), w_vdesc@, w_vtype@),
        decreases variables@.len() - i,
    {
        let piece = lint_var_with(&variables[i], w_vdesc, w_vtype);
        out.append(piece.as_str());
        proof {
            assert(vars[i as int] == variables@[i as int]@);
            assert(vars.subrange(0, i + 1).drop_last() =~= vars.subrange(0, i as int));
            assert(vars.subrange(0, i + 1).last() == vars[i as int]);
        }
        i += 1;
    }
    proof {
        assert(vars.subrange(0, vars.len() as int) =~= vars);
    }
    let ghost base = out@;
    let ghost ms = views_of(methods@);
    let mut i: usize = 0;
    while i < methods.len()
        invariant
            i <= methods@.len(),
            ms == views_of(methods@),
            ms.len() == methods@.len(),
            out@ == base + method_reports_text(ms.subrange(0, i as int), w_mdesc@, w_mret@, w_param@),
        decreases methods@.len() - i,
    {
        let piece = lint_method_with(&methods[i], w_mdesc, w_mret, w_param);
        out.append(piece.as_str());
        proof {
            assert(ms[i as int] == methods@[i as int]@);
            assert(ms.subrange(0, i + 1).drop_last() =~= ms.subrange(0, i as int));
            assert(ms.subrange(0, i + 1).last() == ms[i as int]);
        }
        i += 1;
    }
    proof {
        assert(ms.subrange(0, ms.len() as int) =~= ms);
    }
    out
}

/// Appends one declaration's section of the project report: nothing when
/// `warnings` is empty, else the decorated header, the name, the decorated
/// file path and the warnings.
fn append_entity_report(out: &mut String, hdr: &str, name: &str, path_dec: &str, warnings: &str)
    ensures
        final(out)@ == old(out)@ + entity_report_text(hdr@, name@, path_dec@, warnings@),
{
    if !warnings.is_empty() {
        out.append(hdr);
        out.append(name);
        out.append("\nFile: ");
        out.append(path_dec);
        out.append("\n");
        out.append(warnings);
        out.append("\n");
    }
    proof {
        assert(final(out)@ =~= old(out)@ + entity_report_text(hdr@, name@, path_dec@, warnings@));
    }
}

/// Lints a whole project: for every class and interface with warnings, a
/// section naming it and its file, with one line per finding. The warning
/// prefixes and file paths pass through environment-dependent colour
/// decoration, so each section's text is exact only relative to those
/// decorated strings; the per-declaration builders carry the exact
/// contracts.
pub fn lint_project(proj: Project) -> (r: String)
    ensures
        exists|wd: Seq<char>, wt: Seq<char>, md: Seq<char>, mr: Seq<char>, mp: Seq<char>|
            lint_project_shape(proj@, r@, wd, wt, md, mr, mp),
{
    let w_vdesc = yellow_text("\tMissing description for member variable ");
    let w_vtype = yellow_text("\tMissing return type for member variable ");
    let w_mdesc = yellow_text("\tMissing description for method ");
    let w_mret = yellow_text("\tMissing return type for method ");
    let w_param = yellow_text("\tJavadoc parameter not found ");
    let mut jdoc_errs = String::new();
    let ghost cls = views_of(proj.classes@);
    let ghost mut class_decos: Seq<(Seq<char>, Seq<char>)> = Seq::empty();
    let mut i: usize = 0;
    while i < proj.classes.len()
        invariant
            i <= proj.classes@.len(),
            cls == views_of(proj.classes@),
            cls.len() == proj.classes@.len(),
            class_decos.len() == i,
            jdoc_errs@ == class_sections_text(
                cls.subrange(0, i as int),
                class_decos,
                w_vdesc@,
                w_vtype@,
                w_mdesc@,
                w_mret@,
                w_param@,
            ),
        decreases proj.classes@.len() - i,
    {
        let class = &proj.classes[i];
        let temp_err = lint_members_with(
            &class.variables,
            &class.methods,
            w_vdesc.as_str(),
            w_vtype.as_str(),
            w_mdesc.as_str(),
            w_mret.as_str(),
            w_param.as_str(),
        );
        let hdr = green_bold_text("Javadoc errors for class ");
        let path_dec = blue_text(class.file_path.as_str());
        append_entity_report(
            &mut jdoc_errs,
            hdr.as_str(),
            class.name.as_str(),
            path_dec.as_str(),
            temp_err.as_str(),
        );
        proof {
            let prev_decos = class_decos;
            class_decos = class_decos.push((hdr@, path_dec@));
            assert(class_decos.subrange(0, i as int) =~= prev_decos);
            assert(class_decos[i as int] == (hdr@, path_dec@));
            assert(cls[i as int] == proj.classes@[i as int]@);
            assert(cls.subrange(0, i + 1).drop_last() =~= cls.subrange(0, i as int));
            assert(cls.subrange(0, i + 1).last() == cls[i as int]);
            let c = cls[i as int];
            let warnings = var_reports_text(c.variables, w_vdesc@, w_vtype@)
                + method_reports_text(c.methods, w_mdesc@, w_mret@, w_param@);
            assert(temp_err@ == warnings);
            assert(class_sections_text(
                cls.subrange(0, i + 1),
                class_decos,
                w_vdesc@,
                w_vtype@,
                w_mdesc@,
                w_mret@,
                w_param@,
            ) == class_sections_text(
                cls.subrange(0, i as int),
                prev_decos,
                w_vdesc@,
                w_vtype@,
                w_mdesc@,
                w_mret@,
                w_param@,
            ) + entity_report_text(hdr@, c.name, path_dec@, warnings));
            assert(jdoc_errs@ == class_sections_text(
                cls.subrange(0, i + 1),
                class_decos,
                w_vdesc@,
                w_vtype@,
                w_mdesc@,
                w_mret@,
                w_param@,
            ));
        }
        i += 1;
    }
    let ghost ifs = views_of(proj.interfaces@);
    let ghost base = jdoc_errs@;
    let ghost mut iface_decos: Seq<(Seq<char>, Seq<char>)> = Seq::empty();
    let mut i: usize = 0;
    while i < proj.interfaces.len()
        invariant
            i <= proj.interfaces@.len(),
            ifs == views_of(proj.interfaces@),
            ifs.len() == proj.interfaces@.len(),
            iface_decos.len() == i,
            jdoc_errs@ == base + iface_sections_text(
                ifs.subrange(0, i as int),
                iface_decos,
                w_vdesc@,
                w_vtype@,
                w_mdesc@,
                w_mret@,
                w_param@,
            ),
        decreases proj.interfaces@.len() - i,
    {
        let inter = &proj.interfaces[i];
        let temp_err = lint_members_with(
            &inter.variables,
            &inter.methods,
            w_vdesc.as_str(),
            w_vtype.as_str(),
            w_mdesc.as_str(),
            w_mret.as_str(),
            w_param.as_str(),
        );
        let hdr = green_bold_text("Javadoc errors for interface ");
        let path_dec = blue_text(inter.file_path.as_str());
        append_entity_report(
            &mut jdoc_errs,
            hdr.as_str(),
            inter.name.as_str(),
            path_dec.as_str(),
            temp_err.as_str(),
        );
        proof {
            let prev_decos = iface_decos;
            iface_decos = iface_decos.push((hdr@, path_dec@));
            assert(iface_decos.subrange(0, i as int) =~= prev_decos);
            assert(iface_decos[i as int] == (hdr@, path_dec@));
            assert(ifs[i as int] == proj.interfaces@[i as int]@);
            assert(ifs.subrange(0, i + 1).drop_last() =~= ifs.subrange(0, i as int));
            assert(ifs.subrange(0, i + 1).last() == ifs[i as int]);
            let c = ifs[i as int];
            let warnings = var_reports_text(c.variables, w_vdesc@, w_vtype@)
                + method_reports_text(c.methods, w_mdesc@, w_mret@, w_param@);
            assert(temp_err@ == warnings);
            assert(iface_sections_text(
                ifs.subrange(0, i + 1),
                iface_decos,
                w_vdesc@,
                w_vtype@,
                w_mdesc@,
                w_mret@,
                w_param@,
            ) == iface_sections_text(
                ifs.subrange(0, i as int),
                prev_decos,
                w_vdesc@,
                w_vtype@,
                w_mdesc@,
                w_mret@,
                w_param@,
            ) + entity_report_text(hdr@, c.name, path_dec@, warnings));
            assert(jdoc_errs@ == base + iface_sections_text(
                ifs.subrange(0, i + 1),
                iface_decos,
                w_vdesc@,
                w_vtype@,
                w_mdesc@,
                w_mret@,
                w_param@,
            ));
        }
        i += 1;
    }
    proof {
        lemma_vec_views(&proj.classes);
        lemma_vec_views(&proj.interfaces);
        assert(cls.subrange(0, cls.len() as int) =~= cls);
        assert(ifs.subrange(0, ifs.len() as int) =~= ifs);
        assert(class_decos.len() == proj@.classes.len());
        assert(iface_decos.len() == proj@.interfaces.len());
        assert(jdoc_errs@ == class_sections_text(
            proj@.classes,
            class_decos,
            w_vdesc@,
            w_vtype@,
            w_mdesc@,
            w_mret@,
            w_param@,
        ) + iface_sections_text(
            proj@.interfaces,
            iface_decos,
            w_vdesc@,
            w_vtype@,
            w_mdesc@,
            w_mret@,
            w_param@,
        ));
        assert(lint_project_shape(
            proj@,
            jdoc_errs@,
            w_vdesc@,
            w_vtype@,
            w_mdesc@,
            w_mret@,
            w_param@,
        ));
    }
    jdoc_errs
}

/// One class section per class, each with its own decorated header and
/// decorated file path.
pub open spec fn class_sections_text(
    cs: Seq<ClassV>,
    decos: Seq<(Seq<char>, Seq<char>)>,
    wd: Seq<char>,
    wt: Seq<char>,
    md: Seq<char>,
    mr: Seq<char>,
    mp: Seq<char>,
) -> Seq<char>
    decreases cs.len(),
{
    if cs.len() == 0 || decos.len() < cs.len() {
        Seq::empty()
    } else {
        let c = cs.last();
        let warnings = var_reports_text(c.variables, wd, wt) + method_reports_text(
            c.methods,
            md,
            mr,
            mp,
        );
        class_sections_text(cs.drop_last(), decos.subrange(0, cs.len() - 1), wd, wt, md, mr, mp)
            + entity_report_text(decos[cs.len() - 1].0, c.name, decos[cs.len() - 1].1, warnings)
    }
}

/// One interface section per interface, formed as the class sections are.
pub open spec fn iface_sections_text(
    cs: Seq<InterfaceV>,
    decos: Seq<(Seq<char>, Seq<char>)>,
    wd: Seq<char>,
    wt: Seq<char>,
    md: Seq<char>,
    mr: Seq<char>,
    mp: Seq<char>,
) -> Seq<char>
    decreases cs.len(),
{
    if cs.len() == 0 || decos.len() < cs.len() {
        Seq::empty()
    } else {
        let c = cs.last();
        let warnings = var_reports_text(c.variables, wd, wt) + method_reports_text(
            c.methods,
            md,
            mr,
            mp,
        );
        iface_sections_text(cs.drop_last(), decos.subrange(0, cs.len() - 1), wd, wt, md, mr, mp)
            + entity_report_text(decos[cs.len() - 1].0, c.name, decos[cs.len() - 1].1, warnings)
    }
}

/// The shape of a whole-project report: for some decorated header-and-path
/// pair per declaration — exactly one per class and one per interface — the
/// report is the class sections followed by the interface sections, built
/// from the given warning prefixes.
pub open spec fn lint_project_shape(
    p: crate::model::project::ProjectV,
    r: Seq<char>,
    wd: Seq<char>,
    wt: Seq<char>,
    md: Seq<char>,
    mr: Seq<char>,
    mp: Seq<char>,
) -> bool {
    exists|cdecos: Seq<(Seq<char>, Seq<char>)>, idecos: Seq<(Seq<char>, Seq<char>)>|
        cdecos.len() == p.classes.len() && idecos.len() == p.interfaces.len() && r
            == #[trigger] class_sections_text(p.classes, cdecos, wd, wt, md, mr, mp)
            + #[trigger] iface_sections_text(p.interfaces, idecos, wd, wt, md, mr, mp)
}

} // verus!
