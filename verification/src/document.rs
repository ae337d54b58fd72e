//! Markdown rendering of the declaration model, and the pure file-name
//! tests that the surrounding file traversal relies on.

use vstd::prelude::*;

use crate::model::class::Class;
use crate::model::class::ClassV;
use crate::model::exception::Exception;
use crate::model::exception::ExceptionV;
use crate::model::interface::Interface;
use crate::model::interface::InterfaceV;
use crate::model::member::Member;
use crate::model::member::MemberV;
use crate::model::method::Method;
use crate::model::method::MethodV;
use crate::model::param::Param;
use crate::model::param::ParamV;
use crate::strutil::lemma_vec_views;
use crate::strutil::trim_text;
use crate::strutil::trimmed;
use crate::strutil::views_of;

verus! {

// ------------------------------------------------------------------
// Text of repeated sections
// ------------------------------------------------------------------

/// One interface bullet per implemented interface.
pub open spec fn bullet_items_text(xs: Seq<Seq<char>>) -> Seq<char>
    decreases xs.len(),
{
    if xs.len() == 0 {
        Seq::empty()
    } else {
        bullet_items_text(xs.drop_last()) + "- "@ + xs.last() + "  \n"@
    }
}

/// One list item per dependency, as a class renders them.
pub open spec fn li_items_text(xs: Seq<Seq<char>>) -> Seq<char>
    decreases xs.len(),
{
    if xs.len() == 0 {
        Seq::empty()
    } else {
        li_items_text(xs.drop_last()) + "<li>"@ + xs.last() + "</li>\n"@
    }
}

/// One list item per dependency, as an interface renders them.
pub open spec fn li_items_indented_text(xs: Seq<Seq<char>>) -> Seq<char>
    decreases xs.len(),
{
    if xs.len() == 0 {
        Seq::empty()
    } else {
        li_items_indented_text(xs.drop_last()) + "    <li>"@ + xs.last() + "</li>\n"@
    }
}

/// One line per thrown exception of a declaration header.
pub open spec fn throws_lines_text(xs: Seq<ExceptionV>) -> Seq<char>
    decreases xs.len(),
{
    if xs.len() == 0 {
        Seq::empty()
    } else {
        throws_lines_text(xs.drop_last()) + "Throws "@ + xs.last().exception_type + ": "@
            + xs.last().desc + "  \n\n"@
    }
}

/// One bullet per thrown exception of a method.
pub open spec fn throws_bullets_text(xs: Seq<ExceptionV>) -> Seq<char>
    decreases xs.len(),
{
    if xs.len() == 0 {
        Seq::empty()
    } else {
        throws_bullets_text(xs.drop_last()) + "+ Throws "@ + xs.last().exception_type + ": "@
            + xs.last().desc + "  \n"@
    }
}

/// The modifiers of a declaration, each followed by a space.
pub open spec fn modifier_words_text(xs: Seq<Seq<char>>) -> Seq<char>
    decreases xs.len(),
{
    if xs.len() == 0 {
        Seq::empty()
    } else {
        modifier_words_text(xs.drop_last()) + xs.last() + " "@
    }
}

/// One table row per parameter.
pub open spec fn param_rows_text(xs: Seq<ParamV>) -> Seq<char>
    decreases xs.len(),
{
    if xs.len() == 0 {
        Seq::empty()
    } else {
        param_rows_text(xs.drop_last()) + "| "@ + xs.last().name + " | "@ + xs.last().var_type
            + " | "@ + xs.last().desc + " |  \n"@
    }
}

/// The modifiers block: a bullet with every modifier, or nothing.
pub open spec fn modifiers_block_text(mods: Seq<Seq<char>>) -> Seq<char> {
    if mods.len() > 0 {
        "+ Modifiers: "@ + modifier_words_text(mods) + "\n"@
    } else {
        Seq::empty()
    }
}

/// Appends the modifiers block.
fn append_modifiers_block(doc: &mut String, modifiers: &Vec<String>)
    ensures
        final(doc)@ == old(doc)@ + modifiers_block_text(views_of(modifiers@)),
{
    if modifiers.len() > 0 {
        doc.append("+ Modifiers: ");
        let ghost base = doc@;
        let ghost mods = views_of(modifiers@);
        let mut i: usize = 0;
        while i < modifiers.len()
            invariant
                i <= modifiers@.len(),
                mods == views_of(modifiers@),
                mods.len() == modifiers@.len(),
                doc@ == base + modifier_words_text(mods.subrange(0, i as int)),
            decreases modifiers@.len() - i,
        {
            doc.append(modifiers[i].as_str());
            doc.append(" ");
            proof {
                assert(mods[i as int] == modifiers@[i as int]@);
                assert(mods.subrange(0, i + 1).drop_last() =~= mods.subrange(0, i as int));
                assert(mods.subrange(0, i + 1).last() == mods[i as int]);
            }
            i += 1;
        }
        proof {
            assert(mods.subrange(0, mods.len() as int) =~= mods);
        }
        doc.append("\n");
        proof {
            assert(final(doc)@ =~= old(doc)@ + modifiers_block_text(mods));
        }
    }
}

/// Appends one bullet per thrown exception.
fn append_throws_bullets(doc: &mut String, exceptions: &Vec<Exception>)
    ensures
        final(doc)@ == old(doc)@ + throws_bullets_text(views_of(exceptions@)),
{
    let ghost base = doc@;
    let ghost excs = views_of(exceptions@);
    let mut i: usize = 0;
    while i < exceptions.len()
        invariant
            i <= exceptions@.len(),
            excs == views_of(exceptions@),
            excs.len() == exceptions@.len(),
            doc@ == base + throws_bullets_text(excs.subrange(0, i as int)),
        decreases exceptions@.len() - i,
    {
        doc.append("+ Throws ");
        doc.append(exceptions[i].exception_type.as_str());
        doc.append(": ");
        doc.append(exceptions[i].desc.as_str());
        doc.append("  \n");
        proof {
            assert(excs[i as int] == exceptions@[i as int]@);
            assert(excs.subrange(0, i + 1).drop_last() =~= excs.subrange(0, i as int));
            assert(excs.subrange(0, i + 1).last() == excs[i as int]);
        }
        i += 1;
    }
    proof {
        assert(excs.subrange(0, excs.len() as int) =~= excs);
    }
}

// ------------------------------------------------------------------
// Member variables
// ------------------------------------------------------------------

/// The heading of one member block: title line, description and access.
pub open spec fn member_head_text(m: MemberV, path: Seq<char>) -> Seq<char> {
    (if path.len() > 0 {
        "#### "@ + m.var_type + " "@ + m.name + " [[src]]("@ + path + "#L"@ + m.line_num
            + ")\n\n"@
    } else {
        "#### "@ + m.var_type + " "@ + m.name + "\n\n"@
    }) + (if m.desc.len() > 0 {
        "+ Description: "@ + m.desc + "  \n"@
    } else {
        Seq::empty()
    }) + (if m.access.len() == 0 {
        "+ Access: package-private  \n"@
    } else {
        "+ Access: "@ + m.access + "  \n"@
    })
}

/// The rendered block of one member variable.
pub open spec fn member_entry_text(m: MemberV, path: Seq<char>) -> Seq<char> {
    member_head_text(m, path) + modifiers_block_text(m.modifiers) + "\n"@
}

/// Appends the heading of one member block.
#[verifier::rlimit(100)]
fn append_member_head(doc: &mut String, member: &Member, path: &String)
    ensures
        final(doc)@ == old(doc)@ + member_head_text(member@, path@),
{
    if !path.as_str().is_empty() {
        doc.append("#### ");
        doc.append(member.var_type.as_str());
        doc.append(" ");
        doc.append(member.name.as_str());
        doc.append(" [[src]](");
        doc.append(path.as_str());
        doc.append("#L");
        doc.append(member.line_num.as_str());
        doc.append(")\n\n");
    } else {
        doc.append("#### ");
        doc.append(member.var_type.as_str());
        doc.append(" ");
        doc.append(member.name.as_str());
        doc.append("\n\n");
    }
    if !member.desc.as_str().is_empty() {
        doc.append("+ Description: ");
        doc.append(member.desc.as_str());
        doc.append("  \n");
    }
    if member.access.as_str().is_empty() {
        doc.append("+ Access: package-private  \n");
    } else {
        doc.append("+ Access: ");
        doc.append(member.access.as_str());
        doc.append("  \n");
    }
    proof {
        assert(final(doc)@ =~= old(doc)@ + member_head_text(member@, path@));
    }
}

/// Appends the rendered block of one member variable.
fn append_member_entry(doc: &mut String, member: &Member, path: &String)
    ensures
        final(doc)@ == old(doc)@ + member_entry_text(member@, path@),
{
    append_member_head(doc, member, path);
    append_modifiers_block(doc, &member.modifiers);
    doc.append("\n");
    proof {
        lemma_vec_views(&member.modifiers);
        assert(final(doc)@ =~= old(doc)@ + member_entry_text(member@, path@));
    }
}

/// The rendered blocks of all member variables, in order.
pub open spec fn member_entries_text(xs: Seq<MemberV>, path: Seq<char>) -> Seq<char>
    decreases xs.len(),
{
    if xs.len() == 0 {
        Seq::empty()
    } else {
        member_entries_text(xs.drop_last(), path) + member_entry_text(xs.last(), path)
    }
}

/// The member-variable chapter: a heading and one block per member, or a
/// fixed line when there are none.
pub open spec fn var_docs_text(vars: Seq<MemberV>, path: Seq<char>) -> Seq<char> {
    if vars.len() > 0 {
        "## Member Variables\n\n"@ + member_entries_text(vars, path)
    } else {
        "## No member variables in this class\n\n"@
    }
}

/// Renders the member-variable chapter of one declaration.
pub fn gen_var_docs(variables: Vec<Member>, path: String) -> (r: String)
    ensures
        r@ == var_docs_text(variables.deep_view(), path@),
{
    proof {
        lemma_vec_views(&variables);
    }
    let ghost vars = views_of(variables@);
    let mut doc = String::new();
    if variables.len() == 0 {
        doc.append("## No member variables in this class\n\n");
        assert(doc@ =~= var_docs_text(vars, path@));
        return doc;
    }
    doc.append("## Member Variables\n\n");
    let ghost base = doc@;
    let mut i: usize = 0;
    while i < variables.len()
        invariant
            i <= variables@.len(),
            vars == views_of(variables@),
            vars.len() == variables@.len(),
            doc@ == base + member_entries_text(vars.subrange(0, i as int), path@),
        decreases variables@.len() - i,
    {
        append_member_entry(&mut doc, &variables[i], &path);
        proof {
            assert(vars[i as int] == variables@[i as int]@);
            assert(vars.subrange(0, i + 1).drop_last() =~= vars.subrange(0, i as int));
            assert(vars.subrange(0, i + 1).last() == vars[i as int]);
        }
        i += 1;
    }
    proof {
        assert(vars.subrange(0, vars.len() as int) =~= vars);
    }
    doc
}

// ------------------------------------------------------------------
// Methods
// ------------------------------------------------------------------

/// The heading of one method block: title line, description and access.
pub open spec fn method_head_text(m: MethodV, path: Seq<char>) -> Seq<char> {
    (if path.len() > 0 {
        "### "@ + m.name + " [[src]]("@ + path + "#L"@ + m.line_num + ")\n\n"@
    } else {
        "### "@ + m.name + "\n\n"@
    }) + "+ Description: "@ + m.description + "  \n"@ + (if m.privacy.len() == 0 {
        "+ Access: package-private  \n"@
    } else {
        "+ Access: "@ + m.privacy + "  \n"@
    })
}

/// The parameter section of one method block: a table with one row per
/// parameter, or a fixed line when there are none.
pub open spec fn params_section_text(params: Seq<ParamV>) -> Seq<char> {
    (if params.len() > 0 {
        "| Name | Type | Description |  \n"@ + "| ----- | ----- | ----- |  \n"@
    } else {
        "This method has no parameters.  \n"@
    }) + param_rows_text(params)
}

/// The rendered block of one method; a method without a name renders
/// nothing.
pub open spec fn method_entry_text(m: MethodV, path: Seq<char>) -> Seq<char> {
    if m.name.len() == 0 {
        Seq::empty()
    } else {
        method_head_text(m, path) + modifiers_block_text(m.modifiers) + throws_bullets_text(
            m.exceptions,
        ) + "+ return: "@ + m.return_type + "  \n\n"@ + params_section_text(m.parameters)
            + "\n\n"@
    }
}

/// Appends the heading of one method block.
#[verifier::rlimit(100)]
fn append_method_head(doc: &mut String, member: &Method, path: &String)
    ensures
        final(doc)@ == old(doc)@ + method_head_text(member@, path@),
{
    if !path.as_str().is_empty() {
        doc.append("### ");
        doc.append(member.name.as_str());
        doc.append(" [[src]](");
        doc.append(path.as_str());
        doc.append("#L");
        doc.append(member.line_num.as_str());
        doc.append(")\n\n");
    } else {
        doc.append("### ");
        doc.append(member.name.as_str());
        doc.append("\n\n");
    }
    doc.append("+ Description: ");
    doc.append(member.description.as_str());
    doc.append("  \n");
    if member.privacy.as_str().is_empty() {
        doc.append("+ Access: package-private  \n");
    } else {
        doc.append("+ Access: ");
        doc.append(member.privacy.as_str());
        doc.append("  \n");
    }
    proof {
        assert(final(doc)@ =~= old(doc)@ + method_head_text(member@, path@));
    }
}

/// Appends the parameter section of one method block.
fn append_params_section(doc: &mut String, parameters: &Vec<Param>)
    ensures
        final(doc)@ == old(doc)@ + params_section_text(views_of(parameters@)),
{
    if parameters.len() > 0 {
        doc.append("| Name | Type | Description |  \n");
        doc.append("| ----- | ----- | ----- |  \n");
    } else {
        doc.append("This method has no parameters.  \n");
    }
    let ghost base = doc@;
    let ghost pars = views_of(parameters@);
    let mut i: usize = 0;
    while i < parameters.len()
        invariant
            i <= parameters@.len(),
            pars == views_of(parameters@),
            pars.len() == parameters@.len(),
            doc@ == base + param_rows_text(pars.subrange(0, i as int)),
        decreases parameters@.len() - i,
    {
        doc.append("| ");
        doc.append(parameters[i].name.as_str());
        doc.append(" | ");
        doc.append(parameters[i].var_type.as_str());
        doc.append(" | ");
        doc.append(parameters[i].desc.as_str());
        doc.append(" |  \n");
        proof {
            assert(pars[i as int] == parameters@[i as int]@);
            assert(pars.subrange(0, i + 1).drop_last() =~= pars.subrange(0, i as int));
            assert(pars.subrange(0, i + 1).last() == pars[i as int]);
        }
        i += 1;
    }
    proof {
        assert(pars.subrange(0, pars.len() as int) =~= pars);
        assert(final(doc)@ =~= old(doc)@ + params_section_text(pars));
    }
}

/// Appends the rendered block of one method.
#[verifier::rlimit(100)]
fn append_method_entry(doc: &mut String, member: &Method, path: &String)
    ensures
        final(doc)@ == old(doc)@ + method_entry_text(member@, path@),
{
    if member.name.as_str().is_empty() {
        proof {
            assert(final(doc)@ =~= old(doc)@ + method_entry_text(member@, path@));
        }
        return ;
    }
    append_method_head(doc, member, path);
    append_modifiers_block(doc, &member.modifiers);
    append_throws_bullets(doc, &member.exceptions);
    doc.append("+ return: ");
    doc.append(member.return_type.as_str());
    doc.append("  \n\n");
    append_params_section(doc, &member.parameters);
    doc.append("\n\n");
    proof {
        lemma_vec_views(&member.modifiers);
        lemma_vec_views(&member.exceptions);
        lemma_vec_views(&member.parameters);
        assert(final(doc)@ =~= old(doc)@ + method_entry_text(member@, path@));
    }
}

/// The rendered blocks of all methods, in order.
pub open spec fn method_entries_text(xs: Seq<MethodV>, path: Seq<char>) -> Seq<char>
    decreases xs.len(),
{
    if xs.len() == 0 {
        Seq::empty()
    } else {
        method_entries_text(xs.drop_last(), path) + method_entry_text(xs.last(), path)
    }
}

/// The method chapter: a heading and one block per named method, or a
/// fixed line when there are none.
pub open spec fn method_docs_text(methods: Seq<MethodV>, path: Seq<char>) -> Seq<char> {
    if methods.len() > 0 {
        "## Methods\n\n"@ + method_entries_text(methods, path)
    } else {
        "## No methods in this class\n\n"@
    }
}

/// Renders the method chapter of one declaration.
pub fn gen_method_docs(methods: Vec<Method>, path: String) -> (r: String)
    ensures
        r@ == method_docs_text(methods.deep_view(), path@),
{
    proof {
        lemma_vec_views(&methods);
    }
    let ghost ms = views_of(methods@);
    let mut doc = String::new();
    if methods.len() == 0 {
        doc.append("## No methods in this class\n\n");
        assert(doc@ =~= method_docs_text(ms, path@));
        return doc;
    }
    doc.append("## Methods\n\n");
    let ghost base = doc@;
    let mut i: usize = 0;
    while i < methods.len()
        invariant
            i <= methods@.len(),
            ms == views_of(methods@),
            ms.len() == methods@.len(),
            doc@ == base + method_entries_text(ms.subrange(0, i as int), path@),
        decreases methods@.len() - i,
    {
        append_method_entry(&mut doc, &methods[i], &path);
        proof {
            assert(ms[i as int] == methods@[i as int]@);
            assert(ms.subrange(0, i + 1).drop_last() =~= ms.subrange(0, i as int));
            assert(ms.subrange(0, i + 1).last() == ms[i as int]);
        }
        i += 1;
    }
    proof {
        assert(ms.subrange(0, ms.len() as int) =~= ms);
    }
    doc
}

// ------------------------------------------------------------------
// Class pages
// ------------------------------------------------------------------

/// The title line of a class page, with a source link when a path is set.
pub open spec fn class_title_text(c: ClassV) -> Seq<char> {
    if c.file_path.len() > 0 {
        "# Class "@ + c.name + " [[src]]("@ + c.file_path + ")  \n\n"@
    } else {
        "# Class "@ + c.name + "\n\n"@
    }
}

/// The folded license block of a class page, or nothing.
pub open spec fn class_license_text(c: ClassV) -> Seq<char> {
    if c.license.len() > 0 {
        "<details>  \n"@ + "  <summary>  \n"@ + "    Show license  \n\n"@ + "  </summary>  \n"@
            + "  <ul>  \n"@ + c.license + "  </ul>  \n"@ + "</details>  \n\n"@ + "<br/>"@
    } else {
        Seq::empty()
    }
}

/// The attribute lines of a class page: access, description, author,
/// version and parent.
pub open spec fn class_attrs_text(c: ClassV) -> Seq<char> {
    "Access: "@ + trimmed(c.access) + "  \n"@ + (if c.description.len() > 0 {
        "Description:  \n > "@ + trimmed(c.description) + "  \n\n"@
    } else {
        Seq::empty()
    }) + (if c.author.len() > 0 {
        "Author: "@ + c.author + "  \n"@
    } else {
        Seq::empty()
    }) + (if c.version.len() > 0 {
        "Since version: "@ + c.version + "  \n"@
    } else {
        Seq::empty()
    }) + (if c.parent.len() > 0 {
        "Parent class: "@ + c.parent + "  \n"@
    } else {
        Seq::empty()
    })
}

/// The interface list of a class page, or nothing.
pub open spec fn class_ifaces_text(c: ClassV) -> Seq<char> {
    if c.interfaces.len() > 0 {
        "Interfaces:  \n"@ + bullet_items_text(c.interfaces) + "\n"@
    } else {
        Seq::empty()
    }
}

/// The package line of a class page.
pub open spec fn class_pkg_text(c: ClassV) -> Seq<char> {
    "package: "@ + trimmed(c.package_name) + "  \n\n"@
}

/// The thrown-exception lines of a class page, or nothing.
pub open spec fn class_throws_text(c: ClassV) -> Seq<char> {
    if c.exceptions.len() > 0 {
        throws_lines_text(c.exceptions) + "\n"@
    } else {
        Seq::empty()
    }
}

/// The folded dependency block of a class page.
pub open spec fn class_deps_text(c: ClassV) -> Seq<char> {
    "## Dependencies\n\n"@ + "<details>  \n"@ + "  <summary>  \n"@ + "    Show dependencies  \n"@
        + "  </summary>  \n"@ + "  <ul>  \n"@ + li_items_text(c.dependencies) + "  </ul>  \n"@
        + "</details>  \n\n"@
}

/// The rendered header page of one class: title and source link, license
/// fold, attributes, interfaces, package, thrown exceptions, and the
/// dependency fold.
pub open spec fn class_docs_text(c: ClassV) -> Seq<char> {
    class_title_text(c) + class_license_text(c) + class_attrs_text(c) + class_ifaces_text(c)
        + class_pkg_text(c) + class_throws_text(c) + class_deps_text(c)
}

/// Appends the title and license blocks of a class page.
#[verifier::rlimit(100)]
fn append_class_title_license(doc: &mut String, class: &Class)
    ensures
        final(doc)@ == old(doc)@ + class_title_text(class@) + class_license_text(class@),
{
    if !class.file_path.as_str().is_empty() {
        doc.append("# Class ");
        doc.append(class.name.as_str());
        doc.append(" [[src]](");
        doc.append(class.file_path.as_str());
        doc.append(")  \n\n");
    } else {
        doc.append("# Class ");
        doc.append(class.name.as_str());
        doc.append("\n\n");
    }
    if !class.license.as_str().is_empty() {
        doc.append("<details>  \n");
        doc.append("  <summary>  \n");
        doc.append("    Show license  \n\n");
        doc.append("  </summary>  \n");
        doc.append("  <ul>  \n");
        doc.append(class.license.as_str());
        doc.append("  </ul>  \n");
        doc.append("</details>  \n\n");
        doc.append("<br/>");
    }
    proof {
        assert(final(doc)@ =~= old(doc)@ + class_title_text(class@) + class_license_text(
            class@,
        ));
    }
}

/// Appends the attribute lines of a class page.
#[verifier::rlimit(100)]
fn append_class_attrs(doc: &mut String, class: &Class)
    ensures
        final(doc)@ == old(doc)@ + class_attrs_text(class@),
{
    doc.append("Access: ");
    let t = trim_text(class.access.as_str());
    doc.append(t.as_str());
    doc.append("  \n");
    if !class.description.as_str().is_empty() {
        doc.append("Description:  \n > ");
        let t = trim_text(class.description.as_str());
        doc.append(t.as_str());
        doc.append("  \n\n");
    }
    if !class.author.as_str().is_empty() {
        doc.append("Author: ");
        doc.append(class.author.as_str());
        doc.append("  \n");
    }
    if !class.version.as_str().is_empty() {
        doc.append("Since version: ");
        doc.append(class.version.as_str());
        doc.append("  \n");
    }
    if !class.parent.as_str().is_empty() {
        doc.append("Parent class: ");
        doc.append(class.parent.as_str());
        doc.append("  \n");
    }
    proof {
        assert(final(doc)@ =~= old(doc)@ + class_attrs_text(class@));
    }
}

/// Appends the interface list of a class page.
fn append_class_ifaces(doc: &mut String, class: &Class)
    ensures
        final(doc)@ == old(doc)@ + class_ifaces_text(class@),
{
    proof {
        lemma_vec_views(&class.interfaces);
    }
    if class.interfaces.len() > 0 {
        doc.append("Interfaces:  \n");
        let ghost base = doc@;
        let ghost ifs = views_of(class.interfaces@);
        let mut i: usize = 0;
        while i < class.interfaces.len()
            invariant
                i <= class.interfaces@.len(),
                ifs == views_of(class.interfaces@),
                ifs.len() == class.interfaces@.len(),
                doc@ == base + bullet_items_text(ifs.subrange(0, i as int)),
            decreases class.interfaces@.len() - i,
        {
            doc.append("- ");
            doc.append(class.interfaces[i].as_str());
            doc.append("  \n");
            proof {
                assert(ifs[i as int] == class.interfaces@[i as int]@);
                assert(ifs.subrange(0, i + 1).drop_last() =~= ifs.subrange(0, i as int));
                assert(ifs.subrange(0, i + 1).last() == ifs[i as int]);
            }
            i += 1;
        }
        proof {
            assert(ifs.subrange(0, ifs.len() as int) =~= ifs);
        }
        doc.append("\n");
        proof {
            assert(final(doc)@ =~= old(doc)@ + class_ifaces_text(class@));
        }
    }
}

/// Appends the thrown-exception lines of a class page.
fn append_class_throws(doc: &mut String, class: &Class)
    ensures
        final(doc)@ == old(doc)@ + class_throws_text(class@),
{
    proof {
        lemma_vec_views(&class.exceptions);
    }
    if class.exceptions.len() > 0 {
        let ghost base = doc@;
        let ghost excs = views_of(class.exceptions@);
        let mut i: usize = 0;
        while i < class.exceptions.len()
            invariant
                i <= class.exceptions@.len(),
                excs == views_of(class.exceptions@),
                excs.len() == class.exceptions@.len(),
                doc@ == base + throws_lines_text(excs.subrange(0, i as int)),
            decreases class.exceptions@.len() - i,
        {
            doc.append("Throws ");
            doc.append(class.exceptions[i].exception_type.as_str());
            doc.append(": ");
            doc.append(class.exceptions[i].desc.as_str());
            doc.append("  \n\n");
            proof {
                assert(excs[i as int] == class.exceptions@[i as int]@);
                assert(excs.subrange(0, i + 1).drop_last() =~= excs.subrange(0, i as int));
                assert(excs.subrange(0, i + 1).last() == excs[i as int]);
            }
            i += 1;
        }
        proof {
            assert(excs.subrange(0, excs.len() as int) =~= excs);
        }
        doc.append("\n");
        proof {
            assert(final(doc)@ =~= old(doc)@ + class_throws_text(class@));
        }
    }
}

/// Appends the folded dependency block, with the given item prefix.
fn append_deps_fold(doc: &mut String, dependencies: &Vec<String>, indented: bool)
    ensures
        final(doc)@ == old(doc)@ + "## Dependencies\n\n"@ + "<details>  \n"@ + "  <summary>  \n"@
            + "    Show dependencies  \n"@ + "  </summary>  \n"@ + "  <ul>  \n"@ + (if indented {
            li_items_indented_text(views_of(dependencies@))
        } else {
            li_items_text(views_of(dependencies@))
        }) + "  </ul>  \n"@ + "</details>  \n\n"@,
{
    doc.append("## Dependencies\n\n");
    doc.append("<details>  \n");
    doc.append("  <summary>  \n");
    doc.append("    Show dependencies  \n");
    doc.append("  </summary>  \n");
    doc.append("  <ul>  \n");
    let ghost base = doc@;
    let ghost deps = views_of(dependencies@);
    let mut i: usize = 0;
    while i < dependencies.len()
        invariant
            i <= dependencies@.len(),
            deps == views_of(dependencies@),
            deps.len() == dependencies@.len(),
            doc@ == base + (if indented {
                li_items_indented_text(deps.subrange(0, i as int))
            } else {
                li_items_text(deps.subrange(0, i as int))
            }),
        decreases dependencies@.len() - i,
    {
        if indented {
            doc.append("    <li>");
        } else {
            doc.append("<li>");
        }
        doc.append(dependencies[i].as_str());
        doc.append("</li>\n");
        proof {
            assert(deps[i as int] == dependencies@[i as int]@);
            assert(deps.subrange(0, i + 1).drop_last() =~= deps.subrange(0, i as int));
            assert(deps.subrange(0, i + 1).last() == deps[i as int]);
        }
        i += 1;
    }
    proof {
        assert(deps.subrange(0, deps.len() as int) =~= deps);
    }
    doc.append("  </ul>  \n");
    doc.append("</details>  \n\n");
}

/// Renders the header page of one class.
#[verifier::rlimit(100)]
pub fn gen_class_docs(class: Class) -> (r: String)
    ensures
        r@ == class_docs_text(class@),
{
    let mut doc = String::new();
    append_class_title_license(&mut doc, &class);
    append_class_attrs(&mut doc, &class);
    append_class_ifaces(&mut doc, &class);
    doc.append("package: ");
    let t = trim_text(class.package_name.as_str());
    doc.append(t.as_str());
    doc.append("  \n\n");
    append_class_throws(&mut doc, &class);
    append_deps_fold(&mut doc, &class.dependencies, false);
    proof {
        lemma_vec_views(&class.dependencies);
        assert(doc@ =~= class_docs_text(class@));
    }
    doc
}

// ------------------------------------------------------------------
// Interface pages
// ------------------------------------------------------------------

/// The title line of an interface page, with a source link when a path is
/// set.
pub open spec fn interface_title_text(c: InterfaceV) -> Seq<char> {
    if c.file_path.len() > 0 {
        "# Interface "@ + c.name + " [[src]]("@ + c.file_path + ")  \n\n"@
    } else {
        "# Interface "@ + c.name + "\n\n"@
    }
}

/// The attribute lines of an interface page: description, access and
/// package.
pub open spec fn interface_attrs_text(c: InterfaceV) -> Seq<char> {
    (if c.description.len() > 0 {
        "description: "@ + trimmed(c.description) + "  \n"@
    } else {
        Seq::empty()
    }) + "privacy: "@ + trimmed(c.access) + "  \n"@ + "package: "@ + trimmed(c.package_name)
        + "  \n\n"@
}

/// The rendered header page of one interface: title and source link,
/// attributes, and the dependency fold.
pub open spec fn interface_docs_text(c: InterfaceV) -> Seq<char> {
    interface_title_text(c) + interface_attrs_text(c) + "## Dependencies\n\n"@ + "<details>  \n"@
        + "  <summary>  \n"@ + "    Show dependencies  \n"@ + "  </summary>  \n"@ + "  <ul>  \n"@
        + li_items_indented_text(c.dependencies) + "  </ul>  \n"@ + "</details>  \n\n"@
}

/// Renders the header page of one interface.
#[verifier::rlimit(100)]
pub fn gen_interface_docs(inter: Interface) -> (r: String)
    ensures
        r@ == interface_docs_text(inter@),
{
    let mut doc = String::new();
    if !inter.file_path.as_str().is_empty() {
        doc.append("# Interface ");
        doc.append(inter.name.as_str());
        doc.append(" [[src]](");
        doc.append(inter.file_path.as_str());
        doc.append(")  \n\n");
    } else {
        doc.append("# Interface ");
        doc.append(inter.name.as_str());
        doc.append("\n\n");
    }
    if !inter.description.as_str().is_empty() {
        doc.append("description: ");
        let t = trim_text(inter.description.as_str());
        doc.append(t.as_str());
        doc.append("  \n");
    }
    doc.append("privacy: ");
    let t = trim_text(inter.access.as_str());
    doc.append(t.as_str());
    doc.append("  \n");
    doc.append("package: ");
    let t = trim_text(inter.package_name.as_str());
    doc.append(t.as_str());
    doc.append("  \n\n");
    append_deps_fold(&mut doc, &inter.dependencies, true);
    proof {
        lemma_vec_views(&inter.dependencies);
        assert(doc@ =~= interface_docs_text(inter@));
    }
    doc
}

// ------------------------------------------------------------------
// File-name tests
// ------------------------------------------------------------------

/// Whether `needle` occurs in `hay` as a contiguous subsequence.
pub open spec fn has_sub(hay: Seq<char>, needle: Seq<char>) -> bool {
    exists|i: int|
        0 <= i <= hay.len() - needle.len() && #[trigger] hay.subrange(i, i + needle.len() as int)
            == needle
}

/// Whether the string `hay` holds `needle` as a substring.
pub fn str_contains(hay: &str, needle: &str) -> (r: bool)
    ensures
        r == has_sub(hay@, needle@),
{
    let n: usize = hay.unicode_len();
    let m: usize = needle.unicode_len();
    if m > n {
        return false;
    }
    let mut i: usize = 0;
    while i <= n - m
        invariant
            m <= n,
            n == hay@.len(),
            m == needle@.len(),
            i <= n - m + 1,
            forall|k: int|
                0 <= k < i ==> #[trigger] hay@.subrange(k, k + needle@.len() as int) != needle@,
        decreases n - m + 1 - i,
    {
        let mut j: usize = 0;
        let mut all_eq = true;
        while j < m
            invariant
                i + m <= n,
                n == hay@.len(),
                m == needle@.len(),
                j <= m,
                all_eq ==> forall|t: int| 0 <= t < j ==> hay@[i + t] == #[trigger] needle@[t],
                !all_eq ==> exists|t: int| 0 <= t < m && hay@[i + t] != #[trigger] needle@[t],
            decreases m - j,
        {
            if hay.get_char(i + j) != needle.get_char(j) {
                proof {
                    assert(hay@[i + j as int] != needle@[j as int]);
                }
                all_eq = false;
                j = m;
            } else {
                j += 1;
            }
        }
        if all_eq {
            proof {
                assert(hay@.subrange(i as int, i + m) =~= needle@);
            }
            return true;
        }
        proof {
            assert(hay@.subrange(i as int, i + m) != needle@) by {
                let t = choose|t: int| 0 <= t < m && hay@[i + t] != #[trigger] needle@[t];
                assert(hay@.subrange(i as int, i + m)[t] == hay@[i + t]);
            }
        }
        i += 1;
    }
    false
}

/// The suffix of `s` after its last occurrence of `c`; all of `s` when `c`
/// does not occur.
pub open spec fn after_last_char(s: Seq<char>, c: char) -> Seq<char>
    decreases s.len(),
{
    if s.len() == 0 {
        s
    } else if s.last() == c {
        s.subrange(s.len() as int, s.len() as int)
    } else {
        after_last_char(s.drop_last(), c).push(s.last())
    }
}

/// When everything after position `cut` avoids `c`, and `cut` is zero or
/// sits right after a `c`, the suffix after the last `c` starts at `cut`.
proof fn lemma_after_last_char(s: Seq<char>, c: char, cut: int)
    requires
        0 <= cut <= s.len(),
        forall|j: int| cut <= j < s.len() ==> s[j] != c,
        cut == 0 || s[cut - 1] == c,
    ensures
        after_last_char(s, c) == s.subrange(cut, s.len() as int),
    decreases s.len(),
{
    if s.len() == 0 {
        assert(after_last_char(s, c) =~= s.subrange(0, 0));
    } else if s.last() == c {
        assert(cut == s.len());
        assert(after_last_char(s, c) =~= s.subrange(cut, s.len() as int));
    } else {
        let cut2 = if cut == s.len() {
            cut - 1
        } else {
            cut
        };
        lemma_after_last_char(s.drop_last(), c, cut2);
        assert(s.drop_last().subrange(cut2, s.len() - 1).push(s.last()) =~= s.subrange(
            cut2,
            s.len() as int,
        ));
        if cut == s.len() {
            assert(s[cut - 1] == c);
            assert(false);
        }
    }
}

/// Copies the suffix of `s` after the last occurrence of `c`.
pub fn take_after_last_char(s: &str, c: char) -> (r: String)
    ensures
        r@ == after_last_char(s@, c),
{
    let n: usize = s.unicode_len();
    let mut cut: usize = n;
    while cut > 0 && s.get_char(cut - 1) != c
        invariant
            cut <= n,
            n == s@.len(),
            forall|j: int| cut <= j < n ==> s@[j] != c,
        decreases cut,
    {
        cut -= 1;
    }
    proof {
        lemma_after_last_char(s@, c, cut as int);
    }
    let sub = s.substring_char(cut, n);
    assert(sub@ =~= s@.subrange(cut as int, n as int));
    sub.to_owned()
}

/// Whether a file name names a source file: the part after the last dot
/// holds `java`.
pub open spec fn is_java_file_spec(name: Seq<char>) -> bool {
    has_sub(after_last_char(name, '.'), "java"@)
}

/// Finds out whether a file name names a source file.
pub fn is_java_file(file: &str) -> (r: bool)
    ensures
        r == is_java_file_spec(file@),
{
    let tail = take_after_last_char(file, '.');
    str_contains(tail.as_str(), "java")
}

/// Whether a path marks a repository directory: its last path segment
/// holds `.git` or `.hg`.
pub open spec fn is_repo_dir_spec(path: Seq<char>) -> bool {
    has_sub(after_last_char(path, '/'), ".git"@) || has_sub(after_last_char(path, '/'), ".hg"@)
}

/// Determines whether a file path names a repository bookkeeping
/// directory.
pub fn is_repo_dir(file: &str) -> (r: bool)
    ensures
        r == is_repo_dir_spec(file@),
{
    let tail = take_after_last_char(file, '/');
    if str_contains(tail.as_str(), ".git") {
        true
    } else {
        str_contains(tail.as_str(), ".hg")
    }
}

/// Whether a generated file name counts as markdown: the part after the
/// last dot holds `md`.
pub open spec fn is_md_file_spec(name: Seq<char>) -> bool {
    has_sub(after_last_char(name, '.'), "md"@)
}

/// The chapter stem of a generated file name: everything before its first
/// dot.
pub open spec fn md_stem_spec(name: Seq<char>) -> Seq<char> {
    crate::strutil::before_char(name, '.')
}

/// Finds out whether a generated file name counts as markdown, and hands
/// back its chapter stem.
pub fn md_file_stem(file: &str) -> (r: Option<String>)
    ensures
        match r {
            Some(stem) => is_md_file_spec(file@) && stem@ == md_stem_spec(file@),
            None => !is_md_file_spec(file@),
        },
{
    let tail = take_after_last_char(file, '.');
    if str_contains(tail.as_str(), "md") {
        Some(crate::strutil::take_before_char(file, '.'))
    } else {
        None
    }
}

} // verus!
