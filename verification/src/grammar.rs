//! Lexical grammar of the supported Java subset: the token alphabet, the
//! per-statement stream elements, the documentation-comment tokens, and the
//! static keyword tables that drive token classification.

use vstd::prelude::*;

verus! {

/// A lexical unit produced by the lexer.
#[derive(Debug, PartialEq)]
pub enum Token {
    Symbol(String),
    Keyword(String),
    Sign(String),
    Join,
    ParamStart,
    ParamEnd,
    LineNumber(String),
    Spring(String),
    ExpressionEnd(String),
}

/// Mathematical value of a `Token`: the same shape over `Seq<char>`.
pub enum TokenV {
    Symbol(Seq<char>),
    Keyword(Seq<char>),
    Sign(Seq<char>),
    Join,
    ParamStart,
    ParamEnd,
    LineNumber(Seq<char>),
    Spring(Seq<char>),
    ExpressionEnd(Seq<char>),
}

impl View for Token {
    type V = TokenV;

    open spec fn view(&self) -> TokenV {
        match self {
            Token::Symbol(s) => TokenV::Symbol(s@),
            Token::Keyword(s) => TokenV::Keyword(s@),
            Token::Sign(s) => TokenV::Sign(s@),
            Token::Join => TokenV::Join,
            Token::ParamStart => TokenV::ParamStart,
            Token::ParamEnd => TokenV::ParamEnd,
            Token::LineNumber(s) => TokenV::LineNumber(s@),
            Token::Spring(s) => TokenV::Spring(s@),
            Token::ExpressionEnd(s) => TokenV::ExpressionEnd(s@),
        }
    }
}

impl DeepView for Token {
    type V = TokenV;

    open spec fn deep_view(&self) -> TokenV {
        self.view()
    }
}

/// A token reclassified by its grammatical role within the current statement.
#[derive(Debug)]
pub enum Stream {
    Import,
    Package,
    Exception,
    Implement,
    Parent,
    Object(String),
    Access(String),
    Modifier(String),
    Type(String),
    Variable(String),
}

/// Mathematical value of a `Stream` element.
pub enum StreamV {
    Import,
    Package,
    Exception,
    Implement,
    Parent,
    Object(Seq<char>),
    Access(Seq<char>),
    Modifier(Seq<char>),
    Type(Seq<char>),
    Variable(Seq<char>),
}

impl View for Stream {
    type V = StreamV;

    open spec fn view(&self) -> StreamV {
        match self {
            Stream::Import => StreamV::Import,
            Stream::Package => StreamV::Package,
            Stream::Exception => StreamV::Exception,
            Stream::Implement => StreamV::Implement,
            Stream::Parent => StreamV::Parent,
            Stream::Object(s) => StreamV::Object(s@),
            Stream::Access(s) => StreamV::Access(s@),
            Stream::Modifier(s) => StreamV::Modifier(s@),
            Stream::Type(s) => StreamV::Type(s@),
            Stream::Variable(s) => StreamV::Variable(s@),
        }
    }
}

impl DeepView for Stream {
    type V = StreamV;

    open spec fn deep_view(&self) -> StreamV {
        self.view()
    }
}

/// A token routed to the documentation-comment parser.
#[derive(Debug)]
pub enum JdocToken {
    Keyword(String),
    Symbol(String),
}

/// Mathematical value of a `JdocToken`.
pub enum JdocTokenV {
    Keyword(Seq<char>),
    Symbol(Seq<char>),
}

impl View for JdocToken {
    type V = JdocTokenV;

    open spec fn view(&self) -> JdocTokenV {
        match self {
            JdocToken::Keyword(s) => JdocTokenV::Keyword(s@),
            JdocToken::Symbol(s) => JdocTokenV::Symbol(s@),
        }
    }
}

impl DeepView for JdocToken {
    type V = JdocTokenV;

    open spec fn deep_view(&self) -> JdocTokenV {
        self.view()
    }
}

/// The field of a documentation comment that incoming words are currently
/// credited to. Each variant matches one tag of the documentation-keyword
/// table (plus `Desc` for the untagged leading text).
#[derive(Debug, Clone, Copy, PartialEq, Eq, Structural)]
pub enum JdocState {
    Desc,
    JdocReturn,
    Param,
    Author,
    Code,
    Deprecated,
    DocRoot,
    Exception,
    InheritDoc,
    Link,
    Linkplain,
    Literal,
    See,
    Since,
    SerialData,
    SerialField,
    Value,
    Version,
}

/// Which top-level declaration header the constructor is currently inside.
/// At most one of class, interface, or enum can be open at a time, so a
/// single tag suffices.
#[derive(Debug, Clone, Copy, PartialEq, Eq, Structural)]
pub enum ParseState {
    Class,
    Interface,
    Enum,
    Other,
}

/// The language keywords recognised by the lexer, as a mathematical sequence.
pub open spec fn keyword_table() -> Seq<Seq<char>> {
    seq![
        "abstract"@,
        "class"@,
        "const"@,
        "default"@,
        "enum"@,
        "extends"@,
        "final"@,
        "implements"@,
        "import"@,
        "instanceof"@,
        "interface"@,
        "native"@,
        "package"@,
        "public"@,
        "private"@,
        "protected"@,
        "return"@,
        "static"@,
        "strictfp"@,
        "super"@,
        "switch"@,
        "synchronized"@,
        "this"@,
        "throw"@,
        "throws"@,
        "transient"@,
        "volatile"@,
    ]
}

/// A word is a language keyword exactly when the keyword table holds it.
pub open spec fn is_lang_keyword(w: Seq<char>) -> bool {
    keyword_table().contains(w)
}

/// The documentation-comment tags recognised by the lexer.
pub open spec fn jdoc_keyword_table() -> Seq<Seq<char>> {
    seq![
        "@return"@,
        "@param"@,
        "@author"@,
        "@code"@,
        "@deprecated"@,
        "@docRoot"@,
        "@exception"@,
        "@inheritDoc"@,
        "@link"@,
        "@linkplain"@,
        "@literal"@,
        "@see"@,
        "@throws"@,
        "@since"@,
        "@serialData"@,
        "@serialField"@,
        "@value"@,
        "@version"@,
    ]
}

/// A word is a documentation tag exactly when the tag table holds it.
pub open spec fn is_jdoc_keyword(w: Seq<char>) -> bool {
    jdoc_keyword_table().contains(w)
}

/// The framework annotations that the classifier knows by name.
pub open spec fn spring_keyword_table() -> Seq<Seq<char>> {
    seq![
        "Autowired"@,
        "Data"@,
        "Controller"@,
        "Service"@,
        "Component"@,
        "RequestMapping"@,
        "GetMapping"@,
        "PostMapping"@,
        "PutMapping"@,
        "DeleteMapping"@,
        "PatchMapping"@,
        "Value"@,
        "Bean"@,
    ]
}

/// Gets the full list of language keywords for the lexer.
pub fn get_keywords() -> (r: Vec<&'static str>)
    ensures
        r.deep_view() == keyword_table(),
{
    let mut v: Vec<&'static str> = Vec::new();
    v.push("abstract");
    v.push("class");
    v.push("const");
    v.push("default");
    v.push("enum");
    v.push("extends");
    v.push("final");
    v.push("implements");
    v.push("import");
    v.push("instanceof");
    v.push("interface");
    v.push("native");
    v.push("package");
    v.push("public");
    v.push("private");
    v.push("protected");
    v.push("return");
    v.push("static");
    v.push("strictfp");
    v.push("super");
    v.push("switch");
    v.push("synchronized");
    v.push("this");
    v.push("throw");
    v.push("throws");
    v.push("transient");
    v.push("volatile");
    assert(v.deep_view() =~= keyword_table());
    v
}

/// Gets the full list of documentation-comment tags for the lexer.
pub fn get_jdoc_keywords() -> (r: Vec<&'static str>)
    ensures
        r.deep_view() == jdoc_keyword_table(),
{
    let mut v: Vec<&'static str> = Vec::new();
    v.push("@return");
    v.push("@param");
    v.push("@author");
    v.push("@code");
    v.push("@deprecated");
    v.push("@docRoot");
    v.push("@exception");
    v.push("@inheritDoc");
    v.push("@link");
    v.push("@linkplain");
    v.push("@literal");
    v.push("@see");
    v.push("@throws");
    v.push("@since");
    v.push("@serialData");
    v.push("@serialField");
    v.push("@value");
    v.push("@version");
    assert(v.deep_view() =~= jdoc_keyword_table());
    v
}

/// Gets the full list of framework annotations known by name.
pub fn get_spring_keywords() -> (r: Vec<&'static str>)
    ensures
        r.deep_view() == spring_keyword_table(),
{
    let mut v: Vec<&'static str> = Vec::new();
    v.push("Autowired");
    v.push("Data");
    v.push("Controller");
    v.push("Service");
    v.push("Component");
    v.push("RequestMapping");
    v.push("GetMapping");
    v.push("PostMapping");
    v.push("PutMapping");
    v.push("DeleteMapping");
    v.push("PatchMapping");
    v.push("Value");
    v.push("Bean");
    assert(v.deep_view() =~= spring_keyword_table());
    v
}

} // verus!
