//! The declaration constructor: one pass over the token stream, routing
//! tokens to the stream classifier or the documentation parser, flushing the
//! buffered statement at every terminator, and projecting the accumulator at
//! end of input.

use vstd::prelude::*;

use crate::grammar::is_jdoc_keyword;
use crate::grammar::get_jdoc_keywords;
use crate::grammar::JdocToken;
use crate::grammar::JdocTokenV;
use crate::grammar::ParseState;
use crate::grammar::Stream;
use crate::grammar::StreamV;
use crate::grammar::Token;
use crate::grammar::TokenV;
use crate::model::doc::doc_empty;
use crate::model::doc::Doc;
use crate::model::doc::DocV;
use crate::model::object::object_empty;
use crate::model::object::object_to_class;
use crate::model::object::object_to_enumeration;
use crate::model::object::object_to_interface;
use crate::model::object::Object;
use crate::model::object::ObjectState;
use crate::model::object::ObjectType;
use crate::model::object::ObjectTypeV;
use crate::model::object::ObjectV;
use crate::parse::builders::member_spec;
use crate::parse::builders::method_spec;
use crate::parse::builders::object_spec;
use crate::parse::builders::get_method;
use crate::parse::builders::get_object;
use crate::parse::builders::get_var;
use crate::parse::docparse::doc_spec;
use crate::parse::docparse::get_doc;
use crate::strutil::join_upto;
use crate::strutil::join_words;
use crate::strutil::lemma_vec_views;
use crate::strutil::lemma_views_push;
use crate::strutil::seq_has_char;
use crate::strutil::str_eq;
use crate::strutil::str_has_char;
use crate::strutil::views_of;
use crate::strutil::word_in_table;

verus! {

/// The constructor's full state after some prefix of the tokens.
#[verifier::ext_equal]
pub struct AstStateV {
    pub annotation: bool,
    pub ignore: bool,
    pub object: ObjectV,
    pub in_object: bool,
    pub parse_state: ParseState,
    pub doc: bool,
    pub comment: bool,
    pub jdoc: DocV,
    pub symbols: Seq<Seq<char>>,
    pub doc_tokens: Seq<JdocTokenV>,
    pub gram_parts: Seq<StreamV>,
    pub comment_buf: Seq<char>,
    pub line_num: Seq<char>,
}

/// The constructor's state before any token.
pub open spec fn ast_init() -> AstStateV {
    AstStateV {
        annotation: false,
        ignore: false,
        object: object_empty(),
        in_object: false,
        parse_state: ParseState::Other,
        doc: false,
        comment: false,
        jdoc: doc_empty(),
        symbols: Seq::empty(),
        doc_tokens: Seq::empty(),
        gram_parts: Seq::empty(),
        comment_buf: Seq::empty(),
        line_num: Seq::empty(),
    }
}

/// The statement buffer after flushing the buffered symbols: a lone symbol
/// becomes a variable (only where `single` allows it); two or more become a
/// space-joined type followed by a variable.
pub open spec fn gram_flushed(
    gram: Seq<StreamV>,
    syms: Seq<Seq<char>>,
    single: bool,
) -> Seq<StreamV> {
    if syms.len() == 1 {
        if single {
            gram.push(StreamV::Variable(syms[0]))
        } else {
            gram
        }
    } else if syms.len() > 1 {
        gram.push(StreamV::Type(join_upto(syms, syms.len() - 1, " "@))).push(
            StreamV::Variable(syms[syms.len() - 1]),
        )
    } else {
        gram
    }
}

/// The closing bookkeeping of a keyword or symbol step: while a comment is
/// open, every word but the decorative `*` and the opening `/*` joins the
/// comment buffer; the annotation flag is lowered.
pub open spec fn ast_bottom(st: AstStateV, word: Seq<char>) -> AstStateV {
    let st1 = if st.comment && word != "*"@ && word != "/*"@ {
        AstStateV { comment_buf: st.comment_buf + word + " "@, ..st }
    } else {
        st
    };
    AstStateV { annotation: false, ..st1 }
}

/// One keyword token: the buffered symbols flush, the keyword classifies
/// into the statement buffer or the documentation stream, and declaration
/// keywords open the type header.
pub open spec fn ast_step_keyword(st: AstStateV, key: Seq<char>) -> AstStateV {
    let g = gram_flushed(st.gram_parts, st.symbols, true);
    let st0 = AstStateV { gram_parts: g, ..st };
    let st1 = if key == "class"@ || key == "interface"@ || key == "enum"@ {
        let kind = if key == "class"@ {
            ObjectState::Class
        } else if key == "interface"@ {
            ObjectState::Interface
        } else {
            ObjectState::Enumeration
        };
        let pstate = if key == "class"@ {
            ParseState::Class
        } else if key == "interface"@ {
            ParseState::Interface
        } else {
            ParseState::Enum
        };
        if !st.doc && !st.comment {
            AstStateV {
                object: ObjectV { state: kind, ..st0.object },
                gram_parts: g.push(StreamV::Object(key)),
                parse_state: pstate,
                in_object: true,
                ..st0
            }
        } else {
            AstStateV { in_object: true, ..st0 }
        }
    } else if key == "package"@ {
        let ob = if st.comment_buf.len() > 0 {
            ObjectV { license: st.comment_buf, ..st0.object }
        } else {
            st0.object
        };
        AstStateV { object: ob, gram_parts: g.push(StreamV::Package), ..st0 }
    } else if key == "throws"@ {
        AstStateV { gram_parts: g.push(StreamV::Exception), ..st0 }
    } else if key == "extends"@ {
        AstStateV { gram_parts: g.push(StreamV::Parent), ..st0 }
    } else if key == "implements"@ {
        AstStateV { gram_parts: g.push(StreamV::Implement), ..st0 }
    } else if key == "import"@ {
        AstStateV { gram_parts: g.push(StreamV::Import), ..st0 }
    } else if key == "public"@ || key == "protected"@ || key == "private"@ {
        AstStateV { gram_parts: g.push(StreamV::Access(key)), ..st0 }
    } else if key == "static"@ || key == "final"@ || key == "abstract"@ || key == "synchronized"@
        || key == "volatile"@ {
        AstStateV { gram_parts: g.push(StreamV::Modifier(key)), ..st0 }
    } else if is_jdoc_keyword(key) {
        AstStateV { doc_tokens: st0.doc_tokens.push(JdocTokenV::Keyword(key)), ..st0 }
    } else if st.doc {
        AstStateV { doc_tokens: st0.doc_tokens.push(JdocTokenV::Symbol(key)), ..st0 }
    } else {
        st0
    };
    let st2 = if st.comment {
        AstStateV { comment_buf: st1.comment_buf + key + " "@, ..st1 }
    } else {
        st1
    };
    AstStateV { annotation: false, ..st2 }
}

/// One symbol token: comment delimiters toggle capture modes, a closing doc
/// marker parses the gathered documentation tokens, an annotation is
/// dropped, and ordinary words buffer as symbols.
pub open spec fn ast_step_symbol(st: AstStateV, word: Seq<char>) -> AstStateV {
    if word == "/**"@ {
        ast_bottom(AstStateV { doc: true, ..st }, word)
    } else if word == "*/"@ {
        let st1 = if st.doc {
            AstStateV {
                jdoc: doc_spec(st.doc_tokens),
                parse_state: ParseState::Other,
                doc_tokens: Seq::empty(),
                gram_parts: Seq::empty(),
                ..st
            }
        } else {
            st
        };
        ast_bottom(AstStateV { doc: false, comment: false, ..st1 }, word)
    } else if word == "//"@ {
        ast_bottom(AstStateV { comment: true, ..st }, word)
    } else if word == "/*"@ {
        ast_bottom(AstStateV { comment_buf: Seq::empty(), comment: true, ..st }, word)
    } else if st.doc {
        let t = if is_jdoc_keyword(word) {
            JdocTokenV::Keyword(word)
        } else {
            JdocTokenV::Symbol(word)
        };
        ast_bottom(AstStateV { doc_tokens: st.doc_tokens.push(t), ..st }, word)
    } else if seq_has_char(word, '@') {
        AstStateV { annotation: true, ..st }
    } else if !st.comment {
        ast_bottom(AstStateV { symbols: st.symbols.push(word), ..st }, word)
    } else {
        ast_bottom(st, word)
    }
}

/// One join token: two or more buffered symbols flush as a type and
/// variable pair, and the symbol buffer clears.
pub open spec fn ast_step_join(st: AstStateV) -> AstStateV {
    let g = gram_flushed(st.gram_parts, st.symbols, false);
    let cb = if st.comment {
        st.comment_buf + ","@
    } else {
        st.comment_buf
    };
    AstStateV { gram_parts: g, comment_buf: cb, symbols: Seq::empty(), ..st }
}

/// One opening parenthesis: a pending annotation turns on argument
/// skipping; otherwise the buffered symbols flush as the return type and
/// name pair.
pub open spec fn ast_step_param_start(st: AstStateV) -> AstStateV {
    let cb = if st.comment {
        st.comment_buf + "("@
    } else {
        st.comment_buf
    };
    if st.annotation {
        AstStateV {
            ignore: true,
            annotation: false,
            comment_buf: cb,
            symbols: Seq::empty(),
            ..st
        }
    } else {
        let g = gram_flushed(st.gram_parts, st.symbols, true);
        AstStateV { gram_parts: g, comment_buf: cb, symbols: Seq::empty(), ..st }
    }
}

/// One closing parenthesis: two or more trailing symbols flush as a type
/// and variable pair, and the symbol buffer clears.
pub open spec fn ast_step_param_end(st: AstStateV) -> AstStateV {
    let g = gram_flushed(st.gram_parts, st.symbols, false);
    let cb = if st.comment {
        st.comment_buf + ")"@
    } else {
        st.comment_buf
    };
    AstStateV { gram_parts: g, comment_buf: cb, symbols: Seq::empty(), ..st }
}

/// The accumulator after one statement terminator interprets the flushed
/// buffer `g`.
pub open spec fn ast_interpreted(st: AstStateV, g: Seq<StreamV>, end: Seq<char>) -> ObjectV {
    if end == ";"@ {
        if !st.in_object {
            if g.len() > 1 {
                match g[0] {
                    StreamV::Import => match g[1] {
                        StreamV::Variable(key) => ObjectV {
                            dependencies: st.object.dependencies.push(key),
                            ..st.object
                        },
                        _ => st.object,
                    },
                    StreamV::Package => match g[1] {
                        StreamV::Variable(key) => ObjectV { package_name: key, ..st.object },
                        _ => st.object,
                    },
                    _ => ObjectV {
                        variables: st.object.variables.push(member_spec(g, st.line_num)),
                        ..st.object
                    },
                }
            } else {
                st.object
            }
        } else {
            match st.object.state {
                ObjectState::Class => ObjectV {
                    variables: st.object.variables.push(member_spec(g, st.line_num)),
                    ..st.object
                },
                _ => ObjectV {
                    methods: st.object.methods.push(method_spec(g, st.jdoc, st.line_num)),
                    ..st.object
                },
            }
        }
    } else if end == "{"@ {
        if st.parse_state == ParseState::Interface || st.parse_state == ParseState::Class {
            object_spec(g, st.jdoc, st.object)
        } else {
            ObjectV {
                methods: st.object.methods.push(method_spec(g, st.jdoc, st.line_num)),
                ..st.object
            }
        }
    } else {
        st.object
    }
}

/// One statement terminator: the buffered symbols flush, the statement is
/// interpreted into the accumulator, and the per-statement state resets.
pub open spec fn ast_step_expr_end(st: AstStateV, end: Seq<char>) -> AstStateV {
    let g = gram_flushed(st.gram_parts, st.symbols, true);
    let ob = ast_interpreted(st, g, end);
    let cm = if end != ";"@ && end != "{"@ && st.comment {
        false
    } else {
        st.comment
    };
    AstStateV {
        object: ob,
        comment: cm,
        parse_state: ParseState::Other,
        jdoc: doc_empty(),
        gram_parts: Seq::empty(),
        symbols: Seq::empty(),
        ..st
    }
}

/// One step of the constructor on the token `t`. While argument skipping is
/// on, every token up to the matching closing parenthesis is discarded.
pub open spec fn ast_step(st: AstStateV, t: TokenV) -> AstStateV {
    if st.ignore {
        match t {
            TokenV::ParamEnd => AstStateV { ignore: false, ..st },
            _ => st,
        }
    } else {
        match t {
            TokenV::Keyword(key) => ast_step_keyword(st, key),
            TokenV::Symbol(word) => ast_step_symbol(st, word),
            TokenV::Join => ast_step_join(st),
            TokenV::ParamStart => ast_step_param_start(st),
            TokenV::ParamEnd => ast_step_param_end(st),
            TokenV::ExpressionEnd(end) => ast_step_expr_end(st, end),
            TokenV::LineNumber(num) => AstStateV { line_num: num, ..st },
            _ => st,
        }
    }
}

/// The constructor's state after the first `i` tokens.
pub open spec fn ast_upto(toks: Seq<TokenV>, i: int) -> AstStateV
    decreases i,
{
    if i <= 0 {
        ast_init()
    } else {
        ast_step(ast_upto(toks, i - 1), toks[i - 1])
    }
}

/// The declaration value that the final accumulator projects into. A file
/// without a recognised top-level keyword projects into an empty class.
pub open spec fn ast_final(st: AstStateV) -> ObjectTypeV {
    match st.object.state {
        ObjectState::Class => ObjectTypeV::Class(object_to_class(st.object)),
        ObjectState::Interface => ObjectTypeV::Interface(object_to_interface(st.object)),
        ObjectState::Enumeration => ObjectTypeV::Enumeration(object_to_enumeration(st.object)),
        ObjectState::Unset => ObjectTypeV::Class(object_to_class(st.object)),
    }
}

/// The declaration value that constructing from all of `toks` yields.
pub open spec fn ast_spec(toks: Seq<TokenV>) -> ObjectTypeV {
    ast_final(ast_upto(toks, toks.len() as int))
}

/// The constructor's working state, one field per flag or buffer of the
/// specification state.
pub struct AstBuilder {
    pub annotation: bool,
    pub ignore: bool,
    pub object: Object,
    pub in_object: bool,
    pub parse_state: ParseState,
    pub doc: bool,
    pub comment: bool,
    pub jdoc: Doc,
    pub symbols: Vec<String>,
    pub doc_tokens: Vec<JdocToken>,
    pub gram_parts: Vec<Stream>,
    pub comment_buf: String,
    pub line_num: String,
}

impl View for AstBuilder {
    type V = AstStateV;

    open spec fn view(&self) -> AstStateV {
        AstStateV {
            annotation: self.annotation,
            ignore: self.ignore,
            object: self.object@,
            in_object: self.in_object,
            parse_state: self.parse_state,
            doc: self.doc,
            comment: self.comment,
            jdoc: self.jdoc@,
            symbols: views_of(self.symbols@),
            doc_tokens: views_of(self.doc_tokens@),
            gram_parts: views_of(self.gram_parts@),
            comment_buf: self.comment_buf@,
            line_num: self.line_num@,
        }
    }
}

impl AstBuilder {
    /// A constructor state before any token.
    fn new() -> (r: AstBuilder)
        ensures
            r@ == ast_init(),
    {
        let r = AstBuilder {
            annotation: false,
            ignore: false,
            object: Object::new(),
            in_object: false,
            parse_state: ParseState::Other,
            doc: false,
            comment: false,
            jdoc: Doc::new(),
            symbols: Vec::new(),
            doc_tokens: Vec::new(),
            gram_parts: Vec::new(),
            comment_buf: String::new(),
            line_num: String::new(),
        };
        proof {
            lemma_vec_views(&r.symbols);
            lemma_vec_views(&r.doc_tokens);
            lemma_vec_views(&r.gram_parts);
            assert(r@ =~~= ast_init());
        }
        r
    }

    /// Flushes the buffered symbols into the statement buffer without
    /// clearing them.
    fn flush_symbols(&mut self, single: bool)
        ensures
            final(self)@ == (AstStateV {
                gram_parts: gram_flushed(old(self)@.gram_parts, old(self)@.symbols, single),
                ..old(self)@
            }),
    {
        proof {
            lemma_vec_views(&self.symbols);
            lemma_vec_views(&self.gram_parts);
        }
        if self.symbols.len() == 1 && single {
            let ghost pre = self.gram_parts@;
            self.gram_parts.push(Stream::Variable(self.symbols[0].clone()));
            proof {
                lemma_views_push(pre, self.gram_parts@.last());
                assert(self@ =~~= (AstStateV {
                    gram_parts: gram_flushed(old(self)@.gram_parts, old(self)@.symbols, single),
                    ..old(self)@
                }));
            }
        } else if self.symbols.len() > 1 {
            let joined = join_words(&self.symbols, self.symbols.len() - 1, " ");
            let ghost pre = self.gram_parts@;
            self.gram_parts.push(Stream::Type(joined));
            proof {
                lemma_views_push(pre, self.gram_parts@.last());
            }
            let last = self.symbols[self.symbols.len() - 1].clone();
            let ghost mid = self.gram_parts@;
            self.gram_parts.push(Stream::Variable(last));
            proof {
                lemma_views_push(mid, self.gram_parts@.last());
                assert(self@ =~~= (AstStateV {
                    gram_parts: gram_flushed(old(self)@.gram_parts, old(self)@.symbols, single),
                    ..old(self)@
                }));
            }
        } else {
            proof {
                assert(self@ =~~= (AstStateV {
                    gram_parts: gram_flushed(old(self)@.gram_parts, old(self)@.symbols, single),
                    ..old(self)@
                }));
            }
        }
    }

    /// Appends `word` and a space to the comment buffer while a comment is
    /// open, and lowers the annotation flag.
    fn bottom(&mut self, word: &str)
        ensures
            final(self)@ == ast_bottom(old(self)@, word@),
    {
        if self.comment && !str_eq(word, "*") && !str_eq(word, "/*") {
            self.comment_buf.append(word);
            self.comment_buf.append(" ");
        }
        self.annotation = false;
        proof {
            assert(self@ =~~= ast_bottom(old(self)@, word@));
        }
    }

    /// Handles one keyword token.
    fn step_keyword(&mut self, key: &String)
        ensures
            final(self)@ == ast_step_keyword(old(self)@, key@),
    {
        self.flush_symbols(true);
        if str_eq(key.as_str(), "class") {
            if !self.doc && !self.comment {
                self.object.ch_state(ObjectState::Class);
                let ghost pre = self.gram_parts@;
                self.gram_parts.push(Stream::Object(key.clone()));
                proof {
                    lemma_views_push(pre, self.gram_parts@.last());
                }
                self.parse_state = ParseState::Class;
            }
            self.in_object = true;
        } else if str_eq(key.as_str(), "interface") {
            if !self.doc && !self.comment {
                self.object.ch_state(ObjectState::Interface);
                let ghost pre = self.gram_parts@;
                self.gram_parts.push(Stream::Object(key.clone()));
                proof {
                    lemma_views_push(pre, self.gram_parts@.last());
                }
                self.parse_state = ParseState::Interface;
            }
            self.in_object = true;
        } else if str_eq(key.as_str(), "enum") {
            if !self.doc && !self.comment {
                self.object.ch_state(ObjectState::Enumeration);
                let ghost pre = self.gram_parts@;
                self.gram_parts.push(Stream::Object(key.clone()));
                proof {
                    lemma_views_push(pre, self.gram_parts@.last());
                }
                self.parse_state = ParseState::Enum;
            }
            self.in_object = true;
        } else if str_eq(key.as_str(), "package") {
            if !self.comment_buf.as_str().is_empty() {
                self.object.ch_license(self.comment_buf.clone());
            }
            let ghost pre = self.gram_parts@;
            self.gram_parts.push(Stream::Package);
            proof {
                lemma_views_push(pre, self.gram_parts@.last());
            }
        } else if str_eq(key.as_str(), "throws") {
            let ghost pre = self.gram_parts@;
            self.gram_parts.push(Stream::Exception);
            proof {
                lemma_views_push(pre, self.gram_parts@.last());
            }
        } else if str_eq(key.as_str(), "extends") {
            let ghost pre = self.gram_parts@;
            self.gram_parts.push(Stream::Parent);
            proof {
                lemma_views_push(pre, self.gram_parts@.last());
            }
        } else if str_eq(key.as_str(), "implements") {
            let ghost pre = self.gram_parts@;
            self.gram_parts.push(Stream::Implement);
            proof {
                lemma_views_push(pre, self.gram_parts@.last());
            }
        } else if str_eq(key.as_str(), "import") {
            let ghost pre = self.gram_parts@;
            self.gram_parts.push(Stream::Import);
            proof {
                lemma_views_push(pre, self.gram_parts@.last());
            }
        } else if str_eq(key.as_str(), "public") || str_eq(key.as_str(), "protected") || str_eq(
            key.as_str(),
            "private",
        ) {
            let ghost pre = self.gram_parts@;
            self.gram_parts.push(Stream::Access(key.clone()));
            proof {
                lemma_views_push(pre, self.gram_parts@.last());
            }
        } else if str_eq(key.as_str(), "static") || str_eq(key.as_str(), "final") || str_eq(
            key.as_str(),
            "abstract",
        ) || str_eq(key.as_str(), "synchronized") || str_eq(key.as_str(), "volatile") {
            let ghost pre = self.gram_parts@;
            self.gram_parts.push(Stream::Modifier(key.clone()));
            proof {
                lemma_views_push(pre, self.gram_parts@.last());
            }
        } else {
            let jdoc_keywords = get_jdoc_keywords();
            if word_in_table(key.as_str(), &jdoc_keywords) {
                let ghost pre = self.doc_tokens@;
                self.doc_tokens.push(JdocToken::Keyword(key.clone()));
                proof {
                    lemma_views_push(pre, self.doc_tokens@.last());
                }
            } else if self.doc {
                let ghost pre = self.doc_tokens@;
                self.doc_tokens.push(JdocToken::Symbol(key.clone()));
                proof {
                    lemma_views_push(pre, self.doc_tokens@.last());
                }
            }
        }
        if self.comment {
            self.comment_buf.append(key.as_str());
            self.comment_buf.append(" ");
        }
        self.annotation = false;
        proof {
            lemma_vec_views(&self.gram_parts);
            lemma_vec_views(&self.doc_tokens);
            lemma_vec_views(&self.symbols);
            assert(self@ =~~= ast_step_keyword(old(self)@, key@));
        }
    }

    /// Handles one symbol token.
    fn step_symbol(&mut self, word: &String)
        ensures
            final(self)@ == ast_step_symbol(old(self)@, word@),
    {
        if str_eq(word.as_str(), "/**") {
            self.doc = true;
            self.bottom(word.as_str());
        } else if str_eq(word.as_str(), "*/") {
            if self.doc {
                let parsed = get_doc(&self.doc_tokens);
                proof {
                    lemma_vec_views(&self.doc_tokens);
                }
                self.jdoc = parsed;
                self.parse_state = ParseState::Other;
                self.doc_tokens = Vec::new();
                self.gram_parts = Vec::new();
                proof {
                    lemma_vec_views(&self.doc_tokens);
                    lemma_vec_views(&self.gram_parts);
                    assert(views_of(self.doc_tokens@) =~= Seq::<JdocTokenV>::empty());
                    assert(views_of(self.gram_parts@) =~= Seq::<StreamV>::empty());
                }
            }
            self.doc = false;
            self.comment = false;
            self.bottom(word.as_str());
        } else if str_eq(word.as_str(), "//") {
            self.comment = true;
            self.bottom(word.as_str());
        } else if str_eq(word.as_str(), "/*") {
            self.comment_buf = String::new();
            self.comment = true;
            self.bottom(word.as_str());
        } else if self.doc {
            let jdoc_keywords = get_jdoc_keywords();
            let ghost pre = self.doc_tokens@;
            if word_in_table(word.as_str(), &jdoc_keywords) {
                self.doc_tokens.push(JdocToken::Keyword(word.clone()));
            } else {
                self.doc_tokens.push(JdocToken::Symbol(word.clone()));
            }
            proof {
                lemma_views_push(pre, self.doc_tokens@.last());
                lemma_vec_views(&self.doc_tokens);
            }
            self.bottom(word.as_str());
        } else if str_has_char(word.as_str(), '@') {
            self.annotation = true;
        } else if !self.comment {
            let ghost pre = self.symbols@;
            self.symbols.push(word.clone());
            proof {
                lemma_views_push(pre, self.symbols@.last());
                lemma_vec_views(&self.symbols);
            }
            self.bottom(word.as_str());
        } else {
            self.bottom(word.as_str());
        }
        proof {
            assert(self@ =~~= ast_step_symbol(old(self)@, word@));
        }
    }

    /// Handles one join token.
    fn step_join(&mut self)
        ensures
            final(self)@ == ast_step_join(old(self)@),
    {
        self.flush_symbols(false);
        if self.comment {
            self.comment_buf.append(",");
        }
        self.symbols = Vec::new();
        proof {
            lemma_vec_views(&self.symbols);
            assert(views_of(self.symbols@) =~= Seq::<Seq<char>>::empty());
            assert(self@ =~~= ast_step_join(old(self)@));
        }
    }

    /// Handles one opening parenthesis.
    fn step_param_start(&mut self)
        ensures
            final(self)@ == ast_step_param_start(old(self)@),
    {
        if self.annotation {
            self.ignore = true;
            self.annotation = false;
        } else {
            self.flush_symbols(true);
        }
        if self.comment {
            self.comment_buf.append("(");
        }
        self.symbols = Vec::new();
        proof {
            lemma_vec_views(&self.symbols);
            assert(views_of(self.symbols@) =~= Seq::<Seq<char>>::empty());
            assert(self@ =~~= ast_step_param_start(old(self)@));
        }
    }

    /// Handles one closing parenthesis.
    fn step_param_end(&mut self)
        ensures
            final(self)@ == ast_step_param_end(old(self)@),
    {
        self.flush_symbols(false);
        if self.comment {
            self.comment_buf.append(")");
        }
        self.symbols = Vec::new();
        proof {
            lemma_vec_views(&self.symbols);
            assert(views_of(self.symbols@) =~= Seq::<Seq<char>>::empty());
            assert(self@ =~~= ast_step_param_end(old(self)@));
        }
    }

    /// Handles one statement terminator.
    fn step_expr_end(&mut self, end: &String)
        ensures
            final(self)@ == ast_step_expr_end(old(self)@, end@),
    {
        self.flush_symbols(true);
        let ghost g = views_of(self.gram_parts@);
        proof {
            lemma_vec_views(&self.gram_parts);
        }
        if str_eq(end.as_str(), ";") {
            if !self.in_object {
                if self.gram_parts.len() > 1 {
                    proof {
                        assert(g[0] == self.gram_parts@[0]@);
                        assert(g[1] == self.gram_parts@[1]@);
                    }
                    let head_is_import = matches!(&self.gram_parts[0], Stream::Import);
                    let head_is_package = matches!(&self.gram_parts[0], Stream::Package);
                    if head_is_import {
                        match &self.gram_parts[1] {
                            Stream::Variable(key) => {
                                self.object.add_dependency(key.clone());
                            },
                            _ => {},
                        }
                    } else if head_is_package {
                        match &self.gram_parts[1] {
                            Stream::Variable(key) => {
                                self.object.ch_package_name(key.clone());
                            },
                            _ => {},
                        }
                    } else {
                        let m = get_var(&self.gram_parts, self.line_num.clone());
                        self.object.add_variable(m);
                    }
                }
            } else {
                match self.object.state {
                    ObjectState::Class => {
                        let m = get_var(&self.gram_parts, self.line_num.clone());
                        self.object.add_variable(m);
                    },
                    _ => {
                        let m = get_method(&self.gram_parts, &self.jdoc, self.line_num.clone());
                        self.object.add_method(m);
                    },
                }
            }
        } else if str_eq(end.as_str(), "{") {
            if matches!(self.parse_state, ParseState::Interface) || matches!(
                self.parse_state,
                ParseState::Class,
            ) {
                get_object(&self.gram_parts, &self.jdoc, &mut self.object);
            } else {
                let m = get_method(&self.gram_parts, &self.jdoc, self.line_num.clone());
                self.object.add_method(m);
            }
        } else {
            if self.comment {
                self.comment = false;
            }
        }
        self.parse_state = ParseState::Other;
        self.jdoc = Doc::new();
        self.gram_parts = Vec::new();
        self.symbols = Vec::new();
        proof {
            lemma_vec_views(&self.gram_parts);
            lemma_vec_views(&self.symbols);
            assert(views_of(self.gram_parts@) =~= Seq::<StreamV>::empty());
            assert(views_of(self.symbols@) =~= Seq::<Seq<char>>::empty());
            assert(self@ =~~= ast_step_expr_end(old(self)@, end@));
        }
    }
}

/// Constructs the declaration value for one file from its token stream:
/// a single pass that classifies tokens statement by statement, parses
/// documentation comments, and projects the accumulator at end of input.
pub fn construct_ast(tokens: Vec<Token>) -> (r: ObjectType)
    ensures
        r@ == ast_spec(tokens.deep_view()),
{
    proof {
        lemma_vec_views(&tokens);
    }
    let ghost toks = tokens.deep_view();
    let mut b = AstBuilder::new();
    let mut i: usize = 0;
    while i < tokens.len()
        invariant
            i <= tokens@.len(),
            toks == tokens.deep_view(),
            toks.len() == tokens@.len(),
            b@ == ast_upto(toks, i as int),
        decreases tokens@.len() - i,
    {
        proof {
            assert(ast_upto(toks, i + 1) == ast_step(ast_upto(toks, i as int), toks[i as int]));
            assert(toks[i as int] == tokens@[i as int]@);
        }
        if b.ignore {
            match &tokens[i] {
                Token::ParamEnd => {
                    b.ignore = false;
                    proof {
                        assert(b@ =~~= ast_step(ast_upto(toks, i as int), toks[i as int]));
                    }
                },
                _ => {},
            }
        } else {
            match &tokens[i] {
                Token::Keyword(key) => {
                    b.step_keyword(key);
                },
                Token::Symbol(word) => {
                    b.step_symbol(word);
                },
                Token::Join => {
                    b.step_join();
                },
                Token::ParamStart => {
                    b.step_param_start();
                },
                Token::ParamEnd => {
                    b.step_param_end();
                },
                Token::ExpressionEnd(end) => {
                    b.step_expr_end(end);
                },
                Token::LineNumber(num) => {
                    b.line_num = num.clone();
                    proof {
                        assert(b@ =~~= ast_step(ast_upto(toks, i as int), toks[i as int]));
                    }
                },
                _ => {},
            }
        }
        i += 1;
    }
    match b.object.state {
        ObjectState::Class => ObjectType::Class(b.object.to_class()),
        ObjectState::Interface => ObjectType::Interface(b.object.to_interface()),
        ObjectState::Enumeration => ObjectType::Enumeration(b.object.to_enumeration()),
        ObjectState::Unset => ObjectType::Class(b.object.to_class()),
    }
}

} // verus!
