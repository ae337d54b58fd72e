//! The documentation-comment parser: a tag-driven state machine that
//! gathers words into the field named by the current tag and commits the
//! buffer whenever a new tag arrives, and once more at end of input.

use vstd::prelude::*;

use crate::grammar::JdocState;
use crate::grammar::JdocToken;
use crate::grammar::JdocTokenV;
use crate::model::doc::doc_empty;
use crate::model::doc::Doc;
use crate::model::doc::DocV;
use crate::model::exception::ExceptionV;
use crate::model::param::ParamV;
use crate::strutil::join_upto;
use crate::strutil::join_words;
use crate::strutil::join_words_from;
use crate::strutil::lemma_vec_views;
use crate::strutil::lemma_views_push;
use crate::strutil::str_eq;
use crate::strutil::views_of;

verus! {

/// The state of the documentation parser after some prefix of its tokens:
/// the current field, the buffered words and the record built so far.
#[verifier::ext_equal]
pub struct DocStateV {
    pub state: JdocState,
    pub words: Seq<Seq<char>>,
    pub doc: DocV,
}

/// The record after committing the buffered `words` to the field that
/// `state` names. Unslotted tags discard the buffer; a parameter or
/// exception commit takes the first word as name or type and the joined
/// remainder as description, and commits nothing from an empty buffer.
pub open spec fn committed(doc: DocV, state: JdocState, words: Seq<Seq<char>>) -> DocV {
    let text = join_upto(words, words.len() as int, " "@);
    let rest = join_upto(
        words.subrange(1, words.len() as int),
        words.len() - 1,
        " "@,
    );
    match state {
        JdocState::Desc => DocV { description: text, ..doc },
        JdocState::JdocReturn => DocV { return_desc: text, ..doc },
        JdocState::Param => if words.len() >= 1 {
            DocV {
                params: doc.params.push(
                    ParamV { var_type: Seq::empty(), name: words[0], desc: rest },
                ),
                ..doc
            }
        } else {
            doc
        },
        JdocState::Author => DocV { author: text, ..doc },
        JdocState::Deprecated => DocV { deprecated: text, ..doc },
        JdocState::Since => DocV { version: text, ..doc },
        JdocState::Link => DocV { see: text, ..doc },
        JdocState::See => DocV { see: text, ..doc },
        JdocState::Exception => if words.len() >= 1 {
            DocV {
                exceptions: doc.exceptions.push(
                    ExceptionV { exception_type: words[0], desc: rest },
                ),
                ..doc
            }
        } else {
            doc
        },
        JdocState::Version => DocV { version: text, ..doc },
        _ => doc,
    }
}

/// The field that the tag `key` switches to; an unknown tag keeps the
/// current field.
pub open spec fn tag_state(key: Seq<char>, st: JdocState) -> JdocState {
    if key == "@return"@ {
        JdocState::JdocReturn
    } else if key == "@param"@ {
        JdocState::Param
    } else if key == "@author"@ {
        JdocState::Author
    } else if key == "@code"@ {
        JdocState::Code
    } else if key == "@deprecated"@ {
        JdocState::Deprecated
    } else if key == "@docRoot"@ {
        JdocState::DocRoot
    } else if key == "@exception"@ {
        JdocState::Exception
    } else if key == "@inheritDoc"@ {
        JdocState::InheritDoc
    } else if key == "@link"@ {
        JdocState::Link
    } else if key == "@linkplain"@ {
        JdocState::Linkplain
    } else if key == "@literal"@ {
        JdocState::Literal
    } else if key == "@see"@ {
        JdocState::See
    } else if key == "@throws"@ {
        JdocState::Exception
    } else if key == "@since"@ {
        JdocState::Since
    } else if key == "@serialData"@ {
        JdocState::SerialData
    } else if key == "@serialField"@ {
        JdocState::SerialField
    } else if key == "@value"@ {
        JdocState::Value
    } else if key == "@version"@ {
        JdocState::Version
    } else {
        st
    }
}

/// One step of the documentation parser: a tag commits the buffer and
/// switches fields; any other word but the decorative `*` joins the buffer.
pub open spec fn doc_step(st: DocStateV, t: JdocTokenV) -> DocStateV {
    match t {
        JdocTokenV::Keyword(key) => DocStateV {
            state: tag_state(key, st.state),
            words: Seq::empty(),
            doc: committed(st.doc, st.state, st.words),
        },
        JdocTokenV::Symbol(word) => if word == "*"@ {
            st
        } else {
            DocStateV { words: st.words.push(word), ..st }
        },
    }
}

/// The parser state after the first `i` documentation tokens.
pub open spec fn doc_upto(toks: Seq<JdocTokenV>, i: int) -> DocStateV
    decreases i,
{
    if i <= 0 {
        DocStateV { state: JdocState::Desc, words: Seq::empty(), doc: doc_empty() }
    } else {
        doc_step(doc_upto(toks, i - 1), toks[i - 1])
    }
}

/// The record that parsing all of `toks` yields: the final state with its
/// remaining buffer committed.
pub open spec fn doc_spec(toks: Seq<JdocTokenV>) -> DocV {
    let st = doc_upto(toks, toks.len() as int);
    committed(st.doc, st.state, st.words)
}

/// Commits the buffered words of `words` to the field of `doc` that `state`
/// names.
fn commit_words(doc: &mut Doc, state: JdocState, words: &Vec<String>)
    ensures
        final(doc)@ == committed(old(doc)@, state, words.deep_view()),
{
    proof {
        lemma_vec_views(words);
    }
    match state {
        JdocState::Desc => {
            let text = join_words(words, words.len(), " ");
            doc.description = text;
        },
        JdocState::JdocReturn => {
            let text = join_words(words, words.len(), " ");
            doc.return_desc = text;
        },
        JdocState::Param => {
            if words.len() >= 1 {
                let rest = join_words_from(words, 1, " ");
                let ghost pre = doc.params@;
                doc.params.push(
                    crate::model::param::Param {
                        var_type: String::new(),
                        name: words[0].clone(),
                        desc: rest,
                    },
                );
                proof {
                    lemma_views_push(pre, doc.params@.last());
                    assert(views_of(doc.params@) == views_of(pre).push(
                        ParamV {
                            var_type: Seq::empty(),
                            name: words@[0]@,
                            desc: join_upto(
                                words.deep_view().subrange(1, words@.len() as int),
                                words@.len() - 1,
                                " "@,
                            ),
                        },
                    ));
                }
            }
        },
        JdocState::Author => {
            let text = join_words(words, words.len(), " ");
            doc.author = text;
        },
        JdocState::Deprecated => {
            let text = join_words(words, words.len(), " ");
            doc.deprecated = text;
        },
        JdocState::Since => {
            let text = join_words(words, words.len(), " ");
            doc.version = text;
        },
        JdocState::Link => {
            let text = join_words(words, words.len(), " ");
            doc.see = text;
        },
        JdocState::See => {
            let text = join_words(words, words.len(), " ");
            doc.see = text;
        },
        JdocState::Exception => {
            if words.len() >= 1 {
                let rest = join_words_from(words, 1, " ");
                let ghost pre = doc.exceptions@;
                doc.exceptions.push(
                    crate::model::exception::Exception {
                        exception_type: words[0].clone(),
                        desc: rest,
                    },
                );
                proof {
                    lemma_views_push(pre, doc.exceptions@.last());
                    assert(views_of(doc.exceptions@) == views_of(pre).push(
                        ExceptionV {
                            exception_type: words@[0]@,
                            desc: join_upto(
                                words.deep_view().subrange(1, words@.len() as int),
                                words@.len() - 1,
                                " "@,
                            ),
                        },
                    ));
                }
            }
        },
        JdocState::Version => {
            let text = join_words(words, words.len(), " ");
            doc.version = text;
        },
        _ => {},
    }
    proof {
        assert(doc@ =~~= committed(old(doc)@, state, words.deep_view()));
    }
}

/// The field that the tag `key` switches to, executably.
fn next_tag_state(key: &str, st: JdocState) -> (r: JdocState)
    ensures
        r == tag_state(key@, st),
{
    if str_eq(key, "@return") {
        JdocState::JdocReturn
    } else if str_eq(key, "@param") {
        JdocState::Param
    } else if str_eq(key, "@author") {
        JdocState::Author
    } else if str_eq(key, "@code") {
        JdocState::Code
    } else if str_eq(key, "@deprecated") {
        JdocState::Deprecated
    } else if str_eq(key, "@docRoot") {
        JdocState::DocRoot
    } else if str_eq(key, "@exception") {
        JdocState::Exception
    } else if str_eq(key, "@inheritDoc") {
        JdocState::InheritDoc
    } else if str_eq(key, "@link") {
        JdocState::Link
    } else if str_eq(key, "@linkplain") {
        JdocState::Linkplain
    } else if str_eq(key, "@literal") {
        JdocState::Literal
    } else if str_eq(key, "@see") {
        JdocState::See
    } else if str_eq(key, "@throws") {
        JdocState::Exception
    } else if str_eq(key, "@since") {
        JdocState::Since
    } else if str_eq(key, "@serialData") {
        JdocState::SerialData
    } else if str_eq(key, "@serialField") {
        JdocState::SerialField
    } else if str_eq(key, "@value") {
        JdocState::Value
    } else if str_eq(key, "@version") {
        JdocState::Version
    } else {
        st
    }
}

/// Parses the token stream of one documentation comment into a `Doc`
/// record.
pub fn get_doc(tokens: &Vec<JdocToken>) -> (r: Doc)
    ensures
        r@ == doc_spec(tokens.deep_view()),
{
    proof {
        lemma_vec_views(tokens);
    }
    let ghost toks = tokens.deep_view();
    let mut doc = Doc::new();
    let mut state = JdocState::Desc;
    let mut words: Vec<String> = Vec::new();
    let mut i: usize = 0;
    while i < tokens.len()
        invariant
            i <= tokens@.len(),
            toks == tokens.deep_view(),
            toks.len() == tokens@.len(),
            doc@ == doc_upto(toks, i as int).doc,
            state == doc_upto(toks, i as int).state,
            words.deep_view() == doc_upto(toks, i as int).words,
        decreases tokens@.len() - i,
    {
        proof {
            assert(doc_upto(toks, i + 1) == doc_step(doc_upto(toks, i as int), toks[i as int]));
            assert(toks[i as int] == tokens@[i as int]@);
            lemma_vec_views(&words);
        }
        match &tokens[i] {
            JdocToken::Keyword(key) => {
                commit_words(&mut doc, state, &words);
                state = next_tag_state(key.as_str(), state);
                words = Vec::new();
                proof {
                    lemma_vec_views(&words);
                    assert(words.deep_view() =~= Seq::<Seq<char>>::empty());
                }
            },
            JdocToken::Symbol(key) => {
                if !str_eq(key.as_str(), "*") {
                    let ghost pre = words@;
                    words.push(key.clone());
                    proof {
                        lemma_views_push(pre, words@.last());
                        lemma_vec_views(&words);
                    }
                }
            },
        }
        i += 1;
    }
    proof {
        lemma_vec_views(&words);
    }
    commit_words(&mut doc, state, &words);
    doc
}

} // verus!
