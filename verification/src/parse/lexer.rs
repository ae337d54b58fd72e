//! The lexer: a single left-to-right pass from characters to tokens.
//!
//! A brace-depth counter decides visibility: tokens are emitted only while
//! the depth is below two, so file scope and the declared type's body are
//! kept while method bodies are discarded unparsed. A line counter brackets
//! every physical line with a `LineNumber` token.

use vstd::prelude::*;

use crate::grammar::get_jdoc_keywords;
use crate::grammar::get_keywords;
use crate::grammar::is_jdoc_keyword;
use crate::grammar::is_lang_keyword;
use crate::grammar::Token;
use crate::grammar::TokenV;
use crate::strutil::dec_str;
use crate::strutil::dec_string;
use crate::strutil::lemma_vec_views;
use crate::strutil::lemma_views_push;
use crate::strutil::views_of;
use crate::strutil::word_in_table;

verus! {

/// The full lexer state after some prefix of the input: the symbol buffer,
/// the brace depth, the current line and the tokens emitted so far.
#[verifier::ext_equal]
pub struct LexStateV {
    pub curr: Seq<char>,
    pub depth: int,
    pub line: int,
    pub tokens: Seq<TokenV>,
}

/// The lexer state before any character: empty buffer, depth zero, and the
/// first line already announced.
pub open spec fn lex_init() -> LexStateV {
    LexStateV {
        curr: Seq::empty(),
        depth: 0,
        line: 1,
        tokens: seq![TokenV::LineNumber(dec_str(1))],
    }
}

/// The token list after flushing the buffered word `w`: nothing for an empty
/// buffer, a `Keyword` for a word of either keyword table, a `Symbol`
/// otherwise.
pub open spec fn flushed_word(tokens: Seq<TokenV>, w: Seq<char>) -> Seq<TokenV> {
    if w.len() == 0 {
        tokens
    } else if is_lang_keyword(w) || is_jdoc_keyword(w) {
        tokens.push(TokenV::Keyword(w))
    } else {
        tokens.push(TokenV::Symbol(w))
    }
}

/// One step of the lexer on the character `c`.
pub open spec fn lex_step(st: LexStateV, c: char) -> LexStateV {
    if c == ' ' || c == '\t' {
        LexStateV {
            curr: Seq::empty(),
            tokens: if st.depth < 2 {
                flushed_word(st.tokens, st.curr)
            } else {
                st.tokens
            },
            ..st
        }
    } else if c == '\n' {
        let flushed = if st.depth < 2 {
            flushed_word(st.tokens, st.curr)
        } else {
            st.tokens
        };
        LexStateV {
            curr: Seq::empty(),
            line: st.line + 1,
            tokens: flushed.push(TokenV::LineNumber(dec_str(st.line + 1))),
            ..st
        }
    } else if c == ',' {
        LexStateV {
            curr: Seq::empty(),
            tokens: if st.depth < 2 {
                flushed_word(st.tokens, st.curr).push(TokenV::Join)
            } else {
                st.tokens
            },
            ..st
        }
    } else if c == ';' {
        LexStateV {
            curr: Seq::empty(),
            tokens: if st.depth < 2 {
                flushed_word(st.tokens, st.curr).push(TokenV::ExpressionEnd(";"@))
            } else {
                st.tokens
            },
            ..st
        }
    } else if c == '(' {
        LexStateV {
            curr: Seq::empty(),
            tokens: if st.depth < 2 {
                flushed_word(st.tokens, st.curr).push(TokenV::ParamStart)
            } else {
                st.tokens
            },
            ..st
        }
    } else if c == ')' {
        LexStateV {
            curr: Seq::empty(),
            tokens: if st.depth < 2 {
                flushed_word(st.tokens, st.curr).push(TokenV::ParamEnd)
            } else {
                st.tokens
            },
            ..st
        }
    } else if c == '{' {
        LexStateV {
            curr: Seq::empty(),
            depth: st.depth + 1,
            tokens: if st.depth < 2 {
                flushed_word(st.tokens, st.curr).push(TokenV::ExpressionEnd("{"@))
            } else {
                st.tokens
            },
            ..st
        }
    } else if c == '}' {
        LexStateV {
            curr: Seq::empty(),
            depth: st.depth - 1,
            tokens: if st.depth < 2 {
                flushed_word(st.tokens, st.curr)
            } else {
                st.tokens
            },
            ..st
        }
    } else {
        LexStateV {
            curr: if st.depth < 2 {
                st.curr.push(c)
            } else {
                st.curr
            },
            ..st
        }
    }
}

/// The lexer state after the first `i` characters of `s`.
pub open spec fn lex_upto(s: Seq<char>, i: int) -> LexStateV
    decreases i,
{
    if i <= 0 {
        lex_init()
    } else {
        lex_step(lex_upto(s, i - 1), s[i - 1])
    }
}

/// The tokens that lexing all of `s` emits.
pub open spec fn lex_spec(s: Seq<char>) -> Seq<TokenV> {
    lex_upto(s, s.len() as int).tokens
}

/// Classifies and appends the buffered word `curr_token`: keywords of either
/// table become `Keyword`, all else `Symbol`; an empty buffer is dropped.
pub fn push_token(curr_token: &String, tokens: &mut Vec<Token>)
    ensures
        final(tokens).deep_view() == flushed_word(old(tokens).deep_view(), curr_token@),
{
    proof {
        lemma_vec_views(tokens);
    }
    if !curr_token.as_str().is_empty() {
        let keywords = get_keywords();
        let jdoc_keywords = get_jdoc_keywords();
        let ghost pre = tokens@;
        if word_in_table(curr_token.as_str(), &keywords) {
            tokens.push(Token::Keyword(curr_token.clone()));
        } else if word_in_table(curr_token.as_str(), &jdoc_keywords) {
            tokens.push(Token::Keyword(curr_token.clone()));
        } else {
            tokens.push(Token::Symbol(curr_token.clone()));
        }
        proof {
            lemma_views_push(pre, tokens@.last());
            lemma_vec_views(tokens);
        }
    }
}

/// The exact bound on the line counter: it never exceeds one more than the
/// number of characters read.
proof fn lemma_lex_line_bound(s: Seq<char>, i: int)
    requires
        0 <= i <= s.len(),
    ensures
        1 <= lex_upto(s, i).line <= 1 + i,
        -i <= lex_upto(s, i).depth <= i,
    decreases i,
{
    if i > 0 {
        lemma_lex_line_bound(s, i - 1);
    }
}

/// Turns source text into tokens: one pass, visibility decided by brace
/// depth, a `LineNumber` token bracketing every physical line.
pub fn lex_contents(content: &String) -> (tokens: Vec<Token>)
    ensures
        tokens.deep_view() == lex_spec(content@),
{
    let s = content.as_str();
    let n: usize = s.unicode_len();
    let mut tokens: Vec<Token> = Vec::new();
    let mut curr_token = String::new();
    let mut block_depth: i128 = 0;
    let mut line_number: u128 = 1;

    tokens.push(Token::LineNumber(dec_string(1)));
    proof {
        lemma_vec_views(&tokens);
        assert(views_of(tokens@) =~= lex_init().tokens);
    }

    let mut i: usize = 0;
    while i < n
        invariant
            i <= n,
            n == content@.len(),
            s@ == content@,
            curr_token@ == lex_upto(content@, i as int).curr,
            block_depth as int == lex_upto(content@, i as int).depth,
            line_number as int == lex_upto(content@, i as int).line,
            tokens.deep_view() == lex_upto(content@, i as int).tokens,
        decreases n - i,
    {
        proof {
            lemma_lex_line_bound(content@, i as int);
            assert(lex_upto(content@, i + 1) == lex_step(
                lex_upto(content@, i as int),
                content@[i as int],
            ));
            lemma_vec_views(&tokens);
        }
        let c = s.get_char(i);
        let ghost pre = tokens@;
        match c {
            ' ' | '\t' => {
                if block_depth < 2 {
                    push_token(&curr_token, &mut tokens);
                }
                curr_token = String::new();
            },
            '\n' => {
                if block_depth < 2 {
                    push_token(&curr_token, &mut tokens);
                }
                line_number = line_number + 1;
                let ghost mid = tokens@;
                tokens.push(Token::LineNumber(dec_string(line_number)));
                proof {
                    lemma_views_push(mid, tokens@.last());
                    lemma_vec_views(&tokens);
                }
                curr_token = String::new();
            },
            ',' => {
                if block_depth < 2 {
                    push_token(&curr_token, &mut tokens);
                    let ghost mid = tokens@;
                    tokens.push(Token::Join);
                    proof {
                        lemma_views_push(mid, tokens@.last());
                        lemma_vec_views(&tokens);
                    }
                }
                curr_token = String::new();
            },
            ';' => {
                if block_depth < 2 {
                    push_token(&curr_token, &mut tokens);
                    let ghost mid = tokens@;
                    tokens.push(Token::ExpressionEnd(";".to_owned()));
                    proof {
                        lemma_views_push(mid, tokens@.last());
                        lemma_vec_views(&tokens);
                    }
                }
                curr_token = String::new();
            },
            '(' => {
                if block_depth < 2 {
                    push_token(&curr_token, &mut tokens);
                    let ghost mid = tokens@;
                    tokens.push(Token::ParamStart);
                    proof {
                        lemma_views_push(mid, tokens@.last());
                        lemma_vec_views(&tokens);
                    }
                }
                curr_token = String::new();
            },
            ')' => {
                if block_depth < 2 {
                    push_token(&curr_token, &mut tokens);
                    let ghost mid = tokens@;
                    tokens.push(Token::ParamEnd);
                    proof {
                        lemma_views_push(mid, tokens@.last());
                        lemma_vec_views(&tokens);
                    }
                }
                curr_token = String::new();
            },
            '{' => {
                if block_depth < 2 {
                    push_token(&curr_token, &mut tokens);
                    let ghost mid = tokens@;
                    tokens.push(Token::ExpressionEnd("{".to_owned()));
                    proof {
                        lemma_views_push(mid, tokens@.last());
                        lemma_vec_views(&tokens);
                    }
                }
                curr_token = String::new();
                block_depth = block_depth + 1;
            },
            '}' => {
                if block_depth < 2 {
                    push_token(&curr_token, &mut tokens);
                }
                curr_token = String::new();
                block_depth = block_depth - 1;
            },
            _ => {
                if block_depth < 2 {
                    let sub = s.substring_char(i, i + 1);
                    curr_token.append(sub);
                    assert(curr_token@ =~= lex_upto(content@, i as int).curr.push(
                        content@[i as int],
                    ));
                }
            },
        }
        i += 1;
    }
    tokens
}

} // verus!
