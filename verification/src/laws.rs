//! Properties of the lexer and the parser that hold for every input:
//! depth tracking on brace-free text, one token per flushed run, keyword
//! classification, opacity of method-body content, and purity of parsing.

use vstd::prelude::*;

use crate::grammar::is_jdoc_keyword;
use crate::grammar::is_lang_keyword;
use crate::grammar::TokenV;
use crate::model::object::ObjectTypeV;
use crate::parse::ast::ast_spec;
use crate::parse::lexer::flushed_word;
use crate::parse::lexer::lex_init;
use crate::parse::lexer::lex_spec;
use crate::parse::lexer::lex_step;
use crate::parse::lexer::lex_upto;
use crate::parse::lexer::LexStateV;
use crate::strutil::dec_str;

verus! {

/// The lexer state after processing all of `s` from the state `st`.
pub open spec fn lex_from(st: LexStateV, s: Seq<char>) -> LexStateV
    decreases s.len(),
{
    if s.len() == 0 {
        st
    } else {
        lex_from(lex_step(st, s[0]), s.subrange(1, s.len() as int))
    }
}

/// Processing one more character at the end is one more step.
proof fn lemma_lex_from_snoc(st: LexStateV, s: Seq<char>, c: char)
    ensures
        lex_from(st, s.push(c)) == lex_step(lex_from(st, s), c),
    decreases s.len(),
{
    let t = s.push(c);
    assert(t.len() == s.len() + 1);
    assert(lex_from(st, t) == lex_from(lex_step(st, t[0]), t.subrange(1, t.len() as int)));
    if s.len() == 0 {
        assert(t[0] == c);
        assert(t.subrange(1, 1) =~= Seq::<char>::empty());
        assert(lex_from(lex_step(st, c), t.subrange(1, 1)) == lex_step(st, c));
        assert(lex_from(st, s) == st);
    } else {
        assert(t[0] == s[0]);
        assert(t.subrange(1, t.len() as int) =~= s.subrange(1, s.len() as int).push(c));
        lemma_lex_from_snoc(lex_step(st, s[0]), s.subrange(1, s.len() as int), c);
        assert(lex_from(st, s) == lex_from(lex_step(st, s[0]), s.subrange(1, s.len() as int)));
    }
}

/// The prefix-indexed and the recursive-descent forms of the lexer agree.
pub proof fn lemma_upto_eq_from(s: Seq<char>, i: int)
    requires
        0 <= i <= s.len(),
    ensures
        lex_upto(s, i) == lex_from(lex_init(), s.subrange(0, i)),
    decreases i,
{
    if i == 0 {
        assert(s.subrange(0, 0) =~= Seq::<char>::empty());
    } else {
        lemma_upto_eq_from(s, i - 1);
        assert(s.subrange(0, i) =~= s.subrange(0, i - 1).push(s[i - 1]));
        lemma_lex_from_snoc(lex_init(), s.subrange(0, i - 1), s[i - 1]);
    }
}

/// A blank that delimits symbol runs at file scope: space or tab.
pub open spec fn run_blank(c: char) -> bool {
    c == ' ' || c == '\t'
}

/// A character that extends a symbol run: anything the lexer does not
/// treat as a delimiter.
pub open spec fn run_char(c: char) -> bool {
    !run_blank(c) && c != '\n' && c != ',' && c != ';' && c != '(' && c != ')' && c != '{'
        && c != '}'
}

/// The non-blank runs of `s` that a blank closes, given the run `cur`
/// already in the buffer; a run still open at end of input is dropped, as
/// the lexer drops its buffer.
pub open spec fn flushed_runs(s: Seq<char>, cur: Seq<char>) -> Seq<Seq<char>>
    decreases s.len(),
{
    if s.len() == 0 {
        Seq::empty()
    } else if run_blank(s[0]) {
        (if cur.len() > 0 {
            seq![cur]
        } else {
            Seq::empty()
        }) + flushed_runs(s.subrange(1, s.len() as int), Seq::empty())
    } else {
        flushed_runs(s.subrange(1, s.len() as int), cur.push(s[0]))
    }
}

/// The token that one non-empty run becomes: a `Keyword` exactly when one
/// of the two keyword tables holds it, a `Symbol` otherwise.
pub open spec fn classified(w: Seq<char>) -> TokenV {
    if is_lang_keyword(w) || is_jdoc_keyword(w) {
        TokenV::Keyword(w)
    } else {
        TokenV::Symbol(w)
    }
}

/// Each run classified, in order.
pub open spec fn classified_runs(ws: Seq<Seq<char>>) -> Seq<TokenV>
    decreases ws.len(),
{
    if ws.len() == 0 {
        Seq::empty()
    } else {
        seq![classified(ws[0])] + classified_runs(ws.subrange(1, ws.len() as int))
    }
}

/// Classification distributes over concatenation of run lists.
proof fn lemma_classified_concat(a: Seq<Seq<char>>, b: Seq<Seq<char>>)
    ensures
        classified_runs(a + b) == classified_runs(a) + classified_runs(b),
    decreases a.len(),
{
    if a.len() == 0 {
        assert(a + b =~= b);
        assert(classified_runs(a) + classified_runs(b) =~= classified_runs(b));
    } else {
        let t = a + b;
        assert(t[0] == a[0]);
        assert(t.subrange(1, t.len() as int) =~= a.subrange(1, a.len() as int) + b);
        lemma_classified_concat(a.subrange(1, a.len() as int), b);
        assert(classified_runs(a + b) =~= classified_runs(a) + classified_runs(b));
    }
}

/// Keyword-table membership is necessary and sufficient for `Keyword`
/// classification: a flushed non-empty run is appended as a `Keyword` token
/// exactly when one of the keyword tables holds it, and as a `Symbol`
/// otherwise.
pub proof fn lemma_keyword_classification(toks: Seq<TokenV>, w: Seq<char>)
    requires
        w.len() > 0,
    ensures
        flushed_word(toks, w) == toks.push(classified(w)),
        (classified(w) == TokenV::Keyword(w)) <==> (is_lang_keyword(w) || is_jdoc_keyword(w)),
        (classified(w) == TokenV::Symbol(w)) <==> !(is_lang_keyword(w) || is_jdoc_keyword(w)),
{
}

/// On input made of blanks and run characters, the lexer keeps depth zero,
/// counts no line, and emits exactly the classified flushed runs.
proof fn lemma_lex_runs_general(st: LexStateV, s: Seq<char>)
    requires
        st.depth == 0,
        forall|j: int| 0 <= j < s.len() ==> run_blank(#[trigger] s[j]) || run_char(s[j]),
    ensures
        lex_from(st, s) == (LexStateV {
            curr: lex_from(st, s).curr,
            tokens: st.tokens + classified_runs(flushed_runs(s, st.curr)),
            ..st
        }),
    decreases s.len(),
{
    if s.len() == 0 {
        assert(st.tokens + classified_runs(flushed_runs(s, st.curr)) =~= st.tokens);
        assert(lex_from(st, s) =~= (LexStateV {
            curr: lex_from(st, s).curr,
            tokens: st.tokens + classified_runs(flushed_runs(s, st.curr)),
            ..st
        }));
    } else {
        let rest = s.subrange(1, s.len() as int);
        let st1 = lex_step(st, s[0]);
        if run_blank(s[0]) {
            lemma_lex_runs_general(st1, rest);
            if st.curr.len() > 0 {
                lemma_keyword_classification(st.tokens, st.curr);
                lemma_classified_concat(seq![st.curr], flushed_runs(rest, Seq::empty()));
                assert(seq![st.curr].subrange(1, 1) =~= Seq::<Seq<char>>::empty());
                assert(classified_runs(Seq::<Seq<char>>::empty()) =~= Seq::<TokenV>::empty());
                assert(seq![st.curr][0] == st.curr);
                assert(classified_runs(seq![st.curr]) == seq![classified(st.curr)]
                    + classified_runs(seq![st.curr].subrange(1, 1)));
                assert(classified_runs(seq![st.curr]) =~= seq![classified(st.curr)]);
                assert(st1.tokens == st.tokens.push(classified(st.curr)));
                assert(flushed_runs(s, st.curr) == seq![st.curr] + flushed_runs(
                    rest,
                    Seq::empty(),
                ));
                assert(st.tokens + classified_runs(flushed_runs(s, st.curr)) =~= st1.tokens
                    + classified_runs(flushed_runs(rest, Seq::empty())));
            } else {
                assert(flushed_runs(s, st.curr) == flushed_runs(rest, Seq::empty()));
                assert(st1.tokens =~= st.tokens);
            }
            assert(lex_from(st, s) =~= (LexStateV {
                curr: lex_from(st, s).curr,
                tokens: st.tokens + classified_runs(flushed_runs(s, st.curr)),
                ..st
            }));
        } else {
            assert(run_char(s[0]));
            assert(st1 == (LexStateV { curr: st.curr.push(s[0]), ..st }));
            lemma_lex_runs_general(st1, rest);
            assert(flushed_runs(s, st.curr) == flushed_runs(rest, st.curr.push(s[0])));
            assert(lex_from(st, s) =~= (LexStateV {
                curr: lex_from(st, s).curr,
                tokens: st.tokens + classified_runs(flushed_runs(s, st.curr)),
                ..st
            }));
        }
    }
}

/// For input made of blanks and ordinary run characters — no braces among
/// them — the lexer emits the opening line marker and then exactly one
/// token per flushed non-blank run, classified by the keyword tables; the
/// brace depth stays zero and the line counter stays at one.
pub proof fn lemma_one_token_per_run(s: Seq<char>)
    requires
        forall|j: int| 0 <= j < s.len() ==> run_blank(#[trigger] s[j]) || run_char(s[j]),
    ensures
        lex_spec(s) == seq![TokenV::LineNumber(dec_str(1))] + classified_runs(
            flushed_runs(s, Seq::empty()),
        ),
        lex_upto(s, s.len() as int).depth == 0,
        lex_upto(s, s.len() as int).line == 1,
{
    lemma_upto_eq_from(s, s.len() as int);
    assert(s.subrange(0, s.len() as int) =~= s);
    lemma_lex_runs_general(lex_init(), s);
    assert(lex_init().tokens =~= seq![TokenV::LineNumber(dec_str(1))]);
}

/// A token that carries a classified run: a `Symbol` or a `Keyword`.
pub open spec fn is_word_token(t: TokenV) -> bool {
    match t {
        TokenV::Symbol(_) => true,
        TokenV::Keyword(_) => true,
        _ => false,
    }
}

/// The subsequence of `toks` made of its word tokens, in order.
pub open spec fn word_tokens(toks: Seq<TokenV>) -> Seq<TokenV>
    decreases toks.len(),
{
    if toks.len() == 0 {
        Seq::empty()
    } else {
        word_tokens(toks.drop_last()) + (if is_word_token(toks.last()) {
            seq![toks.last()]
        } else {
            Seq::empty()
        })
    }
}

/// Appending one token appends its word-token contribution.
proof fn lemma_word_tokens_push(toks: Seq<TokenV>, t: TokenV)
    ensures
        word_tokens(toks.push(t)) == word_tokens(toks) + (if is_word_token(t) {
            seq![t]
        } else {
            Seq::<TokenV>::empty()
        }),
{
    assert(toks.push(t).drop_last() =~= toks);
    assert(toks.push(t).last() == t);
}

/// The maximal delimiter-free runs of `s` that a delimiter closes, given
/// the run `cur` already buffered; a run still open at end of input is
/// dropped, as the lexer drops its buffer.
pub open spec fn delimited_runs(s: Seq<char>, cur: Seq<char>) -> Seq<Seq<char>>
    decreases s.len(),
{
    if s.len() == 0 {
        Seq::empty()
    } else if !run_char(s[0]) {
        (if cur.len() > 0 {
            seq![cur]
        } else {
            Seq::empty()
        }) + delimited_runs(s.subrange(1, s.len() as int), Seq::empty())
    } else {
        delimited_runs(s.subrange(1, s.len() as int), cur.push(s[0]))
    }
}

/// One run classifies to its one-token list.
proof fn lemma_classified_singleton(w: Seq<char>)
    ensures
        classified_runs(seq![w]) == seq![classified(w)],
{
    assert(seq![w].subrange(1, 1) =~= Seq::<Seq<char>>::empty());
    assert(classified_runs(Seq::<Seq<char>>::empty()) =~= Seq::<TokenV>::empty());
    assert(seq![w][0] == w);
    assert(classified_runs(seq![w]) =~= seq![classified(w)]);
}

/// On brace-free input met below depth two, the word tokens the lexer adds
/// are exactly the classified delimiter-closed runs, and the depth does not
/// move.
proof fn lemma_lex_word_tokens_general(st: LexStateV, s: Seq<char>)
    requires
        st.depth < 2,
        forall|j: int| 0 <= j < s.len() ==> #[trigger] s[j] != '{' && s[j] != '}',
    ensures
        word_tokens(lex_from(st, s).tokens) == word_tokens(st.tokens) + classified_runs(
            delimited_runs(s, st.curr),
        ),
        lex_from(st, s).depth == st.depth,
    decreases s.len(),
{
    if s.len() == 0 {
        assert(word_tokens(st.tokens) + classified_runs(delimited_runs(s, st.curr))
            =~= word_tokens(st.tokens));
    } else {
        let c = s[0];
        let rest = s.subrange(1, s.len() as int);
        let st1 = lex_step(st, c);
        if run_char(c) {
            assert(st1 == (LexStateV { curr: st.curr.push(c), ..st }));
            lemma_lex_word_tokens_general(st1, rest);
            assert(delimited_runs(s, st.curr) == delimited_runs(rest, st.curr.push(c)));
        } else {
            let flushed = flushed_word(st.tokens, st.curr);
            if st.curr.len() > 0 {
                lemma_keyword_classification(st.tokens, st.curr);
                lemma_word_tokens_push(st.tokens, classified(st.curr));
                assert(word_tokens(flushed) == word_tokens(st.tokens) + seq![
                    classified(st.curr),
                ]);
            } else {
                assert(word_tokens(flushed) =~= word_tokens(st.tokens));
            }
            if c == ' ' || c == '\t' {
                assert(st1.tokens == flushed);
            } else if c == '\n' {
                lemma_word_tokens_push(flushed, TokenV::LineNumber(dec_str(st.line + 1)));
                assert(word_tokens(st1.tokens) =~= word_tokens(flushed));
            } else if c == ',' {
                lemma_word_tokens_push(flushed, TokenV::Join);
                assert(word_tokens(st1.tokens) =~= word_tokens(flushed));
            } else if c == ';' {
                lemma_word_tokens_push(flushed, TokenV::ExpressionEnd(";"@));
                assert(word_tokens(st1.tokens) =~= word_tokens(flushed));
            } else if c == '(' {
                lemma_word_tokens_push(flushed, TokenV::ParamStart);
                assert(word_tokens(st1.tokens) =~= word_tokens(flushed));
            } else {
                assert(c == ')');
                lemma_word_tokens_push(flushed, TokenV::ParamEnd);
                assert(word_tokens(st1.tokens) =~= word_tokens(flushed));
            }
            assert(st1.depth == st.depth);
            assert(st1.curr =~= Seq::<char>::empty());
            lemma_lex_word_tokens_general(st1, rest);
            if st.curr.len() > 0 {
                lemma_classified_singleton(st.curr);
                lemma_classified_concat(seq![st.curr], delimited_runs(rest, Seq::empty()));
                assert(delimited_runs(s, st.curr) == seq![st.curr] + delimited_runs(
                    rest,
                    Seq::empty(),
                ));
                assert(word_tokens(lex_from(st, s).tokens) =~= word_tokens(st.tokens)
                    + classified_runs(delimited_runs(s, st.curr)));
            } else {
                assert(delimited_runs(s, st.curr) =~= delimited_runs(rest, Seq::empty()));
                assert(word_tokens(lex_from(st, s).tokens) =~= word_tokens(st.tokens)
                    + classified_runs(delimited_runs(s, st.curr)));
            }
        }
    }
}

/// For any brace-free input — commas, semicolons, parentheses and newlines
/// included — the `Symbol` and `Keyword` tokens the lexer emits are exactly
/// one per maximal delimiter-free run, in input order, each carrying the
/// run's text and classified by the keyword tables; no character of a
/// closed run is discarded. A run still open at end of input yields no
/// token, as the lexer drops its buffer.
pub proof fn lemma_words_of_brace_free(s: Seq<char>)
    requires
        forall|j: int| 0 <= j < s.len() ==> #[trigger] s[j] != '{' && s[j] != '}',
    ensures
        word_tokens(lex_spec(s)) == classified_runs(delimited_runs(s, Seq::empty())),
{
    lemma_upto_eq_from(s, s.len() as int);
    assert(s.subrange(0, s.len() as int) =~= s);
    lemma_lex_word_tokens_general(lex_init(), s);
    let toks0 = lex_init().tokens;
    assert(toks0.drop_last() =~= Seq::<TokenV>::empty());
    assert(word_tokens(Seq::<TokenV>::empty()) =~= Seq::<TokenV>::empty());
    assert(word_tokens(toks0) =~= Seq::<TokenV>::empty());
}

/// For input without braces, the brace depth stays zero at every prefix.
pub proof fn lemma_depth_stays_zero(s: Seq<char>, i: int)
    requires
        0 <= i <= s.len(),
        forall|j: int| 0 <= j < s.len() ==> #[trigger] s[j] != '{' && s[j] != '}',
    ensures
        lex_upto(s, i).depth == 0,
    decreases i,
{
    if i > 0 {
        lemma_depth_stays_zero(s, i - 1);
    }
}

/// Content met at depth two or more is opaque: as long as it holds no
/// brace and no newline, it leaves the lexer's state — tokens included —
/// exactly as it was.
pub proof fn lemma_body_content_opaque(st: LexStateV, s: Seq<char>)
    requires
        st.depth >= 2,
        st.curr.len() == 0,
        forall|j: int| 0 <= j < s.len() ==> #[trigger] s[j] != '{' && s[j] != '}' && s[j] != '\n',
    ensures
        lex_from(st, s) == st,
    decreases s.len(),
{
    if s.len() > 0 {
        let st1 = lex_step(st, s[0]);
        assert(st1 =~= st);
        lemma_body_content_opaque(st1, s.subrange(1, s.len() as int));
    }
}

/// Parsing is a pure function of file content: two results obtained from
/// equal text — each the lexed tokens of the text run through the
/// constructor — are structurally equal.
pub proof fn lemma_parse_pure(content: Seq<char>, r1: ObjectTypeV, r2: ObjectTypeV)
    requires
        r1 == ast_spec(lex_spec(content)),
        r2 == ast_spec(lex_spec(content)),
    ensures
        r1 == r2,
{
}

} // verus!
