//! Compile-time arithmetic for layout files: the `calc` expression language.
//!
//! An expression is read once, while a layout file is compiled, and later
//! folded to a constant. The grammar (all operators left-associative):
//!
//! ```text
//! expr    := term (('+' | '-') term)*
//! term    := unary (('*' | '/' | '%') unary)*
//! unary   := '-' unary | primary
//! primary := number | ident | ident '(' (expr (',' expr)*)? ')' | '(' expr ')'
//! ```
//!
//! A number is kept as the text it was written as; folding it to a value is
//! left to the evaluator.
use vstd::prelude::*;
use crate::text::{chars_of, push_str, string_of, trim, trim_range};

verus! {

/// A binary operator.
#[derive(Clone, Copy, Debug, PartialEq, Eq)]
pub enum BinOp {
    Add,
    Sub,
    Mul,
    Div,
    Rem,
}

/// A parsed expression. A number keeps its source text (digits with at most
/// one `.`), which is always a valid floating-point literal.
#[derive(Debug, PartialEq)]
pub enum Expr {
    Num(String),
    Ident(String),
    Neg(Box<Expr>),
    Bin(BinOp, Box<Expr>, Box<Expr>),
    Call(String, Vec<Expr>),
}

/// The mathematical model of an [`Expr`].
pub enum ExprView {
    Num(Seq<char>),
    Ident(Seq<char>),
    Neg(Box<ExprView>),
    Bin(BinOp, Box<ExprView>, Box<ExprView>),
    Call(Seq<char>, Seq<ExprView>),
}

impl Expr {
    /// The model of this expression.
    pub open spec fn model(self) -> ExprView
        decreases self,
    {
        match self {
            Expr::Num(n) => ExprView::Num(n@),
            Expr::Ident(n) => ExprView::Ident(n@),
            Expr::Neg(e) => ExprView::Neg(Box::new((*e).model())),
            Expr::Bin(op, a, b) => ExprView::Bin(op, Box::new((*a).model()), Box::new((*b).model())),
            Expr::Call(n, args) => ExprView::Call(
                n@,
                Seq::new(
                    args@.len(),
                    |i: int|
                        if 0 <= i < args@.len() {
                            args@[i].model()
                        } else {
                            ExprView::Num(Seq::empty())
                        },
                ),
            ),
        }
    }
}

/// A `calc` function: its parameter names and its body.
#[derive(Debug, PartialEq)]
pub struct CalcFn {
    pub params: Vec<String>,
    pub body: Expr,
}

/// The model of a [`CalcFn`]: its parameter names and the model of its body.
pub struct CalcFnV {
    pub params: Seq<Seq<char>>,
    pub body: ExprView,
}

impl DeepView for CalcFn {
    type V = CalcFnV;

    open spec fn deep_view(&self) -> CalcFnV {
        CalcFnV { params: strings_model(self.params@), body: self.body.model() }
    }
}

/// Why a `calc` expression could not be read or folded.
#[derive(Clone, Debug, PartialEq)]
pub enum CalcError {
    /// Lexing or parsing failed.
    Syntax(String),
    /// An identifier that is not an in-scope static declaration (or, inside a
    /// function body, not a parameter).
    UnknownIdent(String),
    /// A call to a name that is not a defined `calc` function.
    UnknownFn(String),
    /// A `calc` function called with the wrong number of arguments.
    Arity { name: String, expected: usize, got: usize },
    /// Division or remainder by zero.
    DivByZero,
    /// Nested calls exceeded the recursion budget.
    Recursion,
}

// ---------------------------------------------------------------------------
// Lexer
// ---------------------------------------------------------------------------

/// A token.
#[derive(Clone, Debug, PartialEq)]
pub enum Tok {
    Num(String),
    Ident(String),
    Plus,
    Minus,
    Star,
    Slash,
    Percent,
    LParen,
    RParen,
    Comma,
    Eq,
}

/// The model of a [`Tok`].
pub enum TokView {
    Num(Seq<char>),
    Ident(Seq<char>),
    Plus,
    Minus,
    Star,
    Slash,
    Percent,
    LParen,
    RParen,
    Comma,
    Eq,
}

impl Tok {
    /// The model of this token.
    pub open spec fn model(self) -> TokView {
        match self {
            Tok::Num(n) => TokView::Num(n@),
            Tok::Ident(n) => TokView::Ident(n@),
            Tok::Plus => TokView::Plus,
            Tok::Minus => TokView::Minus,
            Tok::Star => TokView::Star,
            Tok::Slash => TokView::Slash,
            Tok::Percent => TokView::Percent,
            Tok::LParen => TokView::LParen,
            Tok::RParen => TokView::RParen,
            Tok::Comma => TokView::Comma,
            Tok::Eq => TokView::Eq,
        }
    }
}

/// The models of a token list.
pub open spec fn toks_model(toks: Seq<Tok>) -> Seq<TokView> {
    Seq::new(toks.len(), |i: int| toks[i].model())
}

/// An ASCII letter.
pub open spec fn is_alpha(c: char) -> bool {
    ('a' <= c && c <= 'z') || ('A' <= c && c <= 'Z')
}

/// An ASCII decimal digit.
pub open spec fn is_digit(c: char) -> bool {
    '0' <= c && c <= '9'
}

/// A character that may continue an identifier.
pub open spec fn is_ident_char(c: char) -> bool {
    is_alpha(c) || is_digit(c) || c == '_'
}

/// The whitespace the lexer skips.
pub open spec fn is_lex_space(c: char) -> bool {
    c == ' ' || c == '\t' || c == '\r' || c == '\n'
}

/// The single-character token `c` stands for, if any.
pub open spec fn punct(c: char) -> Option<TokView> {
    if c == '+' {
        Some(TokView::Plus)
    } else if c == '-' {
        Some(TokView::Minus)
    } else if c == '*' {
        Some(TokView::Star)
    } else if c == '/' {
        Some(TokView::Slash)
    } else if c == '%' {
        Some(TokView::Percent)
    } else if c == '(' {
        Some(TokView::LParen)
    } else if c == ')' {
        Some(TokView::RParen)
    } else if c == ',' {
        Some(TokView::Comma)
    } else if c == '=' {
        Some(TokView::Eq)
    } else {
        None
    }
}

/// The length of the number at the start of `s`: digits, with at most one
/// `.` among them (`seen_dot` tells whether one was taken already).
pub open spec fn number_len(s: Seq<char>, seen_dot: bool) -> nat
    decreases s.len(),
{
    if s.len() == 0 {
        0
    } else if is_digit(s[0]) {
        1 + number_len(s.drop_first(), seen_dot)
    } else if s[0] == '.' && !seen_dot {
        1 + number_len(s.drop_first(), true)
    } else {
        0
    }
}

/// The length of the run of identifier characters at the start of `s`.
pub open spec fn ident_len(s: Seq<char>) -> nat
    decreases s.len(),
{
    if s.len() > 0 && is_ident_char(s[0]) {
        1 + ident_len(s.drop_first())
    } else {
        0
    }
}

pub proof fn lemma_number_len(s: Seq<char>, seen_dot: bool)
    ensures
        number_len(s, seen_dot) <= s.len(),
    decreases s.len(),
{
    if s.len() > 0 {
        lemma_number_len(s.drop_first(), seen_dot);
        lemma_number_len(s.drop_first(), true);
    }
}

pub proof fn lemma_ident_len(s: Seq<char>)
    ensures
        ident_len(s) <= s.len(),
    decreases s.len(),
{
    if s.len() > 0 {
        lemma_ident_len(s.drop_first());
    }
}

/// The tokens of `s`, or `None` on an unexpected character or a number that
/// is a lone `.`.
pub open spec fn lex_spec(s: Seq<char>) -> Option<Seq<TokView>>
    decreases s.len(),
{
    if s.len() == 0 {
        Some(Seq::empty())
    } else {
        let c = s[0];
        if is_lex_space(c) {
            lex_spec(s.drop_first())
        } else if punct(c) is Some {
            match lex_spec(s.drop_first()) {
                Some(rest) => Some(seq![punct(c)->0] + rest),
                None => None,
            }
        } else if is_digit(c) || c == '.' {
            let n = 1 + number_len(s.drop_first(), c == '.');
            proof {
                lemma_number_len(s.drop_first(), c == '.');
            }
            let text = s.take(n as int);
            if text == seq!['.'] {
                None
            } else {
                match lex_spec(s.skip(n as int)) {
                    Some(rest) => Some(seq![TokView::Num(text)] + rest),
                    None => None,
                }
            }
        } else if is_alpha(c) || c == '_' {
            let n = 1 + ident_len(s.drop_first());
            proof {
                lemma_ident_len(s.drop_first());
            }
            match lex_spec(s.skip(n as int)) {
                Some(rest) => Some(seq![TokView::Ident(s.take(n as int))] + rest),
                None => None,
            }
        } else {
            None
        }
    }
}

proof fn lemma_ident_len_all(t: Seq<char>)
    ensures
        (ident_len(t) == t.len()) == (forall|i: int| 0 <= i < t.len() ==> is_ident_char(#[trigger] t[i])),
    decreases t.len(),
{
    lemma_ident_len(t);
    if t.len() > 0 {
        lemma_ident_len_all(t.drop_first());
        if is_ident_char(t[0]) && ident_len(t.drop_first()) == t.drop_first().len() {
            assert forall|i: int| 0 <= i < t.len() implies is_ident_char(#[trigger] t[i]) by {
                if i > 0 {
                    assert(t[i] == t.drop_first()[i - 1]);
                }
            }
        }
        if forall|i: int| 0 <= i < t.len() ==> is_ident_char(#[trigger] t[i]) {
            assert forall|i: int| 0 <= i < t.drop_first().len() implies is_ident_char(
                #[trigger] t.drop_first()[i],
            ) by {
                assert(t.drop_first()[i] == t[i + 1]);
            }
            assert(is_ident_char(t[0]));
        }
    }
}

/// A lone identifier token is no longer than the text it is read from.
proof fn lemma_lone_ident_bound(t: Seq<char>, x: Seq<char>)
    requires
        lex_spec(t) == Some(seq![TokView::Ident(x)]),
    ensures
        x.len() <= t.len(),
    decreases t.len(),
{
    if t.len() == 0 {
        assert(seq![TokView::Ident(x)].len() == 1);
    } else {
        let c = t[0];
        if is_lex_space(c) {
            lemma_lone_ident_bound(t.drop_first(), x);
        } else if punct(c) is Some {
            let rest = lex_spec(t.drop_first())->0;
            assert((seq![punct(c)->0] + rest)[0] == punct(c)->0);
        } else if is_digit(c) || c == '.' {
            let n = 1 + number_len(t.drop_first(), c == '.');
            lemma_number_len(t.drop_first(), c == '.');
            let rest = lex_spec(t.skip(n as int))->0;
            assert((seq![TokView::Num(t.take(n as int))] + rest)[0] == TokView::Num(t.take(n as int)));
        } else if is_alpha(c) || c == '_' {
            let n = 1 + ident_len(t.drop_first());
            lemma_ident_len(t.drop_first());
            let rest = lex_spec(t.skip(n as int))->0;
            assert((seq![TokView::Ident(t.take(n as int))] + rest)[0] == TokView::Ident(t.take(n as int)));
        }
    }
}

/// A name is an identifier exactly when the lexer reads it as one
/// identifier token with its own text, so an expression can refer to it.
pub proof fn lemma_ident_is_one_token(s: Seq<char>)
    ensures
        spec_is_ident(s) <==> lex_spec(s) == Some(seq![TokView::Ident(s)]),
{
    if s.len() == 0 {
        assert(Seq::<TokView>::empty() != seq![TokView::Ident(s)]) by {
            assert(seq![TokView::Ident(s)].len() == 1);
        }
    } else {
        let c = s[0];
        lemma_ident_len_all(s.drop_first());
        if spec_is_ident(s) {
            assert forall|i: int| 0 <= i < s.drop_first().len() implies is_ident_char(
                #[trigger] s.drop_first()[i],
            ) by {
                assert(s.drop_first()[i] == s[i + 1]);
            }
            assert(!is_lex_space(c) && punct(c) is None && !is_digit(c) && c != '.');
            let n = 1 + ident_len(s.drop_first());
            assert(s.take(n as int) =~= s);
            assert(s.skip(n as int) =~= Seq::<char>::empty());
            assert(seq![TokView::Ident(s)] + Seq::<TokView>::empty() =~= seq![TokView::Ident(s)]);
        }
        if lex_spec(s) == Some(seq![TokView::Ident(s)]) {
            if is_lex_space(c) {
                lemma_lone_ident_bound(s.drop_first(), s);
            } else if punct(c) is Some {
                let rest = lex_spec(s.drop_first())->0;
                assert((seq![punct(c)->0] + rest)[0] == punct(c)->0);
            } else if is_digit(c) || c == '.' {
                let n = 1 + number_len(s.drop_first(), c == '.');
                lemma_number_len(s.drop_first(), c == '.');
                let rest = lex_spec(s.skip(n as int))->0;
                assert((seq![TokView::Num(s.take(n as int))] + rest)[0] == TokView::Num(s.take(n as int)));
            } else {
                let n = 1 + ident_len(s.drop_first());
                lemma_ident_len(s.drop_first());
                let rest = lex_spec(s.skip(n as int))->0;
                assert((seq![TokView::Ident(s.take(n as int))] + rest)[0] == TokView::Ident(s.take(n as int)));
                assert(s.take(n as int) == s);
                assert(s.take(n as int).len() == n);
                assert forall|i: int| 1 <= i < s.len() implies is_ident_char(#[trigger] s[i]) by {
                    assert(s[i] == s.drop_first()[i - 1]);
                }
            }
        }
    }
}

/// A syntax error with the given message.
fn syntax(msg: &str) -> (e: CalcError)
    ensures
        e matches CalcError::Syntax(m) && m@ == msg@,
{
    let mut m: Vec<char> = Vec::new();
    push_str(&mut m, msg);
    assert(m@ =~= msg@);
    CalcError::Syntax(string_of(m.as_slice()))
}

fn char_string(v: &Vec<char>, from: usize, to: usize) -> (s: String)
    requires
        from <= to <= v@.len(),
    ensures
        s@ == v@.subrange(from as int, to as int),
{
    let piece = crate::text::slice_chars(v, from, to);
    string_of(piece.as_slice())
}

proof fn lemma_lex_from(s: Seq<char>, i: int)
    requires
        0 <= i < s.len(),
    ensures
        s.skip(i).drop_first() == s.skip(i + 1),
        s.skip(i)[0] == s[i],
{
    assert(s.skip(i).drop_first() =~= s.skip(i + 1));
}

/// The tokens of `chars[i..]`.
fn lex_chars(chars: &Vec<char>) -> (r: Result<Vec<Tok>, CalcError>)
    ensures
        match r {
            Ok(toks) => lex_spec(chars@) == Some(toks_model(toks@)),
            Err(e) => lex_spec(chars@) is None && e is Syntax,
        },
{
    let n = chars.len();
    let mut i: usize = 0;
    let mut out: Vec<Tok> = Vec::new();
    assert(chars@.skip(0) =~= chars@);
    while i < n
        invariant
            n == chars@.len(),
            i <= n,
            lex_spec(chars@) == match lex_spec(chars@.skip(i as int)) {
                Some(rest) => Some(toks_model(out@) + rest),
                None => None::<Seq<TokView>>,
            },
        decreases n - i,
    {
        let ghost s = chars@.skip(i as int);
        proof {
            lemma_lex_from(chars@, i as int);
        }
        let c = chars[i];
        if c == ' ' || c == '\t' || c == '\r' || c == '\n' {
            i = i + 1;
        } else if c == '+' || c == '-' || c == '*' || c == '/' || c == '%' || c == '(' || c == ')'
            || c == ',' || c == '=' {
            let t = if c == '+' {
                Tok::Plus
            } else if c == '-' {
                Tok::Minus
            } else if c == '*' {
                Tok::Star
            } else if c == '/' {
                Tok::Slash
            } else if c == '%' {
                Tok::Percent
            } else if c == '(' {
                Tok::LParen
            } else if c == ')' {
                Tok::RParen
            } else if c == ',' {
                Tok::Comma
            } else {
                Tok::Eq
            };
            assert(t.model() == punct(c)->0);
            let ghost before = out@;
            out.push(t);
            assert(toks_model(out@) =~= toks_model(before) + seq![punct(c)->0]);
            proof {
                match lex_spec(chars@.skip(i + 1)) {
                    Some(rest) => {
                        assert(toks_model(before) + (seq![punct(c)->0] + rest) =~= toks_model(
                            out@,
                        ) + rest);
                    },
                    None => {},
                }
            }
            i = i + 1;
        } else if ('0' <= c && c <= '9') || c == '.' {
            let start = i;
            let mut seen_dot = false;
            while i < n && (('0' <= chars[i] && chars[i] <= '9') || (chars[i] == '.' && !seen_dot))
                invariant
                    start < n == chars@.len(),
                    start <= i <= n,
                    number_len(chars@.skip(start as int), false) == (i - start) + number_len(
                        chars@.skip(i as int),
                        seen_dot,
                    ),
                decreases n - i,
            {
                proof {
                    lemma_lex_from(chars@, i as int);
                }
                if chars[i] == '.' {
                    seen_dot = true;
                }
                i = i + 1;
            }
            proof {
                if i < n {
                    lemma_lex_from(chars@, i as int);
                }
                lemma_lex_from(chars@, start as int);
                assert(number_len(chars@.skip(i as int), seen_dot) == 0);
                assert(s.take((i - start) as int) =~= chars@.subrange(start as int, i as int));
                assert(s.skip((i - start) as int) =~= chars@.skip(i as int));
            }
            if i - start == 1 && c == '.' {
                assert(chars@.subrange(start as int, i as int) =~= seq!['.']);
                return Err(syntax("bad number"));
            }
            assert(chars@.subrange(start as int, i as int) != seq!['.']) by {
                if chars@.subrange(start as int, i as int) =~= seq!['.'] {
                    assert(chars@.subrange(start as int, i as int)[0] == c);
                }
            }
            let t = Tok::Num(char_string(chars, start, i));
            let ghost before = out@;
            out.push(t);
            assert(toks_model(out@) =~= toks_model(before) + seq![t.model()]);
            proof {
                match lex_spec(chars@.skip(i as int)) {
                    Some(rest) => {
                        assert(toks_model(before) + (seq![t.model()] + rest) =~= toks_model(out@)
                            + rest);
                    },
                    None => {},
                }
            }
        } else if ('a' <= c && c <= 'z') || ('A' <= c && c <= 'Z') || c == '_' {
            let start = i;
            i = i + 1;
            while i < n && (('a' <= chars[i] && chars[i] <= 'z') || ('A' <= chars[i] && chars[i]
                <= 'Z') || ('0' <= chars[i] && chars[i] <= '9') || chars[i] == '_')
                invariant
                    start < i <= n == chars@.len(),
                    ident_len(chars@.skip(start + 1)) == (i - start - 1) + ident_len(
                        chars@.skip(i as int),
                    ),
                decreases n - i,
            {
                proof {
                    lemma_lex_from(chars@, i as int);
                }
                i = i + 1;
            }
            proof {
                if i < n {
                    lemma_lex_from(chars@, i as int);
                }
                lemma_lex_from(chars@, start as int);
                assert(ident_len(chars@.skip(i as int)) == 0);
                assert(s.take((i - start) as int) =~= chars@.subrange(start as int, i as int));
                assert(s.skip((i - start) as int) =~= chars@.skip(i as int));
            }
            let t = Tok::Ident(char_string(chars, start, i));
            let ghost before = out@;
            out.push(t);
            assert(toks_model(out@) =~= toks_model(before) + seq![t.model()]);
            proof {
                match lex_spec(chars@.skip(i as int)) {
                    Some(rest) => {
                        assert(toks_model(before) + (seq![t.model()] + rest) =~= toks_model(out@)
                            + rest);
                    },
                    None => {},
                }
            }
        } else {
            return Err(syntax("unexpected character"));
        }
    }
    proof {
        assert(chars@.skip(n as int) =~= Seq::<char>::empty());
        assert(toks_model(out@) + Seq::<TokView>::empty() =~= toks_model(out@));
    }
    Ok(out)
}


// ---------------------------------------------------------------------------
// Parser (precedence climbing)
// ---------------------------------------------------------------------------

/// The models of a list of expressions.
pub open spec fn exprs_model(v: Seq<Expr>) -> Seq<ExprView> {
    Seq::new(v.len(), |i: int| v[i].model())
}

/// The additive operator `t` stands for, if any.
pub open spec fn add_op(t: TokView) -> Option<BinOp> {
    match t {
        TokView::Plus => Some(BinOp::Add),
        TokView::Minus => Some(BinOp::Sub),
        _ => None,
    }
}

/// The multiplicative operator `t` stands for, if any.
pub open spec fn mul_op(t: TokView) -> Option<BinOp> {
    match t {
        TokView::Star => Some(BinOp::Mul),
        TokView::Slash => Some(BinOp::Div),
        TokView::Percent => Some(BinOp::Rem),
        _ => None,
    }
}

/// `expr` at `pos`: the expression and the position after it.
pub open spec fn p_expr(t: Seq<TokView>, pos: int) -> Option<(ExprView, int)>
    decreases t.len() - pos, 3int,
{
    match p_term(t, pos) {
        None => None,
        Some((lhs, p)) => if p <= pos || p > t.len() {
            None
        } else {
            p_expr_tail(t, lhs, p)
        },
    }
}

/// The `(('+' | '-') term)*` loop of `expr`, folding onto `lhs`.
pub open spec fn p_expr_tail(t: Seq<TokView>, lhs: ExprView, p: int) -> Option<(ExprView, int)>
    decreases t.len() - p, 3int,
{
    if 0 <= p < t.len() && add_op(t[p]) is Some {
        match p_term(t, p + 1) {
            None => None,
            Some((rhs, q)) => if q <= p || q > t.len() {
                None
            } else {
                p_expr_tail(t, ExprView::Bin(add_op(t[p])->0, Box::new(lhs), Box::new(rhs)), q)
            },
        }
    } else {
        Some((lhs, p))
    }
}

/// `term` at `pos`.
pub open spec fn p_term(t: Seq<TokView>, pos: int) -> Option<(ExprView, int)>
    decreases t.len() - pos, 2int,
{
    match p_unary(t, pos) {
        None => None,
        Some((lhs, p)) => if p <= pos || p > t.len() {
            None
        } else {
            p_term_tail(t, lhs, p)
        },
    }
}

/// The `(('*' | '/' | '%') unary)*` loop of `term`, folding onto `lhs`.
pub open spec fn p_term_tail(t: Seq<TokView>, lhs: ExprView, p: int) -> Option<(ExprView, int)>
    decreases t.len() - p, 2int,
{
    if 0 <= p < t.len() && mul_op(t[p]) is Some {
        match p_unary(t, p + 1) {
            None => None,
            Some((rhs, q)) => if q <= p || q > t.len() {
                None
            } else {
                p_term_tail(t, ExprView::Bin(mul_op(t[p])->0, Box::new(lhs), Box::new(rhs)), q)
            },
        }
    } else {
        Some((lhs, p))
    }
}

/// `unary` at `pos`.
pub open spec fn p_unary(t: Seq<TokView>, pos: int) -> Option<(ExprView, int)>
    decreases t.len() - pos, 1int,
{
    if 0 <= pos < t.len() && t[pos] is Minus {
        match p_unary(t, pos + 1) {
            None => None,
            Some((e, p)) => Some((ExprView::Neg(Box::new(e)), p)),
        }
    } else {
        p_primary(t, pos)
    }
}

/// `primary` at `pos`.
pub open spec fn p_primary(t: Seq<TokView>, pos: int) -> Option<(ExprView, int)>
    decreases t.len() - pos, 0int,
{
    if pos < 0 || pos >= t.len() {
        None
    } else {
        match t[pos] {
            TokView::Num(n) => Some((ExprView::Num(n), pos + 1)),
            TokView::Ident(name) => if pos + 1 < t.len() && t[pos + 1] is LParen {
                if pos + 2 < t.len() && t[pos + 2] is RParen {
                    Some((ExprView::Call(name, Seq::empty()), pos + 3))
                } else {
                    match p_args(t, pos + 2) {
                        None => None,
                        Some((args, q)) => if 0 <= q < t.len() && t[q] is RParen {
                            Some((ExprView::Call(name, args), q + 1))
                        } else {
                            None
                        },
                    }
                }
            } else {
                Some((ExprView::Ident(name), pos + 1))
            },
            TokView::LParen => match p_expr(t, pos + 1) {
                None => None,
                Some((e, q)) => if 0 <= q < t.len() && t[q] is RParen {
                    Some((e, q + 1))
                } else {
                    None
                },
            },
            _ => None,
        }
    }
}

/// `expr (',' expr)*` at `p`: the argument list of a call.
pub open spec fn p_args(t: Seq<TokView>, p: int) -> Option<(Seq<ExprView>, int)>
    decreases t.len() - p, 4int,
{
    match p_expr(t, p) {
        None => None,
        Some((e, q)) => if q <= p || q > t.len() {
            None
        } else if q < t.len() && t[q] is Comma {
            match p_args(t, q + 1) {
                None => None,
                Some((rest, r)) => Some((seq![e] + rest, r)),
            }
        } else {
            Some((seq![e], q))
        },
    }
}

/// What [`parse_expr`] makes of `src`: the expression, or `None` for a syntax
/// error (including tokens left over after a complete expression).
pub open spec fn spec_parse_expr(src: Seq<char>) -> Option<ExprView> {
    match lex_spec(src) {
        None => None,
        Some(t) => match p_expr(t, 0) {
            Some((e, p)) => if p == t.len() {
                Some(e)
            } else {
                None
            },
            None => None,
        },
    }
}

/// The result relation shared by the parsing functions below.
pub open spec fn parsed_as(r: Result<(Expr, usize), CalcError>, s: Option<(ExprView, int)>) -> bool {
    match r {
        Ok((e, p)) => s == Some((e.model(), p as int)),
        Err(err) => s is None && err is Syntax,
    }
}

fn expr_at(toks: &Vec<Tok>, pos: usize) -> (r: Result<(Expr, usize), CalcError>)
    requires
        pos <= toks@.len(),
    ensures
        parsed_as(r, p_expr(toks_model(toks@), pos as int)),
    decreases toks@.len() - pos, 3int,
{
    let ghost t = toks_model(toks@);
    let (mut lhs, mut p) = match term_at(toks, pos) {
        Ok(x) => x,
        Err(e) => return Err(e),
    };
    if p <= pos || p > toks.len() {
        return Err(syntax("malformed expression"));
    }
    loop
        invariant
            pos < p <= toks@.len(),
            t == toks_model(toks@),
            p_expr(t, pos as int) == p_expr_tail(t, lhs.model(), p as int),
        decreases toks@.len() - p,
    {
        if p < toks.len() && (matches!(toks[p], Tok::Plus) || matches!(toks[p], Tok::Minus)) {
            let op = if matches!(toks[p], Tok::Plus) { BinOp::Add } else { BinOp::Sub };
            assert(add_op(t[p as int]) == Some(op));
            let (rhs, q) = match term_at(toks, p + 1) {
                Ok(x) => x,
                Err(e) => return Err(e),
            };
            if q <= p || q > toks.len() {
                return Err(syntax("malformed expression"));
            }
            lhs = Expr::Bin(op, Box::new(lhs), Box::new(rhs));
            p = q;
        } else {
            assert(!(0 <= p < t.len() && add_op(t[p as int]) is Some));
            return Ok((lhs, p));
        }
    }
}

fn term_at(toks: &Vec<Tok>, pos: usize) -> (r: Result<(Expr, usize), CalcError>)
    requires
        pos <= toks@.len(),
    ensures
        parsed_as(r, p_term(toks_model(toks@), pos as int)),
    decreases toks@.len() - pos, 2int,
{
    let ghost t = toks_model(toks@);
    let (mut lhs, mut p) = match unary_at(toks, pos) {
        Ok(x) => x,
        Err(e) => return Err(e),
    };
    if p <= pos || p > toks.len() {
        return Err(syntax("malformed expression"));
    }
    loop
        invariant
            pos < p <= toks@.len(),
            t == toks_model(toks@),
            p_term(t, pos as int) == p_term_tail(t, lhs.model(), p as int),
        decreases toks@.len() - p,
    {
        if p < toks.len() && (matches!(toks[p], Tok::Star) || matches!(toks[p], Tok::Slash) || matches!(toks[p], Tok::Percent)) {
            let op = if matches!(toks[p], Tok::Star) {
                BinOp::Mul
            } else if matches!(toks[p], Tok::Slash) {
                BinOp::Div
            } else {
                BinOp::Rem
            };
            assert(mul_op(t[p as int]) == Some(op));
            let (rhs, q) = match unary_at(toks, p + 1) {
                Ok(x) => x,
                Err(e) => return Err(e),
            };
            if q <= p || q > toks.len() {
                return Err(syntax("malformed expression"));
            }
            lhs = Expr::Bin(op, Box::new(lhs), Box::new(rhs));
            p = q;
        } else {
            assert(!(0 <= p < t.len() && mul_op(t[p as int]) is Some));
            return Ok((lhs, p));
        }
    }
}

fn unary_at(toks: &Vec<Tok>, pos: usize) -> (r: Result<(Expr, usize), CalcError>)
    requires
        pos <= toks@.len(),
    ensures
        parsed_as(r, p_unary(toks_model(toks@), pos as int)),
    decreases toks@.len() - pos, 1int,
{
    if pos < toks.len() && matches!(toks[pos], Tok::Minus) {
        match unary_at(toks, pos + 1) {
            Ok((e, p)) => Ok((Expr::Neg(Box::new(e)), p)),
            Err(e) => Err(e),
        }
    } else {
        primary_at(toks, pos)
    }
}

fn primary_at(toks: &Vec<Tok>, pos: usize) -> (r: Result<(Expr, usize), CalcError>)
    requires
        pos <= toks@.len(),
    ensures
        parsed_as(r, p_primary(toks_model(toks@), pos as int)),
    decreases toks@.len() - pos, 0int,
{
    let ghost t = toks_model(toks@);
    if pos >= toks.len() {
        return Err(syntax("unexpected end of input"));
    }
    match &toks[pos] {
        Tok::Num(n) => Ok((Expr::Num(n.clone()), pos + 1)),
        Tok::Ident(name) => {
            if pos + 1 < toks.len() && matches!(toks[pos + 1], Tok::LParen) {
                if pos + 2 < toks.len() && matches!(toks[pos + 2], Tok::RParen) {
                    let args: Vec<Expr> = Vec::new();
                    let e = Expr::Call(name.clone(), args);
                    assert(e.model()->Call_1 =~= Seq::<ExprView>::empty());
                    Ok((e, pos + 3))
                } else {
                    match args_at(toks, pos + 2) {
                        Ok((args, q)) => {
                            if q < toks.len() && matches!(toks[q], Tok::RParen) {
                                let ghost am = exprs_model(args@);
                                let e = Expr::Call(name.clone(), args);
                                assert(e.model()->Call_1 =~= am);
                                Ok((e, q + 1))
                            } else {
                                Err(syntax("expected `)`"))
                            }
                        },
                        Err(e) => Err(e),
                    }
                }
            } else {
                Ok((Expr::Ident(name.clone()), pos + 1))
            }
        },
        Tok::LParen => {
            match expr_at(toks, pos + 1) {
                Ok((e, q)) => {
                    if q < toks.len() && matches!(toks[q], Tok::RParen) {
                        Ok((e, q + 1))
                    } else {
                        Err(syntax("expected `)`"))
                    }
                },
                Err(e) => Err(e),
            }
        },
        _ => Err(syntax("unexpected token")),
    }
}

fn args_at(toks: &Vec<Tok>, start: usize) -> (r: Result<(Vec<Expr>, usize), CalcError>)
    requires
        start <= toks@.len(),
    ensures
        match r {
            Ok((args, q)) => p_args(toks_model(toks@), start as int) == Some(
                (exprs_model(args@), q as int),
            ),
            Err(e) => p_args(toks_model(toks@), start as int) is None && e is Syntax,
        },
    decreases toks@.len() - start, 4int,
{
    let ghost t = toks_model(toks@);
    let mut args: Vec<Expr> = Vec::new();
    let mut p = start;
    assert(exprs_model(args@) + Seq::<ExprView>::empty() =~= Seq::<ExprView>::empty());
    loop
        invariant
            start <= p <= toks@.len(),
            t == toks_model(toks@),
            p == start ==> args@.len() == 0,
            p_args(t, start as int) == match p_args(t, p as int) {
                Some((rest, r)) => Some((exprs_model(args@) + rest, r)),
                None => None::<(Seq<ExprView>, int)>,
            },
        decreases toks@.len() - p,
    {
        let ghost before = exprs_model(args@);
        let (e, q) = match expr_at(toks, p) {
            Ok(x) => x,
            Err(err) => return Err(err),
        };
        if q <= p || q > toks.len() {
            return Err(syntax("malformed argument"));
        }
        let ghost em = e.model();
        args.push(e);
        assert(exprs_model(args@) =~= before + seq![em]);
        if q < toks.len() && matches!(toks[q], Tok::Comma) {
            proof {
                match p_args(t, q + 1) {
                    Some((rest, r)) => {
                        assert(before + (seq![em] + rest) =~= exprs_model(args@) + rest);
                    },
                    None => {},
                }
            }
            p = q + 1;
        } else {
            assert(before + seq![em] =~= exprs_model(args@));
            return Ok((args, q));
        }
    }
}

/// Parses a complete expression, rejecting any trailing tokens.
pub fn parse_expr(src: &str) -> (r: Result<Expr, CalcError>)
    ensures
        match r {
            Ok(e) => spec_parse_expr(src@) == Some(e.model()),
            Err(err) => spec_parse_expr(src@) is None && err is Syntax,
        },
{
    let chars = chars_of(src);
    parse_expr_chars(&chars)
}

fn parse_expr_chars(chars: &Vec<char>) -> (r: Result<Expr, CalcError>)
    ensures
        match r {
            Ok(e) => spec_parse_expr(chars@) == Some(e.model()),
            Err(err) => spec_parse_expr(chars@) is None && err is Syntax,
        },
{
    let toks = match lex_chars(chars) {
        Ok(t) => t,
        Err(e) => return Err(e),
    };
    let (e, p) = match expr_at(&toks, 0) {
        Ok(x) => x,
        Err(e) => return Err(e),
    };
    if p != toks.len() {
        return Err(syntax("unexpected token after expression"));
    }
    Ok(e)
}


// ---------------------------------------------------------------------------
// `calc` function headers
// ---------------------------------------------------------------------------

/// A valid name: an ASCII letter or `_`, then ASCII letters, digits or `_`.
pub open spec fn spec_is_ident(s: Seq<char>) -> bool {
    &&& s.len() > 0
    &&& is_alpha(s[0]) || s[0] == '_'
    &&& forall|i: int| 1 <= i < s.len() ==> is_ident_char(#[trigger] s[i])
}

/// The index of the first `c` in `s`.
pub open spec fn first_index(s: Seq<char>, c: char) -> Option<int>
    decreases s.len(),
{
    if s.len() == 0 {
        None
    } else if s[0] == c {
        Some(0)
    } else {
        match first_index(s.drop_first(), c) {
            Some(i) => Some(i + 1),
            None => None,
        }
    }
}

/// The index of the last `c` in `s`.
pub open spec fn last_index(s: Seq<char>, c: char) -> Option<int>
    decreases s.len(),
{
    if s.len() == 0 {
        None
    } else if s.last() == c {
        Some(s.len() - 1)
    } else {
        last_index(s.drop_last(), c)
    }
}

/// The comma-separated parameter names of `s`, each trimmed; `None` if one
/// of them is not a valid name.
pub open spec fn comma_params(s: Seq<char>) -> Option<Seq<Seq<char>>>
    decreases s.len(),
{
    match first_index(s, ',') {
        None => if spec_is_ident(trim(s)) {
            Some(seq![trim(s)])
        } else {
            None
        },
        Some(i) => if 0 <= i < s.len() && spec_is_ident(trim(s.take(i))) {
            match comma_params(s.skip(i + 1)) {
                Some(rest) => Some(seq![trim(s.take(i))] + rest),
                None => None,
            }
        } else {
            None
        },
    }
}

/// What [`parse_fn`] makes of `name(p1, p2) = body`: the name, the
/// parameter names and the body, or `None` for a syntax error.
pub open spec fn spec_parse_fn(src: Seq<char>) -> Option<(Seq<char>, Seq<Seq<char>>, ExprView)> {
    match first_index(src, '=') {
        None => None,
        Some(eq) => {
            let sig = trim(src.take(eq));
            match (first_index(sig, '('), last_index(sig, ')')) {
                (Some(open), Some(close)) => if close < open {
                    None
                } else {
                    let name = trim(sig.take(open));
                    if !spec_is_ident(name) {
                        None
                    } else {
                        let inside = trim(sig.subrange(open + 1, close));
                        let params = if inside.len() == 0 {
                            Some(Seq::<Seq<char>>::empty())
                        } else {
                            comma_params(inside)
                        };
                        match params {
                            None => None,
                            Some(ps) => match spec_parse_expr(trim(src.skip(eq + 1))) {
                                None => None,
                                Some(body) => Some((name, ps, body)),
                            },
                        }
                    }
                },
                _ => None,
            }
        },
    }
}

/// The models of a list of strings.
pub open spec fn strings_model(v: Seq<String>) -> Seq<Seq<char>> {
    Seq::new(v.len(), |i: int| v[i]@)
}

proof fn lemma_first_index(s: Seq<char>, c: char, k: int)
    requires
        0 <= k <= s.len(),
        forall|j: int| 0 <= j < k ==> #[trigger] s[j] != c,
        k < s.len() ==> s[k] == c,
    ensures
        first_index(s, c) == if k < s.len() {
            Some(k)
        } else {
            None
        },
    decreases s.len(),
{
    if k > 0 {
        assert forall|j: int| 0 <= j < k - 1 implies #[trigger] s.drop_first()[j] != c by {
            assert(s.drop_first()[j] == s[j + 1]);
        }
        lemma_first_index(s.drop_first(), c, k - 1);
    }
}

proof fn lemma_last_index(s: Seq<char>, c: char, k: int)
    requires
        -1 <= k < s.len(),
        forall|j: int| k < j < s.len() ==> #[trigger] s[j] != c,
        k >= 0 ==> s[k] == c,
    ensures
        last_index(s, c) == if k >= 0 {
            Some(k)
        } else {
            None
        },
    decreases s.len(),
{
    if s.len() > 0 && k < s.len() - 1 {
        assert forall|j: int| k < j < s.len() - 1 implies #[trigger] s.drop_last()[j] != c by {
            assert(s.drop_last()[j] == s[j]);
        }
        lemma_last_index(s.drop_last(), c, k);
    }
}

/// The first index of `c` in `v[from..to]` (absolute), if any.
pub(crate) fn find_char(v: &Vec<char>, from: usize, to: usize, c: char) -> (r: Option<usize>)
    requires
        from <= to <= v@.len(),
    ensures
        match r {
            Some(i) => from <= i < to && v@[i as int] == c && first_index(
                v@.subrange(from as int, to as int),
                c,
            ) == Some(i - from),
            None => first_index(v@.subrange(from as int, to as int), c) is None,
        },
{
    let mut i = from;
    while i < to
        invariant
            from <= i <= to <= v@.len(),
            forall|j: int| from <= j < i ==> #[trigger] v@[j] != c,
        decreases to - i,
    {
        if v[i] == c {
            proof {
                let seg = v@.subrange(from as int, to as int);
                assert forall|j: int| 0 <= j < i - from implies #[trigger] seg[j] != c by {
                    assert(seg[j] == v@[from + j]);
                }
                lemma_first_index(seg, c, i - from);
            }
            return Some(i);
        }
        i = i + 1;
    }
    proof {
        let seg = v@.subrange(from as int, to as int);
        assert forall|j: int| 0 <= j < to - from implies #[trigger] seg[j] != c by {
            assert(seg[j] == v@[from + j]);
        }
        lemma_first_index(seg, c, to - from);
    }
    None
}

/// The last index of `c` in `v[from..to]` (absolute), if any.
fn rfind_char(v: &Vec<char>, from: usize, to: usize, c: char) -> (r: Option<usize>)
    requires
        from <= to <= v@.len(),
    ensures
        match r {
            Some(i) => from <= i < to && v@[i as int] == c && last_index(
                v@.subrange(from as int, to as int),
                c,
            ) == Some(i - from),
            None => last_index(v@.subrange(from as int, to as int), c) is None,
        },
{
    let mut i = to;
    while i > from
        invariant
            from <= i <= to <= v@.len(),
            forall|j: int| i <= j < to ==> #[trigger] v@[j] != c,
        decreases i - from,
    {
        if v[i - 1] == c {
            proof {
                let seg = v@.subrange(from as int, to as int);
                assert forall|j: int| i - 1 - from < j < seg.len() implies #[trigger] seg[j]
                    != c by {
                    assert(seg[j] == v@[from + j]);
                }
                lemma_last_index(seg, c, i - 1 - from);
            }
            return Some(i - 1);
        }
        i = i - 1;
    }
    proof {
        let seg = v@.subrange(from as int, to as int);
        assert forall|j: int| -1 < j < seg.len() implies #[trigger] seg[j] != c by {
            assert(seg[j] == v@[from + j]);
        }
        lemma_last_index(seg, c, -1);
    }
    None
}

/// Whether `v[from..to]` is a valid name.
fn ident_range(v: &Vec<char>, from: usize, to: usize) -> (r: bool)
    requires
        from <= to <= v@.len(),
    ensures
        r == spec_is_ident(v@.subrange(from as int, to as int)),
{
    let ghost seg = v@.subrange(from as int, to as int);
    if from == to {
        return false;
    }
    let c0 = v[from];
    assert(seg[0] == c0);
    if !(('a' <= c0 && c0 <= 'z') || ('A' <= c0 && c0 <= 'Z') || c0 == '_') {
        return false;
    }
    let mut i = from + 1;
    while i < to
        invariant
            from < i <= to <= v@.len(),
            seg == v@.subrange(from as int, to as int),
            forall|j: int| 1 <= j < i - from ==> is_ident_char(#[trigger] seg[j]),
        decreases to - i,
    {
        let c = v[i];
        assert(seg[i - from] == c);
        if !(('a' <= c && c <= 'z') || ('A' <= c && c <= 'Z') || ('0' <= c && c <= '9') || c
            == '_') {
            return false;
        }
        i = i + 1;
    }
    true
}

/// Whether `s` is a valid name: an ASCII letter or `_`, then ASCII letters,
/// digits or `_`.
pub fn is_ident(s: &str) -> (r: bool)
    ensures
        r == spec_is_ident(s@),
{
    let v = chars_of(s);
    assert(v@.subrange(0, v@.len() as int) =~= v@);
    ident_range(&v, 0, v.len())
}

/// The comma-separated parameter names in `v[from..to]`.
fn comma_params_range(v: &Vec<char>, from: usize, to: usize) -> (r: Option<Vec<String>>)
    requires
        from <= to <= v@.len(),
    ensures
        match r {
            Some(ps) => comma_params(v@.subrange(from as int, to as int)) == Some(
                strings_model(ps@),
            ),
            None => comma_params(v@.subrange(from as int, to as int)) is None,
        },
{
    let mut out: Vec<String> = Vec::new();
    let mut p = from;
    loop
        invariant
            from <= p <= to <= v@.len(),
            comma_params(v@.subrange(from as int, to as int)) == match comma_params(
                v@.subrange(p as int, to as int),
            ) {
                Some(rest) => Some(strings_model(out@) + rest),
                None => None::<Seq<Seq<char>>>,
            },
        decreases to - p,
    {
        let ghost seg = v@.subrange(p as int, to as int);
        let ghost before = strings_model(out@);
        match find_char(v, p, to, ',') {
            None => {
                let (a, b) = trim_range(v, p, to);
                if !ident_range(v, a, b) {
                    return None;
                }
                let piece = crate::text::slice_chars(v, a, b);
                out.push(string_of(piece.as_slice()));
                assert(strings_model(out@) =~= before + seq![trim(seg)]);
                return Some(out);
            },
            Some(i) => {
                assert(seg.take(i - p) =~= v@.subrange(p as int, i as int));
                let (a, b) = trim_range(v, p, i);
                if !ident_range(v, a, b) {
                    return None;
                }
                let piece = crate::text::slice_chars(v, a, b);
                out.push(string_of(piece.as_slice()));
                let ghost part = trim(seg.take(i - p));
                assert(strings_model(out@) =~= before + seq![part]);
                assert(seg.skip(i - p + 1) =~= v@.subrange(i + 1, to as int));
                proof {
                    match comma_params(v@.subrange(i + 1, to as int)) {
                        Some(rest) => {
                            assert(before + (seq![part] + rest) =~= strings_model(out@) + rest);
                        },
                        None => {},
                    }
                }
                p = i + 1;
            },
        }
    }
}

/// Parses a `calc` header directive body: `name(p1, p2) = <expr>`, into the
/// function's name and its [`CalcFn`].
pub fn parse_fn(signature_and_body: &str) -> (r: Result<(String, CalcFn), CalcError>)
    ensures
        match r {
            Ok((name, f)) => spec_parse_fn(signature_and_body@) == Some(
                (name@, strings_model(f.params@), f.body.model()),
            ),
            Err(err) => spec_parse_fn(signature_and_body@) is None && err is Syntax,
        },
{
    let v = chars_of(signature_and_body);
    let n = v.len();
    let ghost src = v@;
    assert(src.subrange(0, n as int) =~= src);
    let eq = match find_char(&v, 0, n, '=') {
        Some(i) => i,
        None => return Err(syntax("a `calc` function needs `name(args) = expression`")),
    };
    assert(src.take(eq as int) =~= src.subrange(0, eq as int));
    let (a, b) = trim_range(&v, 0, eq);
    let ghost sig = src.subrange(a as int, b as int);
    let open = match find_char(&v, a, b, '(') {
        Some(i) => i,
        None => return Err(syntax("a `calc` function needs a `(` parameter list")),
    };
    let close = match rfind_char(&v, a, b, ')') {
        Some(i) => i,
        None => return Err(syntax("a `calc` function needs a closing `)`")),
    };
    if close < open {
        return Err(syntax("mismatched `(` / `)` in the parameter list"));
    }
    assert(sig.take(open - a) =~= src.subrange(a as int, open as int));
    let (na, nb) = trim_range(&v, a, open);
    if !ident_range(&v, na, nb) {
        return Err(syntax("not a valid function name"));
    }
    assert(sig.subrange(open - a + 1, close - a) =~= src.subrange(open + 1, close as int));
    let (ia, ib) = trim_range(&v, open + 1, close);
    let params = if ia == ib {
        Vec::new()
    } else {
        match comma_params_range(&v, ia, ib) {
            Some(ps) => ps,
            None => return Err(syntax("not a valid parameter name")),
        }
    };
    proof {
        if ia == ib {
            assert(strings_model(params@) =~= Seq::<Seq<char>>::empty());
        }
    }
    assert(src.skip(eq + 1) =~= src.subrange(eq + 1, n as int));
    let (ba, bb) = trim_range(&v, eq + 1, n);
    let body_chars = crate::text::slice_chars(&v, ba, bb);
    let body = match parse_expr_chars(&body_chars) {
        Ok(e) => e,
        Err(e) => return Err(e),
    };
    let name_chars = crate::text::slice_chars(&v, na, nb);
    Ok((string_of(name_chars.as_slice()), CalcFn { params, body }))
}

} // verus!
