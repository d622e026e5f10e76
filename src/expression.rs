use vstd::prelude::*;

verus! {

/// meval's compiled expression, carried through as an opaque value.
#[verifier::external_type_specification]
#[verifier::external_body]
pub struct ExExpr(meval::Expr);

/// meval's token. `Expr` dereferences to a slice of them, so the type must be
/// declared for `Expr` to be accepted at all; the library never reads a token.
#[verifier::external_type_specification]
#[verifier::external_body]
pub struct ExToken(meval::tokenizer::Token);

/// meval's parse and evaluation error.
#[verifier::external_type_specification]
#[verifier::external_body]
pub struct ExError(meval::Error);

/// Whether `text` is not empty and made only of the whitespace that meval's
/// tokenizer skips (space, tab, carriage return, line feed).
pub open spec fn blank(text: Seq<char>) -> bool {
    &&& text.len() > 0
    &&& forall|i: int|
        0 <= i < text.len() ==> {
            let c = #[trigger] text[i];
            c == ' ' || c == '\t' || c == '\r' || c == '\n'
        }
}

/// Whether meval parses `text` into an expression.
pub uninterp spec fn parses(text: Seq<char>) -> bool;

/// Whether the expression that meval parses from `text` binds to `variable`.
pub uninterp spec fn binds(text: Seq<char>, variable: Seq<char>) -> bool;

/// Relies on meval's `FromStr` for `Expr`: it tokenizes `text` and orders the
/// tokens into reverse Polish notation, failing on malformed syntax. Whether it
/// succeeds depends on the text alone. On blank text its tokenizer panics.
#[verifier::external_body]
fn parse_text(text: &str) -> (r: Result<meval::Expr, meval::Error>)
    requires
        !blank(text@),
    ensures
        r is Ok == parses(text@),
{
    text.parse::<meval::Expr>()
}

/// Relies on meval's `FromStr` for `Expr` and on `Expr::bind`: binding succeeds
/// when every name in the expression is `variable` or a constant or function of
/// meval's fixed built-in context, so it depends on the text and the variable
/// alone. The parsed expression is handed back on success.
#[verifier::external_body]
fn parse_and_bind(text: &str, variable: &str) -> (r: Result<meval::Expr, meval::Error>)
    requires
        !blank(text@),
    ensures
        r is Ok == (parses(text@) && binds(text@, variable@)),
{
    let expr = text.parse::<meval::Expr>()?;
    let _f = expr.clone().bind(variable)?;
    Ok(expr)
}

/// Why an equation text gave no function.
#[derive(Clone, Copy, Debug, PartialEq, Eq, Structural)]
pub enum CompileError {
    /// The text is not a well-formed expression.
    ParseFailed,
    /// The expression names something other than the variable and built-ins.
    BindFailed,
}

/// An expression that parsed and bound to exactly one free variable.
pub struct Expression {
    expr: meval::Expr,
    variable: String,
}

impl Expression {
    /// The name of the expression's free variable.
    pub closed spec fn variable_view(&self) -> Seq<char> {
        self.variable@
    }

    /// The free variable that the expression is bound to.
    pub fn variable(&self) -> (r: &String)
        ensures
            r@ == self.variable_view(),
    {
        &self.variable
    }

    /// The compiled expression and its variable, to be bound and evaluated.
    pub fn into_parts(self) -> (r: (meval::Expr, String))
        ensures
            r.1@ == self.variable_view(),
    {
        (self.expr, self.variable)
    }
}

/// Parses `text` and binds it to `variable`.
///
/// Blank text and text that meval does not parse give `ParseFailed`; text that
/// parses but names anything besides `variable` and meval's built-ins gives
/// `BindFailed`; all other text gives an expression bound to `variable`. An
/// expression without any free variable (a constant) binds.
pub fn compile(text: &str, variable: &str) -> (r: Result<Expression, CompileError>)
    ensures
        (r is Err && r->Err_0 == CompileError::ParseFailed) <==> (blank(text@) || !parses(text@)),
        (r is Err && r->Err_0 == CompileError::BindFailed) <==> (!blank(text@) && parses(text@)
            && !binds(text@, variable@)),
        r is Ok <==> (!blank(text@) && parses(text@) && binds(text@, variable@)),
        r is Ok ==> r->Ok_0.variable_view() == variable@,
{
    if is_blank(text) {
        return Err(CompileError::ParseFailed);
    }
    match parse_and_bind(text, variable) {
        Ok(expr) => Ok(Expression { expr, variable: variable.to_string() }),
        Err(_) => match parse_text(text) {
            Err(_) => Err(CompileError::ParseFailed),
            Ok(_) => Err(CompileError::BindFailed),
        },
    }
}

/// Whether `text` is blank: not empty, and only spaces, tabs, carriage returns
/// and line feeds.
pub fn is_blank(text: &str) -> (r: bool)
    ensures
        r == blank(text@),
{
    let n = text.unicode_len();
    if n == 0 {
        return false;
    }
    let mut i: usize = 0;
    while i < n
        invariant
            n == text@.len(),
            i <= n,
            forall|j: int|
                0 <= j < i ==> {
                    let c = #[trigger] text@[j];
                    c == ' ' || c == '\t' || c == '\r' || c == '\n'
                },
        decreases n - i,
    {
        let c = text.get_char(i);
        if !(c == ' ' || c == '\t' || c == '\r' || c == '\n') {
            return false;
        }
        i = i + 1;
    }
    true
}

} // verus!
