//! Tokens, operations, and the request/answer protocol.
//!
//! The evaluator cannot carry out floating-point work itself, so each step
//! that needs any — computing an operation, or rendering a value in decimal —
//! is phrased as a [`Request`] that the caller answers.  A [`Request`] names
//! the exact computation and its operands (as double bit patterns); the
//! matching [`Answer`] carries the resulting bit pattern and the decimal
//! renderings that the status line needs.  The evaluator's contracts hold
//! for every answer the caller may give.

use vstd::prelude::*;

verus! {

/// The two-operand operations that share the `a op b = r` record shape.
#[derive(Clone, Copy, PartialEq, Eq, Structural, Debug)]
pub enum BinOp {
    Add,
    Sub,
    Mul,
    Pow,
    Rem,
}

/// The one-operand operations that share the `op(a) = r` record shape.
#[derive(Clone, Copy, PartialEq, Eq, Structural, Debug)]
pub enum UnOp {
    Sin,
    Cos,
    Tan,
    Asin,
    Acos,
    Atan,
    Sqrt,
    Ln,
    Log,
    Exp,
    Pow10,
    Abs,
    Cbrt,
}

/// What a submitted token names, for tokens that are not numeric literals.
#[derive(Clone, Copy, PartialEq, Eq, Structural, Debug)]
pub enum Cmd {
    Undo,
    Help,
    Bin(BinOp),
    Divide,
    Root,
    Un(UnOp),
    Recip,
    Fact,
    Swap,
    Drop,
    Clear,
    Unknown,
}

/// The floating-point work one step needs from the caller.  Operands are
/// double bit patterns.
#[derive(Clone, Copy, PartialEq, Eq, Structural, Debug)]
pub enum Request {
    /// No floating-point work: the step is a stack move, an error, or a no-op.
    Nothing,
    /// The decimal rendering of the encoded value, for `Pushed {v}` and
    /// `Dropped {v}` lines.
    Render(u64),
    /// `Binary(op, a, b)`: compute `a op b` and render `a`, `b` and the result.
    Binary(BinOp, u64, u64),
    /// `Divide(a, b)`: compute `a / b` and render `a`, `b` and the result.
    /// Only requested with `b` nonzero.
    Divide(u64, u64),
    /// Compute `base^(1/index)` and render `index`, `base` and the result.
    /// Only requested with `index` nonzero.
    Root { index: u64, base: u64 },
    /// `Unary(op, a)`: compute `op(a)` and render `a` and the result.
    Unary(UnOp, u64),
    /// `Reciprocal(a)`: compute `1 / a` and render `a` and the result.
    /// Only requested with `a` nonzero.
    Reciprocal(u64),
    /// The double nearest to this unsigned integer, and its decimal rendering.
    Whole(u64),
}

/// Answer to a two-operand request: the result pattern, the renderings of the
/// two operands in the order the status line shows them, and of the result.
pub struct BinAnswer {
    pub value: u64,
    pub left: String,
    pub right: String,
    pub shown: String,
}

/// Answer to a one-operand request: the result pattern, the rendering of the
/// operand, and of the result.
pub struct UnAnswer {
    pub value: u64,
    pub operand: String,
    pub shown: String,
}

/// Answer to a [`Request::Whole`]: the converted pattern and its rendering.
pub struct WholeAnswer {
    pub value: u64,
    pub shown: String,
}

/// The caller's answer to a [`Request`], variant for variant.
pub enum Answer {
    Nothing,
    Text(String),
    Binary(BinAnswer),
    Unary(UnAnswer),
    Whole(WholeAnswer),
}

/// Mathematical image of a [`BinAnswer`].
#[verifier::ext_equal]
pub ghost struct BinAnswerV {
    pub value: u64,
    pub left: Seq<char>,
    pub right: Seq<char>,
    pub shown: Seq<char>,
}

/// Mathematical image of a [`UnAnswer`].
#[verifier::ext_equal]
pub ghost struct UnAnswerV {
    pub value: u64,
    pub operand: Seq<char>,
    pub shown: Seq<char>,
}

/// Mathematical image of a [`WholeAnswer`].
#[verifier::ext_equal]
pub ghost struct WholeAnswerV {
    pub value: u64,
    pub shown: Seq<char>,
}

/// Mathematical image of an [`Answer`].
#[verifier::ext_equal]
pub ghost enum AnswerV {
    Nothing,
    Text(Seq<char>),
    Binary(BinAnswerV),
    Unary(UnAnswerV),
    Whole(WholeAnswerV),
}

impl View for BinAnswer {
    type V = BinAnswerV;

    open spec fn view(&self) -> BinAnswerV {
        BinAnswerV { value: self.value, left: self.left@, right: self.right@, shown: self.shown@ }
    }
}

impl View for UnAnswer {
    type V = UnAnswerV;

    open spec fn view(&self) -> UnAnswerV {
        UnAnswerV { value: self.value, operand: self.operand@, shown: self.shown@ }
    }
}

impl View for WholeAnswer {
    type V = WholeAnswerV;

    open spec fn view(&self) -> WholeAnswerV {
        WholeAnswerV { value: self.value, shown: self.shown@ }
    }
}

impl View for Answer {
    type V = AnswerV;

    open spec fn view(&self) -> AnswerV {
        match self {
            Answer::Nothing => AnswerV::Nothing,
            Answer::Text(t) => AnswerV::Text(t@),
            Answer::Binary(b) => AnswerV::Binary(b@),
            Answer::Unary(u) => AnswerV::Unary(u@),
            Answer::Whole(w) => AnswerV::Whole(w@),
        }
    }
}

/// The symbol a two-operand operation shows in records and error lines.
pub open spec fn bin_sym(op: BinOp) -> Seq<char> {
    match op {
        BinOp::Add => "+"@,
        BinOp::Sub => "-"@,
        BinOp::Mul => "*"@,
        BinOp::Pow => "^"@,
        BinOp::Rem => "%"@,
    }
}

/// The name a one-operand operation shows in records and error lines.
pub open spec fn un_name(op: UnOp) -> Seq<char> {
    match op {
        UnOp::Sin => "sin"@,
        UnOp::Cos => "cos"@,
        UnOp::Tan => "tan"@,
        UnOp::Asin => "asin"@,
        UnOp::Acos => "acos"@,
        UnOp::Atan => "atan"@,
        UnOp::Sqrt => "sqrt"@,
        UnOp::Ln => "ln"@,
        UnOp::Log => "log"@,
        UnOp::Exp => "exp"@,
        UnOp::Pow10 => "10x"@,
        UnOp::Abs => "abs"@,
        UnOp::Cbrt => "cbrt"@,
    }
}

/// The symbol a two-operand operation shows.
pub fn bin_sym_str(op: BinOp) -> (r: &'static str)
    ensures
        r@ == bin_sym(op),
{
    match op {
        BinOp::Add => "+",
        BinOp::Sub => "-",
        BinOp::Mul => "*",
        BinOp::Pow => "^",
        BinOp::Rem => "%",
    }
}

/// The name a one-operand operation shows.
pub fn un_name_str(op: UnOp) -> (r: &'static str)
    ensures
        r@ == un_name(op),
{
    match op {
        UnOp::Sin => "sin",
        UnOp::Cos => "cos",
        UnOp::Tan => "tan",
        UnOp::Asin => "asin",
        UnOp::Acos => "acos",
        UnOp::Atan => "atan",
        UnOp::Sqrt => "sqrt",
        UnOp::Ln => "ln",
        UnOp::Log => "log",
        UnOp::Exp => "exp",
        UnOp::Pow10 => "10x",
        UnOp::Abs => "abs",
        UnOp::Cbrt => "cbrt",
    }
}

/// The command a token names, tried in the order the dispatcher uses.
pub open spec fn parse_cmd(tok: Seq<char>) -> Cmd {
    if tok == "undo"@ {
        Cmd::Undo
    } else if tok == "help"@ {
        Cmd::Help
    } else if tok == "+"@ {
        Cmd::Bin(BinOp::Add)
    } else if tok == "-"@ {
        Cmd::Bin(BinOp::Sub)
    } else if tok == "*"@ {
        Cmd::Bin(BinOp::Mul)
    } else if tok == "/"@ {
        Cmd::Divide
    } else if tok == "^"@ || tok == "pow"@ {
        Cmd::Bin(BinOp::Pow)
    } else if tok == "%"@ || tok == "mod"@ {
        Cmd::Bin(BinOp::Rem)
    } else if tok == "sin"@ {
        Cmd::Un(UnOp::Sin)
    } else if tok == "cos"@ {
        Cmd::Un(UnOp::Cos)
    } else if tok == "tan"@ {
        Cmd::Un(UnOp::Tan)
    } else if tok == "asin"@ {
        Cmd::Un(UnOp::Asin)
    } else if tok == "acos"@ {
        Cmd::Un(UnOp::Acos)
    } else if tok == "atan"@ {
        Cmd::Un(UnOp::Atan)
    } else if tok == "sqrt"@ {
        Cmd::Un(UnOp::Sqrt)
    } else if tok == "ln"@ {
        Cmd::Un(UnOp::Ln)
    } else if tok == "log"@ {
        Cmd::Un(UnOp::Log)
    } else if tok == "exp"@ {
        Cmd::Un(UnOp::Exp)
    } else if tok == "10x"@ {
        Cmd::Un(UnOp::Pow10)
    } else if tok == "abs"@ {
        Cmd::Un(UnOp::Abs)
    } else if tok == "cbrt"@ {
        Cmd::Un(UnOp::Cbrt)
    } else if tok == "root"@ {
        Cmd::Root
    } else if tok == "inv"@ {
        Cmd::Recip
    } else if tok == "!"@ || tok == "fact"@ {
        Cmd::Fact
    } else if tok == "swap"@ {
        Cmd::Swap
    } else if tok == "clear"@ || tok == "clr"@ {
        Cmd::Clear
    } else if tok == "drop"@ {
        Cmd::Drop
    } else {
        Cmd::Unknown
    }
}

/// Whether two slices hold the same characters.
fn tok_is(s: &str, w: &str) -> (r: bool)
    ensures
        r == (s@ == w@),
{
    let a = s.to_owned();
    let b = w.to_owned();
    a == b
}

/// The command a token names.
pub fn classify(tok: &str) -> (c: Cmd)
    ensures
        c == parse_cmd(tok@),
{
    if tok_is(tok, "undo") {
        Cmd::Undo
    } else if tok_is(tok, "help") {
        Cmd::Help
    } else if tok_is(tok, "+") {
        Cmd::Bin(BinOp::Add)
    } else if tok_is(tok, "-") {
        Cmd::Bin(BinOp::Sub)
    } else if tok_is(tok, "*") {
        Cmd::Bin(BinOp::Mul)
    } else if tok_is(tok, "/") {
        Cmd::Divide
    } else if tok_is(tok, "^") || tok_is(tok, "pow") {
        Cmd::Bin(BinOp::Pow)
    } else if tok_is(tok, "%") || tok_is(tok, "mod") {
        Cmd::Bin(BinOp::Rem)
    } else if tok_is(tok, "sin") {
        Cmd::Un(UnOp::Sin)
    } else if tok_is(tok, "cos") {
        Cmd::Un(UnOp::Cos)
    } else if tok_is(tok, "tan") {
        Cmd::Un(UnOp::Tan)
    } else if tok_is(tok, "asin") {
        Cmd::Un(UnOp::Asin)
    } else if tok_is(tok, "acos") {
        Cmd::Un(UnOp::Acos)
    } else if tok_is(tok, "atan") {
        Cmd::Un(UnOp::Atan)
    } else if tok_is(tok, "sqrt") {
        Cmd::Un(UnOp::Sqrt)
    } else if tok_is(tok, "ln") {
        Cmd::Un(UnOp::Ln)
    } else if tok_is(tok, "log") {
        Cmd::Un(UnOp::Log)
    } else if tok_is(tok, "exp") {
        Cmd::Un(UnOp::Exp)
    } else if tok_is(tok, "10x") {
        Cmd::Un(UnOp::Pow10)
    } else if tok_is(tok, "abs") {
        Cmd::Un(UnOp::Abs)
    } else if tok_is(tok, "cbrt") {
        Cmd::Un(UnOp::Cbrt)
    } else if tok_is(tok, "root") {
        Cmd::Root
    } else if tok_is(tok, "inv") {
        Cmd::Recip
    } else if tok_is(tok, "!") || tok_is(tok, "fact") {
        Cmd::Fact
    } else if tok_is(tok, "swap") {
        Cmd::Swap
    } else if tok_is(tok, "clear") || tok_is(tok, "clr") {
        Cmd::Clear
    } else if tok_is(tok, "drop") {
        Cmd::Drop
    } else {
        Cmd::Unknown
    }
}

} // verus!
