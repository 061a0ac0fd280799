//! The evaluator's mathematical model.
//!
//! A [`Model`] is the whole observable state of the calculator.  The step
//! functions here say, value by value, what each command does to it: which
//! elements leave and join the stack, when the undo log gains or loses a
//! snapshot, what the status line reads, and how the bounded calculation log
//! evolves.  The executable methods in [`crate::eval`] each promise to land
//! exactly on the corresponding step function's result.

use vstd::prelude::*;

use crate::bits::fact_mod;
use crate::bits::fact_rejected;
use crate::bits::is_zero;
use crate::bits::whole_value;
use crate::ops::AnswerV;
use crate::ops::BinAnswerV;
use crate::ops::BinOp;
use crate::ops::Cmd;
use crate::ops::Request;
use crate::ops::UnAnswerV;
use crate::ops::UnOp;
use crate::ops::WholeAnswerV;
use crate::ops::bin_sym;
use crate::ops::parse_cmd;
use crate::ops::un_name;
use crate::text::dec_chars;

verus! {

/// The observable state of the calculator: the value stack (top last), the
/// token being typed, the status line, the undo log of stack snapshots, the
/// bounded log of completed calculations, and the help flag.
#[verifier::ext_equal]
pub ghost struct Model {
    pub stack: Seq<u64>,
    pub input: Seq<char>,
    pub message: Seq<char>,
    pub history: Seq<Seq<u64>>,
    pub calc_history: Seq<Seq<char>>,
    pub show_help: bool,
}

/// The state a fresh evaluator starts in.
pub open spec fn init() -> Model {
    Model {
        stack: Seq::empty(),
        input: Seq::empty(),
        message: "Type numbers or commands (help for list), Enter to execute, q to quit"@,
        history: Seq::empty(),
        calc_history: Seq::empty(),
        show_help: false,
    }
}

/// The calculation log keeps the ten most recent records, oldest out first.
pub open spec fn evict(h: Seq<Seq<char>>) -> Seq<Seq<char>> {
    if h.len() > 10 {
        h.drop_first()
    } else {
        h
    }
}

/// A completed record becomes the status line and joins the log.
pub open spec fn record(s: Model, calc: Seq<char>) -> Model {
    Model { message: calc, calc_history: evict(s.calc_history.push(calc)), ..s }
}

/// The pre-step stack joins the undo log.
pub open spec fn with_snapshot(s: Model) -> Model {
    Model { history: s.history.push(s.stack), ..s }
}

/// The rendering an answer carries, where the step needs one.
pub open spec fn ans_text(a: AnswerV) -> Seq<char> {
    match a {
        AnswerV::Text(t) => t,
        _ => arbitrary(),
    }
}

/// The two-operand payload of an answer, where the step needs one.
pub open spec fn ans_bin(a: AnswerV) -> BinAnswerV {
    match a {
        AnswerV::Binary(b) => b,
        _ => arbitrary(),
    }
}

/// The one-operand payload of an answer, where the step needs one.
pub open spec fn ans_un(a: AnswerV) -> UnAnswerV {
    match a {
        AnswerV::Unary(u) => u,
        _ => arbitrary(),
    }
}

/// The conversion payload of an answer, where the step needs one.
pub open spec fn ans_whole(a: AnswerV) -> WholeAnswerV {
    match a {
        AnswerV::Whole(w) => w,
        _ => arbitrary(),
    }
}

/// An `a op b = r` operation: pop two, push the result, record the line.
/// With fewer than two values only the status line changes.
pub open spec fn binary_step(s: Model, op: BinOp, ans: BinAnswerV) -> Model {
    if s.stack.len() < 2 {
        Model { message: "Need 2 numbers for "@ + bin_sym(op), ..s }
    } else {
        let remaining = s.stack.take(s.stack.len() - 2);
        let calc = ans.left + " "@ + bin_sym(op) + " "@ + ans.right + " = "@ + ans.shown;
        record(Model { stack: remaining.push(ans.value), ..s }, calc)
    }
}

/// Division, with its zero-divisor check: a zero top value leaves the stack
/// as it was and only reports the error.
pub open spec fn divide_step(s: Model, ans: BinAnswerV) -> Model {
    if s.stack.len() < 2 {
        Model { message: "Need 2 numbers for division"@, ..s }
    } else if is_zero(s.stack.last()) {
        Model { message: "Division by zero"@, ..s }
    } else {
        let remaining = s.stack.take(s.stack.len() - 2);
        let calc = ans.left + " / "@ + ans.right + " = "@ + ans.shown;
        record(Model { stack: remaining.push(ans.value), ..s }, calc)
    }
}

/// The root operation: the top value is the index, the one below the base.
/// A zero index leaves the stack as it was and only reports the error.
pub open spec fn root_step(s: Model, ans: BinAnswerV) -> Model {
    if s.stack.len() < 2 {
        Model { message: "Need 2 numbers for root (y root x = x^(1/y))"@, ..s }
    } else if is_zero(s.stack.last()) {
        Model { message: "Cannot take 0th root"@, ..s }
    } else {
        let remaining = s.stack.take(s.stack.len() - 2);
        let calc = ans.left + " root "@ + ans.right + " = "@ + ans.shown;
        record(Model { stack: remaining.push(ans.value), ..s }, calc)
    }
}

/// An `op(a) = r` operation: replace the top value, record the line.
pub open spec fn unary_step(s: Model, op: UnOp, ans: UnAnswerV) -> Model {
    if s.stack.len() < 1 {
        Model { message: "Need 1 number for "@ + un_name(op), ..s }
    } else {
        let calc = un_name(op) + "("@ + ans.operand + ") = "@ + ans.shown;
        record(Model { stack: s.stack.update(s.stack.len() - 1, ans.value), ..s }, calc)
    }
}

/// The reciprocal, with its zero check.
pub open spec fn recip_step(s: Model, ans: UnAnswerV) -> Model {
    if s.stack.len() < 1 {
        Model { message: "Need 1 number for reciprocal"@, ..s }
    } else if is_zero(s.stack.last()) {
        Model { message: "Cannot take reciprocal of zero"@, ..s }
    } else {
        let calc = "1/"@ + ans.operand + " = "@ + ans.shown;
        record(Model { stack: s.stack.update(s.stack.len() - 1, ans.value), ..s }, calc)
    }
}

/// The factorial: the operand must be a whole, non-negative value; the
/// record renders the operand as the integer it truncates to.
pub open spec fn fact_step(s: Model, ans: WholeAnswerV) -> Model {
    if s.stack.len() < 1 {
        Model { message: "Need 1 number for factorial"@, ..s }
    } else if fact_rejected(s.stack.last()) {
        Model { message: "Factorial needs non-negative integer"@, ..s }
    } else {
        let calc = dec_chars(whole_value(s.stack.last())) + "! = "@ + ans.shown;
        record(Model { stack: s.stack.update(s.stack.len() - 1, ans.value), ..s }, calc)
    }
}

/// Exchanges the two top values; no calculation record.
pub open spec fn swap_step(s: Model) -> Model {
    if s.stack.len() < 2 {
        Model { message: "Need 2 numbers to swap"@, ..s }
    } else {
        let n = s.stack.len();
        Model {
            stack: s.stack.update(n - 2, s.stack[n - 1]).update(n - 1, s.stack[n - 2]),
            message: "Swapped top 2 values"@,
            ..s
        }
    }
}

/// Empties the stack; no calculation record.
pub open spec fn clear_step(s: Model) -> Model {
    Model { stack: Seq::empty(), message: "Stack cleared"@, ..s }
}

/// Discards the top value and reports its rendering.
pub open spec fn drop_step(s: Model, ans: AnswerV) -> Model {
    if s.stack.len() >= 1 {
        Model { stack: s.stack.drop_last(), message: "Dropped "@ + ans_text(ans), ..s }
    } else {
        Model { message: "Stack is empty"@, ..s }
    }
}

/// Pushing a parsed literal: the pre-push stack joins the undo log.
pub open spec fn push_step(s: Model, v: u64, ans: AnswerV) -> Model {
    Model {
        stack: s.stack.push(v),
        history: s.history.push(s.stack),
        message: "Pushed "@ + ans_text(ans),
        ..s
    }
}

/// Dispatching a token that is not a numeric literal.  Undo and help touch
/// no snapshot; every other command — a failing or unknown one included —
/// first records the pre-step stack in the undo log.
pub open spec fn dispatch_word(s: Model, ans: AnswerV) -> Model {
    match parse_cmd(s.input) {
        Cmd::Undo => if s.history.len() > 0 {
            Model {
                stack: s.history.last(),
                history: s.history.drop_last(),
                message: "Undid last operation"@,
                ..s
            }
        } else {
            Model { message: "Nothing to undo"@, ..s }
        },
        Cmd::Help => Model { show_help: true, message: "Help shown (press any key to close)"@, ..s },
        cmd => {
            let snap = with_snapshot(s);
            match cmd {
                Cmd::Bin(op) => binary_step(snap, op, ans_bin(ans)),
                Cmd::Divide => divide_step(snap, ans_bin(ans)),
                Cmd::Root => root_step(snap, ans_bin(ans)),
                Cmd::Un(op) => unary_step(snap, op, ans_un(ans)),
                Cmd::Recip => recip_step(snap, ans_un(ans)),
                Cmd::Fact => fact_step(snap, ans_whole(ans)),
                Cmd::Swap => swap_step(snap),
                Cmd::Clear => clear_step(snap),
                Cmd::Drop => drop_step(snap, ans),
                _ => Model { message: "Unknown command (type 'help' for list)"@, ..snap },
            }
        },
    }
}

/// The full effect of submitting the pending input as one token: an empty
/// token changes nothing; any other token is dispatched and the input
/// buffer is cleared.  `parsed` is the caller's parse of the token — the
/// encoded value for a finite numeric literal, nothing otherwise.
pub open spec fn command_step(s: Model, parsed: Option<u64>, ans: AnswerV) -> Model {
    if s.input.len() == 0 {
        s
    } else {
        let stepped = match parsed {
            Some(v) => push_step(s, v, ans),
            None => dispatch_word(s, ans),
        };
        Model { input: Seq::empty(), ..stepped }
    }
}

/// The operation an operator key names.
pub open spec fn char_bin_op(c: char) -> BinOp {
    if c == '+' {
        BinOp::Add
    } else if c == '-' {
        BinOp::Sub
    } else if c == '*' {
        BinOp::Mul
    } else if c == '^' {
        BinOp::Pow
    } else {
        BinOp::Rem
    }
}

/// The effect of an operator key pressed directly, once any pending input
/// has been flushed: the pre-step stack always joins the undo log, then the
/// named operation runs; any other key changes nothing further.
pub open spec fn single_char_step(s: Model, c: char, ans: AnswerV) -> Model {
    let snap = with_snapshot(s);
    if c == '+' || c == '-' || c == '*' || c == '^' || c == '%' {
        binary_step(snap, char_bin_op(c), ans_bin(ans))
    } else if c == '/' {
        divide_step(snap, ans_bin(ans))
    } else if c == '!' {
        fact_step(snap, ans_whole(ans))
    } else {
        snap
    }
}

/// The floating-point work a token needs, given the state it will act on.
pub open spec fn word_request(s: Model) -> Request {
    let n = s.stack.len();
    match parse_cmd(s.input) {
        Cmd::Bin(op) => if n >= 2 {
            Request::Binary(op, s.stack[n - 2], s.stack[n - 1])
        } else {
            Request::Nothing
        },
        Cmd::Divide => if n >= 2 && !is_zero(s.stack[n - 1]) {
            Request::Divide(s.stack[n - 2], s.stack[n - 1])
        } else {
            Request::Nothing
        },
        Cmd::Root => if n >= 2 && !is_zero(s.stack[n - 1]) {
            Request::Root { index: s.stack[n - 1], base: s.stack[n - 2] }
        } else {
            Request::Nothing
        },
        Cmd::Un(op) => if n >= 1 {
            Request::Unary(op, s.stack[n - 1])
        } else {
            Request::Nothing
        },
        Cmd::Recip => if n >= 1 && !is_zero(s.stack[n - 1]) {
            Request::Reciprocal(s.stack[n - 1])
        } else {
            Request::Nothing
        },
        Cmd::Fact => if n >= 1 && !fact_rejected(s.stack[n - 1]) {
            Request::Whole(fact_mod(whole_value(s.stack[n - 1])))
        } else {
            Request::Nothing
        },
        Cmd::Drop => if n >= 1 {
            Request::Render(s.stack[n - 1])
        } else {
            Request::Nothing
        },
        _ => Request::Nothing,
    }
}

/// The floating-point work submitting the pending input needs.
pub open spec fn command_request_spec(s: Model, parsed: Option<u64>) -> Request {
    if s.input.len() == 0 {
        Request::Nothing
    } else {
        match parsed {
            Some(v) => Request::Render(v),
            None => word_request(s),
        }
    }
}

/// The floating-point work an operator key needs.
pub open spec fn char_request_spec(s: Model, c: char) -> Request {
    let n = s.stack.len();
    if c == '+' || c == '-' || c == '*' || c == '^' || c == '%' {
        if n >= 2 {
            Request::Binary(char_bin_op(c), s.stack[n - 2], s.stack[n - 1])
        } else {
            Request::Nothing
        }
    } else if c == '/' {
        if n >= 2 && !is_zero(s.stack[n - 1]) {
            Request::Divide(s.stack[n - 2], s.stack[n - 1])
        } else {
            Request::Nothing
        }
    } else if c == '!' {
        if n >= 1 && !fact_rejected(s.stack[n - 1]) {
            Request::Whole(fact_mod(whole_value(s.stack[n - 1])))
        } else {
            Request::Nothing
        }
    } else {
        Request::Nothing
    }
}

/// Whether an answer has the shape the request asks for.
pub open spec fn fits(r: Request, ans: AnswerV) -> bool {
    match r {
        Request::Nothing => ans is Nothing,
        Request::Render(_) => ans is Text,
        Request::Binary(..) => ans is Binary,
        Request::Divide(..) => ans is Binary,
        Request::Root { .. } => ans is Binary,
        Request::Unary(..) => ans is Unary,
        Request::Reciprocal(..) => ans is Unary,
        Request::Whole(_) => ans is Whole,
    }
}

/// Whether an answer fits what submitting the pending input needs.
pub open spec fn command_answer_fits(s: Model, parsed: Option<u64>, ans: AnswerV) -> bool {
    fits(command_request_spec(s, parsed), ans)
}

/// Whether an answer fits what an operator key needs.
pub open spec fn char_answer_fits(s: Model, c: char, ans: AnswerV) -> bool {
    fits(char_request_spec(s, c), ans)
}

/// The evaluator's standing invariant: the calculation log never holds more
/// than ten records.
pub open spec fn wf(s: Model) -> bool {
    s.calc_history.len() <= 10
}

} // verus!
