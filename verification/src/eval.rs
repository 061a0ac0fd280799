//! The executable evaluator.
//!
//! [`App`] is the calculator's state.  Each mutating method promises to land
//! exactly on the matching step function of [`crate::model`]; where a step
//! needs floating-point work, the caller first asks [`App::command_request`]
//! or [`App::char_request`] what to compute and passes the answer in.

use vstd::prelude::*;

use crate::bits::fact_rejected_bits;
use crate::bits::fact_value;
use crate::bits::is_zero_bits;
use crate::bits::whole_value_bits;
use crate::model::Model;
use crate::model::binary_step;
use crate::model::char_answer_fits;
use crate::model::char_bin_op;
use crate::model::char_request_spec;
use crate::model::clear_step;
use crate::model::command_answer_fits;
use crate::model::command_request_spec;
use crate::model::command_step;
use crate::model::divide_step;
use crate::model::fact_step;
use crate::model::init;
use crate::model::recip_step;
use crate::model::record;
use crate::model::root_step;
use crate::model::single_char_step;
use crate::model::swap_step;
use crate::model::unary_step;
use crate::model::with_snapshot;
use crate::ops::Answer;
use crate::ops::BinAnswer;
use crate::ops::BinOp;
use crate::ops::Cmd;
use crate::ops::Request;
use crate::ops::UnAnswer;
use crate::ops::UnOp;
use crate::ops::WholeAnswer;
use crate::ops::bin_sym_str;
use crate::ops::classify;
use crate::ops::un_name_str;
use crate::text::append_str;
use crate::text::dec_string;

verus! {

/// The calculator: a stack of double bit patterns (top last), the token
/// being typed, the last status line, the undo log of stack snapshots, the
/// bounded log of completed calculations, and the help flag.
pub struct App {
    pub stack: Vec<u64>,
    pub input: String,
    pub message: String,
    pub history: Vec<Vec<u64>>,
    pub calc_history: Vec<String>,
    pub show_help: bool,
}

impl View for App {
    type V = Model;

    open spec fn view(&self) -> Model {
        Model {
            stack: self.stack@,
            input: self.input@,
            message: self.message@,
            history: self.history.deep_view(),
            calc_history: self.calc_history.deep_view(),
            show_help: self.show_help,
        }
    }
}

/// An answer value for steps whose outcome ignores the answer.
fn blank_bin() -> BinAnswer {
    BinAnswer { value: 0, left: String::new(), right: String::new(), shown: String::new() }
}

/// An answer value for steps whose outcome ignores the answer.
fn blank_un() -> UnAnswer {
    UnAnswer { value: 0, operand: String::new(), shown: String::new() }
}

/// An answer value for steps whose outcome ignores the answer.
fn blank_whole() -> WholeAnswer {
    WholeAnswer { value: 0, shown: String::new() }
}

/// An element-for-element copy of a stack.
fn copy_stack(v: &Vec<u64>) -> (r: Vec<u64>)
    ensures
        r@ == v@,
{
    let mut r: Vec<u64> = Vec::new();
    let mut i: usize = 0;
    while i < v.len()
        invariant
            i <= v.len(),
            r@ == v@.take(i as int),
        decreases v.len() - i,
    {
        let x = v[i];
        r.push(x);
        i = i + 1;
        proof {
            assert(r@ =~= v@.take(i as int));
        }
    }
    proof {
        assert(v@.take(v.len() as int) =~= v@);
    }
    r
}

impl App {
    /// A fresh calculator: everything empty, the greeting as status line.
    pub fn new() -> (app: App)
        ensures
            app@ == init(),
    {
        let app = App {
            stack: Vec::new(),
            input: String::new(),
            message: "Type numbers or commands (help for list), Enter to execute, q to quit"
                .to_owned(),
            history: Vec::new(),
            calc_history: Vec::new(),
            show_help: false,
        };
        proof {
            assert(app@ =~~= init());
        }
        app
    }

    /// Records the pre-step stack in the undo log.
    fn push_snapshot(&mut self)
        ensures
            final(self)@ == with_snapshot(old(self)@),
    {
        let snap = copy_stack(&self.stack);
        self.history.push(snap);
        proof {
            assert(self@ =~~= with_snapshot(old(self)@));
        }
    }

    /// A completed record becomes the status line and joins the log.
    fn record_calc(&mut self, calc: String)
        ensures
            final(self)@ == record(old(self)@, calc@),
    {
        self.message = calc.clone();
        self.calc_history.push(calc);
        if self.calc_history.len() > 10 {
            self.calc_history.remove(0);
        }
        proof {
            assert(self@ =~~= record(old(self)@, calc@));
        }
    }

    /// An `a op b = r` operation on the two top values.
    pub fn binary_op(&mut self, op: BinOp, ans: BinAnswer)
        ensures
            final(self)@ == binary_step(old(self)@, op, ans@),
    {
        if self.stack.len() < 2 {
            let mut m = "Need 2 numbers for ".to_owned();
            append_str(&mut m, bin_sym_str(op));
            self.message = m;
            proof {
                assert(self@ =~~= binary_step(old(self)@, op, ans@));
            }
            return;
        }
        let BinAnswer { value, left, right, shown } = ans;
        let _b = self.stack.pop();
        let _a = self.stack.pop();
        self.stack.push(value);
        let mut calc = left;
        append_str(&mut calc, " ");
        append_str(&mut calc, bin_sym_str(op));
        append_str(&mut calc, " ");
        append_str(&mut calc, right.as_str());
        append_str(&mut calc, " = ");
        append_str(&mut calc, shown.as_str());
        self.record_calc(calc);
        proof {
            assert(self@ =~~= binary_step(old(self)@, op, ans@));
        }
    }

    /// An `op(a) = r` operation on the top value.
    pub fn unary_op(&mut self, op: UnOp, ans: UnAnswer)
        ensures
            final(self)@ == unary_step(old(self)@, op, ans@),
    {
        if self.stack.len() == 0 {
            let mut m = "Need 1 number for ".to_owned();
            append_str(&mut m, un_name_str(op));
            self.message = m;
            proof {
                assert(self@ =~~= unary_step(old(self)@, op, ans@));
            }
            return;
        }
        let UnAnswer { value, operand, shown } = ans;
        let _a = self.stack.pop();
        self.stack.push(value);
        let mut calc = un_name_str(op).to_owned();
        append_str(&mut calc, "(");
        append_str(&mut calc, operand.as_str());
        append_str(&mut calc, ") = ");
        append_str(&mut calc, shown.as_str());
        self.record_calc(calc);
        proof {
            assert(self@ =~~= unary_step(old(self)@, op, ans@));
        }
    }

    /// Division; a zero divisor restores both operands and only reports.
    pub fn divide(&mut self, ans: BinAnswer)
        ensures
            final(self)@ == divide_step(old(self)@, ans@),
    {
        if self.stack.len() < 2 {
            self.message = "Need 2 numbers for division".to_owned();
            proof {
                assert(self@ =~~= divide_step(old(self)@, ans@));
            }
            return;
        }
        let b = self.stack.pop().unwrap();
        let a = self.stack.pop().unwrap();
        if is_zero_bits(b) {
            self.stack.push(a);
            self.stack.push(b);
            self.message = "Division by zero".to_owned();
            proof {
                assert(self.stack@ =~= old(self).stack@);
                assert(self@ =~~= divide_step(old(self)@, ans@));
            }
        } else {
            let BinAnswer { value, left, right, shown } = ans;
            self.stack.push(value);
            let mut calc = left;
            append_str(&mut calc, " / ");
            append_str(&mut calc, right.as_str());
            append_str(&mut calc, " = ");
            append_str(&mut calc, shown.as_str());
            self.record_calc(calc);
            proof {
                assert(self@ =~~= divide_step(old(self)@, ans@));
            }
        }
    }

    /// The root operation: pops the index, then the base; a zero index
    /// restores both and only reports.
    fn root(&mut self, ans: BinAnswer)
        ensures
            final(self)@ == root_step(old(self)@, ans@),
    {
        if self.stack.len() < 2 {
            self.message = "Need 2 numbers for root (y root x = x^(1/y))".to_owned();
            proof {
                assert(self@ =~~= root_step(old(self)@, ans@));
            }
            return;
        }
        let y = self.stack.pop().unwrap();
        let x = self.stack.pop().unwrap();
        if is_zero_bits(y) {
            self.stack.push(x);
            self.stack.push(y);
            self.message = "Cannot take 0th root".to_owned();
            proof {
                assert(self.stack@ =~= old(self).stack@);
                assert(self@ =~~= root_step(old(self)@, ans@));
            }
        } else {
            let BinAnswer { value, left, right, shown } = ans;
            self.stack.push(value);
            let mut calc = left;
            append_str(&mut calc, " root ");
            append_str(&mut calc, right.as_str());
            append_str(&mut calc, " = ");
            append_str(&mut calc, shown.as_str());
            self.record_calc(calc);
            proof {
                assert(self@ =~~= root_step(old(self)@, ans@));
            }
        }
    }

    /// The reciprocal of the top value; a zero operand is restored.
    pub fn reciprocal(&mut self, ans: UnAnswer)
        ensures
            final(self)@ == recip_step(old(self)@, ans@),
    {
        if self.stack.len() == 0 {
            self.message = "Need 1 number for reciprocal".to_owned();
            proof {
                assert(self@ =~~= recip_step(old(self)@, ans@));
            }
            return;
        }
        let a = self.stack.pop().unwrap();
        if is_zero_bits(a) {
            self.stack.push(a);
            self.message = "Cannot take reciprocal of zero".to_owned();
            proof {
                assert(self.stack@ =~= old(self).stack@);
                assert(self@ =~~= recip_step(old(self)@, ans@));
            }
        } else {
            let UnAnswer { value, operand, shown } = ans;
            self.stack.push(value);
            let mut calc = "1/".to_owned();
            append_str(&mut calc, operand.as_str());
            append_str(&mut calc, " = ");
            append_str(&mut calc, shown.as_str());
            self.record_calc(calc);
            proof {
                assert(self@ =~~= recip_step(old(self)@, ans@));
            }
        }
    }

    /// The factorial of the top value, which must be whole and non-negative;
    /// a rejected operand is restored.
    pub fn factorial(&mut self, ans: WholeAnswer)
        ensures
            final(self)@ == fact_step(old(self)@, ans@),
    {
        if self.stack.len() == 0 {
            self.message = "Need 1 number for factorial".to_owned();
            proof {
                assert(self@ =~~= fact_step(old(self)@, ans@));
            }
            return;
        }
        let a = self.stack.pop().unwrap();
        if fact_rejected_bits(a) {
            self.stack.push(a);
            self.message = "Factorial needs non-negative integer".to_owned();
            proof {
                assert(self.stack@ =~= old(self).stack@);
                assert(self@ =~~= fact_step(old(self)@, ans@));
            }
        } else {
            let n = whole_value_bits(a);
            let WholeAnswer { value, shown } = ans;
            self.stack.push(value);
            let mut calc = dec_string(n);
            append_str(&mut calc, "! = ");
            append_str(&mut calc, shown.as_str());
            self.record_calc(calc);
            proof {
                assert(self@ =~~= fact_step(old(self)@, ans@));
            }
        }
    }

    /// Exchanges the two top values.
    pub fn swap(&mut self)
        ensures
            final(self)@ == swap_step(old(self)@),
    {
        if self.stack.len() < 2 {
            self.message = "Need 2 numbers to swap".to_owned();
        } else {
            let len = self.stack.len();
            let b = self.stack[len - 1];
            let a = self.stack[len - 2];
            self.stack[len - 1] = a;
            self.stack[len - 2] = b;
            self.message = "Swapped top 2 values".to_owned();
        }
        proof {
            assert(self@ =~~= swap_step(old(self)@));
        }
    }

    /// Empties the stack outside the undo mechanism.
    pub fn clear(&mut self)
        ensures
            final(self)@ == clear_step(old(self)@),
    {
        self.stack.clear();
        self.message = "Stack cleared".to_owned();
        proof {
            assert(self@ =~~= clear_step(old(self)@));
        }
    }

    /// The floating-point work that submitting the pending input will need.
    /// `parsed` is the caller's parse of the pending input: the encoded
    /// value if it reads as a finite numeric literal, nothing otherwise.
    pub fn command_request(&self, parsed: Option<u64>) -> (r: Request)
        ensures
            r == command_request_spec(self@, parsed),
    {
        if self.input.as_str().is_empty() {
            return Request::Nothing;
        }
        if let Some(v) = parsed {
            return Request::Render(v);
        }
        let n = self.stack.len();
        match classify(self.input.as_str()) {
            Cmd::Bin(op) => if n >= 2 {
                Request::Binary(op, self.stack[n - 2], self.stack[n - 1])
            } else {
                Request::Nothing
            },
            Cmd::Divide => if n >= 2 && !is_zero_bits(self.stack[n - 1]) {
                Request::Divide(self.stack[n - 2], self.stack[n - 1])
            } else {
                Request::Nothing
            },
            Cmd::Root => if n >= 2 && !is_zero_bits(self.stack[n - 1]) {
                Request::Root { index: self.stack[n - 1], base: self.stack[n - 2] }
            } else {
                Request::Nothing
            },
            Cmd::Un(op) => if n >= 1 {
                Request::Unary(op, self.stack[n - 1])
            } else {
                Request::Nothing
            },
            Cmd::Recip => if n >= 1 && !is_zero_bits(self.stack[n - 1]) {
                Request::Reciprocal(self.stack[n - 1])
            } else {
                Request::Nothing
            },
            Cmd::Fact => if n >= 1 && !fact_rejected_bits(self.stack[n - 1]) {
                Request::Whole(fact_value(whole_value_bits(self.stack[n - 1])))
            } else {
                Request::Nothing
            },
            Cmd::Drop => if n >= 1 {
                Request::Render(self.stack[n - 1])
            } else {
                Request::Nothing
            },
            _ => Request::Nothing,
        }
    }

    /// Submits the pending input as one completed token: a finite numeric
    /// literal is pushed, `undo` and `help` are handled outside the undo
    /// log, and every other token — failing and unknown ones included —
    /// first records an undo snapshot; the input buffer is cleared.
    pub fn execute_command(&mut self, parsed: Option<u64>, ans: Answer)
        requires
            command_answer_fits(old(self)@, parsed, ans@),
        ensures
            final(self)@ == command_step(old(self)@, parsed, ans@),
    {
        if self.input.as_str().is_empty() {
            return;
        }
        if let Some(v) = parsed {
            let t = match ans {
                Answer::Text(t) => t,
                _ => unreached(),
            };
            self.push_snapshot();
            self.stack.push(v);
            let mut m = "Pushed ".to_owned();
            append_str(&mut m, t.as_str());
            self.message = m;
        } else {
            let cmd = classify(self.input.as_str());
            match cmd {
                Cmd::Undo => {
                    if let Some(prev) = self.history.pop() {
                        self.stack = prev;
                        self.message = "Undid last operation".to_owned();
                    } else {
                        self.message = "Nothing to undo".to_owned();
                    }
                },
                Cmd::Help => {
                    self.show_help = true;
                    self.message = "Help shown (press any key to close)".to_owned();
                },
                _ => {
                    self.push_snapshot();
                    match cmd {
                        Cmd::Bin(op) => match ans {
                            Answer::Binary(b) => self.binary_op(op, b),
                            _ => self.binary_op(op, blank_bin()),
                        },
                        Cmd::Divide => match ans {
                            Answer::Binary(b) => self.divide(b),
                            _ => self.divide(blank_bin()),
                        },
                        Cmd::Root => match ans {
                            Answer::Binary(b) => self.root(b),
                            _ => self.root(blank_bin()),
                        },
                        Cmd::Un(op) => match ans {
                            Answer::Unary(u) => self.unary_op(op, u),
                            _ => self.unary_op(op, blank_un()),
                        },
                        Cmd::Recip => match ans {
                            Answer::Unary(u) => self.reciprocal(u),
                            _ => self.reciprocal(blank_un()),
                        },
                        Cmd::Fact => match ans {
                            Answer::Whole(w) => self.factorial(w),
                            _ => self.factorial(blank_whole()),
                        },
                        Cmd::Swap => self.swap(),
                        Cmd::Clear => {
                            self.stack.clear();
                            self.message = "Stack cleared".to_owned();
                        },
                        Cmd::Drop => {
                            if self.stack.len() >= 1 {
                                let t = match ans {
                                    Answer::Text(t) => t,
                                    _ => unreached(),
                                };
                                let _val = self.stack.pop();
                                let mut m = "Dropped ".to_owned();
                                append_str(&mut m, t.as_str());
                                self.message = m;
                            } else {
                                self.message = "Stack is empty".to_owned();
                            }
                        },
                        _ => {
                            self.message = "Unknown command (type 'help' for list)".to_owned();
                        },
                    }
                },
            }
        }
        self.input = String::new();
        proof {
            assert(self@ =~~= command_step(old(self)@, parsed, ans@));
        }
    }

    /// The floating-point work an operator key will need, once any pending
    /// input has been flushed.
    pub fn char_request(&self, c: char) -> (r: Request)
        ensures
            r == char_request_spec(self@, c),
    {
        let n = self.stack.len();
        if c == '+' || c == '-' || c == '*' || c == '^' || c == '%' {
            let op = if c == '+' {
                BinOp::Add
            } else if c == '-' {
                BinOp::Sub
            } else if c == '*' {
                BinOp::Mul
            } else if c == '^' {
                BinOp::Pow
            } else {
                BinOp::Rem
            };
            if n >= 2 {
                Request::Binary(op, self.stack[n - 2], self.stack[n - 1])
            } else {
                Request::Nothing
            }
        } else if c == '/' {
            if n >= 2 && !is_zero_bits(self.stack[n - 1]) {
                Request::Divide(self.stack[n - 2], self.stack[n - 1])
            } else {
                Request::Nothing
            }
        } else if c == '!' {
            if n >= 1 && !fact_rejected_bits(self.stack[n - 1]) {
                Request::Whole(fact_value(whole_value_bits(self.stack[n - 1])))
            } else {
                Request::Nothing
            }
        } else {
            Request::Nothing
        }
    }

    /// An operator key pressed directly.  The caller must first flush any
    /// pending input through [`App::execute_command`]; the key then always
    /// records one more undo snapshot before its operation runs, so a key
    /// that flushed a token consumes two undo slots.
    pub fn execute_single_char(&mut self, c: char, ans: Answer)
        requires
            old(self)@.input.len() == 0,
            char_answer_fits(old(self)@, c, ans@),
        ensures
            final(self)@ == single_char_step(old(self)@, c, ans@),
    {
        self.push_snapshot();
        if c == '+' || c == '-' || c == '*' || c == '^' || c == '%' {
            let op = if c == '+' {
                BinOp::Add
            } else if c == '-' {
                BinOp::Sub
            } else if c == '*' {
                BinOp::Mul
            } else if c == '^' {
                BinOp::Pow
            } else {
                BinOp::Rem
            };
            proof {
                assert(op == char_bin_op(c));
            }
            match ans {
                Answer::Binary(b) => self.binary_op(op, b),
                _ => self.binary_op(op, blank_bin()),
            }
        } else if c == '/' {
            match ans {
                Answer::Binary(b) => self.divide(b),
                _ => self.divide(blank_bin()),
            }
        } else if c == '!' {
            match ans {
                Answer::Whole(w) => self.factorial(w),
                _ => self.factorial(blank_whole()),
            }
        }
        proof {
            assert(self@ =~~= single_char_step(old(self)@, c, ans@));
        }
    }
}

} // verus!
