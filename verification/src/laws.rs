//! Laws of the evaluator.
//!
//! Each proof function here states one property of the step functions in
//! [`crate::model`], for all states and all caller answers.  Together with
//! the method contracts in [`crate::eval`] — every method lands exactly on
//! its step function — the properties carry over to the executable
//! calculator.

use vstd::prelude::*;

use crate::bits::fact_rejected;
use crate::bits::is_zero;
use crate::model::Model;
use crate::model::command_step;
use crate::model::init;
use crate::model::single_char_step;
use crate::model::wf;
use crate::ops::AnswerV;
use crate::ops::BinOp;
use crate::ops::Cmd;
use crate::ops::UnOp;
use crate::ops::parse_cmd;

verus! {

/// Every command word parses to its command.
#[verifier::rlimit(50)]
pub proof fn lemma_token_table()
    ensures
        parse_cmd("undo"@) == Cmd::Undo,
        parse_cmd("help"@) == Cmd::Help,
        parse_cmd("+"@) == Cmd::Bin(BinOp::Add),
        parse_cmd("-"@) == Cmd::Bin(BinOp::Sub),
        parse_cmd("*"@) == Cmd::Bin(BinOp::Mul),
        parse_cmd("/"@) == Cmd::Divide,
        parse_cmd("^"@) == Cmd::Bin(BinOp::Pow),
        parse_cmd("pow"@) == Cmd::Bin(BinOp::Pow),
        parse_cmd("%"@) == Cmd::Bin(BinOp::Rem),
        parse_cmd("mod"@) == Cmd::Bin(BinOp::Rem),
        parse_cmd("sin"@) == Cmd::Un(UnOp::Sin),
        parse_cmd("cos"@) == Cmd::Un(UnOp::Cos),
        parse_cmd("tan"@) == Cmd::Un(UnOp::Tan),
        parse_cmd("asin"@) == Cmd::Un(UnOp::Asin),
        parse_cmd("acos"@) == Cmd::Un(UnOp::Acos),
        parse_cmd("atan"@) == Cmd::Un(UnOp::Atan),
        parse_cmd("sqrt"@) == Cmd::Un(UnOp::Sqrt),
        parse_cmd("ln"@) == Cmd::Un(UnOp::Ln),
        parse_cmd("log"@) == Cmd::Un(UnOp::Log),
        parse_cmd("exp"@) == Cmd::Un(UnOp::Exp),
        parse_cmd("10x"@) == Cmd::Un(UnOp::Pow10),
        parse_cmd("abs"@) == Cmd::Un(UnOp::Abs),
        parse_cmd("cbrt"@) == Cmd::Un(UnOp::Cbrt),
        parse_cmd("root"@) == Cmd::Root,
        parse_cmd("inv"@) == Cmd::Recip,
        parse_cmd("!"@) == Cmd::Fact,
        parse_cmd("fact"@) == Cmd::Fact,
        parse_cmd("swap"@) == Cmd::Swap,
        parse_cmd("clear"@) == Cmd::Clear,
        parse_cmd("clr"@) == Cmd::Clear,
        parse_cmd("drop"@) == Cmd::Drop,
{
    reveal_strlit("undo");
    reveal_strlit("help");
    reveal_strlit("+");
    reveal_strlit("-");
    reveal_strlit("*");
    reveal_strlit("/");
    reveal_strlit("^");
    reveal_strlit("pow");
    reveal_strlit("%");
    reveal_strlit("mod");
    reveal_strlit("sin");
    reveal_strlit("cos");
    reveal_strlit("tan");
    reveal_strlit("asin");
    reveal_strlit("acos");
    reveal_strlit("atan");
    reveal_strlit("sqrt");
    reveal_strlit("ln");
    reveal_strlit("log");
    reveal_strlit("exp");
    reveal_strlit("10x");
    reveal_strlit("abs");
    reveal_strlit("cbrt");
    reveal_strlit("root");
    reveal_strlit("inv");
    reveal_strlit("!");
    reveal_strlit("fact");
    reveal_strlit("swap");
    reveal_strlit("clear");
    reveal_strlit("clr");
    reveal_strlit("drop");
    // Naming each token's length and leading characters lets the solver tell
    // any two distinct tokens apart as it walks the dispatch chain.
    assert("undo"@.len() == 4);
    assert("undo"@[0] == 'u');
    assert("undo"@[1] == 'n');
    assert("help"@.len() == 4);
    assert("help"@[0] == 'h');
    assert("help"@[1] == 'e');
    assert("+"@.len() == 1);
    assert("+"@[0] == '+');
    assert("-"@.len() == 1);
    assert("-"@[0] == '-');
    assert("*"@.len() == 1);
    assert("*"@[0] == '*');
    assert("/"@.len() == 1);
    assert("/"@[0] == '/');
    assert("^"@.len() == 1);
    assert("^"@[0] == '^');
    assert("pow"@.len() == 3);
    assert("pow"@[0] == 'p');
    assert("pow"@[1] == 'o');
    assert("%"@.len() == 1);
    assert("%"@[0] == '%');
    assert("mod"@.len() == 3);
    assert("mod"@[0] == 'm');
    assert("mod"@[1] == 'o');
    assert("sin"@.len() == 3);
    assert("sin"@[0] == 's');
    assert("sin"@[1] == 'i');
    assert("cos"@.len() == 3);
    assert("cos"@[0] == 'c');
    assert("cos"@[1] == 'o');
    assert("tan"@.len() == 3);
    assert("tan"@[0] == 't');
    assert("tan"@[1] == 'a');
    assert("asin"@.len() == 4);
    assert("asin"@[0] == 'a');
    assert("asin"@[1] == 's');
    assert("acos"@.len() == 4);
    assert("acos"@[0] == 'a');
    assert("acos"@[1] == 'c');
    assert("atan"@.len() == 4);
    assert("atan"@[0] == 'a');
    assert("atan"@[1] == 't');
    assert("sqrt"@.len() == 4);
    assert("sqrt"@[0] == 's');
    assert("sqrt"@[1] == 'q');
    assert("ln"@.len() == 2);
    assert("ln"@[0] == 'l');
    assert("ln"@[1] == 'n');
    assert("log"@.len() == 3);
    assert("log"@[0] == 'l');
    assert("log"@[1] == 'o');
    assert("exp"@.len() == 3);
    assert("exp"@[0] == 'e');
    assert("exp"@[1] == 'x');
    assert("10x"@.len() == 3);
    assert("10x"@[0] == '1');
    assert("10x"@[1] == '0');
    assert("abs"@.len() == 3);
    assert("abs"@[0] == 'a');
    assert("abs"@[1] == 'b');
    assert("cbrt"@.len() == 4);
    assert("cbrt"@[0] == 'c');
    assert("cbrt"@[1] == 'b');
    assert("root"@.len() == 4);
    assert("root"@[0] == 'r');
    assert("root"@[1] == 'o');
    assert("inv"@.len() == 3);
    assert("inv"@[0] == 'i');
    assert("inv"@[1] == 'n');
    assert("!"@.len() == 1);
    assert("!"@[0] == '!');
    assert("fact"@.len() == 4);
    assert("fact"@[0] == 'f');
    assert("fact"@[1] == 'a');
    assert("swap"@.len() == 4);
    assert("swap"@[0] == 's');
    assert("swap"@[1] == 'w');
    assert("clear"@.len() == 5);
    assert("clear"@[0] == 'c');
    assert("clear"@[1] == 'l');
    assert("clr"@.len() == 3);
    assert("clr"@[0] == 'c');
    assert("clr"@[1] == 'l');
    assert("drop"@.len() == 4);
    assert("drop"@[0] == 'd');
    assert("drop"@[1] == 'r');
}

/// The state after submitting a token that parses to the value `v`, whose
/// rendering is `t`.
pub open spec fn push_of(s: Model, tok: Seq<char>, v: u64, t: Seq<char>) -> Model {
    command_step(Model { input: tok, ..s }, Some(v), AnswerV::Text(t))
}

/// The state after a sequence of pushes: token `toks[i]` parses to `vs[i]`
/// and renders as `ts[i]`.
pub open spec fn after_pushes(
    s: Model,
    toks: Seq<Seq<char>>,
    vs: Seq<u64>,
    ts: Seq<Seq<char>>,
) -> Model
    decreases vs.len(),
{
    if vs.len() == 0 {
        s
    } else {
        after_pushes(
            push_of(s, toks[0], vs[0], ts[0]),
            toks.drop_first(),
            vs.drop_first(),
            ts.drop_first(),
        )
    }
}

/// Every successful push grows the stack by exactly one: after a sequence
/// of pushes the stack holds its old values followed by the pushed values
/// in order, so a fresh evaluator's stack has length N after N pushes.
pub proof fn lemma_pushes_grow_stack(
    s: Model,
    toks: Seq<Seq<char>>,
    vs: Seq<u64>,
    ts: Seq<Seq<char>>,
)
    requires
        toks.len() == vs.len(),
        ts.len() == vs.len(),
        forall|i: int| 0 <= i < toks.len() ==> toks[i].len() > 0,
    ensures
        after_pushes(s, toks, vs, ts).stack == s.stack + vs,
        after_pushes(s, toks, vs, ts).stack.len() == s.stack.len() + vs.len(),
    decreases vs.len(),
{
    if vs.len() == 0 {
        assert(s.stack + vs =~= s.stack);
    } else {
        let s1 = push_of(s, toks[0], vs[0], ts[0]);
        assert(s1.stack =~= s.stack.push(vs[0]));
        lemma_pushes_grow_stack(s1, toks.drop_first(), vs.drop_first(), ts.drop_first());
        assert(s.stack.push(vs[0]) + vs.drop_first() =~= s.stack + vs);
    }
}

/// Pushing a value and immediately submitting `undo` restores the stack and
/// the undo log exactly as they were.
pub proof fn lemma_push_then_undo(s: Model, tok: Seq<char>, v: u64, t: Seq<char>)
    requires
        tok.len() > 0,
    ensures
        ({
            let undone = command_step(
                Model { input: "undo"@, ..push_of(s, tok, v, t) },
                None,
                AnswerV::Nothing,
            );
            undone.stack == s.stack && undone.history == s.history
        }),
{
    lemma_token_table();
    reveal_strlit("undo");
    let pushed = push_of(s, tok, v, t);
    let undone = command_step(Model { input: "undo"@, ..pushed }, None, AnswerV::Nothing);
    assert(pushed.history.last() == s.stack);
    assert(undone.stack =~= s.stack);
    assert(undone.history =~= s.history);
}

/// Whether the stack is too shallow for the command the input names.
pub open spec fn lacks_depth(s: Model) -> bool {
    match parse_cmd(s.input) {
        Cmd::Bin(_) => s.stack.len() < 2,
        Cmd::Divide => s.stack.len() < 2,
        Cmd::Root => s.stack.len() < 2,
        Cmd::Swap => s.stack.len() < 2,
        Cmd::Un(_) => s.stack.len() < 1,
        Cmd::Recip => s.stack.len() < 1,
        Cmd::Fact => s.stack.len() < 1,
        Cmd::Drop => s.stack.len() < 1,
        _ => false,
    }
}

/// A command applied to a stack too shallow for it leaves the stack exactly
/// as it was; resubmitting the same token finds the same shallow stack, so
/// the failure repeats identically any number of times.
pub proof fn lemma_shallow_stack_unchanged(s: Model, ans: AnswerV)
    requires
        s.input.len() > 0,
        lacks_depth(s),
    ensures
        command_step(s, None, ans).stack == s.stack,
        lacks_depth(Model { input: s.input, ..command_step(s, None, ans) }),
{
}

/// Submitting `/` over a zero divisor changes no stack value and reports
/// the division by zero.
pub proof fn lemma_divide_by_zero(s: Model, ans: AnswerV)
    requires
        s.input == "/"@,
        s.stack.len() >= 2,
        is_zero(s.stack.last()),
    ensures
        command_step(s, None, ans).stack == s.stack,
        command_step(s, None, ans).message == "Division by zero"@,
{
    lemma_token_table();
    reveal_strlit("/");
}

/// Submitting `inv` over a zero operand changes no stack value and reports
/// that zero has no reciprocal.
pub proof fn lemma_reciprocal_of_zero(s: Model, ans: AnswerV)
    requires
        s.input == "inv"@,
        s.stack.len() >= 1,
        is_zero(s.stack.last()),
    ensures
        command_step(s, None, ans).stack == s.stack,
        command_step(s, None, ans).message == "Cannot take reciprocal of zero"@,
{
    lemma_token_table();
    reveal_strlit("inv");
}

/// Submitting the factorial command over an operand that is negative or not
/// whole changes no stack value and reports the rejection.
pub proof fn lemma_factorial_rejected(s: Model, ans: AnswerV)
    requires
        s.input == "!"@ || s.input == "fact"@,
        s.stack.len() >= 1,
        fact_rejected(s.stack.last()),
    ensures
        command_step(s, None, ans).stack == s.stack,
        command_step(s, None, ans).message == "Factorial needs non-negative integer"@,
{
    lemma_token_table();
    reveal_strlit("!");
    reveal_strlit("fact");
}

/// Submitting `root` over a zero index changes no stack value and reports
/// that there is no zeroth root.
pub proof fn lemma_zeroth_root(s: Model, ans: AnswerV)
    requires
        s.input == "root"@,
        s.stack.len() >= 2,
        is_zero(s.stack.last()),
    ensures
        command_step(s, None, ans).stack == s.stack,
        command_step(s, None, ans).message == "Cannot take 0th root"@,
{
    lemma_token_table();
    reveal_strlit("root");
}

/// Submitting `swap` on a shallow stack only reports; otherwise exactly the
/// two top values change places.
pub proof fn lemma_swap(s: Model, ans: AnswerV)
    requires
        s.input == "swap"@,
    ensures
        s.stack.len() < 2 ==> command_step(s, None, ans).stack == s.stack
            && command_step(s, None, ans).message == "Need 2 numbers to swap"@,
        s.stack.len() >= 2 ==> ({
            let n = s.stack.len();
            command_step(s, None, ans).stack == s.stack.update(n - 2, s.stack[n - 1]).update(
                n - 1,
                s.stack[n - 2],
            ) && command_step(s, None, ans).message == "Swapped top 2 values"@
        }),
{
    lemma_token_table();
    reveal_strlit("swap");
}

/// A token that is neither a numeric literal nor a command word leaves the
/// stack untouched and reports the unknown command — though the undo log
/// still gains its snapshot.
pub proof fn lemma_unknown_command(s: Model, ans: AnswerV)
    requires
        s.input.len() > 0,
        parse_cmd(s.input) == Cmd::Unknown,
    ensures
        command_step(s, None, ans).stack == s.stack,
        command_step(s, None, ans).message == "Unknown command (type 'help' for list)"@,
        command_step(s, None, ans).history == s.history.push(s.stack),
{
}

/// A fresh evaluator satisfies the standing invariant.
pub proof fn lemma_init_wf()
    ensures
        wf(init()),
{
}

/// Submitting a token keeps the calculation log within ten records.
pub proof fn lemma_command_preserves_wf(s: Model, parsed: Option<u64>, ans: AnswerV)
    requires
        wf(s),
    ensures
        wf(command_step(s, parsed, ans)),
{
}

/// An operator key keeps the calculation log within ten records.
pub proof fn lemma_char_preserves_wf(s: Model, c: char, ans: AnswerV)
    requires
        wf(s),
    ensures
        wf(single_char_step(s, c, ans)),
{
}

} // verus!
