//! Driving the evaluator with real floating-point answers.
//!
//! The library decides; these tests compute.  `run_command` parses the
//! pending input, asks the evaluator what floating-point work the token
//! needs, carries it out on doubles, and hands the answer back.

use rpncalc::Answer;
use rpncalc::App;
use rpncalc::BinAnswer;
use rpncalc::BinOp;
use rpncalc::Request;
use rpncalc::UnAnswer;
use rpncalc::UnOp;
use rpncalc::WholeAnswer;

fn bits(x: f64) -> u64 {
    x.to_bits()
}

fn show(b: u64) -> String {
    format!("{}", f64::from_bits(b))
}

fn answer_for(req: Request) -> Answer {
    match req {
        Request::Nothing => Answer::Nothing,
        Request::Render(v) => Answer::Text(show(v)),
        Request::Binary(op, a, b) => {
            let x = f64::from_bits(a);
            let y = f64::from_bits(b);
            let r = match op {
                BinOp::Add => x + y,
                BinOp::Sub => x - y,
                BinOp::Mul => x * y,
                BinOp::Pow => x.powf(y),
                BinOp::Rem => x % y,
            };
            Answer::Binary(BinAnswer {
                value: r.to_bits(),
                left: show(a),
                right: show(b),
                shown: show(r.to_bits()),
            })
        }
        Request::Divide(a, b) => {
            let r = f64::from_bits(a) / f64::from_bits(b);
            Answer::Binary(BinAnswer {
                value: r.to_bits(),
                left: show(a),
                right: show(b),
                shown: show(r.to_bits()),
            })
        }
        Request::Root { index, base } => {
            let r = f64::from_bits(base).powf(1.0 / f64::from_bits(index));
            Answer::Binary(BinAnswer {
                value: r.to_bits(),
                left: show(index),
                right: show(base),
                shown: show(r.to_bits()),
            })
        }
        Request::Unary(op, a) => {
            let x = f64::from_bits(a);
            let r = match op {
                UnOp::Sin => x.to_radians().sin(),
                UnOp::Cos => x.to_radians().cos(),
                UnOp::Tan => x.to_radians().tan(),
                UnOp::Asin => x.asin().to_degrees(),
                UnOp::Acos => x.acos().to_degrees(),
                UnOp::Atan => x.atan().to_degrees(),
                UnOp::Sqrt => x.sqrt(),
                UnOp::Ln => x.ln(),
                UnOp::Log => x.log10(),
                UnOp::Exp => x.exp(),
                UnOp::Pow10 => 10.0_f64.powf(x),
                UnOp::Abs => x.abs(),
                UnOp::Cbrt => x.cbrt(),
            };
            Answer::Unary(UnAnswer { value: r.to_bits(), operand: show(a), shown: show(r.to_bits()) })
        }
        Request::Reciprocal(a) => {
            let r = 1.0 / f64::from_bits(a);
            Answer::Unary(UnAnswer { value: r.to_bits(), operand: show(a), shown: show(r.to_bits()) })
        }
        Request::Whole(n) => {
            let d = n as f64;
            Answer::Whole(WholeAnswer { value: d.to_bits(), shown: show(d.to_bits()) })
        }
    }
}

fn run_command(app: &mut App) {
    let parsed: Option<u64> = match app.input.parse::<f64>() {
        Ok(v) if v.is_finite() => Some(v.to_bits()),
        _ => None,
    };
    let ans = answer_for(app.command_request(parsed));
    app.execute_command(parsed, ans);
}

fn run_single_char(app: &mut App, c: char) {
    if !app.input.is_empty() {
        run_command(app);
    }
    let ans = answer_for(app.char_request(c));
    app.execute_single_char(c, ans);
}

#[test]
fn main_test_push_number() {
    let mut app = App::new();
    app.input = "42.5".to_string();
    run_command(&mut app);
    assert_eq!(app.stack, vec![bits(42.5)]);
}

#[test]
fn app_tests_test_push_number() {
    let mut app = App::new();
    app.input = "42.5".to_string();
    run_command(&mut app);
    assert_eq!(app.stack, vec![bits(42.5)]);
}

#[test]
fn main_test_addition() {
    let mut app = App::new();
    app.stack = vec![bits(3.0), bits(4.0)];
    app.input = "+".to_string();
    run_command(&mut app);
    assert_eq!(app.stack, vec![bits(7.0)]);
}

#[test]
fn app_tests_test_addition() {
    let mut app = App::new();
    app.stack = vec![bits(3.0), bits(4.0)];
    app.input = "+".to_string();
    run_command(&mut app);
    assert_eq!(app.stack, vec![bits(7.0)]);
}

#[test]
fn main_test_subtraction() {
    let mut app = App::new();
    app.stack = vec![bits(10.0), bits(3.0)];
    app.input = "-".to_string();
    run_command(&mut app);
    assert_eq!(app.stack, vec![bits(7.0)]);
}

#[test]
fn app_tests_test_subtraction() {
    let mut app = App::new();
    app.stack = vec![bits(10.0), bits(3.0)];
    app.input = "-".to_string();
    run_command(&mut app);
    assert_eq!(app.stack, vec![bits(7.0)]);
}

#[test]
fn main_test_multiplication() {
    let mut app = App::new();
    app.stack = vec![bits(3.0), bits(4.0)];
    app.input = "*".to_string();
    run_command(&mut app);
    assert_eq!(app.stack, vec![bits(12.0)]);
}

#[test]
fn app_tests_test_multiplication() {
    let mut app = App::new();
    app.stack = vec![bits(3.0), bits(4.0)];
    app.input = "*".to_string();
    run_command(&mut app);
    assert_eq!(app.stack, vec![bits(12.0)]);
}

#[test]
fn main_test_division() {
    let mut app = App::new();
    app.stack = vec![bits(12.0), bits(3.0)];
    app.input = "/".to_string();
    run_command(&mut app);
    assert_eq!(app.stack, vec![bits(4.0)]);
}

#[test]
fn app_tests_test_division() {
    let mut app = App::new();
    app.stack = vec![bits(12.0), bits(3.0)];
    app.input = "/".to_string();
    run_command(&mut app);
    assert_eq!(app.stack, vec![bits(4.0)]);
}

#[test]
fn main_test_division_by_zero() {
    let mut app = App::new();
    app.stack = vec![bits(5.0), bits(0.0)];
    app.input = "/".to_string();
    run_command(&mut app);
    assert_eq!(app.stack, vec![bits(5.0), bits(0.0)]);
    assert!(app.message.contains("Division by zero"));
}

#[test]
fn app_tests_test_division_by_zero() {
    let mut app = App::new();
    app.stack = vec![bits(5.0), bits(0.0)];
    app.input = "/".to_string();
    run_command(&mut app);
    assert_eq!(app.stack, vec![bits(5.0), bits(0.0)]);
    assert!(app.message.contains("Division by zero"));
}

#[test]
fn main_test_power() {
    let mut app = App::new();
    app.stack = vec![bits(2.0), bits(3.0)];
    app.input = "^".to_string();
    run_command(&mut app);
    assert_eq!(app.stack, vec![bits(8.0)]);
}

#[test]
fn app_tests_test_power() {
    let mut app = App::new();
    app.stack = vec![bits(2.0), bits(3.0)];
    app.input = "^".to_string();
    run_command(&mut app);
    assert_eq!(app.stack, vec![bits(8.0)]);
}

#[test]
fn main_test_modulo() {
    let mut app = App::new();
    app.stack = vec![bits(10.0), bits(3.0)];
    app.input = "%".to_string();
    run_command(&mut app);
    assert_eq!(app.stack, vec![bits(1.0)]);
}

#[test]
fn app_tests_test_modulo() {
    let mut app = App::new();
    app.stack = vec![bits(10.0), bits(3.0)];
    app.input = "%".to_string();
    run_command(&mut app);
    assert_eq!(app.stack, vec![bits(1.0)]);
}

#[test]
fn main_test_sqrt() {
    let mut app = App::new();
    app.stack = vec![bits(16.0)];
    app.input = "sqrt".to_string();
    run_command(&mut app);
    assert_eq!(app.stack, vec![bits(4.0)]);
}

#[test]
fn app_tests_test_sqrt() {
    let mut app = App::new();
    app.stack = vec![bits(16.0)];
    app.input = "sqrt".to_string();
    run_command(&mut app);
    assert_eq!(app.stack, vec![bits(4.0)]);
}

#[test]
fn main_test_reciprocal() {
    let mut app = App::new();
    app.stack = vec![bits(4.0)];
    app.input = "inv".to_string();
    run_command(&mut app);
    assert_eq!(app.stack, vec![bits(0.25)]);
}

#[test]
fn app_tests_test_reciprocal() {
    let mut app = App::new();
    app.stack = vec![bits(4.0)];
    app.input = "inv".to_string();
    run_command(&mut app);
    assert_eq!(app.stack, vec![bits(0.25)]);
}

#[test]
fn main_test_reciprocal_zero() {
    let mut app = App::new();
    app.stack = vec![bits(0.0)];
    app.input = "inv".to_string();
    run_command(&mut app);
    assert_eq!(app.stack, vec![bits(0.0)]);
    assert!(app.message.contains("Cannot take reciprocal of zero"));
}

#[test]
fn app_tests_test_reciprocal_zero() {
    let mut app = App::new();
    app.stack = vec![bits(0.0)];
    app.input = "inv".to_string();
    run_command(&mut app);
    assert_eq!(app.stack, vec![bits(0.0)]);
    assert!(app.message.contains("Cannot take reciprocal of zero"));
}

#[test]
fn main_test_factorial() {
    let mut app = App::new();
    app.stack = vec![bits(5.0)];
    app.input = "!".to_string();
    run_command(&mut app);
    assert_eq!(app.stack, vec![bits(120.0)]);
}

#[test]
fn app_tests_test_factorial() {
    let mut app = App::new();
    app.stack = vec![bits(5.0)];
    app.input = "!".to_string();
    run_command(&mut app);
    assert_eq!(app.stack, vec![bits(120.0)]);
}

#[test]
fn main_test_factorial_negative() {
    let mut app = App::new();
    app.stack = vec![bits(-1.0)];
    app.input = "!".to_string();
    run_command(&mut app);
    assert_eq!(app.stack, vec![bits(-1.0)]);
    assert!(app.message.contains("non-negative integer"));
}

#[test]
fn app_tests_test_factorial_negative() {
    let mut app = App::new();
    app.stack = vec![bits(-1.0)];
    app.input = "!".to_string();
    run_command(&mut app);
    assert_eq!(app.stack, vec![bits(-1.0)]);
    assert!(app.message.contains("non-negative integer"));
}

#[test]
fn main_test_sin() {
    let mut app = App::new();
    app.stack = vec![bits(90.0)];
    app.input = "sin".to_string();
    run_command(&mut app);
    assert!((f64::from_bits(app.stack[0]) - 1.0).abs() < 1e-10);
}

#[test]
fn app_tests_test_sin() {
    let mut app = App::new();
    app.stack = vec![bits(90.0)];
    app.input = "sin".to_string();
    run_command(&mut app);
    assert!((f64::from_bits(app.stack[0]) - 1.0).abs() < 1e-10);
}

#[test]
fn main_test_cos() {
    let mut app = App::new();
    app.stack = vec![bits(0.0)];
    app.input = "cos".to_string();
    run_command(&mut app);
    assert!((f64::from_bits(app.stack[0]) - 1.0).abs() < 1e-10);
}

#[test]
fn app_tests_test_cos() {
    let mut app = App::new();
    app.stack = vec![bits(0.0)];
    app.input = "cos".to_string();
    run_command(&mut app);
    assert!((f64::from_bits(app.stack[0]) - 1.0).abs() < 1e-10);
}

#[test]
fn main_test_swap() {
    let mut app = App::new();
    app.stack = vec![bits(1.0), bits(2.0)];
    app.input = "swap".to_string();
    run_command(&mut app);
    assert_eq!(app.stack, vec![bits(2.0), bits(1.0)]);
}

#[test]
fn app_tests_test_swap() {
    let mut app = App::new();
    app.stack = vec![bits(1.0), bits(2.0)];
    app.input = "swap".to_string();
    run_command(&mut app);
    assert_eq!(app.stack, vec![bits(2.0), bits(1.0)]);
}

#[test]
fn main_test_swap_insufficient() {
    let mut app = App::new();
    app.stack = vec![bits(1.0)];
    app.input = "swap".to_string();
    run_command(&mut app);
    assert_eq!(app.stack, vec![bits(1.0)]);
    assert!(app.message.contains("Need 2 numbers"));
}

#[test]
fn app_tests_test_swap_insufficient() {
    let mut app = App::new();
    app.stack = vec![bits(1.0)];
    app.input = "swap".to_string();
    run_command(&mut app);
    assert_eq!(app.stack, vec![bits(1.0)]);
    assert!(app.message.contains("Need 2 numbers"));
}

#[test]
fn main_test_drop() {
    let mut app = App::new();
    app.stack = vec![bits(1.0), bits(2.0), bits(3.0)];
    app.input = "drop".to_string();
    run_command(&mut app);
    assert_eq!(app.stack, vec![bits(1.0), bits(2.0)]);
}

#[test]
fn app_tests_test_drop() {
    let mut app = App::new();
    app.stack = vec![bits(1.0), bits(2.0), bits(3.0)];
    app.input = "drop".to_string();
    run_command(&mut app);
    assert_eq!(app.stack, vec![bits(1.0), bits(2.0)]);
}

#[test]
fn main_test_drop_empty() {
    let mut app = App::new();
    app.input = "drop".to_string();
    run_command(&mut app);
    assert_eq!(app.stack, vec![]);
    assert!(app.message.contains("Stack is empty"));
}

#[test]
fn app_tests_test_drop_empty() {
    let mut app = App::new();
    app.input = "drop".to_string();
    run_command(&mut app);
    assert_eq!(app.stack, vec![]);
    assert!(app.message.contains("Stack is empty"));
}

#[test]
fn main_test_clear() {
    let mut app = App::new();
    app.stack = vec![bits(1.0), bits(2.0), bits(3.0)];
    app.input = "clear".to_string();
    run_command(&mut app);
    assert_eq!(app.stack, vec![]);
}

#[test]
fn app_tests_test_clear() {
    let mut app = App::new();
    app.stack = vec![bits(1.0), bits(2.0), bits(3.0)];
    app.input = "clear".to_string();
    run_command(&mut app);
    assert_eq!(app.stack, vec![]);
}

#[test]
fn main_test_undo() {
    let mut app = App::new();
    app.stack = vec![bits(1.0), bits(2.0)];
    app.history.push(vec![bits(1.0)]);
    app.input = "undo".to_string();
    run_command(&mut app);
    assert_eq!(app.stack, vec![bits(1.0)]);
}

#[test]
fn app_tests_test_undo() {
    let mut app = App::new();
    app.stack = vec![bits(1.0), bits(2.0)];
    app.history.push(vec![bits(1.0)]);
    app.input = "undo".to_string();
    run_command(&mut app);
    assert_eq!(app.stack, vec![bits(1.0)]);
}

#[test]
fn main_test_undo_empty_history() {
    let mut app = App::new();
    app.stack = vec![bits(1.0)];
    app.input = "undo".to_string();
    run_command(&mut app);
    assert_eq!(app.stack, vec![bits(1.0)]);
    assert!(app.message.contains("Nothing to undo"));
}

#[test]
fn app_tests_test_undo_empty_history() {
    let mut app = App::new();
    app.stack = vec![bits(1.0)];
    app.input = "undo".to_string();
    run_command(&mut app);
    assert_eq!(app.stack, vec![bits(1.0)]);
    assert!(app.message.contains("Nothing to undo"));
}

#[test]
fn main_test_binary_op_insufficient_stack() {
    let mut app = App::new();
    app.stack = vec![bits(1.0)];
    app.input = "+".to_string();
    run_command(&mut app);
    assert_eq!(app.stack, vec![bits(1.0)]);
    assert!(app.message.contains("Need 2 numbers"));
}

#[test]
fn app_tests_test_binary_op_insufficient_stack() {
    let mut app = App::new();
    app.stack = vec![bits(1.0)];
    app.input = "+".to_string();
    run_command(&mut app);
    assert_eq!(app.stack, vec![bits(1.0)]);
    assert!(app.message.contains("Need 2 numbers"));
}

#[test]
fn main_test_unary_op_empty_stack() {
    let mut app = App::new();
    app.input = "sqrt".to_string();
    run_command(&mut app);
    assert_eq!(app.stack, vec![]);
    assert!(app.message.contains("Need 1 number"));
}

#[test]
fn app_tests_test_unary_op_empty_stack() {
    let mut app = App::new();
    app.input = "sqrt".to_string();
    run_command(&mut app);
    assert_eq!(app.stack, vec![]);
    assert!(app.message.contains("Need 1 number"));
}

#[test]
fn main_test_unknown_command() {
    let mut app = App::new();
    app.input = "unknown".to_string();
    run_command(&mut app);
    assert!(app.message.contains("Unknown command"));
}

#[test]
fn app_tests_test_unknown_command() {
    let mut app = App::new();
    app.input = "unknown".to_string();
    run_command(&mut app);
    assert!(app.message.contains("Unknown command"));
}

#[test]
fn test_ln() {
    let mut app = App::new();
    app.stack = vec![bits(std::f64::consts::E)];
    app.input = "ln".to_string();
    run_command(&mut app);
    assert!((f64::from_bits(app.stack[0]) - 1.0).abs() < 1e-10);
}

#[test]
fn test_log() {
    let mut app = App::new();
    app.stack = vec![bits(100.0)];
    app.input = "log".to_string();
    run_command(&mut app);
    assert!((f64::from_bits(app.stack[0]) - 2.0).abs() < 1e-10);
}

#[test]
fn test_exp() {
    let mut app = App::new();
    app.stack = vec![bits(1.0)];
    app.input = "exp".to_string();
    run_command(&mut app);
    assert!((f64::from_bits(app.stack[0]) - std::f64::consts::E).abs() < 1e-10);
}

#[test]
fn test_10x() {
    let mut app = App::new();
    app.stack = vec![bits(2.0)];
    app.input = "10x".to_string();
    run_command(&mut app);
    assert_eq!(app.stack, vec![bits(100.0)]);
}

#[test]
fn test_abs() {
    let mut app = App::new();
    app.stack = vec![bits(-5.0)];
    app.input = "abs".to_string();
    run_command(&mut app);
    assert_eq!(app.stack, vec![bits(5.0)]);
}

#[test]
fn test_cbrt() {
    let mut app = App::new();
    app.stack = vec![bits(8.0)];
    app.input = "cbrt".to_string();
    run_command(&mut app);
    assert!((f64::from_bits(app.stack[0]) - 2.0).abs() < 1e-10);
}

#[test]
fn test_root() {
    let mut app = App::new();
    app.stack = vec![bits(8.0), bits(3.0)];
    app.input = "root".to_string();
    run_command(&mut app);
    assert!((f64::from_bits(app.stack[0]) - 2.0).abs() < 1e-10);
}

#[test]
fn test_root_zero() {
    let mut app = App::new();
    app.stack = vec![bits(8.0), bits(0.0)];
    app.input = "root".to_string();
    run_command(&mut app);
    assert_eq!(app.stack, vec![bits(8.0), bits(0.0)]);
    assert!(app.message.contains("Cannot take 0th root"));
}

#[test]
fn test_root_insufficient_stack() {
    let mut app = App::new();
    app.stack = vec![bits(8.0)];
    app.input = "root".to_string();
    run_command(&mut app);
    assert_eq!(app.stack, vec![bits(8.0)]);
    assert!(app.message.contains("Need 2 numbers"));
}
#[test]
fn test_new_state_is_empty() {
    let app = App::new();
    assert_eq!(app.stack, vec![]);
    assert_eq!(app.input, "");
    assert_eq!(
        app.message,
        "Type numbers or commands (help for list), Enter to execute, q to quit"
    );
    assert_eq!(app.history.len(), 0);
    assert_eq!(app.calc_history.len(), 0);
    assert!(!app.show_help);
}

#[test]
fn test_push_count_grows_one_per_push() {
    let mut app = App::new();
    let values = ["1", "2.5", "-3", "0", "1e3"];
    for v in values {
        app.input = v.to_string();
        run_command(&mut app);
    }
    assert_eq!(app.stack.len(), 5);
    assert_eq!(app.stack[4], bits(1000.0));
}

#[test]
fn test_pushed_message_and_cleared_input() {
    let mut app = App::new();
    app.input = "42.5".to_string();
    run_command(&mut app);
    assert_eq!(app.message, "Pushed 42.5");
    assert_eq!(app.input, "");
}

#[test]
fn test_push_then_undo_restores_stack() {
    let mut app = App::new();
    app.stack = vec![bits(3.5)];
    app.input = "7".to_string();
    run_command(&mut app);
    assert_eq!(app.stack, vec![bits(3.5), bits(7.0)]);
    app.input = "undo".to_string();
    run_command(&mut app);
    assert_eq!(app.stack, vec![bits(3.5)]);
    assert_eq!(app.history.len(), 0);
    assert_eq!(app.message, "Undid last operation");
}

#[test]
fn test_failed_op_is_repeatable_and_keeps_snapshot() {
    let mut app = App::new();
    app.stack = vec![bits(1.0)];
    for _ in 0..3 {
        app.input = "+".to_string();
        run_command(&mut app);
        assert_eq!(app.stack, vec![bits(1.0)]);
        assert_eq!(app.message, "Need 2 numbers for +");
    }
    assert_eq!(app.history.len(), 3);
}

#[test]
fn test_unknown_command_keeps_snapshot() {
    let mut app = App::new();
    app.stack = vec![bits(9.0)];
    app.input = "unknown_token".to_string();
    run_command(&mut app);
    assert_eq!(app.stack, vec![bits(9.0)]);
    assert_eq!(app.message, "Unknown command (type 'help' for list)");
    assert_eq!(app.history.len(), 1);
    assert_eq!(app.history[0], vec![bits(9.0)]);
}

#[test]
fn test_history_caps_at_ten_and_evicts_oldest() {
    let mut app = App::new();
    for i in 1..=15 {
        app.stack = vec![bits(i as f64), bits(1.0)];
        app.input = "+".to_string();
        run_command(&mut app);
        assert!(app.calc_history.len() <= 10);
    }
    assert_eq!(app.calc_history.len(), 10);
    assert_eq!(app.calc_history[0], "6 + 1 = 7");
    assert_eq!(app.calc_history[9], "15 + 1 = 16");
}

#[test]
fn test_help_touches_neither_stack_nor_undo_log() {
    let mut app = App::new();
    app.stack = vec![bits(2.0)];
    app.input = "help".to_string();
    run_command(&mut app);
    assert!(app.show_help);
    assert_eq!(app.message, "Help shown (press any key to close)");
    assert_eq!(app.stack, vec![bits(2.0)]);
    assert_eq!(app.history.len(), 0);
    assert_eq!(app.input, "");
}

#[test]
fn test_empty_input_changes_nothing() {
    let mut app = App::new();
    app.stack = vec![bits(1.0)];
    run_command(&mut app);
    assert_eq!(app.stack, vec![bits(1.0)]);
    assert_eq!(
        app.message,
        "Type numbers or commands (help for list), Enter to execute, q to quit"
    );
    assert_eq!(app.history.len(), 0);
}

#[test]
fn test_infinite_literal_is_not_a_number() {
    let mut app = App::new();
    app.input = "inf".to_string();
    run_command(&mut app);
    assert_eq!(app.stack, vec![]);
    assert!(app.message.contains("Unknown command"));
}

#[test]
fn test_binary_record_format() {
    let mut app = App::new();
    app.stack = vec![bits(10.0), bits(3.0)];
    app.input = "%".to_string();
    run_command(&mut app);
    assert_eq!(app.message, "10 % 3 = 1");
    assert_eq!(app.calc_history, vec!["10 % 3 = 1".to_string()]);
}

#[test]
fn test_unary_record_format() {
    let mut app = App::new();
    app.stack = vec![bits(16.0)];
    app.input = "sqrt".to_string();
    run_command(&mut app);
    assert_eq!(app.message, "sqrt(16) = 4");
}

#[test]
fn test_divide_record_format() {
    let mut app = App::new();
    app.stack = vec![bits(12.0), bits(3.0)];
    app.input = "/".to_string();
    run_command(&mut app);
    assert_eq!(app.message, "12 / 3 = 4");
}

#[test]
fn test_reciprocal_record_format() {
    let mut app = App::new();
    app.stack = vec![bits(4.0)];
    app.input = "inv".to_string();
    run_command(&mut app);
    assert_eq!(app.message, "1/4 = 0.25");
}

#[test]
fn test_root_record_format() {
    let mut app = App::new();
    app.stack = vec![bits(8.0), bits(3.0)];
    app.input = "root".to_string();
    run_command(&mut app);
    assert!(app.message.starts_with("3 root 8 = "));
}

#[test]
fn test_factorial_record_format() {
    let mut app = App::new();
    app.stack = vec![bits(5.0)];
    app.input = "fact".to_string();
    run_command(&mut app);
    assert_eq!(app.message, "5! = 120");
}

#[test]
fn test_factorial_of_zero() {
    let mut app = App::new();
    app.stack = vec![bits(0.0)];
    app.input = "!".to_string();
    run_command(&mut app);
    assert_eq!(app.stack, vec![bits(1.0)]);
    assert_eq!(app.message, "0! = 1");
}

#[test]
fn test_factorial_rejects_fraction() {
    let mut app = App::new();
    app.stack = vec![bits(2.5)];
    app.input = "!".to_string();
    run_command(&mut app);
    assert_eq!(app.stack, vec![bits(2.5)]);
    assert!(app.message.contains("non-negative integer"));
}

#[test]
fn test_reciprocal_of_negative_zero_is_rejected() {
    let mut app = App::new();
    app.stack = vec![bits(-0.0)];
    app.input = "inv".to_string();
    run_command(&mut app);
    assert_eq!(app.stack, vec![bits(-0.0)]);
    assert!(app.message.contains("Cannot take reciprocal of zero"));
}

#[test]
fn test_pow_word_alias() {
    let mut app = App::new();
    app.stack = vec![bits(2.0), bits(3.0)];
    app.input = "pow".to_string();
    run_command(&mut app);
    assert_eq!(app.stack, vec![bits(8.0)]);
    assert_eq!(app.message, "2 ^ 3 = 8");
}

#[test]
fn test_mod_word_alias() {
    let mut app = App::new();
    app.stack = vec![bits(10.0), bits(3.0)];
    app.input = "mod".to_string();
    run_command(&mut app);
    assert_eq!(app.stack, vec![bits(1.0)]);
}

#[test]
fn test_clr_alias() {
    let mut app = App::new();
    app.stack = vec![bits(1.0), bits(2.0)];
    app.input = "clr".to_string();
    run_command(&mut app);
    assert_eq!(app.stack, vec![]);
    assert_eq!(app.message, "Stack cleared");
}

#[test]
fn test_clear_method_bypasses_undo_log() {
    let mut app = App::new();
    app.stack = vec![bits(1.0), bits(2.0)];
    app.clear();
    assert_eq!(app.stack, vec![]);
    assert_eq!(app.message, "Stack cleared");
    assert_eq!(app.history.len(), 0);
}

#[test]
fn test_drop_message_shows_value() {
    let mut app = App::new();
    app.stack = vec![bits(2.5)];
    app.input = "drop".to_string();
    run_command(&mut app);
    assert_eq!(app.message, "Dropped 2.5");
    assert_eq!(app.history.len(), 1);
}

#[test]
fn test_single_char_applies_operator() {
    let mut app = App::new();
    app.stack = vec![bits(2.0), bits(3.0)];
    run_single_char(&mut app, '+');
    assert_eq!(app.stack, vec![bits(5.0)]);
    assert_eq!(app.history.len(), 1);
}

#[test]
fn test_single_char_flush_takes_two_undo_slots() {
    let mut app = App::new();
    app.stack = vec![bits(1.0), bits(2.0)];
    app.input = "3".to_string();
    run_single_char(&mut app, '+');
    assert_eq!(app.stack, vec![bits(1.0), bits(5.0)]);
    assert_eq!(app.history.len(), 2);
    assert_eq!(app.history[0], vec![bits(1.0), bits(2.0)]);
    assert_eq!(app.history[1], vec![bits(1.0), bits(2.0), bits(3.0)]);
}

#[test]
fn test_single_char_other_key_still_snapshots() {
    let mut app = App::new();
    app.stack = vec![bits(4.0)];
    run_single_char(&mut app, 'z');
    assert_eq!(app.stack, vec![bits(4.0)]);
    assert_eq!(app.history.len(), 1);
}

#[test]
fn test_single_char_factorial() {
    let mut app = App::new();
    app.stack = vec![bits(4.0)];
    run_single_char(&mut app, '!');
    assert_eq!(app.stack, vec![bits(24.0)]);
}

#[test]
fn test_scientific_literal_pushes() {
    let mut app = App::new();
    app.input = "2.5e2".to_string();
    run_command(&mut app);
    assert_eq!(app.stack, vec![bits(250.0)]);
}

#[test]
fn test_nonfinite_result_is_kept() {
    let mut app = App::new();
    app.stack = vec![bits(-1.0)];
    app.input = "sqrt".to_string();
    run_command(&mut app);
    assert_eq!(app.stack.len(), 1);
    assert!(f64::from_bits(app.stack[0]).is_nan());
}
