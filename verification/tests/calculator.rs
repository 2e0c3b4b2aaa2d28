use calculator::EvalError;
use calculator::is_quit_command;
use calculator::Num;
use calculator::Op;
use calculator::ParseError;
use calculator::calculate;
use calculator::is_numeric_token;
use calculator::op_from_token;
use calculator::parse_input;
use calculator::tokenize;

fn num(x: f64) -> Num {
    Num { bits: x.to_bits() }
}

/// Applies the operation a calculation selected, as the driver loop does.
fn run_calculation(num1: f64, num2: f64, operator: &str) -> Result<f64, EvalError> {
    let c = calculate(num(num1), num(num2), operator)?;
    let a = f64::from_bits(c.lhs.bits);
    let b = f64::from_bits(c.rhs.bits);
    Ok(match c.op {
        Op::Add => a + b,
        Op::Sub => a - b,
        Op::Mul => a * b,
        Op::Div => a / b,
    })
}

#[test]
fn test_parse_input_valid() {
    let input = "5 + 5";
    let result = parse_input(input);
    assert!(result.is_ok());
    let pe = result.unwrap();
    let num1: f64 = pe.operand1.parse().unwrap();
    let num2: f64 = pe.operand2.parse().unwrap();
    assert_eq!(num1, 5.0);
    assert_eq!(num2, 5.0);
    assert_eq!(pe.operator.symbol(), "+");
}

#[test]
fn test_parse_input_invalid_format() {
    let input = "5 + ";
    assert!(parse_input(input).is_err());
    assert!(matches!(parse_input(input), Err(ParseError::WrongArity)));
}

#[test]
fn test_parse_input_invalid_number() {
    let input = "abc + 5";
    assert!(parse_input(input).is_err());
    match parse_input(input) {
        Err(ParseError::NotANumber(t)) => assert_eq!(t, "abc"),
        other => panic!("expected NotANumber, got {:?}", other),
    }
}

#[test]
fn test_parse_input_invalid_operator() {
    let input = "5 % 5";
    assert!(parse_input(input).is_err());
    assert!(matches!(parse_input(input), Err(ParseError::UnknownOperator)));
}

#[test]
fn test_calculate_with_decimals() {
    let result = run_calculation(5.5, 2.2, "+");
    assert!(result.is_ok());
    assert_eq!(result.unwrap(), 7.7);
}

#[test]
fn test_calculate_negative_numbers() {
    let result = run_calculation(-5.0, 3.0, "+");
    assert!(result.is_ok());
    assert_eq!(result.unwrap(), -2.0);
}

#[test]
fn test_calculate_addition() {
    let result = run_calculation(5.0, 5.0, "+");
    assert!(result.is_ok());
    assert_eq!(result.unwrap(), 10.0);
}

#[test]
fn test_calculate_subtraction() {
    let result = run_calculation(5.0, 5.0, "-");
    assert!(result.is_ok());
    assert_eq!(result.unwrap(), 0.0);
}

#[test]
fn test_calculate_multiplication() {
    let result = run_calculation(5.0, 5.0, "*");
    assert!(result.is_ok());
    assert_eq!(result.unwrap(), 25.0);
}

#[test]
fn test_calculate_division() {
    let result = run_calculation(5.0, 5.0, "/");
    assert!(result.is_ok());
    assert_eq!(result.unwrap(), 1.0);
}

#[test]
fn test_calculate_division_by_zero() {
    let result = run_calculation(5.0, 0.0, "/");
    assert!(result.is_err());
    assert_eq!(result.unwrap_err().message(), "Cannot divide by zero");
}

#[test]
fn parse_then_evaluate_exact() {
    let pe = parse_input("6 * 7").unwrap();
    let a: f64 = pe.operand1.parse().unwrap();
    let b: f64 = pe.operand2.parse().unwrap();
    let result = run_calculation(a, b, &pe.operator.symbol()).unwrap();
    assert_eq!(result, 42.0);
}

#[test]
fn render_reparses_to_the_same_triple() {
    let pe = parse_input("  5.5e-1   *\t-2  ").unwrap();
    let line = pe.render();
    assert_eq!(line, "5.5e-1 * -2");
    let back = parse_input(&line).unwrap();
    assert_eq!(back.operand1, pe.operand1);
    assert_eq!(back.operand2, pe.operand2);
    assert_eq!(back.operator, pe.operator);
}

#[test]
fn tokenize_discards_whitespace_runs() {
    let toks = tokenize(" a \t\tbc \n d ");
    assert_eq!(toks, vec!["a".to_string(), "bc".to_string(), "d".to_string()]);
    assert!(tokenize("").is_empty());
    assert!(tokenize(" \t ").is_empty());
}

#[test]
fn numeric_tokens_accepted() {
    assert!(is_numeric_token("5"));
    assert!(is_numeric_token("5."));
    assert!(is_numeric_token(".5"));
    assert!(is_numeric_token("-0.5"));
    assert!(is_numeric_token("+12.25"));
    assert!(is_numeric_token("1e3"));
    assert!(is_numeric_token("2.5E-2"));
    assert!(is_numeric_token("-1.e+10"));
    assert!(is_numeric_token("inf"));
    assert!(is_numeric_token("-Infinity"));
    assert!(is_numeric_token("NaN"));
    assert!(is_numeric_token("+NAN"));
}

#[test]
fn numeric_tokens_rejected() {
    assert!(!is_numeric_token(""));
    assert!(!is_numeric_token("."));
    assert!(!is_numeric_token("+"));
    assert!(!is_numeric_token("e5"));
    assert!(!is_numeric_token("5e"));
    assert!(!is_numeric_token("5e+"));
    assert!(!is_numeric_token("1.2.3"));
    assert!(!is_numeric_token("--5"));
    assert!(!is_numeric_token("abc"));
    assert!(!is_numeric_token("0x10"));
    assert!(!is_numeric_token("5 "));
    assert!(!is_numeric_token("infinit"));
}

#[test]
fn accepted_numerals_convert_like_the_platform() {
    for tok in [
        "5", "5.", ".5", "-0.5", "+12.25", "1e3", "2.5E-2", "-1.e+10", "inf", "-Infinity", "NaN",
    ] {
        assert!(is_numeric_token(tok));
        assert!(tok.parse::<f64>().is_ok());
    }
    for tok in ["", ".", "+", "e5", "5e", "5e+", "1.2.3", "--5", "abc", "0x10", "5 "] {
        assert!(!is_numeric_token(tok));
        assert!(tok.parse::<f64>().is_err());
    }
}

#[test]
fn parse_accepts_scientific_notation() {
    let pe = parse_input("1e3 + 2.5E-2").unwrap();
    assert_eq!(pe.operand1.parse::<f64>().unwrap(), 1000.0);
    assert_eq!(pe.operand2.parse::<f64>().unwrap(), 0.025);
    assert_eq!(pe.operator, Op::Add);
}

#[test]
fn parse_keeps_operand_order_and_signs() {
    let pe = parse_input("+5 - -3").unwrap();
    assert_eq!(pe.operand1, "+5");
    assert_eq!(pe.operand2, "-3");
    assert_eq!(pe.operator, Op::Sub);
    let a: f64 = pe.operand1.parse().unwrap();
    let b: f64 = pe.operand2.parse().unwrap();
    assert_eq!(run_calculation(a, b, "-").unwrap(), 8.0);
}

#[test]
fn parse_rejects_wrong_arity() {
    assert!(matches!(parse_input(""), Err(ParseError::WrongArity)));
    assert!(matches!(parse_input("   "), Err(ParseError::WrongArity)));
    assert!(matches!(parse_input("5"), Err(ParseError::WrongArity)));
    assert!(matches!(parse_input("5 +"), Err(ParseError::WrongArity)));
    assert!(matches!(parse_input("5 + 5 + 5"), Err(ParseError::WrongArity)));
}

#[test]
fn parse_names_the_first_bad_operand() {
    match parse_input("abc + xyz") {
        Err(ParseError::NotANumber(t)) => assert_eq!(t, "abc"),
        other => panic!("expected NotANumber, got {:?}", other),
    }
    match parse_input("5 + xyz") {
        Err(ParseError::NotANumber(t)) => assert_eq!(t, "xyz"),
        other => panic!("expected NotANumber, got {:?}", other),
    }
}

#[test]
fn parse_checks_numbers_before_the_operator() {
    assert!(matches!(parse_input("abc % 5"), Err(ParseError::NotANumber(_))));
    assert!(matches!(parse_input("5 ** 5"), Err(ParseError::UnknownOperator)));
}

#[test]
fn parse_error_messages() {
    assert_eq!(
        parse_input("5 + ").unwrap_err().message(),
        "Invalid input"
    );
    assert_eq!(
        parse_input("abc + 5").unwrap_err().message(),
        "Invalid number: abc"
    );
    assert_eq!(
        parse_input("5 % 5").unwrap_err().message(),
        "Invalid operator. Use +, -, *, /"
    );
}

#[test]
fn calculate_rejects_unknown_operators() {
    let result = calculate(num(5.0), num(5.0), "%");
    assert!(matches!(result, Err(EvalError::UnsupportedOperator)));
    assert_eq!(result.unwrap_err().message(), "Invalid operator");
    assert!(matches!(
        calculate(num(5.0), num(0.0), "%"),
        Err(EvalError::UnsupportedOperator)
    ));
}

#[test]
fn negative_zero_divisor_is_rejected() {
    let result = run_calculation(5.0, -0.0, "/");
    assert!(matches!(result, Err(EvalError::DivisionByZero)));
}

#[test]
fn underflowed_divisor_is_rejected() {
    let tiny: f64 = "1e-400".parse().unwrap();
    assert_eq!(tiny, 0.0);
    assert!(matches!(
        run_calculation(5.0, tiny, "/"),
        Err(EvalError::DivisionByZero)
    ));
}

#[test]
fn nonzero_divisors_divide() {
    assert_eq!(run_calculation(1.0, 8.0, "/").unwrap(), 0.125);
    assert_eq!(run_calculation(5.0, -2.0, "/").unwrap(), -2.5);
}

#[test]
fn operator_tokens() {
    assert_eq!(op_from_token("+"), Some(Op::Add));
    assert_eq!(op_from_token("-"), Some(Op::Sub));
    assert_eq!(op_from_token("*"), Some(Op::Mul));
    assert_eq!(op_from_token("/"), Some(Op::Div));
    assert_eq!(op_from_token("%"), None);
    assert_eq!(op_from_token("**"), None);
    assert_eq!(op_from_token(""), None);
    for op in [Op::Add, Op::Sub, Op::Mul, Op::Div] {
        assert_eq!(op_from_token(&op.symbol()), Some(op));
    }
}

#[test]
fn quit_command_is_trimmed_and_case_insensitive() {
    assert!(is_quit_command("q"));
    assert!(is_quit_command("Q"));
    assert!(is_quit_command("  q \n"));
    assert!(is_quit_command("\tQ\t"));
    assert!(!is_quit_command("quit"));
    assert!(!is_quit_command("q q"));
    assert!(!is_quit_command(""));
    assert!(!is_quit_command("5 + 5"));
}

#[test]
fn calculation_keeps_the_operands() {
    let c = calculate(num(1.5), num(2.5), "*").unwrap();
    assert_eq!(c.op, Op::Mul);
    assert_eq!(f64::from_bits(c.lhs.bits), 1.5);
    assert_eq!(f64::from_bits(c.rhs.bits), 2.5);
}
