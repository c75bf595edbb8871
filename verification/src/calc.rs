//! The calculation pipeline and its closed error taxonomy.
//!
//! [`perform_calculation`] parses two textual operands as base-10 integers,
//! dispatches on an operator symbol and applies domain validation, stopping
//! at the first failure.  Failures form the closed taxonomy
//! [`CalculationError`]; an operand that does not parse is lifted into it by
//! [`from_parse_failure`] without losing the original failure, and
//! [`error_chain`] walks the embedded causes to produce a diagnostic trace.
//!
//! The successful result of a calculation is reported exactly, as a
//! [`CalcValue`]: the widened arithmetic operations have exact integer
//! results, while a quotient or a square root is reported as the operands it
//! is to be taken of, so that a numeric rendering of any precision can be
//! computed from it by the caller.

use crate::parse::IntParseError;
use crate::parse::int_parse_error_text;
use crate::parse::parse_i32;
use crate::parse::parse_number;
use crate::text::str_eq;
use vstd::prelude::*;
use vstd::string::StringExecFns;

verus! {

/// The exact value a successful calculation produced.
#[derive(Clone, Copy, Debug, PartialEq, Eq, Structural)]
pub enum CalcValue {
    /// The exact integer result of an addition, subtraction or
    /// multiplication of the two operands.
    Exact(i64),
    /// The quotient of the two operands of a division; the divisor is never
    /// zero.
    Quotient(i32, i32),
    /// The square root of the operand, which is never negative.
    SquareRoot(i32),
}

/// The closed taxonomy of calculation failures.
#[derive(Clone, Debug, PartialEq, Eq)]
pub enum CalculationError {
    /// The divisor of a division was zero.
    DivisionByZero,
    /// The operand of a square root was negative.
    NegativeSquareRoot,
    /// An operand failed integer parsing; the original failure is embedded
    /// as the cause.
    ParseError(IntParseError),
    /// The operator symbol was not recognized; the message names it.
    InvalidInput(String),
}

/// Either a value of type `T` or a `CalculationError`.
pub type CalculationResult<T> = Result<T, CalculationError>;

/// Lifts a primitive integer-parsing failure into the taxonomy, keeping
/// the original failure embedded as the cause.  Total: it never fails and
/// never discards information.
pub fn from_parse_failure(e: IntParseError) -> (r: CalculationError)
    ensures
        r == CalculationError::ParseError(e),
{
    CalculationError::ParseError(e)
}

/// The display text of each taxonomy variant.
pub open spec fn calculation_error_text(e: CalculationError) -> Seq<char> {
    match e {
        CalculationError::DivisionByZero => "Cannot divide by zero"@,
        CalculationError::NegativeSquareRoot => "Cannot calculate square root of negative number"@,
        CalculationError::ParseError(p) => "Parse error: "@ + int_parse_error_text(p),
        CalculationError::InvalidInput(m) => "Invalid input: "@ + m@,
    }
}

/// The diagnostic trace of an error: its own display text followed by the
/// display text of each embedded cause, outermost first.
pub open spec fn error_chain_text(e: CalculationError) -> Seq<Seq<char>> {
    match e {
        CalculationError::ParseError(p) => seq![
            calculation_error_text(e),
            int_parse_error_text(p),
        ],
        _ => seq![calculation_error_text(e)],
    }
}

impl CalculationError {
    /// The display text of the error.
    pub fn to_display_string(&self) -> (r: String)
        ensures
            r@ == calculation_error_text(*self),
    {
        match self {
            CalculationError::DivisionByZero => String::from_str("Cannot divide by zero"),
            CalculationError::NegativeSquareRoot => String::from_str(
                "Cannot calculate square root of negative number",
            ),
            CalculationError::ParseError(p) => {
                let inner = p.to_display_string();
                String::from_str("Parse error: ").concat(inner.as_str())
            },
            CalculationError::InvalidInput(m) => String::from_str("Invalid input: ").concat(
                m.as_str(),
            ),
        }
    }

    /// The embedded lower-level failure that triggered this error, if any.
    /// Only `ParseError` carries a cause.
    pub fn cause(&self) -> (r: Option<&IntParseError>)
        ensures
            match *self {
                CalculationError::ParseError(p) => r matches Some(c) && *c == p,
                _ => r is None,
            },
    {
        match self {
            CalculationError::ParseError(p) => Some(p),
            _ => None,
        }
    }
}

/// Walks the chain of embedded causes of `e` and returns the ordered
/// diagnostic trace: the error's own display text, then its cause's, and so
/// on down to the first error without a cause.
pub fn error_chain(e: &CalculationError) -> (r: Vec<String>)
    ensures
        r@.len() == error_chain_text(*e).len(),
        forall|i: int| 0 <= i < r@.len() ==> r@[i]@ == error_chain_text(*e)[i],
{
    let mut out: Vec<String> = Vec::new();
    out.push(e.to_display_string());
    match e.cause() {
        Some(c) => {
            out.push(c.to_display_string());
        },
        None => {},
    }
    out
}

/// What the calculation pipeline returns, for every triple of inputs: the
/// two operands are parsed in order, short-circuiting to `ParseError` on
/// the first operand that does not parse; then the operator symbol picks
/// the operation, with `divide` guarded against a zero divisor, `sqrt`
/// guarded against a negative operand (its second operand is ignored), and
/// every symbol outside the vocabulary reported as `InvalidInput`.
pub open spec fn calculation_outcome(
    a: Seq<char>,
    b: Seq<char>,
    op: Seq<char>,
    r: Result<CalcValue, CalculationError>,
) -> bool {
    match (parse_i32(a), parse_i32(b)) {
        (Err(e), _) => r == Err::<CalcValue, CalculationError>(CalculationError::ParseError(e)),
        (_, Err(e)) => r == Err::<CalcValue, CalculationError>(CalculationError::ParseError(e)),
        (Ok(x), Ok(y)) => if op == "add"@ {
            r == Ok::<CalcValue, CalculationError>(CalcValue::Exact((x + y) as i64))
        } else if op == "subtract"@ {
            r == Ok::<CalcValue, CalculationError>(CalcValue::Exact((x - y) as i64))
        } else if op == "multiply"@ {
            r == Ok::<CalcValue, CalculationError>(CalcValue::Exact((x * y) as i64))
        } else if op == "divide"@ {
            if y == 0 {
                r == Err::<CalcValue, CalculationError>(CalculationError::DivisionByZero)
            } else {
                r == Ok::<CalcValue, CalculationError>(CalcValue::Quotient(x, y))
            }
        } else if op == "sqrt"@ {
            if x < 0 {
                r == Err::<CalcValue, CalculationError>(CalculationError::NegativeSquareRoot)
            } else {
                r == Ok::<CalcValue, CalculationError>(CalcValue::SquareRoot(x))
            }
        } else {
            r matches Err(e) && e matches CalculationError::InvalidInput(m) && m@
                == "Unknown operation: "@ + op
        },
    }
}

/// Parses the two operands as base-10 integers, dispatches on the operator
/// symbol and applies domain validation, stopping at the first failure.
pub fn perform_calculation(a: &str, b: &str, operation: &str) -> (r: CalculationResult<CalcValue>)
    ensures
        calculation_outcome(a@, b@, operation@, r),
{
    let num_a = match parse_number(a) {
        Ok(v) => v,
        Err(e) => return Err(from_parse_failure(e)),
    };
    let num_b = match parse_number(b) {
        Ok(v) => v,
        Err(e) => return Err(from_parse_failure(e)),
    };
    if str_eq(operation, "add") {
        Ok(CalcValue::Exact(num_a as i64 + num_b as i64))
    } else if str_eq(operation, "subtract") {
        Ok(CalcValue::Exact(num_a as i64 - num_b as i64))
    } else if str_eq(operation, "multiply") {
        proof {
            assert((num_a as int) * (num_b as int) <= 0x4000_0000_0000_0000 && (num_a as int) * (
            num_b as int) >= -0x4000_0000_0000_0000) by (nonlinear_arith)
                requires
                    -0x8000_0000 <= num_a as int <= 0x7FFF_FFFF,
                    -0x8000_0000 <= num_b as int <= 0x7FFF_FFFF,
            ;
        }
        Ok(CalcValue::Exact(num_a as i64 * num_b as i64))
    } else if str_eq(operation, "divide") {
        if num_b == 0 {
            Err(CalculationError::DivisionByZero)
        } else {
            Ok(CalcValue::Quotient(num_a, num_b))
        }
    } else if str_eq(operation, "sqrt") {
        if num_a < 0 {
            Err(CalculationError::NegativeSquareRoot)
        } else {
            Ok(CalcValue::SquareRoot(num_a))
        }
    } else {
        Err(
            CalculationError::InvalidInput(
                String::from_str("Unknown operation: ").concat(operation),
            ),
        )
    }
}

/// Parses the text as an integer and returns twice its value, lifting a
/// parse failure into the taxonomy.
pub fn parse_and_double(s: &str) -> (r: CalculationResult<i32>)
    requires
        parse_i32(s@) matches Ok(v) ==> i32::MIN <= 2 * v <= i32::MAX,
    ensures
        match parse_i32(s@) {
            Ok(v) => r == Ok::<i32, CalculationError>((2 * v) as i32),
            Err(e) => r == Err::<i32, CalculationError>(CalculationError::ParseError(e)),
        },
{
    let num = match parse_number(s) {
        Ok(v) => v,
        Err(e) => return Err(from_parse_failure(e)),
    };
    Ok(num * 2)
}

/// Arithmetic correctness: whenever both operands parse and the operation
/// is `add`, `subtract` or `multiply`, the pipeline succeeds with exactly
/// the corresponding integer arithmetic on the parsed operands.
pub proof fn lemma_arithmetic_exact(
    a: Seq<char>,
    b: Seq<char>,
    op: Seq<char>,
    r: Result<CalcValue, CalculationError>,
)
    requires
        calculation_outcome(a, b, op, r),
        parse_i32(a) is Ok,
        parse_i32(b) is Ok,
        op == "add"@ || op == "subtract"@ || op == "multiply"@,
    ensures
        op == "add"@ ==> (parse_i32(a) matches Ok(x) && parse_i32(b) matches Ok(y) && r
            == Ok::<CalcValue, CalculationError>(CalcValue::Exact((x + y) as i64))),
        op == "subtract"@ ==> (parse_i32(a) matches Ok(x) && parse_i32(b) matches Ok(y) && r
            == Ok::<CalcValue, CalculationError>(CalcValue::Exact((x - y) as i64))),
        op == "multiply"@ ==> (parse_i32(a) matches Ok(x) && parse_i32(b) matches Ok(y) && r
            == Ok::<CalcValue, CalculationError>(CalcValue::Exact((x * y) as i64))),
{
    reveal_strlit("add");
    reveal_strlit("subtract");
    reveal_strlit("multiply");
    assert("add"@.len() == 3 && "subtract"@.len() == 8 && "multiply"@.len() == 8);
    assert("subtract"@[0] == 's' && "multiply"@[0] == 'm');
}

/// Division guard: whatever the first operand is, as long as it parses,
/// dividing by the text `0` reports `DivisionByZero`.
pub proof fn lemma_division_guard(a: Seq<char>, r: Result<CalcValue, CalculationError>)
    requires
        calculation_outcome(a, "0"@, "divide"@, r),
        parse_i32(a) is Ok,
    ensures
        r == Err::<CalcValue, CalculationError>(CalculationError::DivisionByZero),
{
    reveal_strlit("0");
    reveal_strlit("divide");
    reveal_strlit("add");
    reveal_strlit("subtract");
    reveal_strlit("multiply");
    assert(parse_i32("0"@) == Ok::<i32, IntParseError>(0i32)) by {
        reveal_with_fuel(crate::parse::parse_digits, 3);
        assert("0"@.len() == 1);
        assert("0"@[0] == '0');
    };
    assert("divide"@.len() == 6 && "add"@.len() == 3 && "subtract"@.len() == 8 && "multiply"@.len()
        == 8);
}

/// Square-root guard: whenever the first operand parses to a negative
/// value and the second operand parses at all, `sqrt` reports
/// `NegativeSquareRoot`.
pub proof fn lemma_sqrt_guard(a: Seq<char>, b: Seq<char>, r: Result<CalcValue, CalculationError>)
    requires
        calculation_outcome(a, b, "sqrt"@, r),
        parse_i32(a) matches Ok(x) && x < 0,
        parse_i32(b) is Ok,
    ensures
        r == Err::<CalcValue, CalculationError>(CalculationError::NegativeSquareRoot),
{
    reveal_strlit("sqrt");
    reveal_strlit("add");
    reveal_strlit("subtract");
    reveal_strlit("multiply");
    reveal_strlit("divide");
    assert("sqrt"@.len() == 4 && "add"@.len() == 3 && "subtract"@.len() == 8 && "multiply"@.len()
        == 8 && "divide"@.len() == 6);
}

/// Unknown operation: whenever both operands parse and the operator symbol
/// is none of the vocabulary, the pipeline reports `InvalidInput` with the
/// exact message naming the symbol.
pub proof fn lemma_unknown_operation(
    a: Seq<char>,
    b: Seq<char>,
    op: Seq<char>,
    r: Result<CalcValue, CalculationError>,
)
    requires
        calculation_outcome(a, b, op, r),
        parse_i32(a) is Ok,
        parse_i32(b) is Ok,
        op != "add"@,
        op != "subtract"@,
        op != "multiply"@,
        op != "divide"@,
        op != "sqrt"@,
    ensures
        r matches Err(e) && e matches CalculationError::InvalidInput(m) && m@
            == "Unknown operation: "@ + op,
{
}

/// A parse failure carries exactly one embedded cause, so its diagnostic
/// trace has exactly two lines: the error's own display text and the
/// cause's display text.
pub proof fn lemma_parse_failure_trace(e: CalculationError)
    requires
        e is ParseError,
    ensures
        error_chain_text(e).len() == 2,
        error_chain_text(e)[0] == calculation_error_text(e),
        e matches CalculationError::ParseError(p) ==> error_chain_text(e)[1]
            == int_parse_error_text(p),
{
}

/// Every variant other than a parse failure has no cause: its diagnostic
/// trace is the single display line.
pub proof fn lemma_terminal_trace(e: CalculationError)
    requires
        !(e is ParseError),
    ensures
        error_chain_text(e).len() == 1,
        error_chain_text(e)[0] == calculation_error_text(e),
{
}

/// Display formatting is a pure function of the error value: two renderings
/// of the same error are identical, character for character.
pub proof fn lemma_display_deterministic(e: CalculationError, s1: Seq<char>, s2: Seq<char>)
    requires
        s1 == calculation_error_text(e),
        s2 == calculation_error_text(e),
    ensures
        s1 == s2,
{
}

} // verus!
