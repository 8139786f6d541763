//! What the generated WGSL means, stated against what the cell code means.
//!
//! The translation is text to text, so its laws are stated through two
//! independent dictionaries: the meaning of the Rust operators and methods
//! that cell code may use, and the meaning of the WGSL operators and
//! built-ins that the shaders use. Each law says that what the emitter
//! writes means, in WGSL, what the cell code meant in Rust.
use vstd::prelude::*;
use crate::ast::BinOp;
use crate::emit::{binop_text, arith_text, unary_method_text, binary_method_text, op_step, op_init, difference_text,
    laplacian_open, op_result,
    EmitEnv, SpatialKind, SpatialOpView};
use crate::stage::{tile_origin_text, tile_loop_text, local_coords_text};
use crate::shader::shared_decls_text;
use crate::text::dec;

verus! {

/// The value of an operation on numbers (modelled as integers) or truth values.
pub enum Val {
    Num(int),
    Bool(bool),
    /// Division by zero.
    Undefined,
}

/// What a binary operator of cell code computes, as Rust defines it.
pub open spec fn rust_binary(op: BinOp, x: int, y: int, p: bool, q: bool) -> Option<Val> {
    match op {
        BinOp::Add => Some(Val::Num(x + y)),
        BinOp::Sub => Some(Val::Num(x - y)),
        BinOp::Mul => Some(Val::Num(x * y)),
        BinOp::Div => Some(if y != 0 { Val::Num(x / y) } else { Val::Undefined }),
        BinOp::Eq => Some(Val::Bool(x == y)),
        BinOp::Ne => Some(Val::Bool(x != y)),
        BinOp::Lt => Some(Val::Bool(x < y)),
        BinOp::Gt => Some(Val::Bool(x > y)),
        BinOp::Le => Some(Val::Bool(x <= y)),
        BinOp::Ge => Some(Val::Bool(x >= y)),
        BinOp::And => Some(Val::Bool(p && q)),
        BinOp::Or => Some(Val::Bool(p || q)),
        BinOp::Other => None,
    }
}

/// What a WGSL binary operator computes, by its spelling.
pub open spec fn wgsl_binary(t: Seq<char>, x: int, y: int, p: bool, q: bool) -> Option<Val> {
    if t == "+"@ { Some(Val::Num(x + y)) }
    else if t == "-"@ { Some(Val::Num(x - y)) }
    else if t == "*"@ { Some(Val::Num(x * y)) }
    else if t == "/"@ { Some(if y != 0 { Val::Num(x / y) } else { Val::Undefined }) }
    else if t == "=="@ { Some(Val::Bool(x == y)) }
    else if t == "!="@ { Some(Val::Bool(x != y)) }
    else if t == "<"@ { Some(Val::Bool(x < y)) }
    else if t == ">"@ { Some(Val::Bool(x > y)) }
    else if t == "<="@ { Some(Val::Bool(x <= y)) }
    else if t == ">="@ { Some(Val::Bool(x >= y)) }
    else if t == "&&"@ { Some(Val::Bool(p && q)) }
    else if t == "||"@ { Some(Val::Bool(p || q)) }
    else { None }
}

/// Every operator of cell code is written as the WGSL operator that
/// computes the same thing, on all operands: `a < b` tests `a < b`,
/// `a - b` subtracts `b` from `a`, and so on; only unsupported operators
/// have no spelling. The same holds of the arithmetic operators that the
/// neighbour stencils rewrite.
pub proof fn law_operators_keep_their_meaning(op: BinOp, x: int, y: int, p: bool, q: bool)
    ensures
        binop_text(op) matches Some(t) ==> wgsl_binary(t, x, y, p, q) == rust_binary(op, x, y, p, q),
        binop_text(op) is None <==> op is Other,
        arith_text(op) matches Some(t) ==> wgsl_binary(t, x, y, p, q) == rust_binary(op, x, y, p, q),
        arith_text(op) is Some <==> (op is Add || op is Sub || op is Mul || op is Div),
{
    reveal_strlit("+");
    assert("+"@.len() == 1);
    assert("+"@[0] == '+');
    reveal_strlit("-");
    assert("-"@.len() == 1);
    assert("-"@[0] == '-');
    reveal_strlit("*");
    assert("*"@.len() == 1);
    assert("*"@[0] == '*');
    reveal_strlit("/");
    assert("/"@.len() == 1);
    assert("/"@[0] == '/');
    reveal_strlit("==");
    assert("=="@.len() == 2);
    assert("=="@[0] == '=');
    assert("=="@[1] == '=');
    reveal_strlit("!=");
    assert("!="@.len() == 2);
    assert("!="@[0] == '!');
    assert("!="@[1] == '=');
    reveal_strlit("<");
    assert("<"@.len() == 1);
    assert("<"@[0] == '<');
    reveal_strlit(">");
    assert(">"@.len() == 1);
    assert(">"@[0] == '>');
    reveal_strlit("<=");
    assert("<="@.len() == 2);
    assert("<="@[0] == '<');
    assert("<="@[1] == '=');
    reveal_strlit(">=");
    assert(">="@.len() == 2);
    assert(">="@[0] == '>');
    assert(">="@[1] == '=');
    reveal_strlit("&&");
    assert("&&"@.len() == 2);
    assert("&&"@[0] == '&');
    assert("&&"@[1] == '&');
    reveal_strlit("||");
    assert("||"@.len() == 2);
    assert("||"@[0] == '|');
    assert("||"@[1] == '|');
    match op {
        BinOp::Add => { assert(wgsl_binary("+"@, x, y, p, q) == Some(Val::Num(x + y))); },
        BinOp::Sub => { assert(wgsl_binary("-"@, x, y, p, q) == Some(Val::Num(x - y))); },
        BinOp::Mul => { assert(wgsl_binary("*"@, x, y, p, q) == Some(Val::Num(x * y))); },
        BinOp::Div => {},
        BinOp::Eq => {},
        BinOp::Ne => {},
        BinOp::Lt => {},
        BinOp::Gt => {},
        BinOp::Le => {},
        BinOp::Ge => {},
        BinOp::And => {},
        BinOp::Or => {},
        BinOp::Other => {},
    }
}

/// The mathematical functions that cell-code methods and WGSL built-ins name.
pub enum MathFn {
    Sin,
    Cos,
    Tan,
    Sqrt,
    Abs,
    Floor,
    Ceil,
    /// Rounding half away from zero (Rust's `round`).
    RoundHalfAway,
    /// Rounding half to even (WGSL's `round`).
    RoundHalfEven,
    /// The sign, with `signum(+0.0) == 1.0` (Rust).
    SignNonzero,
    /// The sign, with `sign(0.0) == 0.0` (WGSL).
    Sign,
    Exp,
    NaturalLog,
    Log2,
    /// `x - trunc(x)` (Rust's `fract`).
    FractTrunc,
    /// `x - floor(x)` (WGSL's `fract`).
    FractFloor,
    Length,
    Normalize,
    Pow,
    Min,
    Max,
    Dot,
    Cross,
}

/// The function a method of cell code computes, as the Rust method of that
/// name on `f32` and the vector types does.
pub open spec fn rust_method_fn(m: Seq<char>) -> Option<MathFn> {
    if m == "sin"@ { Some(MathFn::Sin) }
    else if m == "cos"@ { Some(MathFn::Cos) }
    else if m == "tan"@ { Some(MathFn::Tan) }
    else if m == "sqrt"@ { Some(MathFn::Sqrt) }
    else if m == "abs"@ { Some(MathFn::Abs) }
    else if m == "floor"@ { Some(MathFn::Floor) }
    else if m == "ceil"@ { Some(MathFn::Ceil) }
    else if m == "round"@ { Some(MathFn::RoundHalfAway) }
    else if m == "signum"@ { Some(MathFn::SignNonzero) }
    else if m == "exp"@ { Some(MathFn::Exp) }
    else if m == "ln"@ { Some(MathFn::NaturalLog) }
    else if m == "log2"@ { Some(MathFn::Log2) }
    else if m == "fract"@ { Some(MathFn::FractTrunc) }
    else if m == "length"@ { Some(MathFn::Length) }
    else if m == "normalize"@ { Some(MathFn::Normalize) }
    else if m == "powf"@ { Some(MathFn::Pow) }
    else if m == "min"@ { Some(MathFn::Min) }
    else if m == "max"@ { Some(MathFn::Max) }
    else if m == "dot"@ { Some(MathFn::Dot) }
    else if m == "cross"@ { Some(MathFn::Cross) }
    else { None }
}

/// The function a WGSL built-in computes, by its name.
pub open spec fn wgsl_builtin_fn(f: Seq<char>) -> Option<MathFn> {
    if f == "sin"@ { Some(MathFn::Sin) }
    else if f == "cos"@ { Some(MathFn::Cos) }
    else if f == "tan"@ { Some(MathFn::Tan) }
    else if f == "sqrt"@ { Some(MathFn::Sqrt) }
    else if f == "abs"@ { Some(MathFn::Abs) }
    else if f == "floor"@ { Some(MathFn::Floor) }
    else if f == "ceil"@ { Some(MathFn::Ceil) }
    else if f == "round"@ { Some(MathFn::RoundHalfEven) }
    else if f == "sign"@ { Some(MathFn::Sign) }
    else if f == "exp"@ { Some(MathFn::Exp) }
    else if f == "log"@ { Some(MathFn::NaturalLog) }
    else if f == "log2"@ { Some(MathFn::Log2) }
    else if f == "fract"@ { Some(MathFn::FractFloor) }
    else if f == "length"@ { Some(MathFn::Length) }
    else if f == "normalize"@ { Some(MathFn::Normalize) }
    else if f == "pow"@ { Some(MathFn::Pow) }
    else if f == "min"@ { Some(MathFn::Min) }
    else if f == "max"@ { Some(MathFn::Max) }
    else if f == "dot"@ { Some(MathFn::Dot) }
    else if f == "cross"@ { Some(MathFn::Cross) }
    else { None }
}

/// The value of the two-argument functions that pick one of their
/// arguments, on numbers.
pub open spec fn pick_value(f: MathFn, x: int, y: int) -> Option<int> {
    match f {
        MathFn::Min => Some(if x <= y { x } else { y }),
        MathFn::Max => Some(if x >= y { x } else { y }),
        _ => None,
    }
}

/// Every recognised method is written as the WGSL built-in of the same
/// mathematical function: `x.min(y)` as WGSL `min`, the smaller of the two,
/// `x.max(y)` as `max`, `x.ln()` as `log`, and so on. Three methods are
/// written as the nearest WGSL built-in, whose meaning differs from Rust's
/// on some inputs: `round` (halves), `signum` (zero) and `fract` (negative
/// numbers); for them the law states which functions they become.
pub proof fn law_methods_keep_their_meaning(m: Seq<char>, x: int, y: int)
    ensures
        unary_method_text(m) matches Some(t) ==> rust_method_fn(m) is Some && wgsl_builtin_fn(t) is Some,
        unary_method_text(m) matches Some(t) ==> (m != "round"@ && m != "signum"@ && m != "fract"@
            ==> wgsl_builtin_fn(t) == rust_method_fn(m)),
        unary_method_text(m) matches Some(t) ==> (m == "round"@ ==> wgsl_builtin_fn(t) == Some(MathFn::RoundHalfEven)),
        unary_method_text(m) matches Some(t) ==> (m == "signum"@ ==> wgsl_builtin_fn(t) == Some(MathFn::Sign)),
        unary_method_text(m) matches Some(t) ==> (m == "fract"@ ==> wgsl_builtin_fn(t) == Some(MathFn::FractFloor)),
        binary_method_text(m) matches Some(t) ==> rust_method_fn(m) is Some && wgsl_builtin_fn(t) == rust_method_fn(m),
        binary_method_text(m) matches Some(t) ==> (m == "min"@ ==> pick_value(wgsl_builtin_fn(t)->0, x, y) == Some(if x <= y { x } else { y })),
        binary_method_text(m) matches Some(t) ==> (m == "max"@ ==> pick_value(wgsl_builtin_fn(t)->0, x, y) == Some(if x >= y { x } else { y })),
{
    reveal_strlit("sin");
    assert("sin"@.len() == 3);
    assert("sin"@[0] == 's');
    assert("sin"@[1] == 'i');
    assert("sin"@[2] == 'n');
    reveal_strlit("cos");
    assert("cos"@.len() == 3);
    assert("cos"@[0] == 'c');
    assert("cos"@[1] == 'o');
    assert("cos"@[2] == 's');
    reveal_strlit("tan");
    assert("tan"@.len() == 3);
    assert("tan"@[0] == 't');
    assert("tan"@[1] == 'a');
    assert("tan"@[2] == 'n');
    reveal_strlit("sqrt");
    assert("sqrt"@.len() == 4);
    assert("sqrt"@[0] == 's');
    assert("sqrt"@[1] == 'q');
    assert("sqrt"@[2] == 'r');
    reveal_strlit("abs");
    assert("abs"@.len() == 3);
    assert("abs"@[0] == 'a');
    assert("abs"@[1] == 'b');
    assert("abs"@[2] == 's');
    reveal_strlit("floor");
    assert("floor"@.len() == 5);
    assert("floor"@[0] == 'f');
    assert("floor"@[1] == 'l');
    assert("floor"@[2] == 'o');
    reveal_strlit("ceil");
    assert("ceil"@.len() == 4);
    assert("ceil"@[0] == 'c');
    assert("ceil"@[1] == 'e');
    assert("ceil"@[2] == 'i');
    reveal_strlit("round");
    assert("round"@.len() == 5);
    assert("round"@[0] == 'r');
    assert("round"@[1] == 'o');
    assert("round"@[2] == 'u');
    reveal_strlit("signum");
    assert("signum"@.len() == 6);
    assert("signum"@[0] == 's');
    assert("signum"@[1] == 'i');
    assert("signum"@[2] == 'g');
    reveal_strlit("sign");
    assert("sign"@.len() == 4);
    assert("sign"@[0] == 's');
    assert("sign"@[1] == 'i');
    assert("sign"@[2] == 'g');
    reveal_strlit("exp");
    assert("exp"@.len() == 3);
    assert("exp"@[0] == 'e');
    assert("exp"@[1] == 'x');
    assert("exp"@[2] == 'p');
    reveal_strlit("ln");
    assert("ln"@.len() == 2);
    assert("ln"@[0] == 'l');
    assert("ln"@[1] == 'n');
    reveal_strlit("log");
    assert("log"@.len() == 3);
    assert("log"@[0] == 'l');
    assert("log"@[1] == 'o');
    assert("log"@[2] == 'g');
    reveal_strlit("log2");
    assert("log2"@.len() == 4);
    assert("log2"@[0] == 'l');
    assert("log2"@[1] == 'o');
    assert("log2"@[2] == 'g');
    reveal_strlit("fract");
    assert("fract"@.len() == 5);
    assert("fract"@[0] == 'f');
    assert("fract"@[1] == 'r');
    assert("fract"@[2] == 'a');
    reveal_strlit("length");
    assert("length"@.len() == 6);
    assert("length"@[0] == 'l');
    assert("length"@[1] == 'e');
    assert("length"@[2] == 'n');
    reveal_strlit("normalize");
    assert("normalize"@.len() == 9);
    assert("normalize"@[0] == 'n');
    assert("normalize"@[1] == 'o');
    assert("normalize"@[2] == 'r');
    reveal_strlit("powf");
    assert("powf"@.len() == 4);
    assert("powf"@[0] == 'p');
    assert("powf"@[1] == 'o');
    assert("powf"@[2] == 'w');
    reveal_strlit("pow");
    assert("pow"@.len() == 3);
    assert("pow"@[0] == 'p');
    assert("pow"@[1] == 'o');
    assert("pow"@[2] == 'w');
    reveal_strlit("min");
    assert("min"@.len() == 3);
    assert("min"@[0] == 'm');
    assert("min"@[1] == 'i');
    assert("min"@[2] == 'n');
    reveal_strlit("max");
    assert("max"@.len() == 3);
    assert("max"@[0] == 'm');
    assert("max"@[1] == 'a');
    assert("max"@[2] == 'x');
    reveal_strlit("dot");
    assert("dot"@.len() == 3);
    assert("dot"@[0] == 'd');
    assert("dot"@[1] == 'o');
    assert("dot"@[2] == 't');
    reveal_strlit("cross");
    assert("cross"@.len() == 5);
    assert("cross"@[0] == 'c');
    assert("cross"@[1] == 'r');
    assert("cross"@[2] == 'o');
}

// ---------------------------------------------------------------------------
// Neighbour aggregation
// ---------------------------------------------------------------------------

/// What a neighbour aggregation folds its values with, as the operator
/// names it: `nb.min` and `nb.min_where` keep the smaller value, `nb.max`
/// and `nb.max_where` the larger.
pub open spec fn fold_of(k: SpatialKind) -> Option<MathFn> {
    match k {
        SpatialKind::Min | SpatialKind::MinWhere => Some(MathFn::Min),
        SpatialKind::Max | SpatialKind::MaxWhere => Some(MathFn::Max),
        _ => None,
    }
}

/// The accumulator of the operator bound to `var`.
pub open spec fn acc_of(var: Seq<char>) -> Seq<char> {
    var + "_acc"@
}

/// The step of `nb.min` / `nb.max` (and their filtered forms, under their
/// filter `c`) replaces the accumulator by a WGSL built-in applied to the
/// accumulator and the closure's value, and that built-in keeps the smaller
/// value for `min` and the larger for `max`: on numbers it gives the
/// minimum, respectively the maximum, of the two. The minimum starts from a
/// large value and the maximum from its negation.
pub proof fn law_min_max_fold(var: Seq<char>, cw: Seq<char>, c: Seq<char>, fw: Option<Seq<char>>, x: int, y: int)
    ensures
        exists|f: Seq<char>| #![trigger wgsl_builtin_fn(f)]
            op_step(SpatialKind::Min, var, cw, fw) == "                "@ + acc_of(var) + " = "@ + f + "("@ + acc_of(var) + ", "@ + cw + ");\n"@
            && wgsl_builtin_fn(f) == fold_of(SpatialKind::Min)
            && pick_value(wgsl_builtin_fn(f)->0, x, y) == Some(if x <= y { x } else { y }),
        exists|f: Seq<char>| #![trigger wgsl_builtin_fn(f)]
            op_step(SpatialKind::Max, var, cw, fw) == "                "@ + acc_of(var) + " = "@ + f + "("@ + acc_of(var) + ", "@ + cw + ");\n"@
            && wgsl_builtin_fn(f) == fold_of(SpatialKind::Max)
            && pick_value(wgsl_builtin_fn(f)->0, x, y) == Some(if x >= y { x } else { y }),
        exists|f: Seq<char>| #![trigger wgsl_builtin_fn(f)]
            op_step(SpatialKind::MinWhere, var, cw, Some(c)) == "                if ("@ + c + ") { "@ + acc_of(var) + " = "@ + f + "("@ + acc_of(var) + ", "@ + cw + "); }\n"@
            && wgsl_builtin_fn(f) == fold_of(SpatialKind::MinWhere),
        exists|f: Seq<char>| #![trigger wgsl_builtin_fn(f)]
            op_step(SpatialKind::MaxWhere, var, cw, Some(c)) == "                if ("@ + c + ") { "@ + acc_of(var) + " = "@ + f + "("@ + acc_of(var) + ", "@ + cw + "); }\n"@
            && wgsl_builtin_fn(f) == fold_of(SpatialKind::MaxWhere),
        op_init(SpatialKind::MinWhere) == op_init(SpatialKind::Min),
        op_init(SpatialKind::MaxWhere) == op_init(SpatialKind::Max),
        op_init(SpatialKind::Max) == "-"@ + op_init(SpatialKind::Min),
{
    reveal_strlit(" = min(");
    reveal_strlit(" = max(");
    reveal_strlit(" = ");
    reveal_strlit("min");
    reveal_strlit("max");
    reveal_strlit("(");
    reveal_strlit("-999999.0");
    reveal_strlit("999999.0");
    reveal_strlit("-");
    assert("min"@.len() == 3); assert("min"@[1] == 'i');
    assert("max"@.len() == 3); assert("max"@[1] == 'a');
    assert(wgsl_builtin_fn("min"@) == Some(MathFn::Min)) by {
        reveal_strlit("sin"); assert("sin"@.len() == 3); assert("sin"@[0] == 's'); assert("sin"@[1] == 'i'); assert("sin"@[2] == 'n');
        reveal_strlit("cos"); assert("cos"@.len() == 3); assert("cos"@[0] == 'c'); assert("cos"@[1] == 'o'); assert("cos"@[2] == 's');
        reveal_strlit("tan"); assert("tan"@.len() == 3); assert("tan"@[0] == 't'); assert("tan"@[1] == 'a'); assert("tan"@[2] == 'n');
        reveal_strlit("sqrt"); assert("sqrt"@.len() == 4); assert("sqrt"@[0] == 's'); assert("sqrt"@[1] == 'q'); assert("sqrt"@[2] == 'r');
        reveal_strlit("abs"); assert("abs"@.len() == 3); assert("abs"@[0] == 'a'); assert("abs"@[1] == 'b'); assert("abs"@[2] == 's');
        reveal_strlit("floor"); assert("floor"@.len() == 5); assert("floor"@[0] == 'f'); assert("floor"@[1] == 'l'); assert("floor"@[2] == 'o');
        reveal_strlit("ceil"); assert("ceil"@.len() == 4); assert("ceil"@[0] == 'c'); assert("ceil"@[1] == 'e'); assert("ceil"@[2] == 'i');
        reveal_strlit("round"); assert("round"@.len() == 5); assert("round"@[0] == 'r'); assert("round"@[1] == 'o'); assert("round"@[2] == 'u');
        reveal_strlit("sign"); assert("sign"@.len() == 4); assert("sign"@[0] == 's'); assert("sign"@[1] == 'i'); assert("sign"@[2] == 'g');
        reveal_strlit("exp"); assert("exp"@.len() == 3); assert("exp"@[0] == 'e'); assert("exp"@[1] == 'x'); assert("exp"@[2] == 'p');
        reveal_strlit("log"); assert("log"@.len() == 3); assert("log"@[0] == 'l'); assert("log"@[1] == 'o'); assert("log"@[2] == 'g');
        reveal_strlit("log2"); assert("log2"@.len() == 4); assert("log2"@[0] == 'l'); assert("log2"@[1] == 'o'); assert("log2"@[2] == 'g');
        reveal_strlit("fract"); assert("fract"@.len() == 5); assert("fract"@[0] == 'f'); assert("fract"@[1] == 'r'); assert("fract"@[2] == 'a');
        reveal_strlit("length"); assert("length"@.len() == 6); assert("length"@[0] == 'l'); assert("length"@[1] == 'e'); assert("length"@[2] == 'n');
        reveal_strlit("normalize"); assert("normalize"@.len() == 9); assert("normalize"@[0] == 'n'); assert("normalize"@[1] == 'o'); assert("normalize"@[2] == 'r');
        reveal_strlit("pow"); assert("pow"@.len() == 3); assert("pow"@[0] == 'p'); assert("pow"@[1] == 'o'); assert("pow"@[2] == 'w');
        reveal_strlit("min"); assert("min"@.len() == 3); assert("min"@[0] == 'm'); assert("min"@[1] == 'i'); assert("min"@[2] == 'n');
    }
    assert(wgsl_builtin_fn("max"@) == Some(MathFn::Max)) by {
        reveal_strlit("sin"); assert("sin"@.len() == 3); assert("sin"@[0] == 's'); assert("sin"@[1] == 'i'); assert("sin"@[2] == 'n');
        reveal_strlit("cos"); assert("cos"@.len() == 3); assert("cos"@[0] == 'c'); assert("cos"@[1] == 'o'); assert("cos"@[2] == 's');
        reveal_strlit("tan"); assert("tan"@.len() == 3); assert("tan"@[0] == 't'); assert("tan"@[1] == 'a'); assert("tan"@[2] == 'n');
        reveal_strlit("sqrt"); assert("sqrt"@.len() == 4); assert("sqrt"@[0] == 's'); assert("sqrt"@[1] == 'q'); assert("sqrt"@[2] == 'r');
        reveal_strlit("abs"); assert("abs"@.len() == 3); assert("abs"@[0] == 'a'); assert("abs"@[1] == 'b'); assert("abs"@[2] == 's');
        reveal_strlit("floor"); assert("floor"@.len() == 5); assert("floor"@[0] == 'f'); assert("floor"@[1] == 'l'); assert("floor"@[2] == 'o');
        reveal_strlit("ceil"); assert("ceil"@.len() == 4); assert("ceil"@[0] == 'c'); assert("ceil"@[1] == 'e'); assert("ceil"@[2] == 'i');
        reveal_strlit("round"); assert("round"@.len() == 5); assert("round"@[0] == 'r'); assert("round"@[1] == 'o'); assert("round"@[2] == 'u');
        reveal_strlit("sign"); assert("sign"@.len() == 4); assert("sign"@[0] == 's'); assert("sign"@[1] == 'i'); assert("sign"@[2] == 'g');
        reveal_strlit("exp"); assert("exp"@.len() == 3); assert("exp"@[0] == 'e'); assert("exp"@[1] == 'x'); assert("exp"@[2] == 'p');
        reveal_strlit("log"); assert("log"@.len() == 3); assert("log"@[0] == 'l'); assert("log"@[1] == 'o'); assert("log"@[2] == 'g');
        reveal_strlit("log2"); assert("log2"@.len() == 4); assert("log2"@[0] == 'l'); assert("log2"@[1] == 'o'); assert("log2"@[2] == 'g');
        reveal_strlit("fract"); assert("fract"@.len() == 5); assert("fract"@[0] == 'f'); assert("fract"@[1] == 'r'); assert("fract"@[2] == 'a');
        reveal_strlit("length"); assert("length"@.len() == 6); assert("length"@[0] == 'l'); assert("length"@[1] == 'e'); assert("length"@[2] == 'n');
        reveal_strlit("normalize"); assert("normalize"@.len() == 9); assert("normalize"@[0] == 'n'); assert("normalize"@[1] == 'o'); assert("normalize"@[2] == 'r');
        reveal_strlit("pow"); assert("pow"@.len() == 3); assert("pow"@[0] == 'p'); assert("pow"@[1] == 'o'); assert("pow"@[2] == 'w');
        reveal_strlit("min"); assert("min"@.len() == 3); assert("min"@[0] == 'm'); assert("min"@[1] == 'i'); assert("min"@[2] == 'n');
        reveal_strlit("max"); assert("max"@.len() == 3); assert("max"@[0] == 'm'); assert("max"@[1] == 'a'); assert("max"@[2] == 'x');
    }
    let acc = acc_of(var);
    assert(" = min("@ =~= " = "@ + "min"@ + "("@);
    assert(" = max("@ =~= " = "@ + "max"@ + "("@);
    assert(op_step(SpatialKind::Min, var, cw, fw)
        =~= "                "@ + acc + " = "@ + "min"@ + "("@ + acc + ", "@ + cw + ");\n"@);
    assert(wgsl_builtin_fn("min"@) == Some(MathFn::Min));
    assert(op_step(SpatialKind::Max, var, cw, fw)
        =~= "                "@ + acc + " = "@ + "max"@ + "("@ + acc + ", "@ + cw + ");\n"@);
    assert(wgsl_builtin_fn("max"@) == Some(MathFn::Max));
    assert(op_step(SpatialKind::MinWhere, var, cw, Some(c))
        =~= "                if ("@ + c + ") { "@ + acc + " = "@ + "min"@ + "("@ + acc + ", "@ + cw + "); }\n"@);
    assert(op_step(SpatialKind::MaxWhere, var, cw, Some(c))
        =~= "                if ("@ + c + ") { "@ + acc + " = "@ + "max"@ + "("@ + acc + ", "@ + cw + "); }\n"@);
    assert("-999999.0"@ =~= "-"@ + "999999.0"@);
}

/// The step of `nb.sum` and `nb.mean` adds the closure's value to the
/// accumulator with a WGSL operator that, on numbers, adds.
pub proof fn law_sum_adds(var: Seq<char>, cw: Seq<char>, fw: Option<Seq<char>>)
    ensures
        exists|t: Seq<char>| #![trigger wgsl_binary(t, 0, 0, false, false)]
            op_step(SpatialKind::Sum, var, cw, fw) == "                "@ + acc_of(var) + " "@ + t + "= "@ + cw + ";\n"@
            && op_step(SpatialKind::Mean, var, cw, fw) == op_step(SpatialKind::Sum, var, cw, fw)
            && forall|x: int, y: int| #[trigger] wgsl_binary(t, x, y, false, false) == Some(Val::Num(x + y)),
{
    reveal_strlit(" += ");
    reveal_strlit(" ");
    reveal_strlit("+");
    reveal_strlit("= ");
    let acc = acc_of(var);
    assert(" += "@ =~= " "@ + "+"@ + "= "@);
    assert(op_step(SpatialKind::Sum, var, cw, fw) =~= "                "@ + acc + " "@ + "+"@ + "= "@ + cw + ";\n"@);
    assert(wgsl_binary("+"@, 0, 0, false, false) == Some(Val::Num(0)));
}

// ---------------------------------------------------------------------------
// Central differences
// ---------------------------------------------------------------------------

/// Whether `s` ends with `suffix`.
pub open spec fn ends_with(s: Seq<char>, suffix: Seq<char>) -> bool {
    s.len() >= suffix.len() && s.subrange(s.len() - suffix.len(), s.len() as int) == suffix
}

/// Whether `s` starts with `prefix`.
pub open spec fn starts_with(s: Seq<char>, prefix: Seq<char>) -> bool {
    s.len() >= prefix.len() && s.subrange(0, prefix.len() as int) == prefix
}

proof fn lemma_ends_with(a: Seq<char>, b: Seq<char>)
    ensures
        ends_with(a + b, b),
{
    assert((a + b).subrange(a.len() as int, (a + b).len() as int) =~= b);
}

proof fn lemma_starts_with(a: Seq<char>, b: Seq<char>)
    ensures
        starts_with(a + b, a),
{
    assert((a + b).subrange(0, a.len() as int) =~= a);
}

/// `nb.gradient` and `nb.divergence` are central differences: with `r`,
/// `l`, `t`, `b` the closure's value at the right (+x), left (-x), top
/// (+y) and bottom (-y) neighbours, the gradient is
/// `((r - l) / 2, (t - b) / 2)`, pointing towards larger values, and the
/// divergence is `(r.x - l.x) / 2 + (t.y - b.y) / 2`.
pub proof fn law_central_differences(env: EmitEnv, op: SpatialOpView, var: Seq<char>,
    r: Seq<char>, l: Seq<char>, t: Seq<char>, b: Seq<char>)
    ensures
        op.kind is Gradient ==> ends_with(difference_text(env, op, var, r, l, t, b),
            "        let "@ + var + " = vec2f(("@ + r + " - "@ + l + ") * 0.5, ("@ + t + " - "@ + b + ") * 0.5);\n"@),
        op.kind is Divergence ==> ends_with(difference_text(env, op, var, r, l, t, b),
            "        let "@ + var + " = (("@ + r + ").x - ("@ + l + ").x) * 0.5 + (("@ + t + ").y - ("@ + b + ").y) * 0.5;\n"@),
{
    let d = difference_text(env, op, var, r, l, t, b);
    if op.kind is Gradient {
        let line = "        let "@ + var + " = vec2f(("@ + r + " - "@ + l + ") * 0.5, ("@ + t + " - "@ + b + ") * 0.5);\n"@;
        let loads = crate::emit::difference_loads(env, crate::emit::op_fields(op), true);
        assert(d =~= loads + line);
        lemma_ends_with(loads, line);
    } else if op.kind is Divergence {
        let line = "        let "@ + var + " = (("@ + r + ").x - ("@ + l + ").x) * 0.5 + (("@ + t + ").y - ("@ + b + ").y) * 0.5;\n"@;
        let loads = crate::emit::difference_loads(env, crate::emit::op_fields(op), false);
        assert(d =~= loads + line);
        lemma_ends_with(loads, line);
    }
}

// ---------------------------------------------------------------------------
// The shared-memory tile
// ---------------------------------------------------------------------------

/// In the update shader's shared-memory path, the halo is the same on
/// every side: the tile's origin lies `k` cells before the workgroup's
/// first cell, the cell itself sits `k` cells into the padded tile, the
/// `RADIUS` constant is `k`, and the padded side is the tile plus `k` on
/// each side. So `shared_tex[ly * PADDED + lx]` holds the cell's own state,
/// for every radius.
pub proof fn law_tile_halo_is_consistent(nt: nat, tile: nat, radius: nat)
    ensures
        exists|k: nat| #![trigger dec(k)]
            starts_with(tile_origin_text(tile, radius),
                "    let tile_origin = vec2i(wg_id.xy) * vec2i("@ + dec(tile) + "i) - vec2i("@ + dec(k) + "i);\n"@)
            && local_coords_text(radius)
                == "    let lx = local_id.x + "@ + dec(k) + "u;\n    let ly = local_id.y + "@ + dec(k) + "u;\n\n"@
            && starts_with(shared_decls_text(nt, tile, radius),
                "const TILE_SIZE: u32 = "@ + dec(tile) + "u;\n"@ + "const RADIUS: u32 = "@ + dec(k) + "u;\n"@
                + "const PADDED: u32 = "@ + dec(tile + 2 * k) + "u;\n\n"@)
            && starts_with(tile_loop_text(tile, radius),
                "    for (var i = tid; i < "@ + dec((tile + 2 * k) * (tile + 2 * k)) + "u; i += "@ + dec(tile * tile) + "u) {\n"@
                + "        let sy = i / "@ + dec(tile + 2 * k) + "u;\n"@
                + "        let sx = i % "@ + dec(tile + 2 * k) + "u;\n"@),
{
    let o = "    let tile_origin = vec2i(wg_id.xy) * vec2i("@ + dec(tile) + "i) - vec2i("@ + dec(radius) + "i);\n"@;
    let tid = "    let tid = local_id.y * "@ + dec(tile) + "u + local_id.x;\n\n"@;
    lemma_starts_with(o, tid);
    assert(tile_origin_text(tile, radius) =~= o + tid);
    let h = "const TILE_SIZE: u32 = "@ + dec(tile) + "u;\n"@ + "const RADIUS: u32 = "@ + dec(radius) + "u;\n"@
        + "const PADDED: u32 = "@ + dec(tile + 2 * radius) + "u;\n\n"@;
    let p = tile + 2 * radius;
    lemma_starts_with(h, concat_shared(nt, p));
    assert(shared_decls_text(nt, tile, radius) =~= h + concat_shared(nt, p));
    let lp = "    for (var i = tid; i < "@ + dec(p * p) + "u; i += "@ + dec(tile * tile) + "u) {\n"@
        + "        let sy = i / "@ + dec(p) + "u;\n"@
        + "        let sx = i % "@ + dec(p) + "u;\n"@;
    let gc = "        let gc = (tile_origin + vec2i(i32(sx), i32(sy)) + res) % res;\n"@;
    assert(tile_loop_text(tile, radius) =~= lp + gc);
    lemma_starts_with(lp, gc);
    assert(starts_with(tile_loop_text(tile, radius), lp)
        && starts_with(tile_origin_text(tile, radius), o)
        && local_coords_text(radius)
            == "    let lx = local_id.x + "@ + dec(radius) + "u;\n    let ly = local_id.y + "@ + dec(radius) + "u;\n\n"@
        && starts_with(shared_decls_text(nt, tile, radius), h));
}

/// The workgroup arrays and the blank line after the tile constants.
pub open spec fn concat_shared(nt: nat, p: nat) -> Seq<char> {
    crate::emit::concat(Seq::new(nt, |i: int| "var<workgroup> shared_tex"@ + dec(i as nat) + ": array<vec4f, "@ + dec(p * p) + ">;\n"@))
    + "\n"@
}

/// The step of `nb.count` adds one to the accumulator, with a WGSL operator
/// that adds, exactly when the closure's condition holds; the filtered sum
/// and mean add the value and count one exactly when the filter holds.
pub proof fn law_count_and_filtered_sums(var: Seq<char>, cw: Seq<char>, c: Seq<char>)
    ensures
        exists|t: Seq<char>| #![trigger wgsl_binary(t, 0, 0, false, false)]
            op_step(SpatialKind::Count, var, cw, None) == "                if ("@ + cw + ") { "@ + acc_of(var) + " "@ + t + "= 1.0; }\n"@
            && forall|x: int, y: int| #[trigger] wgsl_binary(t, x, y, false, false) == Some(Val::Num(x + y)),
        exists|t: Seq<char>| #![trigger wgsl_binary(t, 0, 0, false, false)]
            op_step(SpatialKind::SumWhere, var, cw, Some(c)) == "                if ("@ + c + ") {\n"@
                + "                    "@ + acc_of(var) + " "@ + t + "= "@ + cw + ";\n"@
                + "                    "@ + var + "_cnt"@ + " "@ + t + "= 1.0;\n"@
                + "                }\n"@
            && op_step(SpatialKind::MeanWhere, var, cw, Some(c)) == op_step(SpatialKind::SumWhere, var, cw, Some(c))
            && forall|x: int, y: int| #[trigger] wgsl_binary(t, x, y, false, false) == Some(Val::Num(x + y)),
{
    reveal_strlit(" += 1.0; }\n");
    reveal_strlit(" += ");
    reveal_strlit(" += 1.0;\n");
    reveal_strlit(" ");
    reveal_strlit("+");
    reveal_strlit("= ");
    reveal_strlit("= 1.0; }\n");
    reveal_strlit("= 1.0;\n");
    let acc = acc_of(var);
    assert(" += 1.0; }\n"@ =~= " "@ + "+"@ + "= 1.0; }\n"@);
    assert(" += "@ =~= " "@ + "+"@ + "= "@);
    assert(" += 1.0;\n"@ =~= " "@ + "+"@ + "= 1.0;\n"@);
    assert(op_step(SpatialKind::Count, var, cw, None)
        =~= "                if ("@ + cw + ") { "@ + acc + " "@ + "+"@ + "= 1.0; }\n"@);
    assert(op_step(SpatialKind::SumWhere, var, cw, Some(c)) =~= "                if ("@ + c + ") {\n"@
        + "                    "@ + acc + " "@ + "+"@ + "= "@ + cw + ";\n"@
        + "                    "@ + var + "_cnt"@ + " "@ + "+"@ + "= 1.0;\n"@
        + "                }\n"@);
    assert(wgsl_binary("+"@, 0, 0, false, false) == Some(Val::Num(0)));
}

/// The Laplacian kernel, in quarters: -3 at the centre, 1/2 at the four
/// edge neighbours, 1/4 at the four corners.
pub open spec fn laplacian_weight(i: int, j: int) -> int {
    if i == 1 && j == 1 { -12 } else if i == 1 || j == 1 { 2 } else { 1 }
}

/// A weight given in quarters, as a WGSL literal.
pub open spec fn quarters_text(q: int) -> Seq<char> {
    if q == 1 { "0.25"@ } else if q == 2 { "0.5"@ } else if q == -12 { "-3.0"@ } else { "?"@ }
}

/// One row of the kernel as WGSL.
pub open spec fn kernel_row(i: int) -> Seq<char> {
    "            array<f32, 3>("@ + quarters_text(laplacian_weight(i, 0)) + ", "@ + quarters_text(laplacian_weight(i, 1))
        + ", "@ + quarters_text(laplacian_weight(i, 2)) + "),\n"@
}

/// `nb.laplacian` weighs the 3×3 neighbourhood with the isotropic kernel:
/// the weights are symmetric in both axes and across the diagonal, and sum
/// to zero, so a constant field has Laplacian zero; the emitted kernel has
/// exactly these weights, row by row.
pub proof fn law_laplacian_kernel(kern: Seq<char>)
    ensures
        forall|i: int, j: int| 0 <= i < 3 && 0 <= j < 3 ==>
            #[trigger] laplacian_weight(i, j) == laplacian_weight(j, i) && laplacian_weight(i, j) == laplacian_weight(2 - i, j),
        laplacian_weight(0, 0) + laplacian_weight(0, 1) + laplacian_weight(0, 2)
            + laplacian_weight(1, 0) + laplacian_weight(1, 1) + laplacian_weight(1, 2)
            + laplacian_weight(2, 0) + laplacian_weight(2, 1) + laplacian_weight(2, 2) == 0,
        starts_with(laplacian_open(kern),
            "        let "@ + kern + " = array<array<f32, 3>, 3>(\n"@ + kernel_row(0) + kernel_row(1) + kernel_row(2) + "        );\n"@),
{
    reveal_strlit("            array<f32, 3>(0.25, 0.5, 0.25),\n");
    reveal_strlit("            array<f32, 3>(0.5, -3.0, 0.5),\n");
    reveal_strlit("            array<f32, 3>(");
    reveal_strlit("0.25");
    reveal_strlit("0.5");
    reveal_strlit("-3.0");
    reveal_strlit(", ");
    reveal_strlit("),\n");
    assert(kernel_row(0) =~= "            array<f32, 3>(0.25, 0.5, 0.25),\n"@);
    assert(kernel_row(2) =~= "            array<f32, 3>(0.25, 0.5, 0.25),\n"@);
    assert(kernel_row(1) =~= "            array<f32, 3>(0.5, -3.0, 0.5),\n"@);
    let head = "        let "@ + kern + " = array<array<f32, 3>, 3>(\n"@ + kernel_row(0) + kernel_row(1) + kernel_row(2) + "        );\n"@;
    let rest = "        for (var _dy: i32 = -1; _dy <= 1; _dy++) {\n"@ + "            for (var _dx: i32 = -1; _dx <= 1; _dx++) {\n"@;
    assert(laplacian_open(kern) =~= head + rest);
    lemma_starts_with(head, rest);
}

/// WGSL's `select(f, t, c)`: `t` when `c` holds, else `f`.
pub open spec fn wgsl_select<A>(f: A, t: A, c: bool) -> A {
    if c { t } else { f }
}

/// `nb.mean` divides the sum by the number of neighbours the loop visits:
/// the 3×3 square without its centre for Moore, the four edge neighbours
/// for von Neumann, the (2N+1)² square without its centre for radius(N).
/// `nb.mean_where` divides by the number of neighbours that passed the
/// filter, and gives zero (WGSL `select`'s second choice, taken when the
/// condition holds) when none did.
pub proof fn law_means(env: EmitEnv, var: Seq<char>, acc: Seq<char>, cnt: Seq<char>, zero: Seq<char>)
    ensures
        op_result(env, SpatialKind::Mean, var, acc, cnt, zero)
            == "        let "@ + var + " = "@ + acc + " / "@ + dec(crate::lower::neighbor_count_of(env.neighborhood)) + ".0;\n"@,
        env.neighborhood is Moore ==> crate::lower::neighbor_count_of(env.neighborhood) == 3 * 3 - 1,
        env.neighborhood is VonNeumann ==> crate::lower::neighbor_count_of(env.neighborhood) == 4,
        env.neighborhood matches crate::lower::Neighborhood::Radius(r)
            ==> crate::lower::neighbor_count_of(env.neighborhood) == (2 * r + 1) * (2 * r + 1) - 1,
        op_result(env, SpatialKind::MeanWhere, var, acc, cnt, zero)
            == "        let "@ + var + " = select("@ + acc + " / "@ + cnt + ", "@ + zero + ", "@ + cnt + " == 0.0);\n"@,
        wgsl_select(acc + " / "@ + cnt, zero, true) == zero,
{
    match env.neighborhood {
        crate::lower::Neighborhood::Radius(r) => {
            assert((2 * r + 1) * (2 * r + 1) >= 1) by (nonlinear_arith);
        },
        _ => {},
    }
}

} // verus!
