//! The rules that cell method bodies must follow before they are translated:
//! no mutation, no unbounded loops, no `match`, no references, no `unsafe`,
//! closures only as arguments of the spatial operators, the neighbourhood
//! only in `update`, spatial accessors only in neighbour closures, and no
//! differential operator on a von Neumann neighbourhood.
use vstd::prelude::*;
use crate::ast::{Block, ErrorView, Expr, ExprKind, MacroError, Pat, Stmt, err_at, is_ident, path_ident};
use crate::discover::is_accessor_name;
use crate::lower::Neighborhood;
use crate::text::{str_eq, text};

verus! {

pub open spec fn c006_let_mut() -> Seq<char> {
    "cellarium C006: let mut is not supported. All bindings are immutable in cell code."@
}

pub open spec fn c006_assign() -> Seq<char> {
    "cellarium C006: reassignment is not supported. All bindings are immutable in cell code."@
}

pub open spec fn c007_loop() -> Seq<char> {
    "cellarium C007: Unbounded loops are not GPU-compatible. Use spatial operators for neighbor iteration."@
}

pub open spec fn c008_match() -> Seq<char> {
    "cellarium C008: match is not supported in cell code. Use if/else chains."@
}

pub open spec fn c010_closure() -> Seq<char> {
    "cellarium C010: Closures are only valid as arguments to Neighbors methods."@
}

pub open spec fn c011_neighbors() -> Seq<char> {
    "cellarium C011: Neighbors is only available in the update method."@
}

pub open spec fn c018_accessor() -> Seq<char> {
    "cellarium C018: Spatial accessor c.offset()/c.direction()/c.distance() used outside a neighbor closure."@
}

pub open spec fn c012_differential() -> Seq<char> {
    "cellarium C012: gradient/divergence requires moore or radius(N) neighborhood."@
}

pub open spec fn c016_reference() -> Seq<char> {
    "cellarium C016: References and borrowing are not used in cell code."@
}

pub open spec fn c019_unsafe() -> Seq<char> {
    "cellarium C019: 'unsafe' is not supported in cell code."@
}

/// Whether a `let` pattern binds mutably, with or without a type annotation.
pub open spec fn pat_is_mut(p: Pat) -> bool
    decreases p,
{
    match p {
        Pat::Ident { mutable, .. } => mutable,
        Pat::Typed(inner) => pat_is_mut(*inner),
        Pat::Other => false,
    }
}

fn binds_mutably(p: &Pat) -> (r: bool)
    ensures
        r == pat_is_mut(*p),
    decreases p,
{
    match p {
        Pat::Ident { mutable, .. } => *mutable,
        Pat::Typed(inner) => binds_mutably(inner),
        Pat::Other => false,
    }
}

/// Whether a method name is one of the differential operators.
pub open spec fn is_differential(m: Seq<char>) -> bool {
    m == "gradient"@ || m == "divergence"@
}

/// The first rule that an expression of method `m` breaks, in evaluation
/// order, if any; `in_closure` tells whether it lies in a neighbour closure.
pub open spec fn check_expr(e: Expr, m: Seq<char>, nb: Neighborhood, in_closure: bool) -> Result<(), ErrorView>
    decreases e, 0int,
{
    match e.kind {
        ExprKind::Assign(_) => Err(err_at(e.span, c006_assign())),
        ExprKind::ForLoop(_) => Err(err_at(e.span, c007_loop())),
        ExprKind::While(_) => Err(err_at(e.span, c007_loop())),
        ExprKind::Loop(_) => Err(err_at(e.span, c007_loop())),
        ExprKind::Match(_) => Err(err_at(e.span, c008_match())),
        ExprKind::Reference(_) => Err(err_at(e.span, c016_reference())),
        ExprKind::Unsafe(_) => Err(err_at(e.span, c019_unsafe())),
        ExprKind::Closure(..) => Err(err_at(e.span, c010_closure())),
        ExprKind::Path(_) => if path_ident(e) == Some("nb"@) && m != "update"@ {
            Err(err_at(e.span, c011_neighbors()))
        } else {
            Ok(())
        },
        ExprKind::MethodCall(r, name, args) => {
            if is_differential(name@) && nb is VonNeumann {
                Err(err_at(e.span, c012_differential()))
            } else if is_accessor_name(name@) && args@.len() == 0 && !in_closure {
                Err(err_at(e.span, c018_accessor()))
            } else {
                match check_expr(*r, m, nb, in_closure) {
                    Err(x) => Err(x),
                    Ok(_) => if path_ident(*r) == Some("nb"@) {
                        check_operator_args(args@, 0, m, nb, in_closure)
                    } else {
                        check_exprs(args@, 0, m, nb, in_closure)
                    },
                }
            }
        },
        ExprKind::Binary(a, _, b) => match check_expr(*a, m, nb, in_closure) {
            Err(x) => Err(x),
            Ok(_) => check_expr(*b, m, nb, in_closure),
        },
        ExprKind::Unary(_, x) => check_expr(*x, m, nb, in_closure),
        ExprKind::If(c, b, els) => match check_expr(*c, m, nb, in_closure) {
            Err(x) => Err(x),
            Ok(_) => match check_stmts(b.stmts@, 0, m, nb, in_closure) {
                Err(x) => Err(x),
                Ok(_) => match els {
                    Some(x) => check_expr(*x, m, nb, in_closure),
                    None => Ok(()),
                },
            },
        },
        ExprKind::Block(b) => check_stmts(b.stmts@, 0, m, nb, in_closure),
        ExprKind::Paren(x) => check_expr(*x, m, nb, in_closure),
        ExprKind::Group(x) => check_expr(*x, m, nb, in_closure),
        ExprKind::Call(f, args) => match check_expr(*f, m, nb, in_closure) {
            Err(x) => Err(x),
            Ok(_) => check_exprs(args@, 0, m, nb, in_closure),
        },
        _ => Ok(()),
    }
}

/// The first rule that `s[i..]` breaks, if any.
pub open spec fn check_exprs(s: Seq<Expr>, i: int, m: Seq<char>, nb: Neighborhood, in_closure: bool) -> Result<(), ErrorView>
    decreases s, s.len() - i,
{
    if 0 <= i < s.len() {
        match check_expr(s[i], m, nb, in_closure) {
            Err(x) => Err(x),
            Ok(_) => check_exprs(s, i + 1, m, nb, in_closure),
        }
    } else {
        Ok(())
    }
}

/// The arguments `s[i..]` of a spatial operator: a closure there is a
/// neighbour closure, whose body is checked as such.
pub open spec fn check_operator_args(s: Seq<Expr>, i: int, m: Seq<char>, nb: Neighborhood, in_closure: bool) -> Result<(), ErrorView>
    decreases s, s.len() - i,
{
    if 0 <= i < s.len() {
        let r = match s[i].kind {
            ExprKind::Closure(_, body, _) => check_expr(*body, m, nb, true),
            _ => check_expr(s[i], m, nb, in_closure),
        };
        match r {
            Err(x) => Err(x),
            Ok(_) => check_operator_args(s, i + 1, m, nb, in_closure),
        }
    } else {
        Ok(())
    }
}

/// The first rule that a statement breaks, if any.
pub open spec fn check_stmt(s: Stmt, m: Seq<char>, nb: Neighborhood, in_closure: bool) -> Result<(), ErrorView>
    decreases s, 0int,
{
    match s {
        Stmt::Local(l) => {
            if pat_is_mut(l.pat) {
                Err(err_at(l.span, c006_let_mut()))
            } else {
                match l.init {
                    Some(x) => check_expr(x, m, nb, in_closure),
                    None => Ok(()),
                }
            }
        },
        Stmt::Expr(x, _) => check_expr(x, m, nb, in_closure),
        Stmt::Other => Ok(()),
    }
}

/// The first rule that the statements `s[i..]` break, if any.
pub open spec fn check_stmts(s: Seq<Stmt>, i: int, m: Seq<char>, nb: Neighborhood, in_closure: bool) -> Result<(), ErrorView>
    decreases s, s.len() - i,
{
    if 0 <= i < s.len() {
        match check_stmt(s[i], m, nb, in_closure) {
            Err(x) => Err(x),
            Ok(_) => check_stmts(s, i + 1, m, nb, in_closure),
        }
    } else {
        Ok(())
    }
}

/// The first rule that the body of method `m` breaks, if any.
pub open spec fn check_body(b: Block, m: Seq<char>, nb: Neighborhood) -> Result<(), ErrorView> {
    check_stmts(b.stmts@, 0, m, nb, false)
}

/// A check's outcome viewed mathematically.
pub open spec fn unit_result(r: Result<(), MacroError>) -> Result<(), ErrorView> {
    match r {
        Ok(_) => Ok(()),
        Err(e) => Err(e@),
    }
}

fn reject(span: u32, message: &str) -> (r: Result<(), MacroError>)
    ensures
        unit_result(r) == Err::<(), ErrorView>(err_at(span, message@)),
{
    Err(MacroError::new(span, text(message)))
}

/// Checks the body of method `method` against the rules (see [`check_body`]).
pub fn validate_method_body(block: &Block, method: &str, neighborhood: &Neighborhood) -> (r: Result<(), MacroError>)
    ensures
        unit_result(r) == check_body(*block, method@, *neighborhood),
{
    validate_stmts(&block.stmts, method, neighborhood, false)
}

fn validate_stmts(stmts: &Vec<Stmt>, method: &str, neighborhood: &Neighborhood, in_closure: bool) -> (r: Result<(), MacroError>)
    ensures
        unit_result(r) == check_stmts(stmts@, 0, method@, *neighborhood, in_closure),
    decreases stmts, 1int,
{
    let n = stmts.len();
    let mut i: usize = 0;
    while i < n
        invariant
            n == stmts.len(),
            0 <= i <= n,
            check_stmts(stmts@, 0, method@, *neighborhood, in_closure) == check_stmts(stmts@, i as int, method@, *neighborhood, in_closure),
        decreases n - i,
    {
        match validate_stmt(&stmts[i], method, neighborhood, in_closure) {
            Err(x) => {
                return Err(x);
            },
            Ok(_) => {},
        }
        i = i + 1;
    }
    Ok(())
}

fn validate_stmt(stmt: &Stmt, method: &str, neighborhood: &Neighborhood, in_closure: bool) -> (r: Result<(), MacroError>)
    ensures
        unit_result(r) == check_stmt(*stmt, method@, *neighborhood, in_closure),
    decreases stmt, 0int,
{
    match stmt {
        Stmt::Local(local) => {
            if binds_mutably(&local.pat) {
                return reject(local.span, "cellarium C006: let mut is not supported. All bindings are immutable in cell code.");
            }
            match &local.init {
                Some(init) => validate_expr(init, method, neighborhood, in_closure),
                None => Ok(()),
            }
        }
        Stmt::Expr(expr, _) => validate_expr(expr, method, neighborhood, in_closure),
        Stmt::Other => Ok(()),
    }
}

fn validate_exprs(args: &Vec<Expr>, method: &str, neighborhood: &Neighborhood, in_closure: bool) -> (r: Result<(), MacroError>)
    ensures
        unit_result(r) == check_exprs(args@, 0, method@, *neighborhood, in_closure),
    decreases args, 1int,
{
    let n = args.len();
    let mut i: usize = 0;
    while i < n
        invariant
            n == args.len(),
            0 <= i <= n,
            check_exprs(args@, 0, method@, *neighborhood, in_closure) == check_exprs(args@, i as int, method@, *neighborhood, in_closure),
        decreases n - i,
    {
        match validate_expr(&args[i], method, neighborhood, in_closure) {
            Err(x) => {
                return Err(x);
            },
            Ok(_) => {},
        }
        i = i + 1;
    }
    Ok(())
}

fn validate_operator_args(args: &Vec<Expr>, method: &str, neighborhood: &Neighborhood, in_closure: bool) -> (r: Result<(), MacroError>)
    ensures
        unit_result(r) == check_operator_args(args@, 0, method@, *neighborhood, in_closure),
    decreases args, 1int,
{
    let n = args.len();
    let mut i: usize = 0;
    while i < n
        invariant
            n == args.len(),
            0 <= i <= n,
            check_operator_args(args@, 0, method@, *neighborhood, in_closure)
                == check_operator_args(args@, i as int, method@, *neighborhood, in_closure),
        decreases n - i,
    {
        let r = match &args[i].kind {
            ExprKind::Closure(_, body, _) => validate_expr(body, method, neighborhood, true),
            _ => validate_expr(&args[i], method, neighborhood, in_closure),
        };
        match r {
            Err(x) => {
                return Err(x);
            },
            Ok(_) => {},
        }
        i = i + 1;
    }
    Ok(())
}

fn validate_expr(expr: &Expr, method: &str, neighborhood: &Neighborhood, in_closure: bool) -> (r: Result<(), MacroError>)
    ensures
        unit_result(r) == check_expr(*expr, method@, *neighborhood, in_closure),
    decreases expr, 0int,
{
    match &expr.kind {
        ExprKind::Assign(_) => reject(expr.span, "cellarium C006: reassignment is not supported. All bindings are immutable in cell code."),
        ExprKind::ForLoop(_) => reject(expr.span, "cellarium C007: Unbounded loops are not GPU-compatible. Use spatial operators for neighbor iteration."),
        ExprKind::While(_) => reject(expr.span, "cellarium C007: Unbounded loops are not GPU-compatible. Use spatial operators for neighbor iteration."),
        ExprKind::Loop(_) => reject(expr.span, "cellarium C007: Unbounded loops are not GPU-compatible. Use spatial operators for neighbor iteration."),
        ExprKind::Match(_) => reject(expr.span, "cellarium C008: match is not supported in cell code. Use if/else chains."),
        ExprKind::Reference(_) => reject(expr.span, "cellarium C016: References and borrowing are not used in cell code."),
        ExprKind::Unsafe(_) => reject(expr.span, "cellarium C019: 'unsafe' is not supported in cell code."),
        ExprKind::Closure(..) => reject(expr.span, "cellarium C010: Closures are only valid as arguments to Neighbors methods."),
        ExprKind::Path(_) => {
            if is_ident(expr, "nb") && !str_eq(method, "update") {
                reject(expr.span, "cellarium C011: Neighbors is only available in the update method.")
            } else {
                Ok(())
            }
        }
        ExprKind::MethodCall(receiver, method_name, args) => {
            let m = method_name.as_str();
            let differential = str_eq(m, "gradient") || str_eq(m, "divergence");
            if differential {
                if let Neighborhood::VonNeumann = neighborhood {
                    return reject(expr.span, "cellarium C012: gradient/divergence requires moore or radius(N) neighborhood.");
                }
            }
            let accessor = str_eq(m, "offset") || str_eq(m, "direction") || str_eq(m, "distance");
            if accessor && args.len() == 0 && !in_closure {
                return reject(expr.span, "cellarium C018: Spatial accessor c.offset()/c.direction()/c.distance() used outside a neighbor closure.");
            }
            match validate_expr(receiver, method, neighborhood, in_closure) {
                Err(x) => {
                    return Err(x);
                },
                Ok(_) => {},
            }
            if is_ident(receiver, "nb") {
                validate_operator_args(args, method, neighborhood, in_closure)
            } else {
                validate_exprs(args, method, neighborhood, in_closure)
            }
        }
        ExprKind::Binary(a, _, b) => {
            match validate_expr(a, method, neighborhood, in_closure) {
                Err(x) => {
                    return Err(x);
                },
                Ok(_) => {},
            }
            validate_expr(b, method, neighborhood, in_closure)
        }
        ExprKind::Unary(_, x) => validate_expr(x, method, neighborhood, in_closure),
        ExprKind::If(c, b, els) => {
            match validate_expr(c, method, neighborhood, in_closure) {
                Err(x) => {
                    return Err(x);
                },
                Ok(_) => {},
            }
            match validate_stmts(&b.stmts, method, neighborhood, in_closure) {
                Err(x) => {
                    return Err(x);
                },
                Ok(_) => {},
            }
            match els {
                Some(x) => validate_expr(x, method, neighborhood, in_closure),
                None => Ok(()),
            }
        }
        ExprKind::Block(b) => validate_stmts(&b.stmts, method, neighborhood, in_closure),
        ExprKind::Paren(x) => validate_expr(x, method, neighborhood, in_closure),
        ExprKind::Group(x) => validate_expr(x, method, neighborhood, in_closure),
        ExprKind::Call(f, args) => {
            match validate_expr(f, method, neighborhood, in_closure) {
                Err(x) => {
                    return Err(x);
                },
                Ok(_) => {},
            }
            validate_exprs(args, method, neighborhood, in_closure)
        }
        _ => Ok(()),
    }
}

} // verus!
