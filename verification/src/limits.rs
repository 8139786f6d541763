//! Executable checks of the two conditions that translation needs of a
//! method body: every built-in call has the arguments its translation reads,
//! and the ids of hoisted spatial-operator variables fit in a `u32` counter.
use vstd::prelude::*;
use crate::ast::{Block, Expr, ExprKind, FieldValue, Stmt, is_ident};
use crate::emit::{arity_all, arity_fields, arity_ok, arity_stmts, budget, budget_all, budget_tail, call_arity,
    lemma_spatial_parts_decrease, method_arity_ok, segments_text, spatial_op_of, wbudget};
use crate::stmt::{block_budget_ok, budget_cap, capped, fields_budget, lemma_capped_add, lemma_capped_mul4, rbudget,
    stmt_budget, stmts_budget};
use crate::text::{join_strings, str_eq};
use crate::translate::{binary_method_str, parse_spatial_op};

verus! {

// ---------------------------------------------------------------------------
// Arities
// ---------------------------------------------------------------------------

fn call_arity_of(name: &str) -> (n: usize)
    ensures
        n == call_arity(name@),
{
    if str_eq(name, "mix") { 3 }
    else if str_eq(name, "step") { 2 }
    else if str_eq(name, "smoothstep") { 3 }
    else if str_eq(name, "atan2") { 2 }
    else if str_eq(name, "vec2") { 2 }
    else if str_eq(name, "vec3") { 3 }
    else if str_eq(name, "vec4") { 4 }
    else if str_eq(name, "Color::rgb") { 3 }
    else if str_eq(name, "Color::rgba") { 4 }
    else if str_eq(name, "Color::hsv") { 3 }
    else { 0 }
}

fn method_arity_check(m: &str, n: usize) -> (r: bool)
    ensures
        r == method_arity_ok(m@, n as nat),
{
    let binary = match binary_method_str(m) {
        Some(_) => true,
        None => false,
    };
    (!binary || n >= 1) && (!str_eq(m, "clamp") || n >= 2)
}

/// Whether every built-in call in `e` has the arguments its translation reads.
pub fn arity_check(e: &Expr) -> (r: bool)
    ensures
        r == arity_ok(*e),
    decreases e, 0int,
{
    match &e.kind {
        ExprKind::Field(b, _) => arity_check(b),
        ExprKind::Unary(_, b) => arity_check(b),
        ExprKind::Paren(b) => arity_check(b),
        ExprKind::Group(b) => arity_check(b),
        ExprKind::Binary(a, _, b) => arity_check(a) && arity_check(b),
        ExprKind::MethodCall(recv, m, args) => {
            (is_ident(recv, "nb") || method_arity_check(m.as_str(), args.len()))
                && arity_check(recv) && arity_all_check(args)
        }
        ExprKind::Call(f, args) => {
            let head = match &f.kind {
                ExprKind::Path(p) => {
                    let name = join_strings(&p.segments, "::");
                    assert(name@ == segments_text(*p));
                    args.len() >= call_arity_of(name.as_str())
                }
                _ => true,
            };
            head && arity_check(f) && arity_all_check(args)
        }
        ExprKind::If(c, b, els) => {
            arity_check(c) && arity_stmts_check(&b.stmts) && match els {
                Some(x) => arity_check(x),
                None => true,
            }
        }
        ExprKind::Block(b) => arity_stmts_check(&b.stmts),
        ExprKind::Struct(fs) => arity_fields_check(fs),
        ExprKind::Closure(_, body, _) => arity_check(body),
        ExprKind::Return(Some(x), _) => arity_check(x),
        _ => true,
    }
}

fn arity_all_check(s: &Vec<Expr>) -> (r: bool)
    ensures
        r == arity_all(s@, 0),
    decreases s, 0int,
{
    let n = s.len();
    let mut i: usize = 0;
    while i < n
        invariant
            n == s.len(),
            0 <= i <= n,
            arity_all(s@, 0) == arity_all(s@, i as int),
        decreases n - i,
    {
        if !arity_check(&s[i]) {
            return false;
        }
        i = i + 1;
    }
    true
}

fn arity_fields_check(s: &Vec<FieldValue>) -> (r: bool)
    ensures
        r == arity_fields(s@, 0),
    decreases s, 0int,
{
    let n = s.len();
    let mut i: usize = 0;
    while i < n
        invariant
            n == s.len(),
            0 <= i <= n,
            arity_fields(s@, 0) == arity_fields(s@, i as int),
        decreases n - i,
    {
        if !arity_check(&s[i].expr) {
            return false;
        }
        i = i + 1;
    }
    true
}

/// Whether every built-in call in the statements has its arguments.
pub fn arity_stmts_check(s: &Vec<Stmt>) -> (r: bool)
    ensures
        r == arity_stmts(s@, 0),
    decreases s, 0int,
{
    let n = s.len();
    let mut i: usize = 0;
    while i < n
        invariant
            n == s.len(),
            0 <= i <= n,
            arity_stmts(s@, 0) == arity_stmts(s@, i as int),
        decreases n - i,
    {
        let ok = match &s[i] {
            Stmt::Local(l) => match &l.init {
                Some(x) => arity_check(x),
                None => true,
            },
            Stmt::Expr(x, _) => arity_check(x),
            Stmt::Other => true,
        };
        if !ok {
            return false;
        }
        i = i + 1;
    }
    true
}

// ---------------------------------------------------------------------------
// Id budgets, counted up to a cap just above `u32::MAX`
// ---------------------------------------------------------------------------

fn sat_add(a: u64, b: u64) -> (r: u64)
    requires
        a <= budget_cap(),
        b <= budget_cap(),
    ensures
        r == capped(a as nat + b as nat),
{
    let s = a + b;
    if s >= 0x1_0000_0000 { 0x1_0000_0000 } else { s }
}

fn sat_mul4(a: u64) -> (r: u64)
    requires
        a <= budget_cap(),
    ensures
        r == capped(4 * a as nat),
{
    let s = 4 * a;
    if s >= 0x1_0000_0000 { 0x1_0000_0000 } else { s }
}

broadcast use {lemma_capped_add, lemma_capped_mul4};

/// The id budget of an expression, capped (see [`budget`]).
pub fn budget_of(e: &Expr) -> (r: u64)
    ensures
        r == capped(budget(*e)),
    decreases e, 2int,
{
    match &e.kind {
        ExprKind::Field(b, _) => budget_of(b),
        ExprKind::Unary(_, b) => budget_of(b),
        ExprKind::Paren(b) => budget_of(b),
        ExprKind::Group(b) => budget_of(b),
        ExprKind::Binary(a, _, b) => sat_add(budget_of(a), budget_of(b)),
        ExprKind::MethodCall(recv, _, args) => {
            if is_ident(recv, "nb") {
                match parse_spatial_op(e) {
                    Some(op) => {
                        proof { lemma_spatial_parts_decrease(*e); }
                        let b = budget_of(op.closure_body);
                        let w = wbudget_of(op.closure_body);
                        let f = match op.filter_closure {
                            Some((_, fb)) => budget_of(fb),
                            None => 0,
                        };
                        let one_b = sat_add(1, b);
                        proof { assert(1 == capped(1)); }
                        sat_add(sat_add(one_b, sat_mul4(w)), f)
                    }
                    None => 0,
                }
            } else {
                sat_add(budget_of(recv), budget_all_of(args))
            }
        }
        ExprKind::Call(_, args) => budget_all_of(args),
        ExprKind::If(c, b, els) => {
            let x = match els {
                Some(x) => budget_of(x),
                None => 0,
            };
            sat_add(sat_add(budget_of(c), budget_tail_of(&b.stmts)), x)
        }
        ExprKind::Block(b) => budget_tail_of(&b.stmts),
        _ => 0,
    }
}

fn wbudget_of(e: &Expr) -> (r: u64)
    ensures
        r == capped(wbudget(*e)),
    decreases e, 3int,
{
    match &e.kind {
        ExprKind::Field(b, _) => wbudget_of(b),
        ExprKind::Binary(a, _, b) => sat_add(sat_add(wbudget_of(a), wbudget_of(b)), budget_of(e)),
        ExprKind::Unary(_, x) => sat_add(wbudget_of(x), budget_of(e)),
        ExprKind::MethodCall(recv, _, _) => sat_add(wbudget_of(recv), budget_of(e)),
        _ => budget_of(e),
    }
}

fn budget_all_of(s: &Vec<Expr>) -> (r: u64)
    ensures
        r == capped(budget_all(s@, 0)),
    decreases s, 0int,
{
    let n = s.len();
    let mut acc: u64 = 0;
    let mut i: usize = n;
    while i > 0
        invariant
            n == s.len(),
            0 <= i <= n,
            acc == capped(budget_all(s@, i as int)),
        decreases i,
    {
        i = i - 1;
        acc = sat_add(budget_of(&s[i]), acc);
    }
    acc
}

fn budget_tail_of(s: &Vec<Stmt>) -> (r: u64)
    ensures
        r == capped(budget_tail(s@)),
    decreases s, 0int,
{
    let n = s.len();
    if n == 0 {
        return 0;
    }
    match &s[n - 1] {
        Stmt::Expr(t, semi) => if !*semi { budget_of(t) } else { 0 },
        _ => 0,
    }
}

fn fields_budget_of(s: &Vec<FieldValue>) -> (r: u64)
    ensures
        r == capped(fields_budget(s@, 0)),
{
    let n = s.len();
    let mut acc: u64 = 0;
    let mut i: usize = n;
    while i > 0
        invariant
            n == s.len(),
            0 <= i <= n,
            acc == capped(fields_budget(s@, i as int)),
        decreases i,
    {
        i = i - 1;
        acc = sat_add(budget_of(&s[i].expr), acc);
    }
    acc
}

fn rbudget_of(e: &Expr) -> (r: u64)
    ensures
        r == capped(rbudget(*e)),
    decreases e,
{
    match &e.kind {
        ExprKind::Struct(fs) => fields_budget_of(fs),
        ExprKind::If(c, b, els) => {
            let n = b.stmts.len();
            let t = if n > 0 {
                match &b.stmts[n - 1] {
                    Stmt::Expr(t, semi) => if !*semi { rbudget_of(t) } else { 0 },
                    _ => 0,
                }
            } else {
                0
            };
            let x = match els {
                Some(x) => rbudget_of(x),
                None => 0,
            };
            sat_add(sat_add(budget_of(c), t), x)
        }
        ExprKind::Return(Some(x), _) => rbudget_of(x),
        ExprKind::Block(b) => {
            let n = b.stmts.len();
            let t = if n > 0 {
                match &b.stmts[n - 1] {
                    Stmt::Expr(t, semi) => if !*semi { rbudget_of(t) } else { 0 },
                    _ => 0,
                }
            } else {
                0
            };
            sat_add(budget_of(e), t)
        }
        _ => budget_of(e),
    }
}

fn stmt_budget_of(s: &Stmt) -> (r: u64)
    ensures
        r == capped(stmt_budget(*s)),
{
    match s {
        Stmt::Local(l) => match &l.init {
            Some(x) => budget_of(x),
            None => 0,
        },
        Stmt::Expr(e, _) => {
            let early = match crate::stmt::early_return_value(e) {
                Some(x) => rbudget_of(x),
                None => 0,
            };
            sat_add(sat_add(budget_of(e), rbudget_of(e)), early)
        }
        Stmt::Other => 0,
    }
}

/// Whether translating the block's statements keeps the id counter within
/// `u32` (see [`block_budget_ok`]).
pub fn block_budget_check(b: &Block) -> (r: bool)
    ensures
        r == block_budget_ok(*b),
{
    let s = &b.stmts;
    let n = s.len();
    let mut acc: u64 = 0;
    let mut i: usize = n;
    while i > 0
        invariant
            n == s.len(),
            0 <= i <= n,
            acc == capped(stmts_budget(s@, i as int)),
        decreases i,
    {
        i = i - 1;
        acc = sat_add(stmt_budget_of(&s[i]), acc);
    }
    acc <= 0xffff_ffff
}

} // verus!
