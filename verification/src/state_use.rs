//! How method bodies use the state struct: every `self.x` and neighbour
//! `c.x` names a declared field, and every `Self { .. }` that `update` or
//! `init` returns assigns each declared field exactly.
use vstd::prelude::*;
use crate::ast::{BinOp, Block, ErrorView, Expr, ExprKind, FieldValue, Lit, MacroError, Member, Pat, Stmt, UnOp, err_at, is_ident, path_ident};
use crate::check::unit_result;
use crate::discover::member_name;
use crate::emit::{closure_param_text, max_nat, scalar_method, segments_text};
use crate::stmt::pat_name;
use crate::lower::{FieldDef, field_slot, field_slot_of, names_of, sizes_of, sizes_ok};
use crate::text::{push, text};
use crate::translate::closure_param_name;

verus! {

pub open spec fn c003_text(name: Seq<char>) -> Seq<char> {
    "cellarium C003: Missing field '"@ + name + "' in return struct. All state fields must be assigned."@
}

pub open spec fn c004_text(name: Seq<char>) -> Seq<char> {
    "cellarium C004: Extra field '"@ + name + "' in return struct."@
}

pub open spec fn c014_text(w: nat) -> Seq<char> {
    "cellarium C014: Cannot compare "@ + vec_name(w) + " values. Use .length() for vector magnitude comparison."@
}

/// The cell-code name of a vector type of width `w`.
pub open spec fn vec_name(w: nat) -> Seq<char> {
    if w == 2 { "Vec2"@ } else if w == 3 { "Vec3"@ } else { "Vec4"@ }
}

/// Whether an operator compares its operands.
pub open spec fn is_comparison(op: BinOp) -> bool {
    op is Eq || op is Ne || op is Lt || op is Gt || op is Le || op is Ge
}

/// The closure parameter whose fields are the neighbour's, `self` outside closures.
pub open spec fn param_or_self(cp: Option<Seq<char>>) -> Seq<char> {
    match cp {
        Some(c) => c,
        None => "self"@,
    }
}

/// The cell-code name of the type of a value of width `w`.
pub open spec fn type_name_of(w: nat) -> Seq<char> {
    if w == 1 { "f32"@ } else { vec_name(w) }
}

pub open spec fn c005_text(name: Seq<char>, expected: nat, got: nat) -> Seq<char> {
    "cellarium C005: Type mismatch for field '"@ + name + "': expected "@ + type_name_of(expected)
        + ", got "@ + type_name_of(got) + "."@
}

pub open spec fn c013_text(a: nat, b: nat) -> Seq<char> {
    "cellarium C013: if branches have different types: "@ + type_name_of(a) + " vs "@ + type_name_of(b) + "."@
}

/// The width of a value where the expression alone tells it: literals,
/// declared state fields (of `self` or of the neighbour `cp`), swizzles,
/// the vector constructors and colours, the scalar and vector methods and
/// built-ins, arithmetic on known widths, and block tails. Local bindings
/// and the other built-ins are left unknown.
pub open spec fn known_width(st: Seq<Seq<char>>, ss: Seq<u32>, lv: Locals, e: Expr, cp: Seq<char>) -> Option<nat>
    decreases e, 0int,
{
    match e.kind {
        ExprKind::Lit(l) => match l {
            Lit::Float(_) => Some(1),
            Lit::Int(_) => Some(1),
            _ => None,
        },
        ExprKind::Field(b, m) => match m {
            Member::Named(n) => if path_ident(*b) == Some(cp) || path_ident(*b) == Some("self"@) {
                if st.contains(n@) { Some(field_slot(st, ss, n@).2) } else { None }
            } else if 1 <= n@.len() <= 4 {
                Some(n@.len())
            } else {
                None
            },
            Member::Unnamed(_) => None,
        },
        ExprKind::Binary(a, op, b) => match op {
            BinOp::Add | BinOp::Sub | BinOp::Mul | BinOp::Div => match (known_width(st, ss, lv, *a, cp), known_width(st, ss, lv, *b, cp)) {
                (Some(x), Some(y)) => Some(max_nat(x, y)),
                _ => None,
            },
            _ => None,
        },
        ExprKind::Unary(op, x) => match op {
            UnOp::Neg => known_width(st, ss, lv, *x, cp),
            _ => None,
        },
        ExprKind::Paren(x) => known_width(st, ss, lv, *x, cp),
        ExprKind::Group(x) => known_width(st, ss, lv, *x, cp),
        ExprKind::Call(f, _) => match f.kind {
            ExprKind::Path(p) => {
                let name = segments_text(p);
                if name == "vec2"@ { Some(2) } else if name == "vec3"@ { Some(3) }
                else if name == "vec4"@ || name == "Color::rgb"@ || name == "Color::rgba"@ || name == "Color::hsv"@ { Some(4) }
                else if name == "atan2"@ || scalar_method(name) { Some(1) }
                else { None }
            },
            _ => None,
        },
        ExprKind::MethodCall(r, m, args) => {
            if scalar_method(m@) { Some(1) }
            else if m@ == "cross"@ { Some(3) }
            else if (m@ == "offset"@ || m@ == "direction"@) && args@.len() == 0 { Some(2) }
            else if path_ident(*r) == Some("nb"@) { None }
            else { known_width(st, ss, lv, *r, cp) }
        },
        ExprKind::Block(b) => {
            if b.stmts@.len() > 0 && b.stmts@[b.stmts@.len() - 1] matches Stmt::Expr(_, false) {
                known_width(st, ss, env_after(st, ss, lv, b.stmts@, b.stmts@.len() - 1, cp),
                    b.stmts@[b.stmts@.len() - 1]->Expr_0, cp)
            } else {
                None
            }
        },
        ExprKind::Path(_) => match path_ident(e) {
            Some(n) => local_width(lv, n),
            None => None,
        },
        _ => None,
    }
}

/// The local bindings in scope, innermost last, with the width of their
/// value where it is known.
pub type Locals = Seq<(Seq<char>, Option<nat>)>;

/// The known width of the innermost binding named `n`.
pub open spec fn local_width(lv: Locals, n: Seq<char>) -> Option<nat>
    decreases lv.len(),
{
    if lv.len() == 0 {
        None
    } else if lv.last().0 == n {
        lv.last().1
    } else {
        local_width(lv.drop_last(), n)
    }
}

/// The bindings after statement `s`: a `let` adds its name.
pub open spec fn extend(st: Seq<Seq<char>>, ss: Seq<u32>, lv: Locals, s: Stmt, cp: Seq<char>) -> Locals
    decreases s, 0int,
{
    match s {
        Stmt::Local(l) => match pat_name(l.pat) {
            Some(n) => lv.push((n, match l.init {
                Some(x) => known_width(st, ss, lv, x, cp),
                None => None,
            })),
            None => lv,
        },
        _ => lv,
    }
}

/// The bindings after the statements `s[..k]`.
pub open spec fn env_after(st: Seq<Seq<char>>, ss: Seq<u32>, lv: Locals, s: Seq<Stmt>, k: int, cp: Seq<char>) -> Locals
    decreases s, k,
{
    if k <= 0 || k > s.len() {
        lv
    } else {
        extend(st, ss, env_after(st, ss, lv, s, k - 1, cp), s[k - 1], cp)
    }
}

/// The known width of a block's tail value.
pub open spec fn tail_width(st: Seq<Seq<char>>, ss: Seq<u32>, lv: Locals, b: Block, cp: Seq<char>) -> Option<nat> {
    if b.stmts@.len() > 0 && b.stmts@[b.stmts@.len() - 1] matches Stmt::Expr(_, false) {
        known_width(st, ss, env_after(st, ss, lv, b.stmts@, b.stmts@.len() - 1, cp), b.stmts@[b.stmts@.len() - 1]->Expr_0, cp)
    } else {
        None
    }
}

/// A known width, or one.
pub open spec fn or_one(w: Option<nat>) -> nat {
    match w {
        Some(x) => x,
        None => 1,
    }
}

/// Whether two known widths differ.
pub open spec fn widths_differ(a: Option<nat>, b: Option<nat>) -> bool {
    a is Some && b is Some && a->0 != b->0
}

pub open spec fn c017_text(name: Seq<char>, sname: Seq<char>) -> Seq<char> {
    "cellarium C017: '"@ + name + "' is not a field of "@ + sname + "."@
}

/// Whether a field access reads the state: of `self`, or of the neighbour
/// closure's parameter `cp`.
pub open spec fn state_base(b: Expr, cp: Option<Seq<char>>) -> bool {
    path_ident(b) == Some("self"@) || (cp is Some && path_ident(b) == cp)
}

/// Whether a struct literal assigns field `n`.
pub open spec fn literal_has(fs: Seq<FieldValue>, n: Seq<char>) -> bool {
    exists|j: int| 0 <= j < fs.len() && member_name(#[trigger] fs[j].member) == Some(n)
}

/// The first declared field from `st[k..]` that a struct literal leaves out.
pub open spec fn first_missing(st: Seq<Seq<char>>, fs: Seq<FieldValue>, k: int) -> Option<Seq<char>>
    decreases st.len() - k,
{
    if 0 <= k < st.len() {
        if !literal_has(fs, st[k]) { Some(st[k]) } else { first_missing(st, fs, k + 1) }
    } else {
        None
    }
}

/// The first misuse of the state in an expression, in evaluation order:
/// `st` are the declared fields, `sn` the state type's name, `cp` the
/// parameter of the enclosing neighbour closure, `out` whether struct
/// literals are returned states.
pub open spec fn use_expr(e: Expr, st: Seq<Seq<char>>, ss: Seq<u32>, sn: Seq<char>, cp: Option<Seq<char>>, lv: Locals, out: bool) -> Result<(), ErrorView>
    decreases e, 0int,
{
    match e.kind {
        ExprKind::Field(b, m) => match use_expr(*b, st, ss, sn, cp, lv, out) {
            Err(x) => Err(x),
            Ok(_) => match member_name(m) {
                Some(n) => if state_base(*b, cp) && !st.contains(n) { Err(err_at(e.span, c017_text(n, sn))) } else { Ok(()) },
                None => Ok(()),
            },
        },
        ExprKind::Struct(fs) => match use_fields(fs@, 0, st, ss, sn, cp, lv, out) {
            Err(x) => Err(x),
            Ok(_) => if out {
                match first_missing(st, fs@, 0) {
                    Some(n) => Err(err_at(e.span, c003_text(n))),
                    None => Ok(()),
                }
            } else {
                Ok(())
            },
        },
        ExprKind::MethodCall(r, _, args) => match use_expr(*r, st, ss, sn, cp, lv, out) {
            Err(x) => Err(x),
            Ok(_) => if path_ident(*r) == Some("nb"@) {
                use_op_args(args@, 0, st, ss, sn, cp, lv, out)
            } else {
                use_exprs(args@, 0, st, ss, sn, cp, lv, out)
            },
        },
        ExprKind::Binary(a, op, b) => match use_expr(*a, st, ss, sn, cp, lv, out) {
            Err(x) => Err(x),
            Ok(_) => match use_expr(*b, st, ss, sn, cp, lv, out) {
                Err(x) => Err(x),
                Ok(_) => {
                    let w = max_nat(or_one(known_width(st, ss, lv, *a, param_or_self(cp))),
                        or_one(known_width(st, ss, lv, *b, param_or_self(cp))));
                    if is_comparison(op) && w > 1 { Err(err_at(e.span, c014_text(w))) } else { Ok(()) }
                },
            },
        },
        ExprKind::Unary(_, x) => use_expr(*x, st, ss, sn, cp, lv, out),
        ExprKind::Paren(x) => use_expr(*x, st, ss, sn, cp, lv, out),
        ExprKind::Group(x) => use_expr(*x, st, ss, sn, cp, lv, out),
        ExprKind::Call(f, args) => match use_expr(*f, st, ss, sn, cp, lv, out) {
            Err(x) => Err(x),
            Ok(_) => use_exprs(args@, 0, st, ss, sn, cp, lv, out),
        },
        ExprKind::If(c, b, els) => match use_expr(*c, st, ss, sn, cp, lv, out) {
            Err(x) => Err(x),
            Ok(_) => match use_stmts(b.stmts@, 0, st, ss, sn, cp, lv, out) {
                Err(x) => Err(x),
                Ok(_) => match els {
                    Some(x) => match use_expr(*x, st, ss, sn, cp, lv, out) {
                        Err(y) => Err(y),
                        Ok(_) => {
                            let tw = tail_width(st, ss, lv, b, param_or_self(cp));
                            let ew = known_width(st, ss, lv, *x, param_or_self(cp));
                            if widths_differ(tw, ew) { Err(err_at(e.span, c013_text(tw->0, ew->0))) } else { Ok(()) }
                        },
                    },
                    None => Ok(()),
                },
            },
        },
        ExprKind::Block(b) => use_stmts(b.stmts@, 0, st, ss, sn, cp, lv, out),
        ExprKind::Closure(_, body, _) => use_expr(*body, st, ss, sn, cp, lv, out),
        ExprKind::Return(Some(x), _) => use_expr(*x, st, ss, sn, cp, lv, out),
        _ => Ok(()),
    }
}

/// The fields `fs[i..]` of a struct literal: their values, and whether they
/// are declared fields (when the literal is a returned state).
pub open spec fn use_fields(fs: Seq<FieldValue>, i: int, st: Seq<Seq<char>>, ss: Seq<u32>, sn: Seq<char>, cp: Option<Seq<char>>, lv: Locals, out: bool) -> Result<(), ErrorView>
    decreases fs, fs.len() - i,
{
    if 0 <= i < fs.len() {
        match use_expr(fs[i].expr, st, ss, sn, cp, lv, out) {
            Err(x) => Err(x),
            Ok(_) => match member_name(fs[i].member) {
                Some(n) => if out && !st.contains(n) {
                    Err(err_at(fs[i].span, c004_text(n)))
                } else if out && widths_differ(Some(field_slot(st, ss, n).2), known_width(st, ss, lv, fs[i].expr, param_or_self(cp))) {
                    Err(err_at(fs[i].span, c005_text(n, field_slot(st, ss, n).2,
                        known_width(st, ss, lv, fs[i].expr, param_or_self(cp))->0)))
                } else {
                    use_fields(fs, i + 1, st, ss, sn, cp, lv, out)
                },
                None => use_fields(fs, i + 1, st, ss, sn, cp, lv, out),
            },
        }
    } else {
        Ok(())
    }
}

pub open spec fn use_exprs(s: Seq<Expr>, i: int, st: Seq<Seq<char>>, ss: Seq<u32>, sn: Seq<char>, cp: Option<Seq<char>>, lv: Locals, out: bool) -> Result<(), ErrorView>
    decreases s, s.len() - i,
{
    if 0 <= i < s.len() {
        match use_expr(s[i], st, ss, sn, cp, lv, out) {
            Err(x) => Err(x),
            Ok(_) => use_exprs(s, i + 1, st, ss, sn, cp, lv, out),
        }
    } else {
        Ok(())
    }
}

/// The arguments of a spatial operator: a closure's body reads the
/// neighbour through the closure's parameter.
pub open spec fn use_op_args(s: Seq<Expr>, i: int, st: Seq<Seq<char>>, ss: Seq<u32>, sn: Seq<char>, cp: Option<Seq<char>>, lv: Locals, out: bool) -> Result<(), ErrorView>
    decreases s, s.len() - i,
{
    if 0 <= i < s.len() {
        let r = match s[i].kind {
            ExprKind::Closure(ps, body, _) => use_expr(*body, st, ss, sn, Some(closure_param_text(ps@)), lv, out),
            _ => use_expr(s[i], st, ss, sn, cp, lv, out),
        };
        match r {
            Err(x) => Err(x),
            Ok(_) => use_op_args(s, i + 1, st, ss, sn, cp, lv, out),
        }
    } else {
        Ok(())
    }
}

pub open spec fn use_stmt(s: Stmt, st: Seq<Seq<char>>, ss: Seq<u32>, sn: Seq<char>, cp: Option<Seq<char>>, lv: Locals, out: bool) -> Result<(), ErrorView>
    decreases s, 0int,
{
    match s {
        Stmt::Local(l) => match l.init {
            Some(x) => use_expr(x, st, ss, sn, cp, lv, out),
            None => Ok(()),
        },
        Stmt::Expr(x, _) => use_expr(x, st, ss, sn, cp, lv, out),
        Stmt::Other => Ok(()),
    }
}

pub open spec fn use_stmts(s: Seq<Stmt>, i: int, st: Seq<Seq<char>>, ss: Seq<u32>, sn: Seq<char>, cp: Option<Seq<char>>, lv: Locals, out: bool) -> Result<(), ErrorView>
    decreases s, s.len() - i,
{
    if 0 <= i < s.len() {
        match use_stmt(s[i], st, ss, sn, cp, lv, out) {
            Err(x) => Err(x),
            Ok(_) => use_stmts(s, i + 1, st, ss, sn, cp, extend(st, ss, lv, s[i], param_or_self(cp)), out),
        }
    } else {
        Ok(())
    }
}

/// The first misuse of the state in a method body; `out` tells whether the
/// method returns a state (`update`, `init`).
pub open spec fn use_body(b: Block, st: Seq<Seq<char>>, ss: Seq<u32>, sn: Seq<char>, out: bool) -> Result<(), ErrorView> {
    use_stmts(b.stmts@, 0, st, ss, sn, None, Seq::empty(), out)
}

// ---------------------------------------------------------------------------
// Executable
// ---------------------------------------------------------------------------

fn is_declared(st: &Vec<FieldDef>, n: &str) -> (r: bool)
    ensures
        r == names_of(st@).contains(n@),
{
    let k = st.len();
    let mut i: usize = 0;
    while i < k
        invariant
            k == st.len(),
            0 <= i <= k,
            forall|j: int| 0 <= j < i ==> names_of(st@)[j] != n@,
        decreases k - i,
    {
        if crate::text::str_eq(st[i].name.as_str(), n) {
            assert(names_of(st@)[i as int] == n@);
            return true;
        }
        i = i + 1;
    }
    false
}

fn has_field(fs: &Vec<FieldValue>, n: &String) -> (r: bool)
    ensures
        r == literal_has(fs@, n@),
{
    let k = fs.len();
    let mut i: usize = 0;
    while i < k
        invariant
            k == fs.len(),
            0 <= i <= k,
            forall|j: int| 0 <= j < i ==> member_name(#[trigger] fs@[j].member) != Some(n@),
        decreases k - i,
    {
        match &fs[i].member {
            Member::Named(m) => {
                if crate::text::str_eq(m.as_str(), n.as_str()) {
                    assert(member_name(fs@[i as int].member) == Some(n@));
                    return true;
                }
            }
            Member::Unnamed(_) => {}
        }
        i = i + 1;
    }
    false
}

fn missing_field(st: &Vec<FieldDef>, fs: &Vec<FieldValue>) -> (r: Option<String>)
    ensures
        match r {
            Some(n) => first_missing(names_of(st@), fs@, 0) == Some(n@),
            None => first_missing(names_of(st@), fs@, 0) is None,
        },
{
    let ghost names = names_of(st@);
    let k = st.len();
    let mut i: usize = 0;
    while i < k
        invariant
            k == st.len(),
            names == names_of(st@),
            0 <= i <= k,
            first_missing(names, fs@, 0) == first_missing(names, fs@, i as int),
        decreases k - i,
    {
        assert(names[i as int] == st@[i as int].name@);
        if !has_field(fs, &st[i].name) {
            return Some(st[i].name.clone());
        }
        i = i + 1;
    }
    None
}

fn reject_with(span: u32, m: String) -> (r: Result<(), MacroError>)
    ensures
        unit_result(r) == Err::<(), ErrorView>(err_at(span, m@)),
{
    Err(MacroError::new(span, m))
}

fn c017(span: u32, n: &str, sn: &str) -> (r: Result<(), MacroError>)
    ensures
        unit_result(r) == Err::<(), ErrorView>(err_at(span, c017_text(n@, sn@))),
{
    let mut m = text("cellarium C017: '");
    push(&mut m, n);
    push(&mut m, "' is not a field of ");
    push(&mut m, sn);
    push(&mut m, ".");
    reject_with(span, m)
}

fn c014(span: u32, w: u32) -> (r: Result<(), MacroError>)
    ensures
        unit_result(r) == Err::<(), ErrorView>(err_at(span, c014_text(w as nat))),
{
    let mut m = text("cellarium C014: Cannot compare ");
    push(&mut m, if w == 2 { "Vec2" } else if w == 3 { "Vec3" } else { "Vec4" });
    push(&mut m, " values. Use .length() for vector magnitude comparison.");
    reject_with(span, m)
}

fn c003(span: u32, n: &str) -> (r: Result<(), MacroError>)
    ensures
        unit_result(r) == Err::<(), ErrorView>(err_at(span, c003_text(n@))),
{
    let mut m = text("cellarium C003: Missing field '");
    push(&mut m, n);
    push(&mut m, "' in return struct. All state fields must be assigned.");
    reject_with(span, m)
}

fn c004(span: u32, n: &str) -> (r: Result<(), MacroError>)
    ensures
        unit_result(r) == Err::<(), ErrorView>(err_at(span, c004_text(n@))),
{
    let mut m = text("cellarium C004: Extra field '");
    push(&mut m, n);
    push(&mut m, "' in return struct.");
    reject_with(span, m)
}

fn is_state_base(b: &Expr, cp: Option<&String>) -> (r: bool)
    ensures
        r == state_base(*b, match cp { Some(s) => Some(s@), None => None }),
{
    if is_ident(b, "self") {
        return true;
    }
    match cp {
        Some(s) => is_ident(b, s.as_str()),
        None => false,
    }
}

pub open spec fn opt_view(cp: Option<&String>) -> Option<Seq<char>> {
    match cp {
        Some(s) => Some(s@),
        None => None,
    }
}

fn width_word(w: u32) -> (r: &'static str)
    ensures
        r@ == type_name_of(w as nat),
{
    if w == 1 { "f32" } else if w == 2 { "Vec2" } else if w == 3 { "Vec3" } else { "Vec4" }
}

fn c005(span: u32, n: &str, expected: u32, got: u32) -> (r: Result<(), MacroError>)
    ensures
        unit_result(r) == Err::<(), ErrorView>(err_at(span, c005_text(n@, expected as nat, got as nat))),
{
    let mut m = text("cellarium C005: Type mismatch for field '");
    push(&mut m, n);
    push(&mut m, "': expected ");
    push(&mut m, width_word(expected));
    push(&mut m, ", got ");
    push(&mut m, width_word(got));
    push(&mut m, ".");
    reject_with(span, m)
}

fn c013(span: u32, a: u32, b: u32) -> (r: Result<(), MacroError>)
    ensures
        unit_result(r) == Err::<(), ErrorView>(err_at(span, c013_text(a as nat, b as nat))),
{
    let mut m = text("cellarium C013: if branches have different types: ");
    push(&mut m, width_word(a));
    push(&mut m, " vs ");
    push(&mut m, width_word(b));
    push(&mut m, ".");
    reject_with(span, m)
}

pub open spec fn opt_u32(o: Option<u32>) -> Option<nat> {
    match o {
        Some(w) => Some(w as nat),
        None => None,
    }
}

/// The locals of the executable checks, viewed as [`Locals`].
pub open spec fn locals_view(v: Seq<(String, Option<u32>)>) -> Locals {
    v.map_values(|p: (String, Option<u32>)| (p.0@, opt_u32(p.1)))
}

fn copy_locals(lv: &Vec<(String, Option<u32>)>) -> (r: Vec<(String, Option<u32>)>)
    ensures
        locals_view(r@) == locals_view(lv@),
{
    let mut r: Vec<(String, Option<u32>)> = Vec::new();
    let n = lv.len();
    let mut i: usize = 0;
    while i < n
        invariant
            n == lv.len(),
            0 <= i <= n,
            locals_view(r@) == locals_view(lv@.take(i as int)),
        decreases n - i,
    {
        let name = lv[i].0.clone();
        let w = lv[i].1;
        let ghost before = r@;
        r.push((name, w));
        proof {
            assert(locals_view(r@) =~= locals_view(before).push((lv@[i as int].0@, opt_u32(lv@[i as int].1))));
            assert(locals_view(lv@.take(i as int + 1)) =~= locals_view(lv@.take(i as int)).push((lv@[i as int].0@, opt_u32(lv@[i as int].1))));
        }
        i = i + 1;
    }
    assert(lv@.take(n as int) =~= lv@);
    r
}

fn local_width_code(lv: &Vec<(String, Option<u32>)>, n: &str) -> (r: Option<u32>)
    ensures
        opt_u32(r) == local_width(locals_view(lv@), n@),
{
    let ghost v = locals_view(lv@);
    assert(v.take(lv.len() as int) =~= v);
    let mut i: usize = lv.len();
    while i > 0
        invariant
            0 <= i <= lv.len(),
            v == locals_view(lv@),
            local_width(v, n@) == local_width(v.take(i as int), n@),
        decreases i,
    {
        proof {
            assert(v.take(i as int).drop_last() =~= v.take(i as int - 1));
            assert(v.take(i as int).last() == (lv@[i as int - 1].0@, opt_u32(lv@[i as int - 1].1)));
        }
        if crate::text::str_eq(lv[i - 1].0.as_str(), n) {
            return lv[i - 1].1;
        }
        i = i - 1;
    }
    None
}

fn let_name(p: &Pat) -> (r: Option<String>)
    ensures
        match r {
            Some(n) => pat_name(*p) == Some(n@),
            None => pat_name(*p) is None,
        },
{
    match p {
        Pat::Ident { name, .. } => Some(name.clone()),
        Pat::Typed(inner) => match &**inner {
            Pat::Ident { name, .. } => Some(name.clone()),
            _ => None,
        },
        Pat::Other => None,
    }
}

/// Adds the binding of a `let` statement (see [`extend`]).
fn extend_code(st: &Vec<FieldDef>, env: &mut Vec<(String, Option<u32>)>, s: &Stmt, cp: &str)
    requires
        sizes_ok(sizes_of(st@)),
    ensures
        locals_view(final(env)@) == extend(names_of(st@), sizes_of(st@), locals_view(old(env)@), *s, cp@),
    decreases s, 0int,
{
    match s {
        Stmt::Local(l) => match let_name(&l.pat) {
            Some(n) => {
                let w = match &l.init {
                    Some(x) => known_width_code(st, env, x, cp),
                    None => None,
                };
                let ghost before = env@;
                env.push((n, w));
                proof {
                    assert(locals_view(env@) =~= locals_view(before).push((n@, opt_u32(w))));
                }
            }
            None => {}
        },
        _ => {}
    }
}

/// The bindings after all but the last statement of a block, from `lv`.
fn env_before_tail(st: &Vec<FieldDef>, lv: &Vec<(String, Option<u32>)>, s: &Vec<Stmt>, cp: &str) -> (r: Vec<(String, Option<u32>)>)
    requires
        sizes_ok(sizes_of(st@)),
        s.len() > 0,
    ensures
        locals_view(r@) == env_after(names_of(st@), sizes_of(st@), locals_view(lv@), s@, s.len() - 1, cp@),
    decreases s, 1int,
{
    let mut env = copy_locals(lv);
    let n = s.len() - 1;
    let mut i: usize = 0;
    while i < n
        invariant
            n == s.len() - 1,
            s.len() > 0,
            sizes_ok(sizes_of(st@)),
            0 <= i <= n,
            locals_view(env@) == env_after(names_of(st@), sizes_of(st@), locals_view(lv@), s@, i as int, cp@),
        decreases n - i,
    {
        extend_code(st, &mut env, &s[i], cp);
        i = i + 1;
    }
    env
}

/// The known width of a value (see [`known_width`]).
fn known_width_code(st: &Vec<FieldDef>, lv: &Vec<(String, Option<u32>)>, e: &Expr, cp: &str) -> (r: Option<u32>)
    requires
        sizes_ok(sizes_of(st@)),
    ensures
        opt_u32(r) == known_width(names_of(st@), sizes_of(st@), locals_view(lv@), *e, cp@),
    decreases e, 0int,
{
    match &e.kind {
        ExprKind::Lit(l) => match l {
            Lit::Float(_) => Some(1),
            Lit::Int(_) => Some(1),
            _ => None,
        },
        ExprKind::Field(b, m) => match m {
            Member::Named(n) => {
                if is_ident(b, cp) || is_ident(b, "self") {
                    if is_declared(st, n.as_str()) {
                        let (_, _, size) = field_slot_of(st, n.as_str());
                        Some(size)
                    } else {
                        None
                    }
                } else {
                    let len = n.as_str().unicode_len();
                    if 1 <= len && len <= 4 { Some(len as u32) } else { None }
                }
            }
            Member::Unnamed(_) => None,
        },
        ExprKind::Binary(a, op, b) => match op {
            BinOp::Add | BinOp::Sub | BinOp::Mul | BinOp::Div => {
                match (known_width_code(st, lv, a, cp), known_width_code(st, lv, b, cp)) {
                    (Some(x), Some(y)) => Some(if x >= y { x } else { y }),
                    _ => None,
                }
            }
            _ => None,
        },
        ExprKind::Unary(op, x) => match op {
            UnOp::Neg => known_width_code(st, lv, x, cp),
            _ => None,
        },
        ExprKind::Paren(x) => known_width_code(st, lv, x, cp),
        ExprKind::Group(x) => known_width_code(st, lv, x, cp),
        ExprKind::Call(f, _) => match &f.kind {
            ExprKind::Path(p) => {
                let name = crate::text::join_strings(&p.segments, "::");
                let nm = name.as_str();
                if crate::text::str_eq(nm, "vec2") { Some(2) } else if crate::text::str_eq(nm, "vec3") { Some(3) }
                else if crate::text::str_eq(nm, "vec4") || crate::text::str_eq(nm, "Color::rgb")
                    || crate::text::str_eq(nm, "Color::rgba") || crate::text::str_eq(nm, "Color::hsv") { Some(4) }
                else if crate::text::str_eq(nm, "atan2") || crate::text::str_eq(nm, "length")
                    || crate::text::str_eq(nm, "dot") || crate::text::str_eq(nm, "distance") { Some(1) }
                else { None }
            }
            _ => None,
        },
        ExprKind::MethodCall(r, m, args) => {
            let mm = m.as_str();
            if crate::text::str_eq(mm, "length") || crate::text::str_eq(mm, "dot") || crate::text::str_eq(mm, "distance") { Some(1) }
            else if crate::text::str_eq(mm, "cross") { Some(3) }
            else if (crate::text::str_eq(mm, "offset") || crate::text::str_eq(mm, "direction")) && args.len() == 0 { Some(2) }
            else if is_ident(r, "nb") { None }
            else { known_width_code(st, lv, r, cp) }
        }
        ExprKind::Block(b) => tail_width_code(st, lv, b, cp),
        ExprKind::Path(_) => match crate::ast::get_ident(e) {
            Some(n) => local_width_code(lv, n.as_str()),
            None => None,
        },
        _ => None,
    }
}

fn tail_width_code(st: &Vec<FieldDef>, lv: &Vec<(String, Option<u32>)>, b: &Block, cp: &str) -> (r: Option<u32>)
    requires
        sizes_ok(sizes_of(st@)),
    ensures
        opt_u32(r) == tail_width(names_of(st@), sizes_of(st@), locals_view(lv@), *b, cp@),
    decreases b, 0int,
{
    let n = b.stmts.len();
    if n > 0 {
        match &b.stmts[n - 1] {
            Stmt::Expr(x, semi) => if !*semi {
                let env = env_before_tail(st, lv, &b.stmts, cp);
                known_width_code(st, &env, x, cp)
            } else {
                None
            },
            _ => None,
        }
    } else {
        None
    }
}

/// Checks how a method body uses the state (see [`use_body`]).
pub fn check_state_use(b: &Block, st: &Vec<FieldDef>, sn: &str, out: bool) -> (r: Result<(), MacroError>)
    requires
        sizes_ok(sizes_of(st@)),
    ensures
        unit_result(r) == use_body(*b, names_of(st@), sizes_of(st@), sn@, out),
{
    let lv: Vec<(String, Option<u32>)> = Vec::new();
    assert(locals_view(lv@) =~= Seq::<(Seq<char>, Option<nat>)>::empty());
    state_stmts(&b.stmts, st, sn, None, &lv, out)
}

fn state_stmts(s: &Vec<Stmt>, st: &Vec<FieldDef>, sn: &str, cp: Option<&String>, lv: &Vec<(String, Option<u32>)>, out: bool) -> (r: Result<(), MacroError>)
    requires
        sizes_ok(sizes_of(st@)),
    ensures
        unit_result(r) == use_stmts(s@, 0, names_of(st@), sizes_of(st@), sn@, opt_view(cp), locals_view(lv@), out),
    decreases s, 1int,
{
    let p: &str = match cp {
        Some(c) => c.as_str(),
        None => "self",
    };
    let mut env = copy_locals(lv);
    let n = s.len();
    let mut i: usize = 0;
    while i < n
        invariant
            sizes_ok(sizes_of(st@)),
            n == s.len(),
            0 <= i <= n,
            p@ == param_or_self(opt_view(cp)),
            use_stmts(s@, 0, names_of(st@), sizes_of(st@), sn@, opt_view(cp), locals_view(lv@), out)
                == use_stmts(s@, i as int, names_of(st@), sizes_of(st@), sn@, opt_view(cp), locals_view(env@), out),
        decreases n - i,
    {
        match state_stmt(&s[i], st, sn, cp, &env, out) {
            Err(x) => { return Err(x); }
            Ok(_) => {}
        }
        extend_code(st, &mut env, &s[i], p);
        i = i + 1;
    }
    Ok(())
}

fn state_stmt(s: &Stmt, st: &Vec<FieldDef>, sn: &str, cp: Option<&String>, lv: &Vec<(String, Option<u32>)>, out: bool) -> (r: Result<(), MacroError>)
    requires
        sizes_ok(sizes_of(st@)),
    ensures
        unit_result(r) == use_stmt(*s, names_of(st@), sizes_of(st@), sn@, opt_view(cp), locals_view(lv@), out),
    decreases s, 0int,
{
    match s {
        Stmt::Local(l) => match &l.init {
            Some(x) => state_expr(x, st, sn, cp, lv, out),
            None => Ok(()),
        },
        Stmt::Expr(x, _) => state_expr(x, st, sn, cp, lv, out),
        Stmt::Other => Ok(()),
    }
}

fn state_exprs(s: &Vec<Expr>, st: &Vec<FieldDef>, sn: &str, cp: Option<&String>, lv: &Vec<(String, Option<u32>)>, out: bool) -> (r: Result<(), MacroError>)
    requires
        sizes_ok(sizes_of(st@)),
    ensures
        unit_result(r) == use_exprs(s@, 0, names_of(st@), sizes_of(st@), sn@, opt_view(cp), locals_view(lv@), out),
    decreases s, 1int,
{
    let n = s.len();
    let mut i: usize = 0;
    while i < n
        invariant
            sizes_ok(sizes_of(st@)),
            n == s.len(),
            0 <= i <= n,
            use_exprs(s@, 0, names_of(st@), sizes_of(st@), sn@, opt_view(cp), locals_view(lv@), out)
                == use_exprs(s@, i as int, names_of(st@), sizes_of(st@), sn@, opt_view(cp), locals_view(lv@), out),
        decreases n - i,
    {
        match state_expr(&s[i], st, sn, cp, lv, out) {
            Err(x) => { return Err(x); }
            Ok(_) => {}
        }
        i = i + 1;
    }
    Ok(())
}

fn state_op_args(s: &Vec<Expr>, st: &Vec<FieldDef>, sn: &str, cp: Option<&String>, lv: &Vec<(String, Option<u32>)>, out: bool) -> (r: Result<(), MacroError>)
    requires
        sizes_ok(sizes_of(st@)),
    ensures
        unit_result(r) == use_op_args(s@, 0, names_of(st@), sizes_of(st@), sn@, opt_view(cp), locals_view(lv@), out),
    decreases s, 1int,
{
    let n = s.len();
    let mut i: usize = 0;
    while i < n
        invariant
            sizes_ok(sizes_of(st@)),
            n == s.len(),
            0 <= i <= n,
            use_op_args(s@, 0, names_of(st@), sizes_of(st@), sn@, opt_view(cp), locals_view(lv@), out)
                == use_op_args(s@, i as int, names_of(st@), sizes_of(st@), sn@, opt_view(cp), locals_view(lv@), out),
        decreases n - i,
    {
        let r = match &s[i].kind {
            ExprKind::Closure(ps, body, _) => {
                let p = closure_param_name(ps);
                state_expr(body, st, sn, Some(&p), lv, out)
            }
            _ => state_expr(&s[i], st, sn, cp, lv, out),
        };
        match r {
            Err(x) => { return Err(x); }
            Ok(_) => {}
        }
        i = i + 1;
    }
    Ok(())
}

fn state_fields(fs: &Vec<FieldValue>, st: &Vec<FieldDef>, sn: &str, cp: Option<&String>, lv: &Vec<(String, Option<u32>)>, out: bool) -> (r: Result<(), MacroError>)
    requires
        sizes_ok(sizes_of(st@)),
    ensures
        unit_result(r) == use_fields(fs@, 0, names_of(st@), sizes_of(st@), sn@, opt_view(cp), locals_view(lv@), out),
    decreases fs, 1int,
{
    let p: &str = match cp {
        Some(c) => c.as_str(),
        None => "self",
    };
    let n = fs.len();
    let mut i: usize = 0;
    while i < n
        invariant
            sizes_ok(sizes_of(st@)),
            n == fs.len(),
            0 <= i <= n,
            p@ == param_or_self(opt_view(cp)),
            use_fields(fs@, 0, names_of(st@), sizes_of(st@), sn@, opt_view(cp), locals_view(lv@), out)
                == use_fields(fs@, i as int, names_of(st@), sizes_of(st@), sn@, opt_view(cp), locals_view(lv@), out),
        decreases n - i,
    {
        match state_expr(&fs[i].expr, st, sn, cp, lv, out) {
            Err(x) => { return Err(x); }
            Ok(_) => {}
        }
        match &fs[i].member {
            Member::Named(m) => {
                if out && !is_declared(st, m.as_str()) {
                    return c004(fs[i].span, m.as_str());
                }
                if out {
                    let (_, _, size) = field_slot_of(st, m.as_str());
                    match known_width_code(st, lv, &fs[i].expr, p) {
                        Some(w) => {
                            if w != size {
                                return c005(fs[i].span, m.as_str(), size, w);
                            }
                        }
                        None => {}
                    }
                }
            }
            Member::Unnamed(_) => {}
        }
        i = i + 1;
    }
    Ok(())
}

fn state_expr(e: &Expr, st: &Vec<FieldDef>, sn: &str, cp: Option<&String>, lv: &Vec<(String, Option<u32>)>, out: bool) -> (r: Result<(), MacroError>)
    requires
        sizes_ok(sizes_of(st@)),
    ensures
        unit_result(r) == use_expr(*e, names_of(st@), sizes_of(st@), sn@, opt_view(cp), locals_view(lv@), out),
    decreases e, 0int,
{
    let p: &str = match cp {
        Some(c) => c.as_str(),
        None => "self",
    };
    match &e.kind {
        ExprKind::Field(b, m) => {
            match state_expr(b, st, sn, cp, lv, out) {
                Err(x) => { return Err(x); }
                Ok(_) => {}
            }
            match m {
                Member::Named(n) => {
                    if is_state_base(b, cp) && !is_declared(st, n.as_str()) {
                        c017(e.span, n.as_str(), sn)
                    } else {
                        Ok(())
                    }
                }
                Member::Unnamed(_) => Ok(()),
            }
        }
        ExprKind::Struct(fs) => {
            match state_fields(fs, st, sn, cp, lv, out) {
                Err(x) => { return Err(x); }
                Ok(_) => {}
            }
            if out {
                match missing_field(st, fs) {
                    Some(n) => c003(e.span, n.as_str()),
                    None => Ok(()),
                }
            } else {
                Ok(())
            }
        }
        ExprKind::MethodCall(r, _, args) => {
            match state_expr(r, st, sn, cp, lv, out) {
                Err(x) => { return Err(x); }
                Ok(_) => {}
            }
            if is_ident(r, "nb") {
                state_op_args(args, st, sn, cp, lv, out)
            } else {
                state_exprs(args, st, sn, cp, lv, out)
            }
        }
        ExprKind::Binary(a, op, b) => {
            match state_expr(a, st, sn, cp, lv, out) {
                Err(x) => { return Err(x); }
                Ok(_) => {}
            }
            match state_expr(b, st, sn, cp, lv, out) {
                Err(x) => { return Err(x); }
                Ok(_) => {}
            }
            let compares = match op {
                BinOp::Eq | BinOp::Ne | BinOp::Lt | BinOp::Gt | BinOp::Le | BinOp::Ge => true,
                _ => false,
            };
            if !compares {
                return Ok(());
            }
            let wa = match known_width_code(st, lv, a, p) { Some(w) => w, None => 1 };
            let wb = match known_width_code(st, lv, b, p) { Some(w) => w, None => 1 };
            let w = if wa >= wb { wa } else { wb };
            if w > 1 { c014(e.span, w) } else { Ok(()) }
        }
        ExprKind::Unary(_, x) => state_expr(x, st, sn, cp, lv, out),
        ExprKind::Paren(x) => state_expr(x, st, sn, cp, lv, out),
        ExprKind::Group(x) => state_expr(x, st, sn, cp, lv, out),
        ExprKind::Call(f, args) => {
            match state_expr(f, st, sn, cp, lv, out) {
                Err(x) => { return Err(x); }
                Ok(_) => {}
            }
            state_exprs(args, st, sn, cp, lv, out)
        }
        ExprKind::If(c, b, els) => {
            match state_expr(c, st, sn, cp, lv, out) {
                Err(x) => { return Err(x); }
                Ok(_) => {}
            }
            match state_stmts(&b.stmts, st, sn, cp, lv, out) {
                Err(x) => { return Err(x); }
                Ok(_) => {}
            }
            match els {
                Some(x) => {
                    match state_expr(x, st, sn, cp, lv, out) {
                        Err(y) => { return Err(y); }
                        Ok(_) => {}
                    }
                    match (tail_width_code(st, lv, b, p), known_width_code(st, lv, x, p)) {
                        (Some(tw), Some(ew)) => if tw != ew { c013(e.span, tw, ew) } else { Ok(()) },
                        _ => Ok(()),
                    }
                }
                None => Ok(()),
            }
        }
        ExprKind::Block(b) => state_stmts(&b.stmts, st, sn, cp, lv, out),
        ExprKind::Closure(_, body, _) => state_expr(body, st, sn, cp, lv, out),
        ExprKind::Return(Some(x), _) => state_expr(x, st, sn, cp, lv, out),
        _ => Ok(()),
    }
}

} // verus!
