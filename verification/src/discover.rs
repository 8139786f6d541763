//! Finding which state fields a method body uses, and what a neighbour
//! closure reads.
use vstd::prelude::*;
use crate::ast::{Block, Expr, ExprKind, Member, Stmt, get_ident, is_ident, path_ident};

use crate::text::str_eq;

verus! {

/// Appends a name unless it is already present.
pub open spec fn add_name(acc: Seq<Seq<char>>, n: Seq<char>) -> Seq<Seq<char>> {
    if acc.contains(n) { acc } else { acc.push(n) }
}

/// The member name if it is a named member.
pub open spec fn member_name(m: Member) -> Option<Seq<char>> {
    match m {
        Member::Named(n) => Some(n@),
        Member::Unnamed(_) => None,
    }
}

// ---------------------------------------------------------------------------
// self.X references and struct-literal field names, in order of appearance.
// ---------------------------------------------------------------------------

pub open spec fn disc_expr(e: Expr, acc: Seq<Seq<char>>) -> Seq<Seq<char>>
    decreases e, 0int,
{
    match e.kind {
        ExprKind::Field(base, m) => {
            let acc1 = if path_ident(*base) == Some("self"@) && member_name(m) is Some {
                add_name(acc, member_name(m)->Some_0)
            } else {
                acc
            };
            disc_expr(*base, acc1)
        },
        ExprKind::Struct(fs) => disc_field_values(fs@, 0, acc),
        ExprKind::Binary(l, _, r) => disc_expr(*r, disc_expr(*l, acc)),
        ExprKind::Unary(_, x) => disc_expr(*x, acc),
        ExprKind::Paren(x) => disc_expr(*x, acc),
        ExprKind::Group(x) => disc_expr(*x, acc),
        ExprKind::MethodCall(r, _, args) => disc_exprs(args@, 0, disc_expr(*r, acc)),
        ExprKind::Call(f, args) => disc_exprs(args@, 0, disc_expr(*f, acc)),
        ExprKind::If(c, b, els) => {
            let a1 = disc_stmts(b.stmts@, 0, disc_expr(*c, acc));
            match els {
                Some(x) => disc_expr(*x, a1),
                None => a1,
            }
        },
        ExprKind::Block(b) => disc_stmts(b.stmts@, 0, acc),
        ExprKind::Closure(_, body, _) => disc_expr(*body, acc),
        ExprKind::Return(Some(x), _) => disc_expr(*x, acc),
        _ => acc,
    }
}

pub open spec fn disc_exprs(s: Seq<Expr>, i: int, acc: Seq<Seq<char>>) -> Seq<Seq<char>>
    decreases s, s.len() - i,
{
    if 0 <= i < s.len() {
        disc_exprs(s, i + 1, disc_expr(s[i], acc))
    } else {
        acc
    }
}

pub open spec fn disc_field_values(s: Seq<crate::ast::FieldValue>, i: int, acc: Seq<Seq<char>>) -> Seq<Seq<char>>
    decreases s, s.len() - i,
{
    if 0 <= i < s.len() {
        let acc1 = match member_name(s[i].member) {
            Some(n) => add_name(acc, n),
            None => acc,
        };
        disc_field_values(s, i + 1, disc_expr(s[i].expr, acc1))
    } else {
        acc
    }
}

pub open spec fn disc_stmts(s: Seq<Stmt>, i: int, acc: Seq<Seq<char>>) -> Seq<Seq<char>>
    decreases s, s.len() - i,
{
    if 0 <= i < s.len() {
        let acc1 = match s[i] {
            Stmt::Local(l) => match l.init {
                Some(x) => disc_expr(x, acc),
                None => acc,
            },
            Stmt::Expr(x, _) => disc_expr(x, acc),
            Stmt::Other => acc,
        };
        disc_stmts(s, i + 1, acc1)
    } else {
        acc
    }
}

/// The state fields a method body mentions: `self.X` reads and the fields
/// of `Self { .. }` literals, each once, in order of first appearance.
pub open spec fn discovered_fields(b: Block) -> Seq<Seq<char>> {
    disc_stmts(b.stmts@, 0, Seq::empty())
}

pub(crate) proof fn lemma_add_name_no_dup(acc: Seq<Seq<char>>, n: Seq<char>)
    requires
        acc.no_duplicates(),
    ensures
        add_name(acc, n).no_duplicates(),
        forall|x: Seq<char>| acc.contains(x) ==> #[trigger] add_name(acc, n).contains(x),
        add_name(acc, n).contains(n),
{
    if !acc.contains(n) {
        assert forall|x: Seq<char>| acc.contains(x) implies #[trigger] acc.push(n).contains(x) by {
            let k = choose|k: int| 0 <= k < acc.len() && acc[k] == x;
            assert(acc.push(n)[k] == x);
        }
        assert(acc.push(n)[acc.len() as int] == n);
    }
}

/// Discovery keeps a list without repetitions free of them.
proof fn lemma_disc_expr_distinct(e: Expr, acc: Seq<Seq<char>>)
    requires
        acc.no_duplicates(),
    ensures
        disc_expr(e, acc).no_duplicates(),
    decreases e, 0int,
{
    match e.kind {
        ExprKind::Field(base, m) => {
            if path_ident(*base) == Some("self"@) && member_name(m) is Some {
                lemma_add_name_no_dup(acc, member_name(m)->Some_0);
                lemma_disc_expr_distinct(*base, add_name(acc, member_name(m)->Some_0));
            } else {
                lemma_disc_expr_distinct(*base, acc);
            }
        },
        ExprKind::Struct(fs) => lemma_disc_fields_distinct(fs@, 0, acc),
        ExprKind::Binary(l, _, r) => {
            lemma_disc_expr_distinct(*l, acc);
            lemma_disc_expr_distinct(*r, disc_expr(*l, acc));
        },
        ExprKind::Unary(_, x) => lemma_disc_expr_distinct(*x, acc),
        ExprKind::Paren(x) => lemma_disc_expr_distinct(*x, acc),
        ExprKind::Group(x) => lemma_disc_expr_distinct(*x, acc),
        ExprKind::MethodCall(r, _, args) => {
            lemma_disc_expr_distinct(*r, acc);
            lemma_disc_exprs_distinct(args@, 0, disc_expr(*r, acc));
        },
        ExprKind::Call(f, args) => {
            lemma_disc_expr_distinct(*f, acc);
            lemma_disc_exprs_distinct(args@, 0, disc_expr(*f, acc));
        },
        ExprKind::If(c, b, els) => {
            lemma_disc_expr_distinct(*c, acc);
            lemma_disc_stmts_distinct(b.stmts@, 0, disc_expr(*c, acc));
            match els {
                Some(x) => lemma_disc_expr_distinct(*x, disc_stmts(b.stmts@, 0, disc_expr(*c, acc))),
                None => {},
            }
        },
        ExprKind::Block(b) => lemma_disc_stmts_distinct(b.stmts@, 0, acc),
        ExprKind::Closure(_, body, _) => lemma_disc_expr_distinct(*body, acc),
        ExprKind::Return(Some(x), _) => lemma_disc_expr_distinct(*x, acc),
        _ => {},
    }
}

proof fn lemma_disc_exprs_distinct(s: Seq<Expr>, i: int, acc: Seq<Seq<char>>)
    requires
        acc.no_duplicates(),
    ensures
        disc_exprs(s, i, acc).no_duplicates(),
    decreases s, s.len() - i,
{
    if 0 <= i < s.len() {
        lemma_disc_expr_distinct(s[i], acc);
        lemma_disc_exprs_distinct(s, i + 1, disc_expr(s[i], acc));
    }
}

proof fn lemma_disc_fields_distinct(s: Seq<crate::ast::FieldValue>, i: int, acc: Seq<Seq<char>>)
    requires
        acc.no_duplicates(),
    ensures
        disc_field_values(s, i, acc).no_duplicates(),
    decreases s, s.len() - i,
{
    if 0 <= i < s.len() {
        let acc1 = match member_name(s[i].member) {
            Some(n) => add_name(acc, n),
            None => acc,
        };
        if let Some(n) = member_name(s[i].member) {
            lemma_add_name_no_dup(acc, n);
        }
        lemma_disc_expr_distinct(s[i].expr, acc1);
        lemma_disc_fields_distinct(s, i + 1, disc_expr(s[i].expr, acc1));
    }
}

proof fn lemma_disc_stmts_distinct(s: Seq<Stmt>, i: int, acc: Seq<Seq<char>>)
    requires
        acc.no_duplicates(),
    ensures
        disc_stmts(s, i, acc).no_duplicates(),
    decreases s, s.len() - i,
{
    if 0 <= i < s.len() {
        let acc1 = match s[i] {
            Stmt::Local(l) => match l.init {
                Some(x) => disc_expr(x, acc),
                None => acc,
            },
            Stmt::Expr(x, _) => disc_expr(x, acc),
            Stmt::Other => acc,
        };
        match s[i] {
            Stmt::Local(l) => match l.init {
                Some(x) => lemma_disc_expr_distinct(x, acc),
                None => {},
            },
            Stmt::Expr(x, _) => lemma_disc_expr_distinct(x, acc),
            Stmt::Other => {},
        }
        lemma_disc_stmts_distinct(s, i + 1, acc1);
    }
}

/// The fields discovered in a method body are distinct.
pub proof fn law_discovered_fields_distinct(b: Block)
    ensures
        discovered_fields(b).no_duplicates(),
{
    lemma_disc_stmts_distinct(b.stmts@, 0, Seq::empty());
}

/// A list of names as text.
pub open spec fn strings_of(v: Seq<String>) -> Seq<Seq<char>> {
    v.map_values(|s: String| s@)
}

pub(crate) fn add_field_name(names: &mut Vec<String>, name: &String)
    ensures
        strings_of(final(names)@) == add_name(strings_of(old(names)@), name@),
{
    let n = names.len();
    let mut i: usize = 0;
    while i < n
        invariant
            n == names.len(),
            names@ == old(names)@,
            0 <= i <= n,
            forall|j: int| 0 <= j < i ==> names@[j]@ != name@,
        decreases n - i,
    {
        if names[i] == *name {
            proof {
                assert(strings_of(names@)[i as int] == name@);
            }
            return;
        }
        i = i + 1;
    }
    proof {
        assert(!strings_of(names@).contains(name@)) by {
            if strings_of(names@).contains(name@) {
                let k = choose|k: int| 0 <= k < strings_of(names@).len() && strings_of(names@)[k] == name@;
                assert(names@[k]@ == name@);
            }
        }
    }
    names.push(name.clone());
    proof {
        assert(strings_of(names@) =~= strings_of(old(names)@).push(name@));
    }
}

/// Collects the state fields that a method body mentions (see [`discovered_fields`]).
pub fn discover_fields(block: &Block) -> (names: Vec<String>)
    ensures
        strings_of(names@) == discovered_fields(*block),
{
    let mut names: Vec<String> = Vec::new();
    assert(strings_of(names@) =~= Seq::<Seq<char>>::empty());
    discover_fields_in_block(block, &mut names);
    names
}

fn discover_fields_in_block(block: &Block, names: &mut Vec<String>)
    ensures
        strings_of(final(names)@) == disc_stmts(block.stmts@, 0, strings_of(old(names)@)),
    decreases block, 0int,
{
    let n = block.stmts.len();
    let mut i: usize = 0;
    while i < n
        invariant
            n == block.stmts.len(),
            0 <= i <= n,
            disc_stmts(block.stmts@, 0, strings_of(old(names)@)) == disc_stmts(block.stmts@, i as int, strings_of(names@)),
        decreases n - i,
    {
        match &block.stmts[i] {
            Stmt::Local(local) => {
                if let Some(init) = &local.init {
                    discover_fields_in_expr(init, names);
                }
            }
            Stmt::Expr(expr, _) => discover_fields_in_expr(expr, names),
            _ => {}
        }
        i = i + 1;
    }
}

fn discover_fields_in_exprs(args: &Vec<Expr>, names: &mut Vec<String>)
    ensures
        strings_of(final(names)@) == disc_exprs(args@, 0, strings_of(old(names)@)),
    decreases args, 0int,
{
    let n = args.len();
    let mut i: usize = 0;
    while i < n
        invariant
            n == args.len(),
            0 <= i <= n,
            disc_exprs(args@, 0, strings_of(old(names)@)) == disc_exprs(args@, i as int, strings_of(names@)),
        decreases n - i,
    {
        discover_fields_in_expr(&args[i], names);
        i = i + 1;
    }
}

fn discover_fields_in_expr(expr: &Expr, names: &mut Vec<String>)
    ensures
        strings_of(final(names)@) == disc_expr(*expr, strings_of(old(names)@)),
    decreases expr, 0int,
{
    match &expr.kind {
        ExprKind::Field(base, member) => {
            if is_ident(base, "self") {
                if let Member::Named(field_name) = member {
                    add_field_name(names, field_name);
                }
            }
            discover_fields_in_expr(base, names);
        }
        ExprKind::Struct(fields) => {
            let n = fields.len();
            let mut i: usize = 0;
            while i < n
                invariant
                    expr.kind is Struct && expr.kind->Struct_0 == *fields,
                    n == fields.len(),
                    0 <= i <= n,
                    disc_field_values(fields@, 0, strings_of(old(names)@)) == disc_field_values(fields@, i as int, strings_of(names@)),
                decreases n - i,
            {
                if let Member::Named(field_name) = &fields[i].member {
                    add_field_name(names, field_name);
                }
                discover_fields_in_expr(&fields[i].expr, names);
                i = i + 1;
            }
        }
        ExprKind::Binary(l, _, r) => {
            discover_fields_in_expr(l, names);
            discover_fields_in_expr(r, names);
        }
        ExprKind::Unary(_, x) => discover_fields_in_expr(x, names),
        ExprKind::Paren(x) => discover_fields_in_expr(x, names),
        ExprKind::Group(x) => discover_fields_in_expr(x, names),
        ExprKind::MethodCall(r, _, args) => {
            discover_fields_in_expr(r, names);
            discover_fields_in_exprs(args, names);
        }
        ExprKind::Call(f, args) => {
            discover_fields_in_expr(f, names);
            discover_fields_in_exprs(args, names);
        }
        ExprKind::If(c, b, els) => {
            discover_fields_in_expr(c, names);
            discover_fields_in_block(b, names);
            if let Some(x) = els {
                discover_fields_in_expr(x, names);
            }
        }
        ExprKind::Block(b) => discover_fields_in_block(b, names),
        ExprKind::Closure(_, body, _) => discover_fields_in_expr(body, names),
        ExprKind::Return(Some(x), _) => discover_fields_in_expr(x, names),
        _ => {}
    }
}


// ---------------------------------------------------------------------------
// c.X reads inside a neighbour closure whose parameter is `cp`.
// ---------------------------------------------------------------------------

/// Whether a name is one of the spatial accessors `offset`, `direction`, `distance`.
pub open spec fn is_accessor_name(n: Seq<char>) -> bool {
    n == "offset"@ || n == "direction"@ || n == "distance"@
}

pub open spec fn nb_fields_expr(e: Expr, acc: Seq<Seq<char>>, cp: Seq<char>) -> Seq<Seq<char>>
    decreases e, 0int,
{
    match e.kind {
        ExprKind::Field(base, m) => {
            let acc1 = if path_ident(*base) == Some(cp) && member_name(m) is Some
                && !is_accessor_name(member_name(m)->Some_0) {
                add_name(acc, member_name(m)->Some_0)
            } else {
                acc
            };
            nb_fields_expr(*base, acc1, cp)
        },
        ExprKind::Binary(l, _, r) => nb_fields_expr(*r, nb_fields_expr(*l, acc, cp), cp),
        ExprKind::Unary(_, x) => nb_fields_expr(*x, acc, cp),
        ExprKind::Paren(x) => nb_fields_expr(*x, acc, cp),
        ExprKind::Group(x) => nb_fields_expr(*x, acc, cp),
        ExprKind::MethodCall(r, _, args) => nb_fields_exprs(args@, 0, nb_fields_expr(*r, acc, cp), cp),
        ExprKind::Call(f, args) => nb_fields_exprs(args@, 0, nb_fields_expr(*f, acc, cp), cp),
        ExprKind::If(c, b, els) => {
            let a1 = nb_fields_stmts(b.stmts@, 0, nb_fields_expr(*c, acc, cp), cp);
            match els {
                Some(x) => nb_fields_expr(*x, a1, cp),
                None => a1,
            }
        },
        _ => acc,
    }
}

pub open spec fn nb_fields_exprs(s: Seq<Expr>, i: int, acc: Seq<Seq<char>>, cp: Seq<char>) -> Seq<Seq<char>>
    decreases s, s.len() - i,
{
    if 0 <= i < s.len() {
        nb_fields_exprs(s, i + 1, nb_fields_expr(s[i], acc, cp), cp)
    } else {
        acc
    }
}

/// Only expression statements of a then-block are looked into.
pub open spec fn nb_fields_stmts(s: Seq<Stmt>, i: int, acc: Seq<Seq<char>>, cp: Seq<char>) -> Seq<Seq<char>>
    decreases s, s.len() - i,
{
    if 0 <= i < s.len() {
        let acc1 = match s[i] {
            Stmt::Expr(x, _) => nb_fields_expr(x, acc, cp),
            _ => acc,
        };
        nb_fields_stmts(s, i + 1, acc1, cp)
    } else {
        acc
    }
}

fn add_string(names: &mut Vec<String>, name: &String)
    ensures
        final(names).deep_view() == add_name(old(names).deep_view(), name@),
{
    let n = names.len();
    let ghost dv = names.deep_view();
    let mut i: usize = 0;
    while i < n
        invariant
            n == names.len(),
            names@ == old(names)@,
            dv == names.deep_view(),
            0 <= i <= n,
            forall|j: int| 0 <= j < i ==> names@[j]@ != name@,
        decreases n - i,
    {
        if names[i] == *name {
            proof {
                assert(dv[i as int] == name@);
            }
            return;
        }
        i = i + 1;
    }
    proof {
        assert(!dv.contains(name@)) by {
            if dv.contains(name@) {
                let k = choose|k: int| 0 <= k < dv.len() && dv[k] == name@;
                assert(names@[k]@ == name@);
            }
        }
    }
    names.push(name.clone());
    proof {
        assert(names.deep_view() =~= dv.push(name@));
    }
}

/// Collects the fields that a neighbour closure reads as `cp.X` (spatial
/// accessors excluded), each once, after those already in `names`.
pub fn discover_neighbor_fields_in_expr(expr: &Expr, names: &mut Vec<String>, closure_param: &str)
    ensures
        final(names).deep_view() == nb_fields_expr(*expr, old(names).deep_view(), closure_param@),
    decreases expr, 0int,
{
    match &expr.kind {
        ExprKind::Field(base, member) => {
            if is_ident(base, closure_param) {
                if let Member::Named(field_name) = member {
                    let fname = field_name.as_str();
                    if !str_eq(fname, "offset") && !str_eq(fname, "direction") && !str_eq(fname, "distance") {
                        add_string(names, field_name);
                    }
                }
            }
            discover_neighbor_fields_in_expr(base, names, closure_param);
        }
        ExprKind::Binary(l, _, r) => {
            discover_neighbor_fields_in_expr(l, names, closure_param);
            discover_neighbor_fields_in_expr(r, names, closure_param);
        }
        ExprKind::Unary(_, x) => discover_neighbor_fields_in_expr(x, names, closure_param),
        ExprKind::Paren(x) => discover_neighbor_fields_in_expr(x, names, closure_param),
        ExprKind::Group(x) => discover_neighbor_fields_in_expr(x, names, closure_param),
        ExprKind::MethodCall(r, _, args) => {
            discover_neighbor_fields_in_expr(r, names, closure_param);
            discover_neighbor_fields_in_exprs(args, names, closure_param);
        }
        ExprKind::Call(f, args) => {
            discover_neighbor_fields_in_expr(f, names, closure_param);
            discover_neighbor_fields_in_exprs(args, names, closure_param);
        }
        ExprKind::If(c, b, els) => {
            discover_neighbor_fields_in_expr(c, names, closure_param);
            let n = b.stmts.len();
            let mut i: usize = 0;
            while i < n
                invariant
                    expr.kind is If && expr.kind->If_1 == *b,
                    n == b.stmts.len(),
                    0 <= i <= n,
                    nb_fields_stmts(b.stmts@, 0, nb_fields_expr(**c, old(names).deep_view(), closure_param@), closure_param@)
                        == nb_fields_stmts(b.stmts@, i as int, names.deep_view(), closure_param@),
                decreases n - i,
            {
                if let Stmt::Expr(e, _) = &b.stmts[i] {
                    discover_neighbor_fields_in_expr(e, names, closure_param);
                }
                i = i + 1;
            }
            if let Some(x) = els {
                discover_neighbor_fields_in_expr(x, names, closure_param);
            }
        }
        _ => {}
    }
}

fn discover_neighbor_fields_in_exprs(args: &Vec<Expr>, names: &mut Vec<String>, closure_param: &str)
    ensures
        final(names).deep_view() == nb_fields_exprs(args@, 0, old(names).deep_view(), closure_param@),
    decreases args, 0int,
{
    let n = args.len();
    let mut i: usize = 0;
    while i < n
        invariant
            n == args.len(),
            0 <= i <= n,
            nb_fields_exprs(args@, 0, old(names).deep_view(), closure_param@)
                == nb_fields_exprs(args@, i as int, names.deep_view(), closure_param@),
        decreases n - i,
    {
        discover_neighbor_fields_in_expr(&args[i], names, closure_param);
        i = i + 1;
    }
}

// ---------------------------------------------------------------------------
// Whether a closure body uses the spatial accessors of its parameter.
// ---------------------------------------------------------------------------

pub open spec fn needs_accessors(e: Expr, cp: Seq<char>) -> bool
    decreases e, 0int,
{
    match e.kind {
        ExprKind::MethodCall(r, m, args) => {
            (path_ident(*r) == Some(cp) && is_accessor_name(m@))
            || needs_accessors(*r, cp)
            || needs_accessors_any(args@, 0, cp)
        },
        ExprKind::Field(base, m) => {
            (path_ident(*base) == Some(cp) && member_name(m) is Some && is_accessor_name(member_name(m)->Some_0))
            || needs_accessors(*base, cp)
        },
        ExprKind::Binary(l, _, r) => needs_accessors(*l, cp) || needs_accessors(*r, cp),
        ExprKind::Unary(_, x) => needs_accessors(*x, cp),
        ExprKind::Paren(x) => needs_accessors(*x, cp),
        ExprKind::Group(x) => needs_accessors(*x, cp),
        ExprKind::Call(f, args) => needs_accessors(*f, cp) || needs_accessors_any(args@, 0, cp),
        ExprKind::If(c, b, els) => {
            needs_accessors(*c, cp)
            || needs_accessors_stmts(b.stmts@, 0, cp)
            || match els {
                Some(x) => needs_accessors(*x, cp),
                None => false,
            }
        },
        _ => false,
    }
}

pub open spec fn needs_accessors_any(s: Seq<Expr>, i: int, cp: Seq<char>) -> bool
    decreases s, s.len() - i,
{
    if 0 <= i < s.len() {
        needs_accessors(s[i], cp) || needs_accessors_any(s, i + 1, cp)
    } else {
        false
    }
}

pub open spec fn needs_accessors_stmts(s: Seq<Stmt>, i: int, cp: Seq<char>) -> bool
    decreases s, s.len() - i,
{
    if 0 <= i < s.len() {
        (match s[i] {
            Stmt::Expr(x, _) => needs_accessors(x, cp),
            _ => false,
        }) || needs_accessors_stmts(s, i + 1, cp)
    } else {
        false
    }
}

fn is_accessor(name: &str) -> (r: bool)
    ensures
        r == is_accessor_name(name@),
{
    str_eq(name, "offset") || str_eq(name, "direction") || str_eq(name, "distance")
}

/// Whether the expression uses `cp.offset()`, `cp.direction()` or
/// `cp.distance()` (as a call or as a field).
pub fn expr_needs_spatial_accessors(expr: &Expr, closure_param: &str) -> (r: bool)
    ensures
        r == needs_accessors(*expr, closure_param@),
    decreases expr, 0int,
{
    match &expr.kind {
        ExprKind::MethodCall(recv, method, args) => {
            if is_ident(recv, closure_param) && is_accessor(method.as_str()) {
                return true;
            }
            if expr_needs_spatial_accessors(recv, closure_param) {
                return true;
            }
            any_needs_spatial_accessors(args, closure_param)
        }
        ExprKind::Field(base, member) => {
            if is_ident(base, closure_param) {
                if let Member::Named(n) = member {
                    if is_accessor(n.as_str()) {
                        return true;
                    }
                }
            }
            expr_needs_spatial_accessors(base, closure_param)
        }
        ExprKind::Binary(l, _, r) => {
            expr_needs_spatial_accessors(l, closure_param) || expr_needs_spatial_accessors(r, closure_param)
        }
        ExprKind::Unary(_, x) => expr_needs_spatial_accessors(x, closure_param),
        ExprKind::Paren(x) => expr_needs_spatial_accessors(x, closure_param),
        ExprKind::Group(x) => expr_needs_spatial_accessors(x, closure_param),
        ExprKind::Call(f, args) => {
            expr_needs_spatial_accessors(f, closure_param) || any_needs_spatial_accessors(args, closure_param)
        }
        ExprKind::If(c, b, els) => {
            if expr_needs_spatial_accessors(c, closure_param) {
                return true;
            }
            let n = b.stmts.len();
            let mut i: usize = 0;
            while i < n
                invariant
                    expr.kind is If && expr.kind->If_1 == *b,
                    n == b.stmts.len(),
                    0 <= i <= n,
                    needs_accessors_stmts(b.stmts@, 0, closure_param@) == needs_accessors_stmts(b.stmts@, i as int, closure_param@),
                decreases n - i,
            {
                if let Stmt::Expr(e, _) = &b.stmts[i] {
                    if expr_needs_spatial_accessors(e, closure_param) {
                        return true;
                    }
                }
                i = i + 1;
            }
            match els {
                Some(x) => expr_needs_spatial_accessors(x, closure_param),
                None => false,
            }
        }
        _ => false,
    }
}

fn any_needs_spatial_accessors(args: &Vec<Expr>, closure_param: &str) -> (r: bool)
    ensures
        r == needs_accessors_any(args@, 0, closure_param@),
    decreases args, 0int,
{
    let n = args.len();
    let mut i: usize = 0;
    while i < n
        invariant
            n == args.len(),
            0 <= i <= n,
            needs_accessors_any(args@, 0, closure_param@) == needs_accessors_any(args@, i as int, closure_param@),
        decreases n - i,
    {
        if expr_needs_spatial_accessors(&args[i], closure_param) {
            return true;
        }
        i = i + 1;
    }
    false
}

} // verus!
