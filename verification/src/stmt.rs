//! Translation of statements and of the `Self { .. }` values that methods return.
use vstd::prelude::*;
use crate::ast::{Block, ErrorView, Expr, ExprKind, FieldValue, MacroError, Member, Pat, SpanId, Stmt, block_tail,
    err_at, tail_expr, text_result};
use crate::discover::member_name;
use crate::emit::{EmitEnv, EmitState, em_expr, em_spatial, spatial_op_of, budget, op_budget, arity_ok, arity_fields,
    arity_stmts, budget_tail, concat};
use crate::lower::{FieldDef, field_slot, lemma_field_slot_bounds, texture_count_for, user_var, user_var_text};
use crate::text::{dec, join, join_strings, push, push_dec, text};
use crate::translate::{EmitCtx, emit_expr, emit_spatial_op, env_ok, lemma_arity_stmts_from, parse_spatial_op};

verus! {

/// Code lines hoisted into the body, and the lines that write the outputs.
pub struct StmtState {
    pub counter: nat,
    pub body: Seq<Seq<char>>,
    pub output: Seq<Seq<char>>,
}

pub open spec fn with_body(s: StmtState, e: EmitState) -> StmtState {
    StmtState { counter: e.counter, body: e.body, output: s.output }
}

pub open spec fn emit_state(s: StmtState) -> EmitState {
    EmitState { counter: s.counter, body: s.body }
}

pub type StmtEmitted = (Result<(), ErrorView>, StmtState);

/// The bound name of a `let` pattern (`x` or `x: T`).
pub open spec fn pat_name(p: Pat) -> Option<Seq<char>> {
    match p {
        Pat::Ident { name, .. } => Some(name@),
        Pat::Typed(inner) => match *inner {
            Pat::Ident { name, .. } => Some(name@),
            _ => None,
        },
        Pat::Other => None,
    }
}

/// The four channel values of every output texture after the fields of a
/// `Self { .. }` literal `fs[i..]` are written over `tv`.
pub open spec fn em_fields(env: EmitEnv, fs: Seq<FieldValue>, i: int, tv: Seq<Seq<Seq<char>>>, st: EmitState)
    -> (Result<Seq<Seq<Seq<char>>>, ErrorView>, EmitState)
    decreases fs.len() - i,
{
    if 0 <= i < fs.len() {
        match member_name(fs[i].member) {
            None => (Err(err_at(fs[i].span, "cellarium: expected named field"@)), st),
            Some(name) => {
                let (v, s1) = em_expr(env, fs[i].expr, None, st);
                match v {
                    Err(x) => (Err(x), s1),
                    Ok(t) => {
                        let (tex, off, size) = field_slot(env.fields, env.sizes, name);
                        em_fields(env, fs, i + 1, tv.update(tex as int, write_field(tv[tex as int], off, size, t)), s1)
                    },
                }
            },
        }
    } else {
        (Ok(tv), st)
    }
}

pub open spec fn output_textures(env: EmitEnv) -> nat {
    texture_count_for(env.sizes)
}

/// The channels of a texture after a field of `size` channels from `off`
/// gets value `t`: the value stands in its first channel, and the channels
/// it also covers are left empty (a vector value fills them).
pub open spec fn write_field(row: Seq<Seq<char>>, off: nat, size: nat, t: Seq<char>) -> Seq<Seq<char>> {
    Seq::new(4, |c: int| if c == off { t } else if off < c < off + size { Seq::empty() } else { row[c] })
}

/// The non-empty channel values, in order.
pub open spec fn channel_parts(c: Seq<Seq<char>>) -> Seq<Seq<char>>
    decreases c.len(),
{
    if c.len() == 0 {
        Seq::empty()
    } else if c.last().len() > 0 {
        channel_parts(c.drop_last()).push(c.last())
    } else {
        channel_parts(c.drop_last())
    }
}

/// Every output channel starts as `0.0`.
pub open spec fn zero_channels(n: nat) -> Seq<Seq<Seq<char>>> {
    Seq::new(n, |i: int| seq!["0.0"@, "0.0"@, "0.0"@, "0.0"@])
}

pub open spec fn vec4_text(c: Seq<Seq<char>>) -> Seq<char> {
    "vec4f("@ + join(channel_parts(c), ", "@) + ")"@
}

/// The output writes for the given channel values.
pub open spec fn output_text(env: EmitEnv, tv: Seq<Seq<Seq<char>>>) -> Seq<char> {
    if env.compute {
        concat(Seq::new(tv.len(), |i: int|
            "        textureStore(out_tex"@ + dec(i as nat) + ", cell_coord, "@ + vec4_text(tv[i]) + ");\n"@))
    } else if tv.len() == 1 {
        "        return Output("@ + vec4_text(tv[0]) + ");"@
    } else {
        "        return Output("@ + join(tv.map_values(|c: Seq<Seq<char>>| vec4_text(c)), ", "@) + ");"@
    }
}

/// Translates `Self { .. }` into the writes of the state textures.
pub open spec fn em_struct_output(env: EmitEnv, fs: Seq<FieldValue>, st: EmitState) -> (Result<Seq<char>, ErrorView>, EmitState) {
    let (r, s1) = em_fields(env, fs, 0, zero_channels(output_textures(env)), st);
    match r {
        Err(x) => (Err(x), s1),
        Ok(tv) => (Ok(output_text(env, tv)), s1),
    }
}

/// Translates a returned value: a struct literal, an `if` choosing between
/// returned values, or any other expression as a comment-marked value.
pub open spec fn em_return(env: EmitEnv, e: Expr, st: EmitState) -> (Result<Seq<char>, ErrorView>, EmitState)
    decreases e,
{
    match e.kind {
        ExprKind::Struct(fs) => em_struct_output(env, fs@, st),
        ExprKind::If(c, b, els) => {
            let (ct, s1) = em_expr(env, *c, None, st);
            match ct {
                Err(x) => (Err(x), s1),
                Ok(cv) => {
                    if b.stmts@.len() > 0 && b.stmts@[b.stmts@.len() - 1] matches Stmt::Expr(_, false) {
                        let t = b.stmts@[b.stmts@.len() - 1]->Expr_0;
                        let (tt, s2) = em_return(env, t, s1);
                        match tt {
                            Err(x) => (Err(x), s2),
                            Ok(tv) => match els {
                                Some(x) => {
                                    let (et, s3) = em_return(env, *x, s2);
                                    match et {
                                        Err(y) => (Err(y), s3),
                                        Ok(ev) => (Ok("        // if/else return\n        if ("@ + cv + ") {\n    "@ + tv
                                            + "\n        } else {\n    "@ + ev + "\n        }"@), s3),
                                    }
                                },
                                None => (Err(err_at(e.span, "cellarium: if/else must have both branches when returning a struct"@)), s2),
                            },
                        }
                    } else {
                        (Err(err_at(e.span, "cellarium: if branch must return a struct"@)), s1)
                    }
                },
            }
        },
        ExprKind::Block(b) if tail_expr(b) is Some => em_return(env, tail_expr(b)->Some_0, st),
        _ => {
            let (v, s1) = em_expr(env, e, None, st);
            match v {
                Err(x) => (Err(x), s1),
                Ok(t) => (Ok("        // return value\n        "@ + t), s1),
            }
        },
    }
}

/// The condition and the returned value of an early return: an `if`
/// without `else` whose block ends with `return x`.
pub open spec fn early_return_of(e: Expr) -> Option<(Expr, Expr)> {
    match e.kind {
        ExprKind::If(c, b, None) => if b.stmts@.len() > 0 {
            match b.stmts@[b.stmts@.len() - 1] {
                Stmt::Expr(r, _) => match r.kind {
                    ExprKind::Return(Some(x), _) => Some((*c, *x)),
                    _ => None,
                },
                _ => None,
            }
        } else {
            None
        },
        _ => None,
    }
}

/// The WGSL of an early return: the returned value's writes (and, in the
/// compute shader, a `return`) under the condition.
pub open spec fn early_return_text(env: EmitEnv, cond: Seq<char>, value: Seq<char>) -> Seq<char> {
    if env.compute {
        "        if ("@ + cond + ") {\n"@ + value + "            return;\n        }"@
    } else {
        "        if ("@ + cond + ") {\n    "@ + value + "\n        }"@
    }
}

/// Translates one statement of `update` or `init`.
pub open spec fn em_stmt(env: EmitEnv, s: Stmt, st: StmtState) -> StmtEmitted {
    match s {
        Stmt::Local(l) => match pat_name(l.pat) {
            None => (Err(err_at(l.span, "cellarium: unsupported pattern"@)), st),
            Some(name) => match l.init {
                None => (Ok(()), st),
                Some(init) => if spatial_op_of(init) is Some {
                    let (code, s1) = em_spatial(env, init, user_var_text(name), emit_state(st));
                    match code {
                        Err(x) => (Err(x), with_body(st, s1)),
                        Ok(c) => (Ok(()), with_body(st, EmitState { counter: s1.counter, body: s1.body.push(c) })),
                    }
                } else {
                    let (v, s1) = em_expr(env, init, None, emit_state(st));
                    match v {
                        Err(x) => (Err(x), with_body(st, s1)),
                        Ok(t) => (Ok(()), with_body(st, EmitState {
                            counter: s1.counter,
                            body: s1.body.push("        let "@ + user_var_text(name) + " = "@ + t + ";"@),
                        })),
                    }
                },
            },
        },
        Stmt::Expr(e, semi) => if early_return_of(e) is Some {
            let c = early_return_of(e)->Some_0.0;
            let x = early_return_of(e)->Some_0.1;
            let (cv, s1) = em_expr(env, c, None, emit_state(st));
            match cv {
                Err(y) => (Err(y), with_body(st, s1)),
                Ok(ct) => {
                    let (xv, s2) = em_return(env, x, s1);
                    match xv {
                        Err(y) => (Err(y), with_body(st, s2)),
                        Ok(xt) => (Ok(()), with_body(st, EmitState {
                            counter: s2.counter,
                            body: s2.body.push(early_return_text(env, ct, xt)),
                        })),
                    }
                },
            }
        } else { match e.kind {
            ExprKind::Return(r, _) => match r {
                Some(x) => {
                    let (o, s1) = em_return(env, *x, emit_state(st));
                    match o {
                        Err(y) => (Err(y), with_body(st, s1)),
                        Ok(t) => (Ok(()), with_body(st, EmitState { counter: s1.counter, body: s1.body.push(t) })),
                    }
                },
                None => (Ok(()), st),
            },
            ExprKind::Struct(fs) => {
                let (o, s1) = em_struct_output(env, fs@, emit_state(st));
                match o {
                    Err(y) => (Err(y), with_body(st, s1)),
                    Ok(t) => (Ok(()), StmtState { counter: s1.counter, body: s1.body, output: st.output.push(t) }),
                }
            },
            ExprKind::If(..) if !semi => {
                let (o, s1) = em_return(env, e, emit_state(st));
                match o {
                    Err(y) => (Err(y), with_body(st, s1)),
                    Ok(t) => (Ok(()), StmtState { counter: s1.counter, body: s1.body, output: st.output.push(t) }),
                }
            },
            _ => {
                let (v, s1) = em_expr(env, e, None, emit_state(st));
                match v {
                    Err(y) => (Err(y), with_body(st, s1)),
                    Ok(t) => if semi {
                        (Ok(()), with_body(st, EmitState { counter: s1.counter, body: s1.body.push("        "@ + t + ";"@) }))
                    } else {
                        let (o, s2) = em_return(env, e, s1);
                        match o {
                            Err(y) => (Err(y), with_body(st, s2)),
                            Ok(t2) => (Ok(()), StmtState { counter: s2.counter, body: s2.body, output: st.output.push(t2) }),
                        }
                    },
                }
            },
        } },
        Stmt::Other => (Ok(()), st),
    }
}

/// Translates the statements `s[i..]` in order, stopping at the first error.
pub open spec fn em_stmts(env: EmitEnv, s: Seq<Stmt>, i: int, st: StmtState) -> StmtEmitted
    decreases s.len() - i,
{
    if 0 <= i < s.len() {
        let (r, s1) = em_stmt(env, s[i], st);
        match r {
            Err(x) => (Err(x), s1),
            Ok(_) => em_stmts(env, s, i + 1, s1),
        }
    } else {
        (Ok(()), st)
    }
}

// ---------------------------------------------------------------------------
// Id budgets of returned values and statements
// ---------------------------------------------------------------------------

pub open spec fn fields_budget(fs: Seq<FieldValue>, i: int) -> nat
    decreases fs.len() - i,
{
    if 0 <= i < fs.len() { budget(fs[i].expr) + fields_budget(fs, i + 1) } else { 0 }
}

/// An upper bound on the ids that translating `e` as a returned value takes.
pub open spec fn rbudget(e: Expr) -> nat
    decreases e,
{
    match e.kind {
        ExprKind::Struct(fs) => fields_budget(fs@, 0),
        ExprKind::If(c, b, els) => budget(*c) + (if b.stmts@.len() > 0 {
            match b.stmts@[b.stmts@.len() - 1] {
                Stmt::Expr(t, false) => rbudget(t),
                _ => 0,
            }
        } else {
            0
        }) + match els {
            Some(x) => rbudget(*x),
            None => 0,
        },
        ExprKind::Return(Some(x), _) => rbudget(*x),
        ExprKind::Block(b) => budget(e) + (if b.stmts@.len() > 0 {
            match b.stmts@[b.stmts@.len() - 1] {
                Stmt::Expr(t, false) => rbudget(t),
                _ => 0,
            }
        } else {
            0
        }),
        _ => budget(e),
    }
}

pub open spec fn stmt_budget(s: Stmt) -> nat {
    match s {
        Stmt::Local(l) => match l.init {
            Some(x) => budget(x),
            None => 0,
        },
        Stmt::Expr(e, _) => budget(e) + rbudget(e) + match early_return_of(e) {
            Some((_, x)) => rbudget(x),
            None => 0,
        },
        Stmt::Other => 0,
    }
}

pub open spec fn stmts_budget(s: Seq<Stmt>, i: int) -> nat
    decreases s.len() - i,
{
    if 0 <= i < s.len() { stmt_budget(s[i]) + stmts_budget(s, i + 1) } else { 0 }
}

/// The ids translating a block's statements takes fit in the `u32` counter.
pub open spec fn block_budget_ok(b: Block) -> bool {
    stmts_budget(b.stmts@, 0) <= u32::MAX
}


// ---------------------------------------------------------------------------
// The translation, executable
// ---------------------------------------------------------------------------

pub open spec fn stmt_arity(s: Stmt) -> bool {
    match s {
        Stmt::Local(l) => match l.init {
            Some(x) => arity_ok(x),
            None => true,
        },
        Stmt::Expr(x, _) => arity_ok(x),
        Stmt::Other => true,
    }
}

fn vec4_code(c: &Vec<String>) -> (r: String)
    ensures
        r@ == vec4_text(c.deep_view()),
{
    let ghost d = c.deep_view();
    let mut parts: Vec<String> = Vec::new();
    let n = c.len();
    let mut i: usize = 0;
    while i < n
        invariant
            n == c.len(),
            d == c.deep_view(),
            0 <= i <= n,
            parts.deep_view() == channel_parts(d.take(i as int)),
        decreases n - i,
    {
        proof {
            assert(d.take(i as int + 1).drop_last() =~= d.take(i as int));
            assert(d.take(i as int + 1).last() == c@[i as int]@);
        }
        if !c[i].as_str().is_empty() {
            let ghost before = parts.deep_view();
            parts.push(c[i].clone());
            proof { assert(parts.deep_view() =~= before.push(c@[i as int]@)); }
        }
        i = i + 1;
    }
    assert(d.take(n as int) =~= d);
    let joined = join_strings(&parts, ", ");
    let mut s = text("vec4f(");
    push(&mut s, joined.as_str());
    push(&mut s, ")");
    s
}

fn output_code(ctx: &EmitCtx, tv: &Vec<Vec<String>>) -> (r: String)
    requires
        tv.len() >= 1,
        tv.len() <= usize::MAX,
        forall|i: int| 0 <= i < tv.len() ==> #[trigger] tv@[i].len() == 4,
    ensures
        r@ == output_text(ctx.env(), tv.deep_view()),
{
    let ghost d = tv.deep_view();
    let n = tv.len();
    if ctx.compute_mode {
        let ghost lines = Seq::new(d.len(), |i: int|
            "        textureStore(out_tex"@ + dec(i as nat) + ", cell_coord, "@ + vec4_text(d[i]) + ");\n"@);
        let mut s = String::new();
        let mut i: usize = 0;
        while i < n
            invariant
                n == tv.len(),
                d == tv.deep_view(),
                forall|i: int| 0 <= i < tv.len() ==> #[trigger] tv@[i].len() == 4,
                lines == Seq::new(d.len(), |i: int|
                    "        textureStore(out_tex"@ + dec(i as nat) + ", cell_coord, "@ + vec4_text(d[i]) + ");\n"@),
                0 <= i <= n,
                s@ == concat(lines.take(i as int)),
            decreases n - i,
        {
            let v = vec4_code(&tv[i]);
            proof { assert(d[i as int] == tv@[i as int].deep_view()); }
            push(&mut s, "        textureStore(out_tex");
            push_dec(&mut s, i as u64);
            push(&mut s, ", cell_coord, ");
            push(&mut s, v.as_str());
            push(&mut s, ");\n");
            proof {
                assert(lines.take(i as int + 1).drop_last() =~= lines.take(i as int));
            }
            i = i + 1;
        }
        assert(lines.take(n as int) =~= lines);
        s
    } else if n == 1 {
        let v = vec4_code(&tv[0]);
        proof { assert(d[0] == tv@[0].deep_view()); }
        let mut s = text("        return Output(");
        push(&mut s, v.as_str());
        push(&mut s, ");");
        s
    } else {
        let mut parts: Vec<String> = Vec::new();
        let mut i: usize = 0;
        while i < n
            invariant
                n == tv.len(),
                d == tv.deep_view(),
                forall|i: int| 0 <= i < tv.len() ==> #[trigger] tv@[i].len() == 4,
                0 <= i <= n,
                parts.deep_view() == d.take(i as int).map_values(|c: Seq<Seq<char>>| vec4_text(c)),
            decreases n - i,
        {
            let v = vec4_code(&tv[i]);
            proof { assert(d[i as int] == tv@[i as int].deep_view()); }
            let ghost before = parts.deep_view();
            parts.push(v);
            proof {
                assert(parts.deep_view() =~= before.push(v@));
                assert(parts.deep_view() =~= d.take(i as int + 1).map_values(|c: Seq<Seq<char>>| vec4_text(c)));
            }
            i = i + 1;
        }
        assert(d.take(n as int) =~= d);
        let joined = join_strings(&parts, ", ");
        let mut s = text("        return Output(");
        push(&mut s, joined.as_str());
        push(&mut s, ");");
        s
    }
}

/// A texture's channels with a field written (see [`write_field`]).
fn write_row(row: &Vec<String>, off: u32, size: u32, val: String) -> (r: Vec<String>)
    requires
        row.len() == 4,
    ensures
        r.len() == 4,
        r.deep_view() == write_field(row.deep_view(), off as nat, size as nat, val@),
{
    let mut r: Vec<String> = Vec::new();
    let mut c: u32 = 0;
    while c < 4
        invariant
            0 <= c <= 4,
            row.len() == 4,
            r.len() == c,
            forall|k: int| 0 <= k < c ==> (#[trigger] r@[k])@ == write_field(row.deep_view(), off as nat, size as nat, val@)[k],
        decreases 4 - c,
    {
        if c == off {
            r.push(val.clone());
        } else if off < c && (c as u64) < (off as u64) + (size as u64) {
            r.push(String::new());
        } else {
            r.push(row[c as usize].clone());
        }
        c = c + 1;
    }
    assert(r.deep_view() =~= write_field(row.deep_view(), off as nat, size as nat, val@));
    r
}

/// Translates `Self { .. }` into the writes of the state textures (see [`em_struct_output`]).
pub fn emit_struct_output(fields: &Vec<FieldValue>, ctx: &mut EmitCtx) -> (r: Result<String, MacroError>)
    requires
        env_ok(old(ctx).env()),
        arity_fields(fields@, 0),
        old(ctx).counter + fields_budget(fields@, 0) <= u32::MAX,
    ensures
        (text_result(r), final(ctx).st()) == em_struct_output(old(ctx).env(), fields@, old(ctx).st()),
        final(ctx).same_frame(&*old(ctx)),
        final(ctx).counter <= old(ctx).counter + fields_budget(fields@, 0),
{
    let ghost env = ctx.env();
    let ghost st0 = ctx.st();
    let ghost c0 = ctx.counter;
    let num_textures = crate::lower::texture_count(&ctx.info.fields);
    let mut tex_values: Vec<Vec<String>> = Vec::new();
    let mut k: usize = 0;
    while k < num_textures
        invariant
            0 <= k <= num_textures,
            tex_values.len() == k,
            tex_values.deep_view() == zero_channels(k as nat),
            forall|i: int| 0 <= i < tex_values.len() ==> #[trigger] tex_values@[i].len() == 4,
        decreases num_textures - k,
    {
        let mut row: Vec<String> = Vec::new();
        row.push(text("0.0"));
        row.push(text("0.0"));
        row.push(text("0.0"));
        row.push(text("0.0"));
        let ghost before = tex_values.deep_view();
        tex_values.push(row);
        proof {
            assert(row.deep_view() =~= seq!["0.0"@, "0.0"@, "0.0"@, "0.0"@]);
            assert(tex_values.deep_view() =~= before.push(row.deep_view()));
            assert(tex_values.deep_view() =~= zero_channels(k as nat + 1));
        }
        k = k + 1;
    }
    let n = fields.len();
    let mut i: usize = 0;
    while i < n
        invariant
            n == fields.len(),
            0 <= i <= n,
            env == ctx.env(),
            env == old(ctx).env(),
            env_ok(env),
            st0 == old(ctx).st(),
            c0 == old(ctx).counter,
            ctx.same_frame(&*old(ctx)),
            tex_values.len() == num_textures,
            num_textures == output_textures(env),
            forall|i: int| 0 <= i < tex_values.len() ==> #[trigger] tex_values@[i].len() == 4,
            arity_fields(fields@, i as int),
            em_fields(env, fields@, 0, zero_channels(output_textures(env)), st0)
                == em_fields(env, fields@, i as int, tex_values.deep_view(), ctx.st()),
            ctx.counter + fields_budget(fields@, i as int) <= c0 + fields_budget(fields@, 0),
            c0 + fields_budget(fields@, 0) <= u32::MAX,
        decreases n - i,
    {
        let field = &fields[i];
        let name = match &field.member {
            Member::Named(nm) => nm,
            Member::Unnamed(_) => {
                return Err(MacroError { span: field.span, message: text("cellarium: expected named field") });
            }
        };
        let ghost st_i = ctx.st();
        let ghost tv_i = tex_values.deep_view();
        let val = match emit_expr(&field.expr, ctx, None) {
            Ok(t) => t,
            Err(x) => {
                proof {
                    assert(em_fields(env, fields@, i as int, tv_i, st_i) == (Err::<Seq<Seq<Seq<char>>>, ErrorView>(x@), ctx.st()));
                }
                return Err(x);
            }
        };
        let (tex, off, size) = crate::lower::field_slot_of(&ctx.info.fields, name.as_str());
        let ghost vv = val@;
        let ghost old_tv = tex_values@;
        assert(old_tv[tex as int].len() == 4);
        let row = write_row(&tex_values[tex as usize], off, size, val);
        let ghost new_row = row;
        let _ = tex_values.remove(tex as usize);
        tex_values.insert(tex as usize, row);
        proof {
            assert(tex_values@ =~= old_tv.update(tex as int, new_row));
            assert(tv_i[tex as int] == old_tv[tex as int].deep_view());
            assert(tex_values.deep_view() =~= tv_i.update(tex as int, write_field(tv_i[tex as int], off as nat, size as nat, vv))) by {
                assert forall|j: int| 0 <= j < tex_values.len() implies
                    #[trigger] tex_values.deep_view()[j] == tv_i.update(tex as int, write_field(tv_i[tex as int], off as nat, size as nat, vv))[j] by {
                    if j != tex as int {
                        assert(tex_values@[j] == old_tv[j]);
                    }
                }
            }
            assert forall|j: int| 0 <= j < tex_values.len() implies #[trigger] tex_values@[j].len() == 4 by {
                if j != tex as int {
                    assert(tex_values@[j] == old_tv[j]);
                }
            }
        }
        i = i + 1;
    }
    let out = output_code(ctx, &tex_values);
    Ok(out)
}


/// Translates a returned value (see [`em_return`]).
pub fn emit_return_struct(expr: &Expr, ctx: &mut EmitCtx) -> (r: Result<String, MacroError>)
    requires
        env_ok(old(ctx).env()),
        arity_ok(*expr),
        old(ctx).counter + rbudget(*expr) <= u32::MAX,
    ensures
        (text_result(r), final(ctx).st()) == em_return(old(ctx).env(), *expr, old(ctx).st()),
        final(ctx).same_frame(&*old(ctx)),
        final(ctx).counter <= old(ctx).counter + rbudget(*expr),
    decreases expr,
{
    match &expr.kind {
        ExprKind::Struct(fs) => emit_struct_output(fs, ctx),
        ExprKind::If(c, b, els) => {
            let cond = match emit_expr(c, ctx, None) {
                Ok(t) => t,
                Err(x) => { return Err(x); }
            };
            let n = b.stmts.len();
            let then_expr = if n > 0 {
                match &b.stmts[n - 1] {
                    Stmt::Expr(e, semi) => if !*semi { Some(e) } else { None },
                    _ => None,
                }
            } else {
                None
            };
            let t = match then_expr {
                Some(e) => e,
                None => {
                    return Err(MacroError { span: expr.span, message: text("cellarium: if branch must return a struct") });
                }
            };
            proof {
                lemma_arity_stmts_from(b.stmts@, 0);
            }
            let then_val = match emit_return_struct(t, ctx) {
                Ok(v) => v,
                Err(x) => { return Err(x); }
            };
            let else_val = match els {
                Some(x) => match emit_return_struct(x, ctx) {
                    Ok(v) => v,
                    Err(y) => { return Err(y); }
                },
                None => {
                    return Err(MacroError {
                        span: expr.span,
                        message: text("cellarium: if/else must have both branches when returning a struct"),
                    });
                }
            };
            let mut s = text("        // if/else return\n        if (");
            push(&mut s, cond.as_str());
            push(&mut s, ") {\n    ");
            push(&mut s, then_val.as_str());
            push(&mut s, "\n        } else {\n    ");
            push(&mut s, else_val.as_str());
            push(&mut s, "\n        }");
            Ok(s)
        }
        ExprKind::Block(b) if block_tail(b).is_some() => {
            let t = match block_tail(b) {
                Some(t) => t,
                None => { return Ok(String::new()); }
            };
            proof { crate::translate::lemma_arity_stmts_last(b.stmts@); }
            emit_return_struct(t, ctx)
        }
        _ => {
            let v = match emit_expr(expr, ctx, None) {
                Ok(t) => t,
                Err(x) => { return Err(x); }
            };
            let mut s = text("        // return value\n        ");
            push(&mut s, v.as_str());
            Ok(s)
        }
    }
}

fn push_body(ctx: &mut EmitCtx, line: String)
    ensures
        final(ctx).body.deep_view() == old(ctx).body.deep_view().push(line@),
        final(ctx).counter == old(ctx).counter,
        final(ctx).same_frame(&*old(ctx)),
{
    let ghost before = ctx.body.deep_view();
    ctx.body.push(line);
    proof { assert(ctx.body.deep_view() =~= before.push(line@)); }
}

fn push_output(ctx: &mut EmitCtx, line: String)
    ensures
        final(ctx).output_lines.deep_view() == old(ctx).output_lines.deep_view().push(line@),
        final(ctx).counter == old(ctx).counter,
        final(ctx).body == old(ctx).body,
        final(ctx).same_info(&*old(ctx)),
{
    let ghost before = ctx.output_lines.deep_view();
    ctx.output_lines.push(line);
    proof { assert(ctx.output_lines.deep_view() =~= before.push(line@)); }
}

pub(crate) fn local_name(p: &Pat) -> (r: Option<&String>)
    ensures
        match r {
            Some(n) => pat_name(*p) == Some(n@),
            None => pat_name(*p) is None,
        },
{
    match p {
        Pat::Ident { name, .. } => Some(name),
        Pat::Typed(inner) => match &**inner {
            Pat::Ident { name, .. } => Some(name),
            _ => None,
        },
        Pat::Other => None,
    }
}

/// The value an early return returns (see [`early_return_of`]).
pub fn early_return_value(e: &Expr) -> (r: Option<&Expr>)
    ensures
        match r {
            Some(x) => early_return_of(*e) matches Some((_, v)) && v == *x,
            None => early_return_of(*e) is None,
        },
{
    match early_return_parts(e) {
        Some((_, x)) => Some(x),
        None => None,
    }
}

pub(crate) fn early_return_parts(e: &Expr) -> (r: Option<(&Expr, &Expr)>)
    ensures
        match r {
            Some((c, x)) => early_return_of(*e) == Some((*c, *x)),
            None => early_return_of(*e) is None,
        },
{
    match &e.kind {
        ExprKind::If(c, b, None) => {
            let n = b.stmts.len();
            if n == 0 {
                return None;
            }
            match &b.stmts[n - 1] {
                Stmt::Expr(r, _) => match &r.kind {
                    ExprKind::Return(Some(x), _) => Some((&**c, &**x)),
                    _ => None,
                },
                _ => None,
            }
        }
        _ => None,
    }
}

pub(crate) proof fn lemma_early_return_parts(e: Expr)
    requires
        arity_ok(e),
        early_return_of(e) is Some,
    ensures
        arity_ok(early_return_of(e)->Some_0.0),
        arity_ok(early_return_of(e)->Some_0.1),
        budget(early_return_of(e)->Some_0.0) <= budget(e),
{
    if let ExprKind::If(c, b, None) = e.kind {
        crate::translate::lemma_arity_stmts_last(b.stmts@);
    }
}

fn early_return_line(compute: bool, cond: &String, value: &String) -> (r: String)
    ensures
        forall|env: EmitEnv| env.compute == compute ==> r@ == #[trigger] early_return_text(env, cond@, value@),
{
    let mut line = text("        if (");
    push(&mut line, cond.as_str());
    if compute {
        push(&mut line, ") {\n");
        push(&mut line, value.as_str());
        push(&mut line, "            return;\n        }");
    } else {
        push(&mut line, ") {\n    ");
        push(&mut line, value.as_str());
        push(&mut line, "\n        }");
    }
    line
}

/// Translates one statement of `update` or `init` (see [`em_stmt`]).
pub fn emit_stmt(stmt: &Stmt, ctx: &mut EmitCtx) -> (r: Result<(), MacroError>)
    requires
        env_ok(old(ctx).env()),
        stmt_arity(*stmt),
        old(ctx).counter + stmt_budget(*stmt) <= u32::MAX,
    ensures
        (match r { Ok(_) => Ok(()), Err(x) => Err(x@) }, final(ctx).sst()) == em_stmt(old(ctx).env(), *stmt, old(ctx).sst()),
        final(ctx).same_info(&*old(ctx)),
        final(ctx).counter <= old(ctx).counter + stmt_budget(*stmt),
{
    match stmt {
        Stmt::Local(local) => {
            let name = match local_name(&local.pat) {
                Some(n) => n,
                None => {
                    return Err(MacroError { span: local.span, message: text("cellarium: unsupported pattern") });
                }
            };
            if let Some(init) = &local.init {
                if let Some(op) = parse_spatial_op(init) {
                    let var = user_var(name.as_str());
                    let code = match emit_spatial_op(&op, init, ctx, var.as_str()) {
                        Ok(c) => c,
                        Err(x) => { return Err(x); }
                    };
                    push_body(ctx, code);
                    return Ok(());
                }
                let val = match emit_expr(init, ctx, None) {
                    Ok(v) => v,
                    Err(x) => { return Err(x); }
                };
                let mut line = text("        let ");
                let uv = user_var(name.as_str());
                push(&mut line, uv.as_str());
                push(&mut line, " = ");
                push(&mut line, val.as_str());
                push(&mut line, ";");
                push_body(ctx, line);
            }
            Ok(())
        }
        Stmt::Expr(expr, semi) => {
            if let Some((c, x)) = early_return_parts(expr) {
                proof { lemma_early_return_parts(*expr); }
                let cond = match emit_expr(c, ctx, None) {
                    Ok(t) => t,
                    Err(y) => { return Err(y); }
                };
                let value = match emit_return_struct(x, ctx) {
                    Ok(t) => t,
                    Err(y) => { return Err(y); }
                };
                let line = early_return_line(ctx.compute_mode, &cond, &value);
                push_body(ctx, line);
                return Ok(());
            }
            match &expr.kind {
                ExprKind::Return(ret, _) => {
                    if let Some(ret_expr) = ret {
                        let output = match emit_return_struct(ret_expr, ctx) {
                            Ok(o) => o,
                            Err(x) => { return Err(x); }
                        };
                        push_body(ctx, output);
                    }
                    Ok(())
                }
                ExprKind::Struct(fs) => {
                    let output = match emit_struct_output(fs, ctx) {
                        Ok(o) => o,
                        Err(x) => { return Err(x); }
                    };
                    push_output(ctx, output);
                    Ok(())
                }
                ExprKind::If(..) if !*semi => {
                    let output = match emit_return_struct(expr, ctx) {
                        Ok(o) => o,
                        Err(x) => { return Err(x); }
                    };
                    push_output(ctx, output);
                    Ok(())
                }
                _ => {
                    let val = match emit_expr(expr, ctx, None) {
                        Ok(v) => v,
                        Err(x) => { return Err(x); }
                    };
                    if *semi {
                        let mut line = text("        ");
                        push(&mut line, val.as_str());
                        push(&mut line, ";");
                        push_body(ctx, line);
                    } else {
                        let output = match emit_return_struct(expr, ctx) {
                            Ok(o) => o,
                            Err(x) => { return Err(x); }
                        };
                        push_output(ctx, output);
                    }
                    Ok(())
                }
            }
        }
        Stmt::Other => Ok(()),
    }
}

// ---------------------------------------------------------------------------
// Budgets counted up to a cap
// ---------------------------------------------------------------------------

pub open spec fn budget_cap() -> nat {
    0x1_0000_0000
}

/// `n`, or the cap if `n` reaches it.
pub open spec fn capped(n: nat) -> nat {
    if n >= budget_cap() { budget_cap() } else { n }
}

pub broadcast proof fn lemma_capped_add(x: nat, y: nat)
    ensures
        #[trigger] capped(capped(x) + capped(y)) == capped(x + y),
{
}

pub broadcast proof fn lemma_capped_mul4(x: nat)
    ensures
        #[trigger] capped(4 * capped(x)) == capped(4 * x),
{
}

} // verus!
