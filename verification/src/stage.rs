//! The three shaders of a cell, each as a whole: `update` becomes a compute
//! shader, `view` and `init` become fragment shaders.
use vstd::prelude::*;
use crate::ast::{Block, ErrorView, Expr, ExprKind, MacroError, Stmt, err_at, text_result};
use crate::emit::{EmitEnv, EmitState, Emitted, arity_ok, arity_stmts, budget, concat, em_expr};
use crate::lower::{CellImplInfo, InfoView, emit_vertex_shader, user_var, user_var_text, vertex_shader_text, neighbor_count_fits, radius_of, texture_count_for, tile_bytes, tile_config,
    tile_config_fits, compute_tile_config};
use crate::shader::{push_uniforms, uniforms_text, compute_header_text, emit_compute_shader_header, emit_param_reads, emit_shader_header, env_of,
    fetch_all_self_fields, fresh_state, lines_text, param_reads_text, push_lines, self_fetch_lines, shader_header_text};
use crate::stmt::{StmtState, early_return_of, early_return_parts, lemma_early_return_parts, em_stmts, emit_stmt, pat_name, rbudget, stmt_arity, stmt_budget, stmts_budget,
    block_budget_ok};
use crate::text::{dec, push, push_dec, text};
use crate::translate::{EmitCtx, emit_expr, env_ok, lemma_arity_stmts_last};

verus! {

// ---------------------------------------------------------------------------
// Statements of a block
// ---------------------------------------------------------------------------

/// Translates the statements of a block in order (see [`em_stmts`]).
pub fn emit_stmts(stmts: &Vec<Stmt>, ctx: &mut EmitCtx) -> (r: Result<(), MacroError>)
    requires
        env_ok(old(ctx).env()),
        arity_stmts(stmts@, 0),
        old(ctx).counter + stmts_budget(stmts@, 0) <= u32::MAX,
    ensures
        (match r { Ok(_) => Ok(()), Err(x) => Err(x@) }, final(ctx).sst()) == em_stmts(old(ctx).env(), stmts@, 0, old(ctx).sst()),
        final(ctx).same_info(&*old(ctx)),
{
    let ghost env = ctx.env();
    let ghost s = stmts@;
    let n = stmts.len();
    let mut i: usize = 0;
    while i < n
        invariant
            n == s.len(),
            s == stmts@,
            0 <= i <= n,
            env == ctx.env(),
            env == old(ctx).env(),
            env_ok(env),
            ctx.same_info(&*old(ctx)),
            arity_stmts(s, i as int),
            ctx.counter + stmts_budget(s, i as int) <= u32::MAX,
            em_stmts(env, s, 0, old(ctx).sst()) == em_stmts(env, s, i as int, ctx.sst()),
        decreases n - i,
    {
        match emit_stmt(&stmts[i], ctx) {
            Err(x) => {
                return Err(x);
            },
            Ok(_) => {},
        }
        i = i + 1;
    }
    Ok(())
}

// ---------------------------------------------------------------------------
// The update (compute) shader
// ---------------------------------------------------------------------------

/// The compute entry point's signature and its first two lines.
pub open spec fn update_entry_text(tile: nat) -> Seq<char> {
    "@compute @workgroup_size("@ + dec(tile) + ", "@ + dec(tile) + ", 1)\n"@
    + "fn cs_main(\n    @builtin(global_invocation_id) global_id: vec3u,\n    @builtin(local_invocation_id) local_id: vec3u,\n    @builtin(workgroup_id) wg_id: vec3u,\n) {\n    let cell_coord = vec2i(global_id.xy);\n    let res = vec2i(uniforms.resolution);\n\n"@
}

/// One store of texture `i` into its workgroup array.
pub open spec fn tile_store_line(i: nat) -> Seq<char> {
    "        shared_tex"@ + dec(i) + "[i] = textureLoad(state_tex"@ + dec(i) + ", gc, 0);\n"@
}

/// Where the workgroup's padded tile starts, and the thread's index in it.
pub open spec fn tile_origin_text(tile: nat, radius: nat) -> Seq<char> {
    "    let tile_origin = vec2i(wg_id.xy) * vec2i("@ + dec(tile) + "i) - vec2i("@ + dec(radius) + "i);\n"@
    + "    let tid = local_id.y * "@ + dec(tile) + "u + local_id.x;\n\n"@
}

/// The head of the loop that strides over the padded tile.
pub open spec fn tile_loop_text(tile: nat, radius: nat) -> Seq<char> {
    let padded = tile + 2 * radius;
    "    for (var i = tid; i < "@ + dec(padded * padded) + "u; i += "@ + dec(tile * tile) + "u) {\n"@
    + "        let sy = i / "@ + dec(padded) + "u;\n"@
    + "        let sx = i % "@ + dec(padded) + "u;\n"@
    + "        let gc = (tile_origin + vec2i(i32(sx), i32(sy)) + res) % res;\n"@
}

/// The loop header of the cooperative tile load.
pub open spec fn tile_load_head(tile: nat, radius: nat) -> Seq<char> {
    tile_origin_text(tile, radius) + tile_loop_text(tile, radius)
}

/// The cooperative load of the padded tile into workgroup memory.
pub open spec fn tile_load_text(nt: nat, tile: nat, radius: nat) -> Seq<char> {
    tile_load_head(tile, radius)
    + concat(Seq::new(nt, |i: int| tile_store_line(i as nat)))
    + "    }\n\n    workgroupBarrier();\n\n"@
}

/// Threads outside the grid stop after the tile is loaded.
pub open spec fn bounds_check_text() -> Seq<char> {
    "    if (global_id.x >= u32(res.x) || global_id.y >= u32(res.y)) {\n        return;\n    }\n\n"@
}

/// The cell's position inside the padded tile.
pub open spec fn local_coords_text(radius: nat) -> Seq<char> {
    "    let lx = local_id.x + "@ + dec(radius) + "u;\n    let ly = local_id.y + "@ + dec(radius) + "u;\n\n"@
}

/// What the update shader's emission may assume of the cell and the block.
pub open spec fn update_ok(info: InfoView, block: Block) -> bool {
    &&& crate::lower::sizes_ok(info.sizes)
    &&& info.fields.len() == info.sizes.len()
    &&& info.constants.len() + 3 <= usize::MAX
    &&& tile_config_fits(radius_of(info.neighborhood), texture_count_for(info.sizes))
    &&& arity_stmts(block.stmts@, 0)
    &&& block_budget_ok(block)
}

/// The update compute shader of a cell whose `update` body is `block`, or
/// the first error its translation meets.
pub open spec fn update_shader_text(info: InfoView, block: Block) -> Result<Seq<char>, ErrorView> {
    let nt = texture_count_for(info.sizes);
    let radius = radius_of(info.neighborhood);
    let tile = tile_config(radius, nt).0 as nat;
    let shared = tile_config(radius, nt).1;
    let env = env_of(info, true, shared);
    let (r, st) = em_stmts(env, block.stmts@, 0, fresh_state());
    match r {
        Err(x) => Err(x),
        Ok(_) => Ok(
            compute_header_text(info.constants.len(), nt, tile, radius, shared)
            + update_entry_text(tile)
            + (if shared { tile_load_text(nt, tile, radius) } else { Seq::empty() })
            + bounds_check_text()
            + (if shared { local_coords_text(radius) } else { Seq::empty() })
            + param_reads_text(info.constants)
            + lines_text(self_fetch_lines(env, info.fields, 0, Seq::empty())) + "\n"@
            + lines_text(st.body)
            + lines_text(st.output)
            + "}\n"@
        ),
    }
}

fn push_update_entry(out: &mut String, tile: u32)
    ensures
        final(out)@ == old(out)@ + update_entry_text(tile as nat),
{
    let ghost start = out@;
    push(out, "@compute @workgroup_size(");
    push_dec(out, tile as u64);
    push(out, ", ");
    push_dec(out, tile as u64);
    push(out, ", 1)\n");
    push(out, "fn cs_main(\n    @builtin(global_invocation_id) global_id: vec3u,\n    @builtin(local_invocation_id) local_id: vec3u,\n    @builtin(workgroup_id) wg_id: vec3u,\n) {\n    let cell_coord = vec2i(global_id.xy);\n    let res = vec2i(uniforms.resolution);\n\n");
    assert(out@ =~= start + update_entry_text(tile as nat));
}

fn push_tile_stores(out: &mut String, nt: usize)
    ensures
        final(out)@ == old(out)@ + concat(Seq::new(nt as nat, |i: int| tile_store_line(i as nat))),
{
    let ghost start = out@;
    let ghost lines = Seq::new(nt as nat, |i: int| tile_store_line(i as nat));
    let mut i: usize = 0;
    while i < nt
        invariant
            0 <= i <= nt,
            lines == Seq::new(nt as nat, |i: int| tile_store_line(i as nat)),
            out@ == start + concat(lines.take(i as int)),
        decreases nt - i,
    {
        push(out, "        shared_tex");
        push_dec(out, i as u64);
        push(out, "[i] = textureLoad(state_tex");
        push_dec(out, i as u64);
        push(out, ", gc, 0);\n");
        proof { assert(lines.take(i as int + 1).drop_last() =~= lines.take(i as int)); }
        i = i + 1;
    }
    assert(lines.take(nt as int) =~= lines);
}

fn push_tile_origin(out: &mut String, tile: u32, radius: u32)
    ensures
        final(out)@ == old(out)@ + tile_origin_text(tile as nat, radius as nat),
{
    let ghost start = out@;
    push(out, "    let tile_origin = vec2i(wg_id.xy) * vec2i(");
    push_dec(out, tile as u64);
    push(out, "i) - vec2i(");
    push_dec(out, radius as u64);
    push(out, "i);\n");
    push(out, "    let tid = local_id.y * ");
    push_dec(out, tile as u64);
    push(out, "u + local_id.x;\n\n");
    assert(out@ =~= start + tile_origin_text(tile as nat, radius as nat));
}

fn push_tile_loop(out: &mut String, tile: u32, radius: u32)
    requires
        tile + 2 * radius <= u32::MAX,
        (tile + 2 * radius) * (tile + 2 * radius) <= u32::MAX,
        tile * tile <= u32::MAX,
    ensures
        final(out)@ == old(out)@ + tile_loop_text(tile as nat, radius as nat),
{
    let ghost start = out@;
    let padded = tile + 2 * radius;
    let total = padded * padded;
    let threads = tile * tile;
    push(out, "    for (var i = tid; i < ");
    push_dec(out, total as u64);
    push(out, "u; i += ");
    push_dec(out, threads as u64);
    push(out, "u) {\n");
    push(out, "        let sy = i / ");
    push_dec(out, padded as u64);
    push(out, "u;\n");
    push(out, "        let sx = i % ");
    push_dec(out, padded as u64);
    push(out, "u;\n");
    push(out, "        let gc = (tile_origin + vec2i(i32(sx), i32(sy)) + res) % res;\n");
    assert(out@ =~= start + tile_loop_text(tile as nat, radius as nat));
}

fn push_tile_load(out: &mut String, nt: usize, tile: u32, radius: u32)
    requires
        tile + 2 * radius <= u32::MAX,
        (tile + 2 * radius) * (tile + 2 * radius) <= u32::MAX,
        tile * tile <= u32::MAX,
    ensures
        final(out)@ == old(out)@ + tile_load_text(nt as nat, tile as nat, radius as nat),
{
    let ghost start = out@;
    push_tile_origin(out, tile, radius);
    push_tile_loop(out, tile, radius);
    push_tile_stores(out, nt);
    push(out, "    }\n\n    workgroupBarrier();\n\n");
    assert(out@ =~= start + tile_load_text(nt as nat, tile as nat, radius as nat));
}

fn push_local_coords(out: &mut String, radius: u32)
    ensures
        final(out)@ == old(out)@ + local_coords_text(radius as nat),
{
    let ghost start = out@;
    push(out, "    let lx = local_id.x + ");
    push_dec(out, radius as u64);
    push(out, "u;\n    let ly = local_id.y + ");
    push_dec(out, radius as u64);
    push(out, "u;\n\n");
    assert(out@ =~= start + local_coords_text(radius as nat));
}

/// The padded tile's area fits in `u32` when the tile configuration does.
proof fn lemma_tile_fits(radius: nat, nt: nat, tile: nat)
    requires
        tile_config_fits(radius, nt),
        tile == 16 || tile == 8,
    ensures
        tile + 2 * radius <= u32::MAX,
        (tile + 2 * radius) * (tile + 2 * radius) <= u32::MAX,
        (2 * radius + 1) * (2 * radius + 1) <= u32::MAX,
{
    let p = tile + 2 * radius;
    let p16 = 16 + 2 * radius;
    assert(p * p <= p16 * p16 * 16) by (nonlinear_arith)
        requires p <= p16, p >= 0;
    assert(p <= p * p) by (nonlinear_arith)
        requires p >= 1;
    assert((2 * radius + 1) * (2 * radius + 1) <= p16 * p16) by (nonlinear_arith)
        requires 2 * radius + 1 <= p16;
}

/// Emits the update compute shader of a cell (see [`update_shader_text`]).
pub fn emit_update_shader(info: &CellImplInfo, block: &Block) -> (r: Result<String, MacroError>)
    requires
        update_ok(info@, *block),
    ensures
        text_result(r) == update_shader_text(info@, *block),
{
    let num_textures = crate::lower::texture_count(&info.fields);
    let radius = info.neighborhood.radius();
    let (tile_size, use_shared) = compute_tile_config(radius, num_textures as u32);
    proof {
        lemma_tile_fits(radius as nat, num_textures as nat, tile_size as nat);
    }
    let mut shader = emit_compute_shader_header(info, num_textures, tile_size, radius, use_shared);
    push_update_entry(&mut shader, tile_size);
    if use_shared {
        push_tile_load(&mut shader, num_textures, tile_size, radius);
    }
    push(&mut shader, "    if (global_id.x >= u32(res.x) || global_id.y >= u32(res.y)) {\n        return;\n    }\n\n");
    if use_shared {
        push_local_coords(&mut shader, radius);
    }
    let reads = emit_param_reads(info);
    push(&mut shader, reads.as_str());

    let mut ctx = EmitCtx::new(info);
    ctx.compute_mode = true;
    ctx.use_shared = use_shared;
    fetch_all_self_fields(&mut ctx);
    push_lines(&mut shader, &ctx.preamble);
    push(&mut shader, "\n");
    proof {
        assert(ctx.body.deep_view() =~= Seq::<Seq<char>>::empty());
        assert(ctx.output_lines.deep_view() =~= Seq::<Seq<char>>::empty());
        assert(ctx.sst() == fresh_state());
    }
    match emit_stmts(&block.stmts, &mut ctx) {
        Err(x) => {
            return Err(x);
        },
        Ok(_) => {},
    }
    push_lines(&mut shader, &ctx.body);
    push_lines(&mut shader, &ctx.output_lines);
    push(&mut shader, "}\n");
    Ok(shader)
}

// ---------------------------------------------------------------------------
// The view (fragment) shader
// ---------------------------------------------------------------------------

/// The colour that `view` returns: an `if`/`else` chain becomes nested
/// `select`s, anything else is translated as an expression.
pub open spec fn em_view_return(env: EmitEnv, e: Expr, st: EmitState) -> Emitted
    decreases e,
{
    match e.kind {
        ExprKind::If(c, b, els) => {
            let (ct, s1) = em_expr(env, *c, None, st);
            match ct {
                Err(x) => (Err(x), s1),
                Ok(cv) => {
                    if b.stmts@.len() > 0 && b.stmts@[b.stmts@.len() - 1] matches Stmt::Expr(_, false) {
                        let t = b.stmts@[b.stmts@.len() - 1]->Expr_0;
                        let (tt, s2) = em_view_return(env, t, s1);
                        match tt {
                            Err(x) => (Err(x), s2),
                            Ok(tv) => match els {
                                Some(x) => {
                                    let (et, s3) = em_view_return(env, *x, s2);
                                    match et {
                                        Err(y) => (Err(y), s3),
                                        Ok(ev) => (Ok("select("@ + ev + ", "@ + tv + ", "@ + cv + ")"@), s3),
                                    }
                                },
                                None => (Err(err_at(e.span, "cellarium: view if/else must have both branches"@)), s2),
                            },
                        }
                    } else {
                        (Err(err_at(e.span, "cellarium: if branch must return a Color"@)), s1)
                    }
                },
            }
        },
        _ => em_expr(env, e, None, st),
    }
}

/// The WGSL line of one statement of `view`; `last` marks the final statement.
pub open spec fn em_view_stmt(env: EmitEnv, s: Stmt, last: bool, st: EmitState) -> Emitted {
    match s {
        Stmt::Local(l) => match pat_name(l.pat) {
            None => (Err(err_at(l.span, "cellarium: unsupported pattern"@)), st),
            Some(name) => match l.init {
                None => (Ok(Seq::empty()), st),
                Some(init) => {
                    let (v, s1) = em_expr(env, init, None, st);
                    match v {
                        Err(x) => (Err(x), s1),
                        Ok(t) => (Ok("    let "@ + user_var_text(name) + " = "@ + t + ";\n"@), s1),
                    }
                },
            },
        },
        Stmt::Expr(e, semi) => if early_return_of(e) is Some {
            let (cv, s1) = em_expr(env, early_return_of(e)->Some_0.0, None, st);
            match cv {
                Err(x) => (Err(x), s1),
                Ok(ct) => {
                    let (xv, s2) = em_view_return(env, early_return_of(e)->Some_0.1, s1);
                    match xv {
                        Err(x) => (Err(x), s2),
                        Ok(xt) => (Ok("    if ("@ + ct + ") {\n        return "@ + xt + ";\n    }\n"@), s2),
                    }
                },
            }
        } else if last && !semi {
            let (v, s1) = em_view_return(env, e, st);
            match v {
                Err(x) => (Err(x), s1),
                Ok(t) => (Ok("    return "@ + t + ";\n"@), s1),
            }
        } else {
            let (v, s1) = em_expr(env, e, None, st);
            match v {
                Err(x) => (Err(x), s1),
                Ok(t) => (Ok("    "@ + t + ";\n"@), s1),
            }
        },
        Stmt::Other => (Ok(Seq::empty()), st),
    }
}

/// The lines of the statements `s[i..]` of `view` appended to `acc`, or the
/// first error.
pub open spec fn em_view_stmts(env: EmitEnv, s: Seq<Stmt>, i: int, acc: Seq<char>, st: EmitState) -> Emitted
    decreases s.len() - i,
{
    if 0 <= i < s.len() {
        let (r, s1) = em_view_stmt(env, s[i], i == s.len() - 1, st);
        match r {
            Err(x) => (Err(x), s1),
            Ok(t) => em_view_stmts(env, s, i + 1, acc + t, s1),
        }
    } else {
        (Ok(acc), st)
    }
}

/// The fragment entry point of the view shader and the cell it shows.
pub open spec fn view_prelude_text() -> Seq<char> {
    "@fragment\nfn fs_main(@builtin(position) frag_pos: vec4f) -> @location(0) vec4f {\n    let center = uniforms.viewport * 0.5;\n    let view_pos = (frag_pos.xy - center) / uniforms.zoom + uniforms.camera;\n    let cell_coord_raw = vec2i(floor(view_pos));\n    let cell_coord = (cell_coord_raw % vec2i(uniforms.resolution) + vec2i(uniforms.resolution)) % vec2i(uniforms.resolution);\n\n"@
}

/// What the view and init shaders' emission may assume of the cell and the block.
pub open spec fn fragment_ok(info: InfoView, block: Block) -> bool {
    &&& crate::lower::sizes_ok(info.sizes)
    &&& info.fields.len() == info.sizes.len()
    &&& info.constants.len() + 3 <= usize::MAX
    &&& neighbor_count_fits(info.neighborhood)
    &&& arity_stmts(block.stmts@, 0)
    &&& block_budget_ok(block)
}

/// The view fragment shader of a cell whose `view` body is `block`, or the
/// first error its translation meets.
pub open spec fn view_shader_text(info: InfoView, block: Block) -> Result<Seq<char>, ErrorView> {
    let nt = texture_count_for(info.sizes);
    let env = env_of(info, false, false);
    let (r, _) = em_view_stmts(env, block.stmts@, 0, Seq::empty(), EmitState { counter: 0, body: Seq::empty() });
    match r {
        Err(x) => Err(x),
        Ok(t) => Ok(
            shader_header_text(info.constants.len(), nt)
            + vertex_shader_text()
            + view_prelude_text()
            + param_reads_text(info.constants)
            + lines_text(self_fetch_lines(env, info.fields, 0, Seq::empty())) + "\n"@
            + t
            + "}\n"@
        ),
    }
}

fn emit_view_return(expr: &Expr, ctx: &mut EmitCtx) -> (r: Result<String, MacroError>)
    requires
        env_ok(old(ctx).env()),
        arity_ok(*expr),
        old(ctx).counter + rbudget(*expr) <= u32::MAX,
    ensures
        (text_result(r), final(ctx).st()) == em_view_return(old(ctx).env(), *expr, old(ctx).st()),
        final(ctx).same_frame(&*old(ctx)),
        final(ctx).counter <= old(ctx).counter + rbudget(*expr),
    decreases expr,
{
    match &expr.kind {
        ExprKind::If(c, b, els) => {
            let cond = match emit_expr(c, ctx, None) {
                Ok(t) => t,
                Err(x) => { return Err(x); }
            };
            let n = b.stmts.len();
            let then_expr = if n > 0 {
                match &b.stmts[n - 1] {
                    Stmt::Expr(e, semi) => if !*semi { Some(e) } else { None },
                    _ => None,
                }
            } else {
                None
            };
            let t = match then_expr {
                Some(e) => e,
                None => {
                    return Err(MacroError::new(expr.span, text("cellarium: if branch must return a Color")));
                }
            };
            proof { lemma_arity_stmts_last(b.stmts@); }
            let then_val = match emit_view_return(t, ctx) {
                Ok(v) => v,
                Err(x) => { return Err(x); }
            };
            match els {
                Some(x) => {
                    let else_val = match emit_view_return(x, ctx) {
                        Ok(v) => v,
                        Err(y) => { return Err(y); }
                    };
                    let mut s = text("select(");
                    push(&mut s, else_val.as_str());
                    push(&mut s, ", ");
                    push(&mut s, then_val.as_str());
                    push(&mut s, ", ");
                    push(&mut s, cond.as_str());
                    push(&mut s, ")");
                    Ok(s)
                }
                None => Err(MacroError::new(expr.span, text("cellarium: view if/else must have both branches"))),
            }
        }
        _ => emit_expr(expr, ctx, None),
    }
}

fn emit_view_stmt(stmt: &Stmt, last: bool, ctx: &mut EmitCtx) -> (r: Result<String, MacroError>)
    requires
        env_ok(old(ctx).env()),
        stmt_arity(*stmt),
        old(ctx).counter + stmt_budget(*stmt) <= u32::MAX,
    ensures
        (text_result(r), final(ctx).st()) == em_view_stmt(old(ctx).env(), *stmt, last, old(ctx).st()),
        final(ctx).same_frame(&*old(ctx)),
        final(ctx).counter <= old(ctx).counter + stmt_budget(*stmt),
{
    match stmt {
        Stmt::Local(local) => {
            let name = match crate::stmt::local_name(&local.pat) {
                Some(n) => n,
                None => {
                    return Err(MacroError::new(local.span, text("cellarium: unsupported pattern")));
                }
            };
            match &local.init {
                Some(init) => {
                    let val = match emit_expr(init, ctx, None) {
                        Ok(v) => v,
                        Err(x) => { return Err(x); }
                    };
                    let mut line = text("    let ");
                    let uv = user_var(name.as_str());
                    push(&mut line, uv.as_str());
                    push(&mut line, " = ");
                    push(&mut line, val.as_str());
                    push(&mut line, ";\n");
                    Ok(line)
                }
                None => Ok(String::new()),
            }
        }
        Stmt::Expr(expr, semi) => {
            if let Some((c, x)) = early_return_parts(expr) {
                proof { lemma_early_return_parts(*expr); }
                let cond = match emit_expr(c, ctx, None) {
                    Ok(t) => t,
                    Err(y) => { return Err(y); }
                };
                let value = match emit_view_return(x, ctx) {
                    Ok(t) => t,
                    Err(y) => { return Err(y); }
                };
                let mut line = text("    if (");
                push(&mut line, cond.as_str());
                push(&mut line, ") {\n        return ");
                push(&mut line, value.as_str());
                push(&mut line, ";\n    }\n");
                return Ok(line);
            }
            if last && !*semi {
                let val = match emit_view_return(expr, ctx) {
                    Ok(v) => v,
                    Err(x) => { return Err(x); }
                };
                let mut line = text("    return ");
                push(&mut line, val.as_str());
                push(&mut line, ";\n");
                Ok(line)
            } else {
                let val = match emit_expr(expr, ctx, None) {
                    Ok(v) => v,
                    Err(x) => { return Err(x); }
                };
                let mut line = text("    ");
                push(&mut line, val.as_str());
                push(&mut line, ";\n");
                Ok(line)
            }
        }
        Stmt::Other => Ok(String::new()),
    }
}

fn emit_view_stmts(stmts: &Vec<Stmt>, ctx: &mut EmitCtx) -> (r: Result<String, MacroError>)
    requires
        env_ok(old(ctx).env()),
        arity_stmts(stmts@, 0),
        old(ctx).counter + stmts_budget(stmts@, 0) <= u32::MAX,
    ensures
        (text_result(r), final(ctx).st()) == em_view_stmts(old(ctx).env(), stmts@, 0, Seq::empty(), old(ctx).st()),
        final(ctx).same_frame(&*old(ctx)),
{
    let ghost env = ctx.env();
    let ghost s = stmts@;
    let n = stmts.len();
    let mut out = String::new();
    let mut i: usize = 0;
    while i < n
        invariant
            n == s.len(),
            s == stmts@,
            0 <= i <= n,
            env == ctx.env(),
            env == old(ctx).env(),
            env_ok(env),
            ctx.same_frame(&*old(ctx)),
            arity_stmts(s, i as int),
            ctx.counter + stmts_budget(s, i as int) <= u32::MAX,
            em_view_stmts(env, s, 0, Seq::empty(), old(ctx).st()) == em_view_stmts(env, s, i as int, out@, ctx.st()),
        decreases n - i,
    {
        let t = match emit_view_stmt(&stmts[i], i == n - 1, ctx) {
            Ok(t) => t,
            Err(x) => { return Err(x); }
        };
        push(&mut out, t.as_str());
        i = i + 1;
    }
    Ok(out)
}

/// Emits the view fragment shader of a cell (see [`view_shader_text`]).
pub fn emit_view_shader(info: &CellImplInfo, block: &Block) -> (r: Result<String, MacroError>)
    requires
        fragment_ok(info@, *block),
    ensures
        text_result(r) == view_shader_text(info@, *block),
{
    let num_textures = crate::lower::texture_count(&info.fields);
    let mut shader = emit_shader_header(info, num_textures);
    push(&mut shader, emit_vertex_shader());
    push(&mut shader, "@fragment\nfn fs_main(@builtin(position) frag_pos: vec4f) -> @location(0) vec4f {\n    let center = uniforms.viewport * 0.5;\n    let view_pos = (frag_pos.xy - center) / uniforms.zoom + uniforms.camera;\n    let cell_coord_raw = vec2i(floor(view_pos));\n    let cell_coord = (cell_coord_raw % vec2i(uniforms.resolution) + vec2i(uniforms.resolution)) % vec2i(uniforms.resolution);\n\n");
    let reads = emit_param_reads(info);
    push(&mut shader, reads.as_str());
    let mut ctx = EmitCtx::new(info);
    fetch_all_self_fields(&mut ctx);
    push_lines(&mut shader, &ctx.preamble);
    push(&mut shader, "\n");
    proof {
        assert(ctx.body.deep_view() =~= Seq::<Seq<char>>::empty());
    }
    let body = match emit_view_stmts(&block.stmts, &mut ctx) {
        Ok(t) => t,
        Err(x) => { return Err(x); }
    };
    push(&mut shader, body.as_str());
    push(&mut shader, "}\n");
    Ok(shader)
}

// ---------------------------------------------------------------------------
// The init (fragment) shader
// ---------------------------------------------------------------------------

/// The init shader's header: the uniform block alone, at binding 0.
pub open spec fn init_header_text(nc: nat) -> Seq<char> {
    "// --- Auto-generated by cellarium ---\n\n"@ + uniforms_text(nc)
    + "@group(0) @binding(0) var<uniform> uniforms: Uniforms;\n\n"@
}

/// One colour attachment per state texture.
pub open spec fn output_struct_text(nt: nat) -> Seq<char> {
    "struct Output {\n"@
    + concat(Seq::new(nt, |i: int| "    @location("@ + dec(i as nat) + ") tex"@ + dec(i as nat) + ": vec4f,\n"@))
    + "}\n\n"@
}

/// The fragment entry point of the init shader and the position variables
/// that `init` reads.
pub open spec fn init_prelude_text() -> Seq<char> {
    "@fragment\nfn fs_main(@builtin(position) frag_pos: vec4f) -> Output {\n    let cell_coord = vec2i(frag_pos.xy);\n    let v_x = f32(cell_coord.x);\n    let v_y = f32(cell_coord.y);\n    let v_w = uniforms.resolution.x;\n    let v_h = uniforms.resolution.y;\n\n"@
}

/// The init fragment shader of a cell whose `init` body is `block`, or the
/// first error its translation meets.
pub open spec fn init_shader_text(info: InfoView, block: Block) -> Result<Seq<char>, ErrorView> {
    let nt = texture_count_for(info.sizes);
    let env = env_of(info, false, false);
    let (r, st) = em_stmts(env, block.stmts@, 0, fresh_state());
    match r {
        Err(x) => Err(x),
        Ok(_) => Ok(
            init_header_text(info.constants.len())
            + vertex_shader_text()
            + output_struct_text(nt)
            + init_prelude_text()
            + param_reads_text(info.constants)
            + lines_text(st.body)
            + lines_text(st.output)
            + "}\n"@
        ),
    }
}

fn push_output_struct(out: &mut String, nt: usize)
    ensures
        final(out)@ == old(out)@ + output_struct_text(nt as nat),
{
    let ghost start = out@;
    let ghost lines = Seq::new(nt as nat, |i: int| "    @location("@ + dec(i as nat) + ") tex"@ + dec(i as nat) + ": vec4f,\n"@);
    push(out, "struct Output {\n");
    let ghost head = out@;
    let mut i: usize = 0;
    while i < nt
        invariant
            0 <= i <= nt,
            lines == Seq::new(nt as nat, |i: int| "    @location("@ + dec(i as nat) + ") tex"@ + dec(i as nat) + ": vec4f,\n"@),
            out@ == head + concat(lines.take(i as int)),
        decreases nt - i,
    {
        push(out, "    @location(");
        push_dec(out, i as u64);
        push(out, ") tex");
        push_dec(out, i as u64);
        push(out, ": vec4f,\n");
        proof { assert(lines.take(i as int + 1).drop_last() =~= lines.take(i as int)); }
        i = i + 1;
    }
    assert(lines.take(nt as int) =~= lines);
    push(out, "}\n\n");
    assert(out@ =~= start + output_struct_text(nt as nat));
}

/// Emits the init fragment shader of a cell (see [`init_shader_text`]).
pub fn emit_init_shader(info: &CellImplInfo, block: &Block) -> (r: Result<String, MacroError>)
    requires
        fragment_ok(info@, *block),
    ensures
        text_result(r) == init_shader_text(info@, *block),
{
    let num_textures = crate::lower::texture_count(&info.fields);
    let mut shader = text("// --- Auto-generated by cellarium ---\n\n");
    push_uniforms(&mut shader, info.constants.len());
    push(&mut shader, "@group(0) @binding(0) var<uniform> uniforms: Uniforms;\n\n");
    push(&mut shader, emit_vertex_shader());
    push_output_struct(&mut shader, num_textures);
    push(&mut shader, "@fragment\nfn fs_main(@builtin(position) frag_pos: vec4f) -> Output {\n    let cell_coord = vec2i(frag_pos.xy);\n    let v_x = f32(cell_coord.x);\n    let v_y = f32(cell_coord.y);\n    let v_w = uniforms.resolution.x;\n    let v_h = uniforms.resolution.y;\n\n");
    let reads = emit_param_reads(info);
    push(&mut shader, reads.as_str());
    let mut ctx = EmitCtx::new(info);
    proof {
        assert(ctx.body.deep_view() =~= Seq::<Seq<char>>::empty());
        assert(ctx.output_lines.deep_view() =~= Seq::<Seq<char>>::empty());
        assert(ctx.sst() == fresh_state());
    }
    match emit_stmts(&block.stmts, &mut ctx) {
        Err(x) => {
            return Err(x);
        },
        Ok(_) => {},
    }
    push_lines(&mut shader, &ctx.body);
    push_lines(&mut shader, &ctx.output_lines);
    push(&mut shader, "}\n");
    Ok(shader)
}

} // verus!
