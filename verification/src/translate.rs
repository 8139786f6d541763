//! The WGSL emitter itself: the emission context and the functions that
//! translate expressions and spatial operators, each proved to produce the
//! text and state change that `crate::emit` specifies.
use vstd::prelude::*;
use crate::ast::{BinOp, Block, ErrorView, Expr, ExprKind, Lit, MacroError, Member, PathExpr, Pat, SpanId, Stmt, UnOp,
    err_at, get_ident, is_ident, path_ident, text_result};
use crate::discover::{discover_neighbor_fields_in_expr, expr_needs_spatial_accessors, nb_fields_expr, needs_accessors};
use crate::emit::{EmitEnv, EmitState, SpatialKind, em_expr, em_method, em_call, em_if, em_wp, em_spatial, em_args,
    budget, wbudget, budget_all, budget_tail, op_budget, arity_ok, arity_all, arity_stmts, method_arity_ok, call_arity,
    call_text, lit_text, path_text, segments_text, const_names, binop_text, arith_text, unary_method_text,
    binary_method_text, wp_method, spatial_op_of, closure_param_text, loop_op_text, difference_text, unsupported_msg,
    lemma_spatial_parts_decrease, opt_text, SpatialOpView, acc_decl, coord_text, concat, dir_loads,
    dir_shared_loads, difference_loads, fetch_block, fetch_line, laplacian_open, let_line, loop_close, loop_open,
    op_fields, op_needs_accessors, spatial_lines, dir_load_line, dir_shared_line, spatial_kind_of, swz_of, tex_of, uses_shared};
use crate::lower::{CellImplInfo, ConstInfo, FieldDef, field_slot, field_slot_of, neighbor_count_fits,
    neighbor_count_of, radius_of, swizzle_text};
use crate::text::{dec, int_dec, join, join_strings, push, push_dec, push_int, str_eq, text};

verus! {

/// The state of one shader's emission.
pub struct EmitCtx<'a> {
    pub info: &'a CellImplInfo,
    /// The next id for a hoisted spatial-operator variable.
    pub counter: u32,
    /// Lines placed before the user code (state loads).
    pub preamble: Vec<String>,
    /// User code lines, including hoisted spatial operators.
    pub body: Vec<String>,
    /// The lines that write the shader's outputs.
    pub output_lines: Vec<String>,
    /// State fields already loaded in the preamble.
    pub self_fields_fetched: Vec<String>,
    pub compute_mode: bool,
    pub use_shared: bool,
}

impl<'a> EmitCtx<'a> {
    pub open spec fn env(&self) -> EmitEnv {
        EmitEnv {
            fields: crate::lower::names_of(self.info.fields@),
            sizes: crate::lower::sizes_of(self.info.fields@),
            constants: crate::lower::const_names_of(self.info.constants@),
            neighborhood: self.info.neighborhood,
            compute: self.compute_mode,
            shared: self.use_shared,
        }
    }

    pub open spec fn st(&self) -> EmitState {
        EmitState { counter: self.counter as nat, body: self.body.deep_view() }
    }

    /// The emission state as the statement translation sees it.
    pub open spec fn sst(&self) -> crate::stmt::StmtState {
        crate::stmt::StmtState {
            counter: self.counter as nat,
            body: self.body.deep_view(),
            output: self.output_lines.deep_view(),
        }
    }

    /// Everything but the counter, the body and the output lines is as in `other`.
    pub open spec fn same_info(&self, other: &Self) -> bool {
        &&& self.info == other.info
        &&& self.preamble@ == other.preamble@
        &&& self.self_fields_fetched@ == other.self_fields_fetched@
        &&& self.compute_mode == other.compute_mode
        &&& self.use_shared == other.use_shared
    }

    /// Everything but the counter and the body is as in `other`.
    pub open spec fn same_frame(&self, other: &Self) -> bool {
        &&& self.info == other.info
        &&& self.preamble@ == other.preamble@
        &&& self.output_lines@ == other.output_lines@
        &&& self.self_fields_fetched@ == other.self_fields_fetched@
        &&& self.compute_mode == other.compute_mode
        &&& self.use_shared == other.use_shared
    }

    pub fn new(info: &'a CellImplInfo) -> (ctx: Self)
        ensures
            ctx.info == info,
            ctx.counter == 0,
            ctx.preamble@.len() == 0,
            ctx.body@.len() == 0,
            ctx.output_lines@.len() == 0,
            ctx.self_fields_fetched@.len() == 0,
            !ctx.compute_mode,
            !ctx.use_shared,
    {
        EmitCtx {
            info,
            counter: 0,
            preamble: Vec::new(),
            body: Vec::new(),
            output_lines: Vec::new(),
            self_fields_fetched: Vec::new(),
            compute_mode: false,
            use_shared: false,
        }
    }

    /// Takes the next id.
    pub fn next_id(&mut self) -> (id: u32)
        requires
            old(self).counter < u32::MAX,
        ensures
            id == old(self).counter,
            final(self).counter == old(self).counter + 1,
            final(self).body == old(self).body,
            final(self).same_frame(old(self)),
    {
        let id = self.counter;
        self.counter = self.counter + 1;
        id
    }
}

/// The emitter's preconditions on the cell description.
pub open spec fn env_ok(env: EmitEnv) -> bool {
    &&& crate::lower::sizes_ok(env.sizes)
    &&& env.fields.len() == env.sizes.len()
    &&& neighbor_count_fits(env.neighborhood)
}

pub fn uses_shared_memory(ctx: &EmitCtx) -> (r: bool)
    ensures
        r == uses_shared(ctx.env()),
{
    ctx.compute_mode && ctx.use_shared
}

// ---------------------------------------------------------------------------
// Spatial-operator code templates
// ---------------------------------------------------------------------------

pub fn emit_fetch_line(ctx: &EmitCtx, f: &String) -> (r: String)
    requires
        env_ok(ctx.env()),
    ensures
        r@ == fetch_line(ctx.env(), f@),
{
    let (tex, swizzle) = crate::lower::field_texture_swizzle(&ctx.info.fields, f.as_str());
    let mut s = text("            let _n_");
    push(&mut s, f.as_str());
    if uses_shared_memory(ctx) {
        push(&mut s, " = shared_tex");
        push_dec(&mut s, tex as u64);
        push(&mut s, "[_nly * PADDED + _nlx].");
    } else {
        push(&mut s, " = textureLoad(state_tex");
        push_dec(&mut s, tex as u64);
        push(&mut s, ", _nc, 0).");
    }
    push(&mut s, swizzle.as_str());
    push(&mut s, ";");
    s
}

pub fn emit_fetch_block(ctx: &EmitCtx, nf: &Vec<String>, needs: bool) -> (r: String)
    requires
        env_ok(ctx.env()),
    ensures
        r@ == fetch_block(ctx.env(), nf.deep_view(), needs),
{
    let mut lines: Vec<String> = Vec::new();
    let n = nf.len();
    let ghost env = ctx.env();
    let mut i: usize = 0;
    while i < n
        invariant
            n == nf.len(),
            env == ctx.env(),
            env_ok(env),
            0 <= i <= n,
            lines.deep_view() == nf.deep_view().take(i as int).map_values(|f: Seq<char>| fetch_line(env, f)),
        decreases n - i,
    {
        let line = emit_fetch_line(ctx, &nf[i]);
        let ghost before = lines.deep_view();
        lines.push(line);
        proof {
            assert(lines.deep_view() =~= before.push(line@));
            assert(nf.deep_view()[i as int] == nf@[i as int]@);
            assert(lines.deep_view() =~= nf.deep_view().take(i as int + 1).map_values(|f: Seq<char>| fetch_line(env, f)));
        }
        i = i + 1;
    }
    proof {
        assert(nf.deep_view().take(n as int) =~= nf.deep_view());
    }
    let mut spatial: Vec<String> = Vec::new();
    if needs {
        spatial.push(text("            let _n_offset = vec2f(f32(_dx), f32(_dy));"));
        spatial.push(text("            let _n_distance = length(_n_offset);"));
        spatial.push(text("            let _n_direction = select(vec2f(0.0, 0.0), normalize(_n_offset), _n_distance > 0.0);"));
    }
    assert(spatial.deep_view() =~= spatial_lines(needs));
    let mut s = join_strings(&lines, "\n");
    push(&mut s, "\n");
    let tail = join_strings(&spatial, "\n");
    push(&mut s, tail.as_str());
    s
}

pub fn emit_coord_line(ctx: &EmitCtx) -> (r: &'static str)
    ensures
        r@ == coord_text(ctx.env()),
{
    if uses_shared_memory(ctx) {
        "                let _nlx = u32(i32(lx) + _dx);\n                let _nly = u32(i32(ly) + _dy);\n"
    } else {
        "                let _nc = (cell_coord + vec2i(_dx, _dy) + vec2i(uniforms.resolution)) % vec2i(uniforms.resolution);\n"
    }
}

fn push_acc_decl(out: &mut String, acc: &str, ty: &str, init: &str)
    ensures
        final(out)@ == old(out)@ + acc_decl(acc@, ty@, init@),
{
    push(out, "        var ");
    push(out, acc);
    push(out, ": ");
    push(out, ty);
    push(out, " = ");
    push(out, init);
    push(out, ";\n");
}

fn wgsl_type(w: u32) -> (r: &'static str)
    ensures
        r@ == crate::emit::type_text(w as nat),
{
    if w == 2 { "vec2f" } else if w == 3 { "vec3f" } else if w == 4 { "vec4f" } else { "f32" }
}

fn splat(w: u32, s: &str) -> (r: String)
    ensures
        r@ == crate::emit::splat_text(w as nat, s@),
{
    if 2 <= w && w <= 4 {
        let mut t = text(wgsl_type(w));
        push(&mut t, "(");
        push(&mut t, s);
        push(&mut t, ")");
        t
    } else {
        text(s)
    }
}

/// The width of an expression's value (see [`crate::emit::width_of`]).
pub fn value_width(fields: &Vec<FieldDef>, e: &Expr, cp: &str) -> (r: u32)
    requires
        crate::lower::sizes_ok(crate::lower::sizes_of(fields@)),
    ensures
        r as nat == crate::emit::width_of(crate::lower::names_of(fields@), crate::lower::sizes_of(fields@), *e, cp@),
        1 <= r <= 4,
    decreases e, 0int,
{
    match &e.kind {
        ExprKind::Field(b, m) => match m {
            Member::Named(n) => {
                if is_ident(b, cp) || is_ident(b, "self") {
                    let (_, _, size) = field_slot_of(fields, n.as_str());
                    size
                } else {
                    let len = n.as_str().unicode_len();
                    if 1 <= len && len <= 4 { len as u32 } else { 1 }
                }
            }
            Member::Unnamed(_) => 1,
        },
        ExprKind::Binary(a, op, b) => match op {
            BinOp::Add | BinOp::Sub | BinOp::Mul | BinOp::Div => {
                let wa = value_width(fields, a, cp);
                let wb = value_width(fields, b, cp);
                if wa >= wb { wa } else { wb }
            }
            _ => 1,
        },
        ExprKind::Unary(_, x) => value_width(fields, x, cp),
        ExprKind::Paren(x) => value_width(fields, x, cp),
        ExprKind::Group(x) => value_width(fields, x, cp),
        ExprKind::Call(f, args) => match &f.kind {
            ExprKind::Path(p) => {
                let name = join_strings(&p.segments, "::");
                let nm = name.as_str();
                if str_eq(nm, "vec2") { 2 } else if str_eq(nm, "vec3") { 3 }
                else if str_eq(nm, "vec4") || str_eq(nm, "Color::rgb") || str_eq(nm, "Color::rgba") || str_eq(nm, "Color::hsv") { 4 }
                else if str_eq(nm, "atan2") || str_eq(nm, "length") || str_eq(nm, "dot") || str_eq(nm, "distance") { 1 }
                else { widest_width(fields, args, cp) }
            }
            _ => 1,
        },
        ExprKind::MethodCall(r, m, args) => {
            let mm = m.as_str();
            if str_eq(mm, "length") || str_eq(mm, "dot") || str_eq(mm, "distance") { 1 }
            else if str_eq(mm, "cross") { 3 }
            else if (str_eq(mm, "offset") || str_eq(mm, "direction")) && args.len() == 0 { 2 }
            else { value_width(fields, r, cp) }
        }
        ExprKind::If(_, _, els) => match els {
            Some(x) => value_width(fields, x, cp),
            None => 1,
        },
        ExprKind::Block(b) => {
            let n = b.stmts.len();
            if n > 0 {
                match &b.stmts[n - 1] {
                    Stmt::Expr(x, semi) => if !*semi { value_width(fields, x, cp) } else { 1 },
                    _ => 1,
                }
            } else {
                1
            }
        }
        _ => 1,
    }
}

fn widest_width(fields: &Vec<FieldDef>, args: &Vec<Expr>, cp: &str) -> (r: u32)
    requires
        crate::lower::sizes_ok(crate::lower::sizes_of(fields@)),
    ensures
        r as nat == crate::emit::widest(crate::lower::names_of(fields@), crate::lower::sizes_of(fields@), args@, 0, cp@),
        1 <= r <= 4,
    decreases args, 1int,
{
    let n = args.len();
    let mut i: usize = n;
    let mut w: u32 = 1;
    while i > 0
        invariant
            0 <= i <= n,
            n == args.len(),
            crate::lower::sizes_ok(crate::lower::sizes_of(fields@)),
            w as nat == crate::emit::widest(crate::lower::names_of(fields@), crate::lower::sizes_of(fields@), args@, i as int, cp@),
            1 <= w <= 4,
        decreases i,
    {
        let x = value_width(fields, &args[i - 1], cp);
        w = if x >= w { x } else { w };
        i = i - 1;
    }
    w
}

fn push_loop_open(out: &mut String, ctx: &EmitCtx)
    requires
        env_ok(ctx.env()),
    ensures
        final(out)@ == old(out)@ + loop_open(ctx.env()),
{
    let r = ctx.info.neighborhood.radius();
    proof {
        lemma_radius_small(ctx.env());
    }
    let neg: i64 = -(r as i64);
    push(out, "        for (var _dy: i32 = ");
    push_int(out, neg);
    push(out, "; _dy <= ");
    push_int(out, r as i64);
    push(out, "; _dy++) {\n");
    push(out, "            for (var _dx: i32 = ");
    push_int(out, neg);
    push(out, "; _dx <= ");
    push_int(out, r as i64);
    push(out, "; _dx++) {\n");
    push(out, "                ");
    push(out, ctx.info.neighborhood.skip_condition());
    push(out, "\n");
}

proof fn lemma_radius_small(env: EmitEnv)
    requires
        env_ok(env),
    ensures
        radius_of(env.neighborhood) < 0x8000_0000,
{
    if let crate::lower::Neighborhood::Radius(r) = env.neighborhood {
        if r >= 0x8000_0000 {
            assert((2 * r + 1) * (2 * r + 1) > u32::MAX + 1) by (nonlinear_arith)
                requires r >= 0x8000_0000;
        }
    }
}

fn push_loop_close(out: &mut String)
    ensures
        final(out)@ == old(out)@ + loop_close(),
{
    push(out, "            }\n");
    push(out, "        }\n");
}

fn push_let_line(out: &mut String, var: &str, val: &str)
    ensures
        final(out)@ == old(out)@ + let_line(var@, val@),
{
    push(out, "        let ");
    push(out, var);
    push(out, " = ");
    push(out, val);
    push(out, ";\n");
}

fn push_laplacian_open(out: &mut String, kern: &str)
    ensures
        final(out)@ == old(out)@ + laplacian_open(kern@),
{
    push(out, "        let ");
    push(out, kern);
    push(out, " = array<array<f32, 3>, 3>(\n");
    push(out, "            array<f32, 3>(0.25, 0.5, 0.25),\n");
    push(out, "            array<f32, 3>(0.5, -3.0, 0.5),\n");
    push(out, "            array<f32, 3>(0.25, 0.5, 0.25),\n");
    push(out, "        );\n");
    push(out, "        for (var _dy: i32 = -1; _dy <= 1; _dy++) {\n");
    push(out, "            for (var _dx: i32 = -1; _dx <= 1; _dx++) {\n");
}

fn dir_line(ctx: &EmitCtx, f: &String, dir: &str, index: Option<&str>) -> (r: String)
    requires
        env_ok(ctx.env()),
    ensures
        r@ == match index {
            Some(ix) => dir_shared_line(ctx.env(), dir@, ix@, f@),
            None => dir_load_line(ctx.env(), dir@, f@),
        },
{
    let (tex, swizzle) = crate::lower::field_texture_swizzle(&ctx.info.fields, f.as_str());
    let mut s = text("        let _n");
    push(&mut s, dir);
    push(&mut s, "_");
    push(&mut s, f.as_str());
    match index {
        Some(ix) => {
            push(&mut s, " = shared_tex");
            push_dec(&mut s, tex as u64);
            push(&mut s, "[");
            push(&mut s, ix);
            push(&mut s, "].");
        }
        None => {
            push(&mut s, " = textureLoad(state_tex");
            push_dec(&mut s, tex as u64);
            push(&mut s, ", _nc_");
            push(&mut s, dir);
            push(&mut s, ", 0).");
        }
    }
    push(&mut s, swizzle.as_str());
    push(&mut s, ";\n");
    s
}

pub open spec fn dir_lines(env: EmitEnv, nf: Seq<Seq<char>>, dir: Seq<char>, index: Option<Seq<char>>) -> Seq<Seq<char>> {
    match index {
        Some(ix) => nf.map_values(|f: Seq<char>| dir_shared_line(env, dir, ix, f)),
        None => nf.map_values(|f: Seq<char>| dir_load_line(env, dir, f)),
    }
}

fn push_dir_lines(out: &mut String, ctx: &EmitCtx, nf: &Vec<String>, dir: &str, index: Option<&str>)
    requires
        env_ok(ctx.env()),
    ensures
        final(out)@ == old(out)@ + concat(dir_lines(ctx.env(), nf.deep_view(), dir@, opt_str(index))),
{
    let ghost start = out@;
    let ghost env = ctx.env();
    let ghost lines = dir_lines(env, nf.deep_view(), dir@, opt_str(index));
    let n = nf.len();
    let mut i: usize = 0;
    while i < n
        invariant
            n == nf.len(),
            env == ctx.env(),
            env_ok(env),
            lines == dir_lines(env, nf.deep_view(), dir@, opt_str(index)),
            lines.len() == n,
            0 <= i <= n,
            out@ == start + concat(lines.take(i as int)),
        decreases n - i,
    {
        let line = dir_line(ctx, &nf[i], dir, index);
        push(out, line.as_str());
        proof {
            assert(nf.deep_view()[i as int] == nf@[i as int]@);
            assert(lines[i as int] == line@);
            assert(lines.take(i as int + 1).drop_last() =~= lines.take(i as int));
        }
        i = i + 1;
    }
    assert(lines.take(n as int) =~= lines);
}

pub open spec fn opt_str(o: Option<&str>) -> Option<Seq<char>> {
    match o {
        Some(s) => Some(s@),
        None => None,
    }
}

fn push_dir_loads(out: &mut String, ctx: &EmitCtx, nf: &Vec<String>, dir: &str, dxdy: &str)
    requires
        env_ok(ctx.env()),
    ensures
        final(out)@ == old(out)@ + dir_loads(ctx.env(), nf.deep_view(), dir@, dxdy@),
{
    let ghost start = out@;
    push(out, "        let _nc_");
    push(out, dir);
    push(out, " = (cell_coord + vec2i(");
    push(out, dxdy);
    push(out, ") + vec2i(uniforms.resolution)) % vec2i(uniforms.resolution);\n");
    push_dir_lines(out, ctx, nf, dir, None);
    assert(out@ =~= start + dir_loads(ctx.env(), nf.deep_view(), dir@, dxdy@));
}

fn push_dir_shared_loads(out: &mut String, ctx: &EmitCtx, nf: &Vec<String>, dir: &str, index: &str)
    requires
        env_ok(ctx.env()),
    ensures
        final(out)@ == old(out)@ + dir_shared_loads(ctx.env(), nf.deep_view(), dir@, index@),
{
    push_dir_lines(out, ctx, nf, dir, Some(index));
}

fn push_difference_loads(out: &mut String, ctx: &EmitCtx, nf: &Vec<String>, gradient: bool)
    requires
        env_ok(ctx.env()),
    ensures
        final(out)@ == old(out)@ + difference_loads(ctx.env(), nf.deep_view(), gradient),
{
    let ghost start = out@;
    if uses_shared_memory(ctx) {
        if gradient {
            push_dir_shared_loads(out, ctx, nf, "r", "ly * PADDED + (lx + 1u)");
            push_dir_shared_loads(out, ctx, nf, "l", "ly * PADDED + (lx - 1u)");
            push_dir_shared_loads(out, ctx, nf, "t", "(ly + 1u) * PADDED + lx");
            push_dir_shared_loads(out, ctx, nf, "b", "(ly - 1u) * PADDED + lx");
        } else {
            push_dir_shared_loads(out, ctx, nf, "r", "(ly) * PADDED + (lx + 1u)");
            push_dir_shared_loads(out, ctx, nf, "l", "(ly) * PADDED + (lx - 1u)");
            push_dir_shared_loads(out, ctx, nf, "t", "(ly + 1u) * PADDED + (lx)");
            push_dir_shared_loads(out, ctx, nf, "b", "(ly - 1u) * PADDED + (lx)");
        }
    } else {
        push_dir_loads(out, ctx, nf, "r", "1, 0");
        push_dir_loads(out, ctx, nf, "l", "-1, 0");
        push_dir_loads(out, ctx, nf, "t", "0, 1");
        push_dir_loads(out, ctx, nf, "b", "0, -1");
    }
    assert(out@ =~= start + difference_loads(ctx.env(), nf.deep_view(), gradient));
}


// ---------------------------------------------------------------------------
// Expressions
// ---------------------------------------------------------------------------

fn fail(span: SpanId, message: String) -> (r: Result<String, MacroError>)
    ensures
        text_result(r) == Err::<Seq<char>, ErrorView>(err_at(span, message@)),
{
    Err(MacroError { span, message })
}

fn emit_lit(lit: &Lit, span: SpanId) -> (r: Result<String, MacroError>)
    ensures
        text_result(r) == lit_text(*lit, span),
{
    match lit {
        Lit::Float(t) => Ok(t.clone()),
        Lit::Int(d) => {
            let mut s = d.clone();
            push(&mut s, ".0");
            Ok(s)
        }
        Lit::Bool(b) => Ok(if *b { text("true") } else { text("false") }),
        Lit::Other => fail(span, text("cellarium: unsupported literal type")),
    }
}

fn has_constant(consts: &Vec<ConstInfo>, name: &str) -> (r: bool)
    ensures
        r == consts@.map_values(|c: ConstInfo| c.name@).contains(name@),
{
    let ghost names = consts@.map_values(|c: ConstInfo| c.name@);
    let n = consts.len();
    let mut i: usize = 0;
    while i < n
        invariant
            n == consts.len(),
            names == consts@.map_values(|c: ConstInfo| c.name@),
            0 <= i <= n,
            forall|j: int| 0 <= j < i ==> names[j] != name@,
        decreases n - i,
    {
        if str_eq(consts[i].name.as_str(), name) {
            assert(names[i as int] == name@);
            return true;
        }
        i = i + 1;
    }
    proof {
        if names.contains(name@) {
            let k = choose|k: int| 0 <= k < names.len() && names[k] == name@;
            assert(names[k] != name@);
        }
    }
    false
}

fn emit_path(path: &PathExpr, ctx: &EmitCtx) -> (r: String)
    ensures
        r@ == path_text(ctx.env(), *path),
{
    let s = join_strings(&path.segments, "::");
    let t = s.as_str();
    if str_eq(t, "Color::WHITE") { return text("vec4f(1.0, 1.0, 1.0, 1.0)"); }
    if str_eq(t, "Color::BLACK") { return text("vec4f(0.0, 0.0, 0.0, 1.0)"); }
    if str_eq(t, "PI") { return text("3.14159265"); }
    if str_eq(t, "TAU") { return text("6.28318530"); }
    if has_constant(&ctx.info.constants, t) {
        return crate::lower::user_var(t);
    }
    if str_eq(t, "tick") { return text("f32(uniforms.tick)"); }
    if str_eq(t, "cell_x") { return text("f32(cell_coord.x)"); }
    if str_eq(t, "cell_y") { return text("f32(cell_coord.y)"); }
    if str_eq(t, "grid_width") { return text("uniforms.resolution.x"); }
    if str_eq(t, "grid_height") { return text("uniforms.resolution.y"); }
    if str_eq(t, "true") { return text("true"); }
    if str_eq(t, "false") { return text("false"); }
    crate::lower::user_var(t)
}

fn binop_str(op: &BinOp) -> (r: Option<&'static str>)
    ensures
        match r {
            Some(s) => binop_text(*op) == Some(s@),
            None => binop_text(*op) is None,
        },
{
    match op {
        BinOp::Add => Some("+"),
        BinOp::Sub => Some("-"),
        BinOp::Mul => Some("*"),
        BinOp::Div => Some("/"),
        BinOp::Eq => Some("=="),
        BinOp::Ne => Some("!="),
        BinOp::Lt => Some("<"),
        BinOp::Gt => Some(">"),
        BinOp::Le => Some("<="),
        BinOp::Ge => Some(">="),
        BinOp::And => Some("&&"),
        BinOp::Or => Some("||"),
        BinOp::Other => None,
    }
}

fn arith_str(op: &BinOp) -> (r: Option<&'static str>)
    ensures
        match r {
            Some(s) => arith_text(*op) == Some(s@),
            None => arith_text(*op) is None,
        },
{
    match op {
        BinOp::Add => Some("+"),
        BinOp::Sub => Some("-"),
        BinOp::Mul => Some("*"),
        BinOp::Div => Some("/"),
        _ => None,
    }
}

/// `"(" + a + " " + op + " " + b + ")"`.
fn infix(a: &String, op: &str, b: &String) -> (r: String)
    ensures
        r@ == "("@ + a@ + " "@ + op@ + " "@ + b@ + ")"@,
{
    let mut s = text("(");
    push(&mut s, a.as_str());
    push(&mut s, " ");
    push(&mut s, op);
    push(&mut s, " ");
    push(&mut s, b.as_str());
    push(&mut s, ")");
    s
}

/// `pre + a + post`.
fn wrap(pre: &str, a: &String, post: &str) -> (r: String)
    ensures
        r@ == pre@ + a@ + post@,
{
    let mut s = text(pre);
    push(&mut s, a.as_str());
    push(&mut s, post);
    s
}

/// `f + "(" + a + ")"`.
fn call1(f: &str, a: &String) -> (r: String)
    ensures
        r@ == f@ + "("@ + a@ + ")"@,
{
    let mut s = text(f);
    push(&mut s, "(");
    push(&mut s, a.as_str());
    push(&mut s, ")");
    s
}

/// `f + "(" + a + ", " + b + ")"`.
fn call2(f: &str, a: &String, b: &String) -> (r: String)
    ensures
        r@ == f@ + "("@ + a@ + ", "@ + b@ + ")"@,
{
    let mut s = text(f);
    push(&mut s, "(");
    push(&mut s, a.as_str());
    push(&mut s, ", ");
    push(&mut s, b.as_str());
    push(&mut s, ")");
    s
}

fn unsupported(span: SpanId, t: &String) -> (r: Result<String, MacroError>)
    ensures
        text_result(r) == Err::<Seq<char>, ErrorView>(err_at(span, unsupported_msg(t@))),
{
    let mut m = text("cellarium C019: '");
    push(&mut m, t.as_str());
    push(&mut m, "' is not supported in cell code.");
    fail(span, m)
}

/// Translates an expression to WGSL (see [`em_expr`]).
pub fn emit_expr(expr: &Expr, ctx: &mut EmitCtx, closure_param: Option<&str>) -> (r: Result<String, MacroError>)
    requires
        env_ok(old(ctx).env()),
        arity_ok(*expr),
        old(ctx).counter + budget(*expr) <= u32::MAX,
    ensures
        (text_result(r), final(ctx).st()) == em_expr(old(ctx).env(), *expr, opt_str(closure_param), old(ctx).st()),
        final(ctx).same_frame(&*old(ctx)),
        final(ctx).counter <= old(ctx).counter + budget(*expr),
    decreases expr, 4int,
{
    match &expr.kind {
        ExprKind::Lit(lit) => emit_lit(lit, expr.span),
        ExprKind::Path(path) => Ok(emit_path(path, ctx)),
        ExprKind::Field(base, member) => {
            let name = match member {
                Member::Named(n) => n,
                Member::Unnamed(_) => {
                    return fail(expr.span, text("cellarium: tuple indexing not supported"));
                }
            };
            if is_ident(base, "self") {
                let mut s = text("_self_");
                push(&mut s, name.as_str());
                return Ok(s);
            }
            if let Some(cp) = closure_param {
                if is_ident(base, cp) {
                    let mut s = text("_n_");
                    push(&mut s, name.as_str());
                    return Ok(s);
                }
            }
            let b = emit_expr(base, ctx, closure_param);
            match b {
                Ok(bt) => {
                    let mut s = bt;
                    push(&mut s, ".");
                    push(&mut s, name.as_str());
                    Ok(s)
                }
                Err(x) => Err(x),
            }
        }
        ExprKind::Binary(a, op, b) => {
            let l = match emit_expr(a, ctx, closure_param) {
                Ok(t) => t,
                Err(x) => { return Err(x); }
            };
            let r = match emit_expr(b, ctx, closure_param) {
                Ok(t) => t,
                Err(x) => { return Err(x); }
            };
            match binop_str(op) {
                Some(o) => Ok(infix(&l, o, &r)),
                None => fail(expr.span, text("cellarium: unsupported operator")),
            }
        }
        ExprKind::Unary(op, x) => {
            let v = match emit_expr(x, ctx, closure_param) {
                Ok(t) => t,
                Err(y) => { return Err(y); }
            };
            match op {
                UnOp::Neg => Ok(wrap("(-", &v, ")")),
                UnOp::Not => Ok(wrap("(!", &v, ")")),
                UnOp::Deref => fail(expr.span, text("cellarium: unsupported unary operator")),
            }
        }
        ExprKind::Paren(x) => {
            match emit_expr(x, ctx, closure_param) {
                Ok(t) => Ok(wrap("(", &t, ")")),
                Err(y) => Err(y),
            }
        }
        ExprKind::Group(x) => emit_expr(x, ctx, closure_param),
        ExprKind::MethodCall(..) => emit_method_call(expr, ctx, closure_param),
        ExprKind::Call(..) => emit_call(expr, ctx, closure_param),
        ExprKind::If(..) => emit_if(expr, ctx, closure_param),
        ExprKind::Block(b) => {
            let n = b.stmts.len();
            if n > 0 {
                if let Stmt::Expr(e, semi) = &b.stmts[n - 1] {
                    if !*semi {
                        proof {
                            lemma_arity_stmts_last(b.stmts@);
                            assert(budget_tail(b.stmts@) == budget(*e));
                        }
                        return emit_expr(e, ctx, closure_param);
                    }
                }
            }
            Ok(text("/* empty block */"))
        }
        ExprKind::Struct(_) => fail(expr.span, text("cellarium: struct literals should only appear as return values")),
        ExprKind::Closure(_, _, t) => unsupported(expr.span, t),
        ExprKind::Return(_, t) => unsupported(expr.span, t),
        ExprKind::Assign(t) => unsupported(expr.span, t),
        ExprKind::ForLoop(t) => unsupported(expr.span, t),
        ExprKind::While(t) => unsupported(expr.span, t),
        ExprKind::Loop(t) => unsupported(expr.span, t),
        ExprKind::Match(t) => unsupported(expr.span, t),
        ExprKind::Reference(t) => unsupported(expr.span, t),
        ExprKind::Unsafe(t) => unsupported(expr.span, t),
        ExprKind::Other(t) => unsupported(expr.span, t),
    }
}


fn unary_method_str(m: &str) -> (r: Option<&'static str>)
    ensures
        match r {
            Some(s) => unary_method_text(m@) == Some(s@),
            None => unary_method_text(m@) is None,
        },
{
    if str_eq(m, "sin") { Some("sin") }
    else if str_eq(m, "cos") { Some("cos") }
    else if str_eq(m, "tan") { Some("tan") }
    else if str_eq(m, "sqrt") { Some("sqrt") }
    else if str_eq(m, "abs") { Some("abs") }
    else if str_eq(m, "floor") { Some("floor") }
    else if str_eq(m, "ceil") { Some("ceil") }
    else if str_eq(m, "round") { Some("round") }
    else if str_eq(m, "signum") { Some("sign") }
    else if str_eq(m, "exp") { Some("exp") }
    else if str_eq(m, "ln") { Some("log") }
    else if str_eq(m, "log2") { Some("log2") }
    else if str_eq(m, "fract") { Some("fract") }
    else if str_eq(m, "length") { Some("length") }
    else if str_eq(m, "normalize") { Some("normalize") }
    else { None }
}

pub(crate) fn binary_method_str(m: &str) -> (r: Option<&'static str>)
    ensures
        match r {
            Some(s) => binary_method_text(m@) == Some(s@),
            None => binary_method_text(m@) is None,
        },
{
    if str_eq(m, "powf") { Some("pow") }
    else if str_eq(m, "min") { Some("min") }
    else if str_eq(m, "max") { Some("max") }
    else if str_eq(m, "dot") { Some("dot") }
    else if str_eq(m, "cross") { Some("cross") }
    else { None }
}

/// Translates a method call (see [`em_method`]).
fn emit_method_call(mc: &Expr, ctx: &mut EmitCtx, closure_param: Option<&str>) -> (r: Result<String, MacroError>)
    requires
        mc.kind is MethodCall,
        env_ok(old(ctx).env()),
        arity_ok(*mc),
        old(ctx).counter + budget(*mc) <= u32::MAX,
    ensures
        (text_result(r), final(ctx).st()) == em_method(old(ctx).env(), *mc, opt_str(closure_param), old(ctx).st()),
        final(ctx).same_frame(&*old(ctx)),
        final(ctx).counter <= old(ctx).counter + budget(*mc),
    decreases mc, 3int,
{
    let (recv, method_name, args) = match &mc.kind {
        ExprKind::MethodCall(recv, m, args) => (recv, m, args),
        _ => { return Ok(String::new()); }
    };
    if is_ident(recv, "nb") {
        match parse_spatial_op(mc) {
            Some(op) => {
                let ghost st0 = ctx.st();
                let id = ctx.next_id();
                let mut var_name = text("_spatial_");
                push_dec(&mut var_name, id as u64);
                let code = emit_spatial_op(&op, mc, ctx, var_name.as_str());
                match code {
                    Ok(c) => {
                        let ghost before = ctx.body.deep_view();
                        ctx.body.push(c);
                        proof {
                            assert(ctx.body.deep_view() =~= before.push(c@));
                        }
                        return Ok(var_name);
                    }
                    Err(x) => { return Err(x); }
                }
            }
            None => {
                let mut m = text("cellarium: unrecognized spatial operator '");
                push(&mut m, method_name.as_str());
                push(&mut m, "'");
                return fail(mc.span, m);
            }
        }
    }
    if let Some(cp) = closure_param {
        if is_ident(recv, cp) && args.len() == 0 {
            if str_eq(method_name.as_str(), "distance") { return Ok(text("_n_distance")); }
            if str_eq(method_name.as_str(), "offset") { return Ok(text("_n_offset")); }
            if str_eq(method_name.as_str(), "direction") { return Ok(text("_n_direction")); }
        }
    }
    let receiver = match emit_expr(recv, ctx, closure_param) {
        Ok(t) => t,
        Err(x) => { return Err(x); }
    };
    let m = method_name.as_str();
    if let Some(f) = unary_method_str(m) {
        return Ok(call1(f, &receiver));
    }
    proof {
        if args@.len() > 0 {
            assert(budget_all(args@, 0) == budget(args@[0]) + budget_all(args@, 1));
        }
        if args@.len() > 1 {
            assert(budget_all(args@, 0) == budget(args@[0]) + budget_all(args@, 1));
            assert(budget_all(args@, 1) == budget(args@[1]) + budget_all(args@, 2));
            assert(arity_all(args@, 0) == (arity_ok(args@[0]) && arity_all(args@, 1)));
            assert(arity_all(args@, 1) == (arity_ok(args@[1]) && arity_all(args@, 2)));
        }
        if args@.len() > 0 {
            assert(arity_all(args@, 0) == (arity_ok(args@[0]) && arity_all(args@, 1)));
        }
    }
    if let Some(f) = binary_method_str(m) {
        let a = match emit_expr(&args[0], ctx, closure_param) {
            Ok(t) => t,
            Err(x) => { return Err(x); }
        };
        return Ok(call2(f, &receiver, &a));
    }
    if str_eq(m, "clamp") {
        let lo = match emit_expr(&args[0], ctx, closure_param) {
            Ok(t) => t,
            Err(x) => { return Err(x); }
        };
        let hi = match emit_expr(&args[1], ctx, closure_param) {
            Ok(t) => t,
            Err(x) => { return Err(x); }
        };
        let mut s = text("clamp(");
        push(&mut s, receiver.as_str());
        push(&mut s, ", ");
        push(&mut s, lo.as_str());
        push(&mut s, ", ");
        push(&mut s, hi.as_str());
        push(&mut s, ")");
        return Ok(s);
    }
    if str_eq(m, "distance") {
        if args.len() == 0 {
            return Ok(call1("distance", &receiver));
        }
        let a = match emit_expr(&args[0], ctx, closure_param) {
            Ok(t) => t,
            Err(x) => { return Err(x); }
        };
        return Ok(call2("distance", &receiver, &a));
    }
    let mut msg = text("cellarium C015: '");
    push(&mut msg, m);
    push(&mut msg, "' is not a recognized method. See cellarium docs for supported operations.");
    fail(mc.span, msg)
}


fn call_code(name: &str, a: &Vec<String>, span: SpanId) -> (r: Result<String, MacroError>)
    requires
        a.len() >= call_arity(name@),
    ensures
        text_result(r) == call_text(name@, a.deep_view(), span),
{
    let ghost d = a.deep_view();
    proof {
        assert forall|k: int| 0 <= k < a.len() implies #[trigger] d[k] == a@[k]@ by {}
    }
    if str_eq(name, "mix") {
        let mut s = text("mix(");
        push(&mut s, a[0].as_str()); push(&mut s, ", "); push(&mut s, a[1].as_str()); push(&mut s, ", ");
        push(&mut s, a[2].as_str()); push(&mut s, ")");
        Ok(s)
    } else if str_eq(name, "step") {
        let mut s = text("step(");
        push(&mut s, a[0].as_str()); push(&mut s, ", "); push(&mut s, a[1].as_str()); push(&mut s, ")");
        Ok(s)
    } else if str_eq(name, "smoothstep") {
        let mut s = text("smoothstep(");
        push(&mut s, a[0].as_str()); push(&mut s, ", "); push(&mut s, a[1].as_str()); push(&mut s, ", ");
        push(&mut s, a[2].as_str()); push(&mut s, ")");
        Ok(s)
    } else if str_eq(name, "atan2") {
        let mut s = text("atan2(");
        push(&mut s, a[0].as_str()); push(&mut s, ", "); push(&mut s, a[1].as_str()); push(&mut s, ")");
        Ok(s)
    } else if str_eq(name, "vec2") {
        let mut s = text("vec2f(");
        push(&mut s, a[0].as_str()); push(&mut s, ", "); push(&mut s, a[1].as_str()); push(&mut s, ")");
        Ok(s)
    } else if str_eq(name, "vec3") {
        let mut s = text("vec3f(");
        push(&mut s, a[0].as_str()); push(&mut s, ", "); push(&mut s, a[1].as_str()); push(&mut s, ", ");
        push(&mut s, a[2].as_str()); push(&mut s, ")");
        Ok(s)
    } else if str_eq(name, "vec4") {
        let mut s = text("vec4f(");
        push(&mut s, a[0].as_str()); push(&mut s, ", "); push(&mut s, a[1].as_str()); push(&mut s, ", ");
        push(&mut s, a[2].as_str()); push(&mut s, ", "); push(&mut s, a[3].as_str()); push(&mut s, ")");
        Ok(s)
    } else if str_eq(name, "Color::rgb") {
        let mut s = text("vec4f(");
        push(&mut s, a[0].as_str()); push(&mut s, ", "); push(&mut s, a[1].as_str()); push(&mut s, ", ");
        push(&mut s, a[2].as_str()); push(&mut s, ", 1.0)");
        Ok(s)
    } else if str_eq(name, "Color::rgba") {
        let mut s = text("vec4f(");
        push(&mut s, a[0].as_str()); push(&mut s, ", "); push(&mut s, a[1].as_str()); push(&mut s, ", ");
        push(&mut s, a[2].as_str()); push(&mut s, ", "); push(&mut s, a[3].as_str()); push(&mut s, ")");
        Ok(s)
    } else if str_eq(name, "Color::hsv") {
        let mut s = text("hsv_to_rgb(");
        push(&mut s, a[0].as_str()); push(&mut s, ", "); push(&mut s, a[1].as_str()); push(&mut s, ", ");
        push(&mut s, a[2].as_str()); push(&mut s, ")");
        Ok(s)
    } else {
        let mut m = text("cellarium C015: '");
        push(&mut m, name);
        push(&mut m, "' is not a recognized function.");
        fail(span, m)
    }
}

/// Translates a call of a free function (see [`em_call`]).
fn emit_call(call: &Expr, ctx: &mut EmitCtx, closure_param: Option<&str>) -> (r: Result<String, MacroError>)
    requires
        call.kind is Call,
        env_ok(old(ctx).env()),
        arity_ok(*call),
        old(ctx).counter + budget(*call) <= u32::MAX,
    ensures
        (text_result(r), final(ctx).st()) == em_call(old(ctx).env(), *call, opt_str(closure_param), old(ctx).st()),
        final(ctx).same_frame(&*old(ctx)),
        final(ctx).counter <= old(ctx).counter + budget(*call),
    decreases call, 3int,
{
    let (func, args) = match &call.kind {
        ExprKind::Call(f, a) => (f, a),
        _ => { return Ok(String::new()); }
    };
    let path = match &func.kind {
        ExprKind::Path(p) => p,
        _ => { return fail(func.span, text("cellarium: unsupported function call syntax")); }
    };
    let name = join_strings(&path.segments, "::");
    assert(name@ == segments_text(*path));
    assert(args@.len() >= call_arity(name@));
    let ghost env = ctx.env();
    let ghost st0 = ctx.st();
    let ghost c0 = ctx.counter;
    let ghost cp = opt_str(closure_param);
    let mut texts: Vec<String> = Vec::new();
    proof {
        lemma_arity_all_index(args@);
        assert(texts.deep_view() =~= Seq::<Seq<char>>::empty());
    }
    let n = args.len();
    let mut i: usize = 0;
    while i < n
        invariant
            call.kind is Call && call.kind->Call_1 == *args,
            n == args.len(),
            0 <= i <= n,
            env == ctx.env(),
            env_ok(env),
            arity_all(args@, 0),
            forall|k: int| 0 <= k < n ==> arity_ok(#[trigger] args@[k]),
            ctx.same_frame(&*old(ctx)),
            texts.len() == i,
            cp == opt_str(closure_param),
            c0 == old(ctx).counter,
            st0 == old(ctx).st(),
            env == old(ctx).env(),
            name@ == segments_text(*path),
            call.kind->Call_0.kind == ExprKind::Path(*path),
            em_args(env, args@, 0, Seq::empty(), cp, st0) == em_args(env, args@, i as int, texts.deep_view(), cp, ctx.st()),
            ctx.counter + budget_all(args@, i as int) <= c0 + budget_all(args@, 0),
            c0 + budget_all(args@, 0) <= u32::MAX,
        decreases n - i,
    {
        proof {
            assert(budget_all(args@, i as int) == budget(args@[i as int]) + budget_all(args@, i as int + 1));
        }
        let ghost st_i = ctx.st();
        let ghost texts_i = texts.deep_view();
        let r0 = emit_expr(&args[i], ctx, closure_param);
        match r0 {
            Ok(t) => {
                let ghost before = texts.deep_view();
                texts.push(t);
                proof { assert(texts.deep_view() =~= before.push(t@)); }
            }
            Err(x) => {
                proof {
                    assert(em_args(env, args@, i as int, texts_i, cp, st_i) == (Err::<Seq<Seq<char>>, ErrorView>(x@), ctx.st()));
                    assert(budget(*call) == budget_all(args@, 0));
                }
                return Err(x);
            }
        }
        i = i + 1;
    }
    call_code(name.as_str(), &texts, func.span)
}

proof fn lemma_arity_all_index(s: Seq<Expr>)
    ensures
        arity_all(s, 0) ==> forall|k: int| 0 <= k < s.len() ==> arity_ok(#[trigger] s[k]),
{
    assert forall|i: int| 0 <= i <= s.len() && arity_all(s, i) implies
        forall|k: int| i <= k < s.len() ==> arity_ok(#[trigger] s[k]) by {
        lemma_arity_all_from(s, i);
    }
}

proof fn lemma_arity_all_from(s: Seq<Expr>, i: int)
    requires
        0 <= i <= s.len(),
        arity_all(s, i),
    ensures
        forall|k: int| i <= k < s.len() ==> arity_ok(#[trigger] s[k]),
    decreases s.len() - i,
{
    if i < s.len() {
        lemma_arity_all_from(s, i + 1);
    }
}

/// Translates `if c { a } else { b }` (see [`em_if`]).
fn emit_if(if_expr: &Expr, ctx: &mut EmitCtx, closure_param: Option<&str>) -> (r: Result<String, MacroError>)
    requires
        if_expr.kind is If,
        env_ok(old(ctx).env()),
        arity_ok(*if_expr),
        old(ctx).counter + budget(*if_expr) <= u32::MAX,
    ensures
        (text_result(r), final(ctx).st()) == em_if(old(ctx).env(), *if_expr, opt_str(closure_param), old(ctx).st()),
        final(ctx).same_frame(&*old(ctx)),
        final(ctx).counter <= old(ctx).counter + budget(*if_expr),
    decreases if_expr, 3int,
{
    let (c, b, els) = match &if_expr.kind {
        ExprKind::If(c, b, els) => (c, b, els),
        _ => { return Ok(String::new()); }
    };
    let cond = match emit_expr(c, ctx, closure_param) {
        Ok(t) => t,
        Err(x) => { return Err(x); }
    };
    let n = b.stmts.len();
    let then_expr = if n > 0 {
        match &b.stmts[n - 1] {
            Stmt::Expr(e, semi) => if !*semi { Some(e) } else { None },
            _ => None,
        }
    } else {
        None
    };
    let t = match then_expr {
        Some(e) => e,
        None => { return fail(if_expr.span, text("cellarium: if branch must produce a value")); }
    };
    proof {
        lemma_arity_stmts_last(b.stmts@);
        assert(budget_tail(b.stmts@) == budget(*t));
    }
    let then_text = match emit_expr(t, ctx, closure_param) {
        Ok(v) => v,
        Err(x) => { return Err(x); }
    };
    match els {
        Some(x) => {
            let else_text = match emit_expr(x, ctx, closure_param) {
                Ok(v) => v,
                Err(y) => { return Err(y); }
            };
            let mut s = text("select(");
            push(&mut s, else_text.as_str());
            push(&mut s, ", ");
            push(&mut s, then_text.as_str());
            push(&mut s, ", ");
            push(&mut s, cond.as_str());
            push(&mut s, ")");
            Ok(s)
        }
        None => fail(if_expr.span, text("cellarium: if expression must have an else branch")),
    }
}

pub(crate) proof fn lemma_arity_stmts_last(s: Seq<Stmt>)
    ensures
        arity_stmts(s, 0) && s.len() > 0 ==> match s[s.len() - 1] {
            Stmt::Expr(x, _) => arity_ok(x),
            Stmt::Local(l) => l.init matches Some(x) ==> arity_ok(x),
            Stmt::Other => true,
        },
{
    if arity_stmts(s, 0) && s.len() > 0 {
        lemma_arity_stmts_from(s, 0);
    }
}

pub proof fn lemma_arity_stmts_from(s: Seq<Stmt>, i: int)
    requires
        0 <= i <= s.len(),
        arity_stmts(s, i),
    ensures
        forall|k: int| i <= k < s.len() ==> match #[trigger] s[k] {
            Stmt::Expr(x, _) => arity_ok(x),
            Stmt::Local(l) => l.init matches Some(x) ==> arity_ok(x),
            Stmt::Other => true,
        },
    decreases s.len() - i,
{
    if i < s.len() {
        lemma_arity_stmts_from(s, i + 1);
    }
}

fn wp_method_str(m: &str) -> (r: bool)
    ensures
        r == wp_method(m@),
{
    str_eq(m, "sin") || str_eq(m, "cos") || str_eq(m, "abs") || str_eq(m, "sqrt")
}

/// Translates a closure body with `cp.X` read as `prefix` + `X` (see [`em_wp`]).
fn emit_expr_with_prefix(expr: &Expr, ctx: &mut EmitCtx, closure_param: &str, prefix: &str) -> (r: Result<String, MacroError>)
    requires
        env_ok(old(ctx).env()),
        arity_ok(*expr),
        old(ctx).counter + wbudget(*expr) <= u32::MAX,
    ensures
        (text_result(r), final(ctx).st()) == em_wp(old(ctx).env(), *expr, closure_param@, prefix@, old(ctx).st()),
        final(ctx).same_frame(&*old(ctx)),
        final(ctx).counter <= old(ctx).counter + wbudget(*expr),
    decreases expr, 5int,
{
    match &expr.kind {
        ExprKind::Field(base, member) => {
            if is_ident(base, closure_param) {
                if let Member::Named(n) = member {
                    let mut s = text(prefix);
                    push(&mut s, n.as_str());
                    return Ok(s);
                }
            }
            let b = match emit_expr_with_prefix(base, ctx, closure_param, prefix) {
                Ok(t) => t,
                Err(x) => { return Err(x); }
            };
            match member {
                Member::Named(n) => {
                    let mut s = b;
                    push(&mut s, ".");
                    push(&mut s, n.as_str());
                    Ok(s)
                }
                Member::Unnamed(_) => fail(expr.span, text("cellarium: unsupported field access")),
            }
        }
        ExprKind::Binary(a, op, b) => {
            let l = match emit_expr_with_prefix(a, ctx, closure_param, prefix) {
                Ok(t) => t,
                Err(x) => { return Err(x); }
            };
            let r = match emit_expr_with_prefix(b, ctx, closure_param, prefix) {
                Ok(t) => t,
                Err(x) => { return Err(x); }
            };
            match arith_str(op) {
                Some(o) => Ok(infix(&l, o, &r)),
                None => emit_expr(expr, ctx, Some(closure_param)),
            }
        }
        ExprKind::Unary(op, x) => {
            let v = match emit_expr_with_prefix(x, ctx, closure_param, prefix) {
                Ok(t) => t,
                Err(y) => { return Err(y); }
            };
            match op {
                UnOp::Neg => Ok(wrap("(-", &v, ")")),
                _ => emit_expr(expr, ctx, Some(closure_param)),
            }
        }
        ExprKind::MethodCall(recv, m, _) => {
            let rt = match emit_expr_with_prefix(recv, ctx, closure_param, prefix) {
                Ok(t) => t,
                Err(x) => { return Err(x); }
            };
            if wp_method_str(m.as_str()) {
                Ok(call1(m.as_str(), &rt))
            } else {
                emit_expr(expr, ctx, Some(closure_param))
            }
        }
        _ => emit_expr(expr, ctx, Some(closure_param)),
    }
}

// ---------------------------------------------------------------------------
// Spatial operators
// ---------------------------------------------------------------------------

/// A recognised `nb.op(|c| ..)` call, borrowing the closure bodies.
pub struct SpatialOp<'a> {
    pub kind: SpatialKind,
    pub closure_param: String,
    pub closure_body: &'a Expr,
    pub filter_closure: Option<(String, &'a Expr)>,
}

impl<'a> SpatialOp<'a> {
    pub open spec fn view(&self) -> SpatialOpView {
        SpatialOpView {
            kind: self.kind,
            param: self.closure_param@,
            body: *self.closure_body,
            filter: match self.filter_closure {
                Some((p, b)) => Some((p@, *b)),
                None => None,
            },
        }
    }
}

fn spatial_kind(m: &str) -> (r: Option<SpatialKind>)
    ensures
        r == spatial_kind_of(m@),
{
    if str_eq(m, "sum") { Some(SpatialKind::Sum) }
    else if str_eq(m, "mean") { Some(SpatialKind::Mean) }
    else if str_eq(m, "min") { Some(SpatialKind::Min) }
    else if str_eq(m, "max") { Some(SpatialKind::Max) }
    else if str_eq(m, "count") { Some(SpatialKind::Count) }
    else if str_eq(m, "laplacian") { Some(SpatialKind::Laplacian) }
    else if str_eq(m, "gradient") { Some(SpatialKind::Gradient) }
    else if str_eq(m, "divergence") { Some(SpatialKind::Divergence) }
    else if str_eq(m, "sum_where") { Some(SpatialKind::SumWhere) }
    else if str_eq(m, "mean_where") { Some(SpatialKind::MeanWhere) }
    else if str_eq(m, "min_where") { Some(SpatialKind::MinWhere) }
    else if str_eq(m, "max_where") { Some(SpatialKind::MaxWhere) }
    else { None }
}

pub(crate) fn closure_param_name(ps: &Vec<Pat>) -> (r: String)
    ensures
        r@ == closure_param_text(ps@),
{
    if ps.len() > 0 {
        match &ps[0] {
            Pat::Ident { name, .. } => name.clone(),
            _ => text("c"),
        }
    } else {
        text("c")
    }
}

/// Recognises `nb.op(|c| ..)` and `nb.op_where(|c| .., |c| ..)` calls.
pub fn parse_spatial_op(mc: &Expr) -> (r: Option<SpatialOp<'_>>)
    ensures
        match r {
            Some(op) => spatial_op_of(*mc) == Some(op.view()),
            None => spatial_op_of(*mc) is None,
        },
{
    let (recv, m, args) = match &mc.kind {
        ExprKind::MethodCall(recv, m, args) => (recv, m, args),
        _ => { return None; }
    };
    if !is_ident(recv, "nb") {
        return None;
    }
    let kind = match spatial_kind(m.as_str()) {
        Some(k) => k,
        None => { return None; }
    };
    if args.len() == 0 {
        return None;
    }
    let (ps, body) = match &args[0].kind {
        ExprKind::Closure(ps, body, _) => (ps, body),
        _ => { return None; }
    };
    let closure_param = closure_param_name(ps);
    let filter_closure = if args.len() > 1 {
        match &args[1].kind {
            ExprKind::Closure(fps, fbody, _) => Some((closure_param_name(fps), &**fbody)),
            _ => None,
        }
    } else {
        None
    };
    Some(SpatialOp { kind, closure_param, closure_body: &**body, filter_closure })
}


proof fn lemma_op_arity(mc: Expr)
    requires
        arity_ok(mc),
        spatial_op_of(mc) is Some,
    ensures
        arity_ok(spatial_op_of(mc)->Some_0.body),
        spatial_op_of(mc)->Some_0.filter matches Some((_, fb)) ==> arity_ok(fb),
{
    if let ExprKind::MethodCall(recv, m, args) = mc.kind {
        lemma_arity_all_index(args@);
    }
}

#[verifier::spinoff_prover]
#[verifier::rlimit(40)]
fn push_op_step(out: &mut String, kind: &SpatialKind, var: &str, cw: &String, fw: Option<&String>)
    ensures
        final(out)@ == old(out)@ + crate::emit::op_step(*kind, var@, cw@, match fw { Some(f) => Some(f@), None => None }),
{
    let ghost start = out@;
    let mut acc = text(var);
    push(&mut acc, "_acc");
    let mut cnt = text(var);
    push(&mut cnt, "_cnt");
    let mut kern = text(var);
    push(&mut kern, "_kern");
    let a = acc.as_str();
    match kind {
        SpatialKind::Sum | SpatialKind::Mean => {
            push(out, "                "); push(out, a); push(out, " += "); push(out, cw.as_str()); push(out, ";\n");
        }
        SpatialKind::Count => {
            push(out, "                if ("); push(out, cw.as_str()); push(out, ") { "); push(out, a);
            push(out, " += 1.0; }\n");
        }
        SpatialKind::Min => {
            push(out, "                "); push(out, a); push(out, " = min("); push(out, a); push(out, ", ");
            push(out, cw.as_str()); push(out, ");\n");
        }
        SpatialKind::Max => {
            push(out, "                "); push(out, a); push(out, " = max("); push(out, a); push(out, ", ");
            push(out, cw.as_str()); push(out, ");\n");
        }
        SpatialKind::Laplacian => {
            push(out, "                "); push(out, a); push(out, " += ("); push(out, cw.as_str()); push(out, ") * ");
            push(out, kern.as_str()); push(out, "[_dy + 1][_dx + 1];\n");
        }
        SpatialKind::SumWhere | SpatialKind::MeanWhere => {
            if let Some(f) = fw {
                push(out, "                if ("); push(out, f.as_str()); push(out, ") {\n");
                push(out, "                    "); push(out, a); push(out, " += "); push(out, cw.as_str()); push(out, ";\n");
                push(out, "                    "); push(out, cnt.as_str()); push(out, " += 1.0;\n");
                push(out, "                }\n");
            }
        }
        SpatialKind::MinWhere => {
            if let Some(f) = fw {
                push(out, "                if ("); push(out, f.as_str()); push(out, ") { "); push(out, a);
                push(out, " = min("); push(out, a); push(out, ", "); push(out, cw.as_str()); push(out, "); }\n");
            }
        }
        SpatialKind::MaxWhere => {
            if let Some(f) = fw {
                push(out, "                if ("); push(out, f.as_str()); push(out, ") { "); push(out, a);
                push(out, " = max("); push(out, a); push(out, ", "); push(out, cw.as_str()); push(out, "); }\n");
            }
        }
        _ => {}
    }
    assert(out@ =~= start + crate::emit::op_step(*kind, var@, cw@, match fw { Some(f) => Some(f@), None => None }));
}

fn push_op_result(out: &mut String, ctx: &EmitCtx, kind: &SpatialKind, var: &str, acc: &String, cnt: &String, zero: &String)
    requires
        env_ok(ctx.env()),
    ensures
        final(out)@ == old(out)@ + crate::emit::op_result(ctx.env(), *kind, var@, acc@, cnt@, zero@),
{
    let ghost start = out@;
    match kind {
        SpatialKind::Mean => {
            push(out, "        let "); push(out, var); push(out, " = "); push(out, acc.as_str()); push(out, " / ");
            let nc = ctx.info.neighborhood.neighbor_count();
            push_dec(out, nc as u64);
            push(out, ".0;\n");
        }
        SpatialKind::MeanWhere => {
            push(out, "        let "); push(out, var); push(out, " = select("); push(out, acc.as_str()); push(out, " / ");
            push(out, cnt.as_str()); push(out, ", "); push(out, zero.as_str()); push(out, ", ");
            push(out, cnt.as_str()); push(out, " == 0.0);\n");
        }
        _ => { push_let_line(out, var, acc.as_str()); }
    }
    assert(out@ =~= start + crate::emit::op_result(ctx.env(), *kind, var@, acc@, cnt@, zero@));
}

/// The code of a loop-based spatial operator (see [`loop_op_text`]).
fn loop_op_code(ctx: &EmitCtx, op: &SpatialOp, var: &str, cw: &String, fw: Option<&String>, fb: &String) -> (r: String)
    requires
        env_ok(ctx.env()),
        fb@ == fetch_block(ctx.env(), op_fields(op.view()), op_needs_accessors(op.view())),
    ensures
        r@ == loop_op_text(ctx.env(), op.view(), var@, cw@, match fw { Some(f) => Some(f@), None => None }),
{
    let mut acc = text(var);
    push(&mut acc, "_acc");
    let mut cnt = text(var);
    push(&mut cnt, "_cnt");
    let init = match op.kind {
        SpatialKind::Min | SpatialKind::MinWhere => "999999.0",
        SpatialKind::Max | SpatialKind::MaxWhere => "-999999.0",
        _ => "0.0",
    };
    let w = match op.kind {
        SpatialKind::Count => 1,
        _ => value_width(&ctx.info.fields, op.closure_body, op.closure_param.as_str()),
    };
    let ty = wgsl_type(w);
    let start = splat(w, init);
    let zero = splat(w, "0.0");
    let mut s = String::new();
    push_acc_decl(&mut s, acc.as_str(), ty, start.as_str());
    match op.kind {
        SpatialKind::SumWhere | SpatialKind::MeanWhere => { push_acc_decl(&mut s, cnt.as_str(), "f32", "0.0"); }
        _ => {}
    }
    let ghost decls = s@;
    match op.kind {
        SpatialKind::Laplacian => {
            let mut kern = text(var);
            push(&mut kern, "_kern");
            push_laplacian_open(&mut s, kern.as_str());
        }
        _ => { push_loop_open(&mut s, ctx); }
    }
    push(&mut s, emit_coord_line(ctx));
    push(&mut s, fb.as_str());
    push_op_step(&mut s, &op.kind, var, cw, fw);
    push_loop_close(&mut s);
    push_op_result(&mut s, ctx, &op.kind, var, &acc, &cnt, &zero);
    s
}

/// The code of `gradient` / `divergence` (see [`difference_text`]).
fn difference_code(ctx: &EmitCtx, op: &SpatialOp, var: &str, nf: &Vec<String>,
    r: &String, l: &String, t: &String, b: &String) -> (res: String)
    requires
        env_ok(ctx.env()),
        nf.deep_view() == op_fields(op.view()),
    ensures
        res@ == difference_text(ctx.env(), op.view(), var@, r@, l@, t@, b@),
{
    let mut s = String::new();
    let gradient = match op.kind { SpatialKind::Gradient => true, _ => false };
    push_difference_loads(&mut s, ctx, nf, gradient);
    push(&mut s, "        let "); push(&mut s, var);
    if gradient {
        push(&mut s, " = vec2f(("); push(&mut s, r.as_str()); push(&mut s, " - "); push(&mut s, l.as_str());
        push(&mut s, ") * 0.5, ("); push(&mut s, t.as_str()); push(&mut s, " - "); push(&mut s, b.as_str());
        push(&mut s, ") * 0.5);\n");
    } else {
        push(&mut s, " = (("); push(&mut s, r.as_str()); push(&mut s, ").x - ("); push(&mut s, l.as_str());
        push(&mut s, ").x) * 0.5 + (("); push(&mut s, t.as_str()); push(&mut s, ").y - ("); push(&mut s, b.as_str());
        push(&mut s, ").y) * 0.5;\n");
    }
    assert(s@ =~= difference_text(ctx.env(), op.view(), var@, r@, l@, t@, b@));
    s
}

/// Translates a recognised spatial operator into code that leaves its result
/// in `var_prefix` (see [`em_spatial`]).
pub fn emit_spatial_op(op: &SpatialOp, mc: &Expr, ctx: &mut EmitCtx, var_prefix: &str) -> (r: Result<String, MacroError>)
    requires
        spatial_op_of(*mc) == Some(op.view()),
        env_ok(old(ctx).env()),
        arity_ok(*mc),
        old(ctx).counter + op_budget(op.view()) <= u32::MAX,
    ensures
        (text_result(r), final(ctx).st()) == em_spatial(old(ctx).env(), *mc, var_prefix@, old(ctx).st()),
        final(ctx).same_frame(&*old(ctx)),
        final(ctx).counter <= old(ctx).counter + op_budget(op.view()),
    decreases mc, 2int,
{
    proof {
        lemma_spatial_parts_decrease(*mc);
        lemma_op_arity(*mc);
    }
    let cp = op.closure_param.as_str();
    let mut n_fields: Vec<String> = Vec::new();
    assert(n_fields.deep_view() =~= Seq::<Seq<char>>::empty());
    discover_neighbor_fields_in_expr(op.closure_body, &mut n_fields, cp);
    let mut needs = expr_needs_spatial_accessors(op.closure_body, cp);
    if let Some((fp, fbody)) = &op.filter_closure {
        discover_neighbor_fields_in_expr(fbody, &mut n_fields, fp.as_str());
        needs = needs || expr_needs_spatial_accessors(fbody, fp.as_str());
    }
    let fetch = emit_fetch_block(ctx, &n_fields, needs);
    let closure_wgsl = match emit_expr(op.closure_body, ctx, Some(cp)) {
        Ok(t) => t,
        Err(x) => { return Err(x); }
    };
    match op.kind {
        SpatialKind::Gradient | SpatialKind::Divergence => {
            let right = match emit_expr_with_prefix(op.closure_body, ctx, cp, "_nr_") {
                Ok(t) => t,
                Err(x) => { return Err(x); }
            };
            let left = match emit_expr_with_prefix(op.closure_body, ctx, cp, "_nl_") {
                Ok(t) => t,
                Err(x) => { return Err(x); }
            };
            let top = match emit_expr_with_prefix(op.closure_body, ctx, cp, "_nt_") {
                Ok(t) => t,
                Err(x) => { return Err(x); }
            };
            let bottom = match emit_expr_with_prefix(op.closure_body, ctx, cp, "_nb_") {
                Ok(t) => t,
                Err(x) => { return Err(x); }
            };
            Ok(difference_code(ctx, op, var_prefix, &n_fields, &right, &left, &top, &bottom))
        }
        SpatialKind::SumWhere | SpatialKind::MeanWhere | SpatialKind::MinWhere | SpatialKind::MaxWhere => {
            match &op.filter_closure {
                Some((fp, fbody)) => {
                    let fw = match emit_expr(fbody, ctx, Some(fp.as_str())) {
                        Ok(t) => t,
                        Err(x) => { return Err(x); }
                    };
                    Ok(loop_op_code(ctx, op, var_prefix, &closure_wgsl, Some(&fw), &fetch))
                }
                None => Ok(loop_op_code(ctx, op, var_prefix, &closure_wgsl, None, &fetch)),
            }
        }
        _ => Ok(loop_op_code(ctx, op, var_prefix, &closure_wgsl, None, &fetch)),
    }
}

} // verus!
