//! Translation of cell-method expressions to WGSL.
//!
//! Every `em_*` spec function states the text that the matching exec function
//! produces and how the emission state (the id counter and the hoisted code
//! lines) changes; the exec functions are proved to compute exactly that.
use vstd::prelude::*;
use crate::ast::{BinOp, Block, ErrorView, Expr, ExprKind, Lit, MacroError, Member, PathExpr, Pat, SpanId, Stmt, UnOp, err_at, get_ident, is_ident, path_ident, tail_expr, block_tail, text_result};
use crate::discover::{nb_fields_expr, needs_accessors};
use crate::lower::{ConstInfo, FieldDef, Neighborhood, field_slot, field_texture_swizzle, neighbor_count_fits, neighbor_count_of, radius_of, skip_text, swizzle_text, user_var, user_var_text};
use crate::text::{dec, int_dec, join, join_strings, push, push_dec, push_int, str_eq, text};

verus! {

/// What the emitter knows while it runs: the cell description and the shader mode.
pub struct EmitEnv {
    /// Names of the state fields, in declaration order.
    pub fields: Seq<Seq<char>>,
    /// Their sizes in floats.
    pub sizes: Seq<u32>,
    /// Names of the tunable constants, in declaration order.
    pub constants: Seq<Seq<char>>,
    pub neighborhood: Neighborhood,
    /// Emitting a compute shader (outputs are `textureStore`s).
    pub compute: bool,
    /// Neighbour reads go through workgroup memory (only in compute mode).
    pub shared: bool,
}

/// The part of the emitter's state that expression emission changes.
pub struct EmitState {
    /// The next id for a hoisted spatial-operator variable.
    pub counter: nat,
    /// Code lines hoisted in front of the statement being emitted.
    pub body: Seq<Seq<char>>,
}

pub type Emitted = (Result<Seq<char>, ErrorView>, EmitState);

pub open spec fn uses_shared(env: EmitEnv) -> bool {
    env.compute && env.shared
}

pub open spec fn opt_text(cp: Option<&str>) -> Option<Seq<char>> {
    match cp {
        Some(s) => Some(s@),
        None => None,
    }
}

// ---------------------------------------------------------------------------
// Leaves
// ---------------------------------------------------------------------------

pub open spec fn lit_text(l: Lit, span: SpanId) -> Result<Seq<char>, ErrorView> {
    match l {
        Lit::Float(t) => Ok(t@),
        Lit::Int(d) => Ok(d@ + ".0"@),
        Lit::Bool(b) => Ok(if b { "true"@ } else { "false"@ }),
        Lit::Other => Err(err_at(span, "cellarium: unsupported literal type"@)),
    }
}

pub open spec fn segments_text(p: PathExpr) -> Seq<char> {
    join(p.segments.deep_view(), "::"@)
}

pub open spec fn const_names(env: EmitEnv) -> Seq<Seq<char>> {
    env.constants
}

/// The WGSL for a path: built-in colours and constants, the cell's tunable
/// constants, the built-in values, and otherwise a user binding.
pub open spec fn path_text(env: EmitEnv, p: PathExpr) -> Seq<char> {
    let s = segments_text(p);
    if s == "Color::WHITE"@ {
        "vec4f(1.0, 1.0, 1.0, 1.0)"@
    } else if s == "Color::BLACK"@ {
        "vec4f(0.0, 0.0, 0.0, 1.0)"@
    } else if s == "PI"@ {
        "3.14159265"@
    } else if s == "TAU"@ {
        "6.28318530"@
    } else if const_names(env).contains(s) {
        user_var_text(s)
    } else if s == "tick"@ {
        "f32(uniforms.tick)"@
    } else if s == "cell_x"@ {
        "f32(cell_coord.x)"@
    } else if s == "cell_y"@ {
        "f32(cell_coord.y)"@
    } else if s == "grid_width"@ {
        "uniforms.resolution.x"@
    } else if s == "grid_height"@ {
        "uniforms.resolution.y"@
    } else if s == "true"@ {
        "true"@
    } else if s == "false"@ {
        "false"@
    } else {
        user_var_text(s)
    }
}

pub open spec fn binop_text(op: BinOp) -> Option<Seq<char>> {
    match op {
        BinOp::Add => Some("+"@),
        BinOp::Sub => Some("-"@),
        BinOp::Mul => Some("*"@),
        BinOp::Div => Some("/"@),
        BinOp::Eq => Some("=="@),
        BinOp::Ne => Some("!="@),
        BinOp::Lt => Some("<"@),
        BinOp::Gt => Some(">"@),
        BinOp::Le => Some("<="@),
        BinOp::Ge => Some(">="@),
        BinOp::And => Some("&&"@),
        BinOp::Or => Some("||"@),
        BinOp::Other => None,
    }
}

/// The arithmetic operators, the only ones rewritten per neighbour direction.
pub open spec fn arith_text(op: BinOp) -> Option<Seq<char>> {
    match op {
        BinOp::Add => Some("+"@),
        BinOp::Sub => Some("-"@),
        BinOp::Mul => Some("*"@),
        BinOp::Div => Some("/"@),
        _ => None,
    }
}

/// WGSL built-in for a method without arguments.
pub open spec fn unary_method_text(m: Seq<char>) -> Option<Seq<char>> {
    if m == "sin"@ { Some("sin"@) }
    else if m == "cos"@ { Some("cos"@) }
    else if m == "tan"@ { Some("tan"@) }
    else if m == "sqrt"@ { Some("sqrt"@) }
    else if m == "abs"@ { Some("abs"@) }
    else if m == "floor"@ { Some("floor"@) }
    else if m == "ceil"@ { Some("ceil"@) }
    else if m == "round"@ { Some("round"@) }
    else if m == "signum"@ { Some("sign"@) }
    else if m == "exp"@ { Some("exp"@) }
    else if m == "ln"@ { Some("log"@) }
    else if m == "log2"@ { Some("log2"@) }
    else if m == "fract"@ { Some("fract"@) }
    else if m == "length"@ { Some("length"@) }
    else if m == "normalize"@ { Some("normalize"@) }
    else { None }
}

/// WGSL built-in for a method with one argument.
pub open spec fn binary_method_text(m: Seq<char>) -> Option<Seq<char>> {
    if m == "powf"@ { Some("pow"@) }
    else if m == "min"@ { Some("min"@) }
    else if m == "max"@ { Some("max"@) }
    else if m == "dot"@ { Some("dot"@) }
    else if m == "cross"@ { Some("cross"@) }
    else { None }
}

// ---------------------------------------------------------------------------
// Spatial operators
// ---------------------------------------------------------------------------

pub enum SpatialKind {
    Sum,
    Mean,
    Min,
    Max,
    Count,
    Laplacian,
    Gradient,
    Divergence,
    SumWhere,
    MeanWhere,
    MinWhere,
    MaxWhere,
}

pub open spec fn spatial_kind_of(m: Seq<char>) -> Option<SpatialKind> {
    if m == "sum"@ { Some(SpatialKind::Sum) }
    else if m == "mean"@ { Some(SpatialKind::Mean) }
    else if m == "min"@ { Some(SpatialKind::Min) }
    else if m == "max"@ { Some(SpatialKind::Max) }
    else if m == "count"@ { Some(SpatialKind::Count) }
    else if m == "laplacian"@ { Some(SpatialKind::Laplacian) }
    else if m == "gradient"@ { Some(SpatialKind::Gradient) }
    else if m == "divergence"@ { Some(SpatialKind::Divergence) }
    else if m == "sum_where"@ { Some(SpatialKind::SumWhere) }
    else if m == "mean_where"@ { Some(SpatialKind::MeanWhere) }
    else if m == "min_where"@ { Some(SpatialKind::MinWhere) }
    else if m == "max_where"@ { Some(SpatialKind::MaxWhere) }
    else { None }
}

/// The closure parameter's name, `c` when it is not a plain identifier.
pub open spec fn closure_param_text(ps: Seq<Pat>) -> Seq<char> {
    if ps.len() > 0 {
        match ps[0] {
            Pat::Ident { name, .. } => name@,
            _ => "c"@,
        }
    } else {
        "c"@
    }
}

/// A recognised `nb.op(|c| ..)` call: operator, closure parameter and body,
/// and the optional filter closure.
pub struct SpatialOpView {
    pub kind: SpatialKind,
    pub param: Seq<char>,
    pub body: Expr,
    pub filter: Option<(Seq<char>, Expr)>,
}

pub open spec fn spatial_op_of(mc: Expr) -> Option<SpatialOpView> {
    match mc.kind {
        ExprKind::MethodCall(recv, m, args) => {
            if path_ident(*recv) == Some("nb"@) && spatial_kind_of(m@) is Some && args@.len() > 0 {
                match args@[0].kind {
                    ExprKind::Closure(ps, body, _) => {
                        let filter = if args@.len() > 1 {
                            match args@[1].kind {
                                ExprKind::Closure(fps, fbody, _) => Some((closure_param_text(fps@), *fbody)),
                                _ => None,
                            }
                        } else {
                            None
                        };
                        Some(SpatialOpView {
                            kind: spatial_kind_of(m@)->Some_0,
                            param: closure_param_text(ps@),
                            body: *body,
                            filter,
                        })
                    },
                    _ => None,
                }
            } else {
                None
            }
        },
        _ => None,
    }
}

pub proof fn lemma_spatial_parts_decrease(mc: Expr)
    requires
        spatial_op_of(mc) is Some,
    ensures
        decreases_to!(mc => spatial_op_of(mc)->Some_0.body),
        spatial_op_of(mc)->Some_0.filter matches Some((_, fb)) ==> decreases_to!(mc => fb),
{
    if let ExprKind::MethodCall(recv, m, args) = mc.kind {
        assert(decreases_to!(mc => mc.kind));
        assert(decreases_to!(args@ => args@[0]));
        if let ExprKind::Closure(ps, body, _) = args@[0].kind {
            assert(decreases_to!(args@[0] => *body));
        }
        if args@.len() > 1 {
            assert(decreases_to!(args@ => args@[1]));
            if let ExprKind::Closure(fps, fbody, _) = args@[1].kind {
                assert(decreases_to!(args@[1] => *fbody));
            }
        }
    }
}


// ---------------------------------------------------------------------------
// Spatial-operator code templates
// ---------------------------------------------------------------------------

/// Left-to-right concatenation.
pub open spec fn concat(s: Seq<Seq<char>>) -> Seq<char>
    decreases s.len(),
{
    if s.len() == 0 { Seq::empty() } else { concat(s.drop_last()) + s.last() }
}

pub open spec fn tex_of(env: EmitEnv, f: Seq<char>) -> Seq<char> {
    dec(field_slot(env.fields, env.sizes, f).0)
}

pub open spec fn swz_of(env: EmitEnv, f: Seq<char>) -> Seq<char> {
    swizzle_text(field_slot(env.fields, env.sizes, f).1, field_slot(env.fields, env.sizes, f).2)
}

/// The line that loads neighbour field `f` inside the offset loops.
pub open spec fn fetch_line(env: EmitEnv, f: Seq<char>) -> Seq<char> {
    if uses_shared(env) {
        "            let _n_"@ + f + " = shared_tex"@ + tex_of(env, f) + "[_nly * PADDED + _nlx]."@ + swz_of(env, f) + ";"@
    } else {
        "            let _n_"@ + f + " = textureLoad(state_tex"@ + tex_of(env, f) + ", _nc, 0)."@ + swz_of(env, f) + ";"@
    }
}

pub open spec fn spatial_lines(needs: bool) -> Seq<Seq<char>> {
    if needs {
        seq![
            "            let _n_offset = vec2f(f32(_dx), f32(_dy));"@,
            "            let _n_distance = length(_n_offset);"@,
            "            let _n_direction = select(vec2f(0.0, 0.0), normalize(_n_offset), _n_distance > 0.0);"@,
        ]
    } else {
        Seq::empty()
    }
}

/// Neighbour field loads, then the spatial accessor definitions if used.
pub open spec fn fetch_block(env: EmitEnv, nf: Seq<Seq<char>>, needs: bool) -> Seq<char> {
    join(nf.map_values(|f: Seq<char>| fetch_line(env, f)), "\n"@) + "\n"@ + join(spatial_lines(needs), "\n"@)
}

/// The neighbour coordinate inside the offset loops.
pub open spec fn coord_text(env: EmitEnv) -> Seq<char> {
    if uses_shared(env) {
        "                let _nlx = u32(i32(lx) + _dx);\n                let _nly = u32(i32(ly) + _dy);\n"@
    } else {
        "                let _nc = (cell_coord + vec2i(_dx, _dy) + vec2i(uniforms.resolution)) % vec2i(uniforms.resolution);\n"@
    }
}

pub open spec fn acc_decl(acc: Seq<char>, ty: Seq<char>, init: Seq<char>) -> Seq<char> {
    "        var "@ + acc + ": "@ + ty + " = "@ + init + ";\n"@
}

// ---------------------------------------------------------------------------
// The width of a closure's value: 1 for `f32`, 2 to 4 for `vec2f`..`vec4f`.
// ---------------------------------------------------------------------------

pub open spec fn max_nat(a: nat, b: nat) -> nat {
    if a >= b { a } else { b }
}

/// The WGSL type of a value of width `w`.
pub open spec fn type_text(w: nat) -> Seq<char> {
    if w == 2 { "vec2f"@ } else if w == 3 { "vec3f"@ } else if w == 4 { "vec4f"@ } else { "f32"@ }
}

/// A scalar `s` spread over a value of width `w`.
pub open spec fn splat_text(w: nat, s: Seq<char>) -> Seq<char> {
    if 2 <= w <= 4 { type_text(w) + "("@ + s + ")"@ } else { s }
}

/// Methods whose result is a scalar whatever their receiver.
pub open spec fn scalar_method(m: Seq<char>) -> bool {
    m == "length"@ || m == "dot"@ || m == "distance"@
}

/// The width of an expression's value inside a neighbour closure with
/// parameter `cp`: state fields (of the neighbour or of `self`) have their
/// declared size, a swizzle its length, the vector constructors and colours
/// their width, `length`/`dot`/`distance` one, `cross` three, the spatial
/// accessors `offset()`/`direction()` two; arithmetic, other built-ins and
/// other methods take the widest of their operands; anything else is a scalar.
pub open spec fn width_of(fs: Seq<Seq<char>>, ss: Seq<u32>, e: Expr, cp: Seq<char>) -> nat
    decreases e, 0int,
{
    match e.kind {
        ExprKind::Field(b, m) => match m {
            Member::Named(n) => if path_ident(*b) == Some(cp) || path_ident(*b) == Some("self"@) {
                field_slot(fs, ss, n@).2
            } else if 1 <= n@.len() <= 4 {
                n@.len()
            } else {
                1
            },
            Member::Unnamed(_) => 1,
        },
        ExprKind::Binary(a, op, b) => match op {
            BinOp::Add | BinOp::Sub | BinOp::Mul | BinOp::Div => max_nat(width_of(fs, ss, *a, cp), width_of(fs, ss, *b, cp)),
            _ => 1,
        },
        ExprKind::Unary(_, x) => width_of(fs, ss, *x, cp),
        ExprKind::Paren(x) => width_of(fs, ss, *x, cp),
        ExprKind::Group(x) => width_of(fs, ss, *x, cp),
        ExprKind::Call(f, args) => match f.kind {
            ExprKind::Path(p) => {
                let name = segments_text(p);
                if name == "vec2"@ { 2 } else if name == "vec3"@ { 3 }
                else if name == "vec4"@ || name == "Color::rgb"@ || name == "Color::rgba"@ || name == "Color::hsv"@ { 4 }
                else if name == "atan2"@ || scalar_method(name) { 1 }
                else { widest(fs, ss, args@, 0, cp) }
            },
            _ => 1,
        },
        ExprKind::MethodCall(r, m, args) => {
            if scalar_method(m@) { 1 }
            else if m@ == "cross"@ { 3 }
            else if (m@ == "offset"@ || m@ == "direction"@) && args@.len() == 0 { 2 }
            else { width_of(fs, ss, *r, cp) }
        },
        ExprKind::If(_, _, els) => match els {
            Some(x) => width_of(fs, ss, *x, cp),
            None => 1,
        },
        ExprKind::Block(b) => {
            if b.stmts@.len() > 0 && b.stmts@[b.stmts@.len() - 1] matches Stmt::Expr(x, false) {
                width_of(fs, ss, b.stmts@[b.stmts@.len() - 1]->Expr_0, cp)
            } else {
                1
            }
        },
        _ => 1,
    }
}

/// The widest of the arguments `args[i..]`, at least one.
pub open spec fn widest(fs: Seq<Seq<char>>, ss: Seq<u32>, args: Seq<Expr>, i: int, cp: Seq<char>) -> nat
    decreases args, args.len() - i,
{
    if 0 <= i < args.len() { max_nat(width_of(fs, ss, args[i], cp), widest(fs, ss, args, i + 1, cp)) } else { 1 }
}

/// The width of a loop operator's accumulator: that of the value closure
/// (a count is a scalar).
pub open spec fn op_width(env: EmitEnv, op: SpatialOpView) -> nat {
    if op.kind is Count { 1 } else { width_of(env.fields, env.sizes, op.body, op.param) }
}

/// Opens the two offset loops over the neighbourhood and skips excluded offsets.
pub open spec fn loop_open(env: EmitEnv) -> Seq<char> {
    let r = radius_of(env.neighborhood) as int;
    "        for (var _dy: i32 = "@ + int_dec(-r) + "; _dy <= "@ + int_dec(r) + "; _dy++) {\n"@
    + "            for (var _dx: i32 = "@ + int_dec(-r) + "; _dx <= "@ + int_dec(r) + "; _dx++) {\n"@
    + "                "@ + skip_text(env.neighborhood) + "\n"@
}

pub open spec fn loop_close() -> Seq<char> {
    "            }\n"@ + "        }\n"@
}

pub open spec fn let_line(var: Seq<char>, val: Seq<char>) -> Seq<char> {
    "        let "@ + var + " = "@ + val + ";\n"@
}

/// The 3×3 Laplacian kernel declaration and its fixed loops.
pub open spec fn laplacian_open(kern: Seq<char>) -> Seq<char> {
    "        let "@ + kern + " = array<array<f32, 3>, 3>(\n"@
    + "            array<f32, 3>(0.25, 0.5, 0.25),\n"@
    + "            array<f32, 3>(0.5, -3.0, 0.5),\n"@
    + "            array<f32, 3>(0.25, 0.5, 0.25),\n"@
    + "        );\n"@
    + "        for (var _dy: i32 = -1; _dy <= 1; _dy++) {\n"@
    + "            for (var _dx: i32 = -1; _dx <= 1; _dx++) {\n"@
}

/// Loads of every neighbour field from one direction through a texture.
pub open spec fn dir_loads(env: EmitEnv, nf: Seq<Seq<char>>, dir: Seq<char>, dxdy: Seq<char>) -> Seq<char> {
    "        let _nc_"@ + dir + " = (cell_coord + vec2i("@ + dxdy + ") + vec2i(uniforms.resolution)) % vec2i(uniforms.resolution);\n"@
    + concat(nf.map_values(|f: Seq<char>| dir_load_line(env, dir, f)))
}

pub open spec fn dir_load_line(env: EmitEnv, dir: Seq<char>, f: Seq<char>) -> Seq<char> {
    "        let _n"@ + dir + "_"@ + f + " = textureLoad(state_tex"@ + tex_of(env, f) + ", _nc_"@ + dir + ", 0)."@ + swz_of(env, f) + ";\n"@
}

pub open spec fn dir_shared_line(env: EmitEnv, dir: Seq<char>, index: Seq<char>, f: Seq<char>) -> Seq<char> {
    "        let _n"@ + dir + "_"@ + f + " = shared_tex"@ + tex_of(env, f) + "["@ + index + "]."@ + swz_of(env, f) + ";\n"@
}

/// Loads of every neighbour field from one direction through workgroup memory.
pub open spec fn dir_shared_loads(env: EmitEnv, nf: Seq<Seq<char>>, dir: Seq<char>, index: Seq<char>) -> Seq<char> {
    concat(nf.map_values(|f: Seq<char>| dir_shared_line(env, dir, index, f)))
}

/// The four-direction loads that the central differences use.
pub open spec fn difference_loads(env: EmitEnv, nf: Seq<Seq<char>>, gradient: bool) -> Seq<char> {
    if uses_shared(env) {
        if gradient {
            dir_shared_loads(env, nf, "r"@, "ly * PADDED + (lx + 1u)"@)
            + dir_shared_loads(env, nf, "l"@, "ly * PADDED + (lx - 1u)"@)
            + dir_shared_loads(env, nf, "t"@, "(ly + 1u) * PADDED + lx"@)
            + dir_shared_loads(env, nf, "b"@, "(ly - 1u) * PADDED + lx"@)
        } else {
            dir_shared_loads(env, nf, "r"@, "(ly) * PADDED + (lx + 1u)"@)
            + dir_shared_loads(env, nf, "l"@, "(ly) * PADDED + (lx - 1u)"@)
            + dir_shared_loads(env, nf, "t"@, "(ly + 1u) * PADDED + (lx)"@)
            + dir_shared_loads(env, nf, "b"@, "(ly - 1u) * PADDED + (lx)"@)
        }
    } else {
        dir_loads(env, nf, "r"@, "1, 0"@)
        + dir_loads(env, nf, "l"@, "-1, 0"@)
        + dir_loads(env, nf, "t"@, "0, 1"@)
        + dir_loads(env, nf, "b"@, "0, -1"@)
    }
}

/// The fields a spatial operator's closures read, value closure first.
pub open spec fn op_fields(op: SpatialOpView) -> Seq<Seq<char>> {
    let a = nb_fields_expr(op.body, Seq::empty(), op.param);
    match op.filter {
        Some((fp, fb)) => nb_fields_expr(fb, a, fp),
        None => a,
    }
}

pub open spec fn op_needs_accessors(op: SpatialOpView) -> bool {
    needs_accessors(op.body, op.param) || match op.filter {
        Some((fp, fb)) => needs_accessors(fb, fp),
        None => false,
    }
}

/// Initial value of a loop operator's accumulator.
pub open spec fn op_init(k: SpatialKind) -> Seq<char> {
    match k {
        SpatialKind::Min | SpatialKind::MinWhere => "999999.0"@,
        SpatialKind::Max | SpatialKind::MaxWhere => "-999999.0"@,
        _ => "0.0"@,
    }
}

/// The accumulation step inside the offset loops.
pub open spec fn op_step(k: SpatialKind, var: Seq<char>, cw: Seq<char>, fw: Option<Seq<char>>) -> Seq<char> {
    let acc = var + "_acc"@;
    let cnt = var + "_cnt"@;
    match k {
        SpatialKind::Sum | SpatialKind::Mean => "                "@ + acc + " += "@ + cw + ";\n"@,
        SpatialKind::Count => "                if ("@ + cw + ") { "@ + acc + " += 1.0; }\n"@,
        SpatialKind::Min => "                "@ + acc + " = min("@ + acc + ", "@ + cw + ");\n"@,
        SpatialKind::Max => "                "@ + acc + " = max("@ + acc + ", "@ + cw + ");\n"@,
        SpatialKind::Laplacian => "                "@ + acc + " += ("@ + cw + ") * "@ + (var + "_kern"@) + "[_dy + 1][_dx + 1];\n"@,
        SpatialKind::SumWhere | SpatialKind::MeanWhere => match fw {
            Some(f) => "                if ("@ + f + ") {\n"@
                + "                    "@ + acc + " += "@ + cw + ";\n"@
                + "                    "@ + cnt + " += 1.0;\n"@
                + "                }\n"@,
            None => Seq::empty(),
        },
        SpatialKind::MinWhere => match fw {
            Some(f) => "                if ("@ + f + ") { "@ + acc + " = min("@ + acc + ", "@ + cw + "); }\n"@,
            None => Seq::empty(),
        },
        SpatialKind::MaxWhere => match fw {
            Some(f) => "                if ("@ + f + ") { "@ + acc + " = max("@ + acc + ", "@ + cw + "); }\n"@,
            None => Seq::empty(),
        },
        _ => Seq::empty(),
    }
}

/// The line that binds a loop operator's result.
pub open spec fn op_result(env: EmitEnv, k: SpatialKind, var: Seq<char>, acc: Seq<char>, cnt: Seq<char>, zero: Seq<char>) -> Seq<char> {
    match k {
        SpatialKind::Mean => "        let "@ + var + " = "@ + acc + " / "@ + dec(neighbor_count_of(env.neighborhood)) + ".0;\n"@,
        SpatialKind::MeanWhere => "        let "@ + var + " = select("@ + acc + " / "@ + cnt + ", "@ + zero + ", "@ + cnt + " == 0.0);\n"@,
        _ => let_line(var, acc),
    }
}

/// Code of a spatial operator that visits the neighbourhood in a loop, once
/// the value closure `cw` and the filter closure `fw` are translated.
pub open spec fn loop_op_text(env: EmitEnv, op: SpatialOpView, var: Seq<char>, cw: Seq<char>, fw: Option<Seq<char>>) -> Seq<char> {
    let acc = var + "_acc"@;
    let cnt = var + "_cnt"@;
    let fb = fetch_block(env, op_fields(op), op_needs_accessors(op));
    let w = op_width(env, op);
    let decls = if op.kind is SumWhere || op.kind is MeanWhere {
        acc_decl(acc, type_text(w), splat_text(w, op_init(op.kind))) + acc_decl(cnt, "f32"@, "0.0"@)
    } else {
        acc_decl(acc, type_text(w), splat_text(w, op_init(op.kind)))
    };
    let head = if op.kind is Laplacian {
        laplacian_open(var + "_kern"@)
    } else {
        loop_open(env)
    };
    decls + head + coord_text(env) + fb + op_step(op.kind, var, cw, fw) + loop_close() + op_result(env, op.kind, var, acc, cnt, splat_text(w, "0.0"@))
}

/// Code of `gradient` / `divergence`, from the closure translated at the
/// right (R), left (L), top (T) and bottom (B) neighbours.
pub open spec fn difference_text(env: EmitEnv, op: SpatialOpView, var: Seq<char>,
    r: Seq<char>, l: Seq<char>, t: Seq<char>, b: Seq<char>) -> Seq<char>
{
    if op.kind is Gradient {
        difference_loads(env, op_fields(op), true)
        + "        let "@ + var + " = vec2f(("@ + r + " - "@ + l + ") * 0.5, ("@ + t + " - "@ + b + ") * 0.5);\n"@
    } else {
        difference_loads(env, op_fields(op), false)
        + "        let "@ + var + " = (("@ + r + ").x - ("@ + l + ").x) * 0.5 + (("@ + t + ").y - ("@ + b + ").y) * 0.5;\n"@
    }
}


// ---------------------------------------------------------------------------
// The translation
// ---------------------------------------------------------------------------

pub open spec fn unsupported_msg(t: Seq<char>) -> Seq<char> {
    "cellarium C019: '"@ + t + "' is not supported in cell code."@
}

/// Translates an expression; `cp` names the parameter of the neighbour
/// closure being translated, if any.
pub open spec fn em_expr(env: EmitEnv, e: Expr, cp: Option<Seq<char>>, st: EmitState) -> Emitted
    decreases e, 4int,
{
    match e.kind {
        ExprKind::Lit(l) => (lit_text(l, e.span), st),
        ExprKind::Path(p) => (Ok(path_text(env, p)), st),
        ExprKind::Field(base, m) => match m {
            Member::Unnamed(_) => (Err(err_at(e.span, "cellarium: tuple indexing not supported"@)), st),
            Member::Named(n) => {
                if path_ident(*base) == Some("self"@) {
                    (Ok("_self_"@ + n@), st)
                } else if cp is Some && path_ident(*base) == cp {
                    (Ok("_n_"@ + n@), st)
                } else {
                    let (b, s1) = em_expr(env, *base, cp, st);
                    match b {
                        Ok(bt) => (Ok(bt + "."@ + n@), s1),
                        Err(x) => (Err(x), s1),
                    }
                }
            },
        },
        ExprKind::Binary(a, op, b) => {
            let (l, s1) = em_expr(env, *a, cp, st);
            match l {
                Err(x) => (Err(x), s1),
                Ok(lt) => {
                    let (r, s2) = em_expr(env, *b, cp, s1);
                    match r {
                        Err(x) => (Err(x), s2),
                        Ok(rt) => match binop_text(op) {
                            Some(o) => (Ok("("@ + lt + " "@ + o + " "@ + rt + ")"@), s2),
                            None => (Err(err_at(e.span, "cellarium: unsupported operator"@)), s2),
                        },
                    }
                },
            }
        },
        ExprKind::Unary(op, x) => {
            let (v, s1) = em_expr(env, *x, cp, st);
            match v {
                Err(y) => (Err(y), s1),
                Ok(t) => match op {
                    UnOp::Neg => (Ok("(-"@ + t + ")"@), s1),
                    UnOp::Not => (Ok("(!"@ + t + ")"@), s1),
                    UnOp::Deref => (Err(err_at(e.span, "cellarium: unsupported unary operator"@)), s1),
                },
            }
        },
        ExprKind::Paren(x) => {
            let (v, s1) = em_expr(env, *x, cp, st);
            match v {
                Err(y) => (Err(y), s1),
                Ok(t) => (Ok("("@ + t + ")"@), s1),
            }
        },
        ExprKind::Group(x) => em_expr(env, *x, cp, st),
        ExprKind::MethodCall(..) => em_method(env, e, cp, st),
        ExprKind::Call(..) => em_call(env, e, cp, st),
        ExprKind::If(..) => em_if(env, e, cp, st),
        ExprKind::Block(b) => {
            if b.stmts@.len() > 0 {
                match b.stmts@[b.stmts@.len() - 1] {
                    Stmt::Expr(t, false) => em_expr(env, t, cp, st),
                    _ => (Ok("/* empty block */"@), st),
                }
            } else {
                (Ok("/* empty block */"@), st)
            }
        },
        ExprKind::Struct(_) => (Err(err_at(e.span, "cellarium: struct literals should only appear as return values"@)), st),
        ExprKind::Closure(_, _, t) => (Err(err_at(e.span, unsupported_msg(t@))), st),
        ExprKind::Return(_, t) => (Err(err_at(e.span, unsupported_msg(t@))), st),
        ExprKind::Assign(t) => (Err(err_at(e.span, unsupported_msg(t@))), st),
        ExprKind::ForLoop(t) => (Err(err_at(e.span, unsupported_msg(t@))), st),
        ExprKind::While(t) => (Err(err_at(e.span, unsupported_msg(t@))), st),
        ExprKind::Loop(t) => (Err(err_at(e.span, unsupported_msg(t@))), st),
        ExprKind::Match(t) => (Err(err_at(e.span, unsupported_msg(t@))), st),
        ExprKind::Reference(t) => (Err(err_at(e.span, unsupported_msg(t@))), st),
        ExprKind::Unsafe(t) => (Err(err_at(e.span, unsupported_msg(t@))), st),
        ExprKind::Other(t) => (Err(err_at(e.span, unsupported_msg(t@))), st),
    }
}

/// Translates a method call: spatial operators on `nb` (hoisted into a fresh
/// `_spatial_N` variable), spatial accessors of the closure parameter, and
/// the built-in methods.
pub open spec fn em_method(env: EmitEnv, e: Expr, cp: Option<Seq<char>>, st: EmitState) -> Emitted
    decreases e, 3int,
{
    match e.kind {
        ExprKind::MethodCall(recv, m, args) => {
            if path_ident(*recv) == Some("nb"@) {
                match spatial_op_of(e) {
                    Some(op) => {
                        let var = "_spatial_"@ + dec(st.counter);
                        let (code, s2) = em_spatial(env, e, var, EmitState { counter: st.counter + 1, body: st.body });
                        match code {
                            Ok(c) => (Ok(var), EmitState { counter: s2.counter, body: s2.body.push(c) }),
                            Err(x) => (Err(x), s2),
                        }
                    },
                    None => (Err(err_at(e.span, "cellarium: unrecognized spatial operator '"@ + m@ + "'"@)), st),
                }
            } else if cp is Some && path_ident(*recv) == cp && m@ == "distance"@ && args@.len() == 0 {
                (Ok("_n_distance"@), st)
            } else if cp is Some && path_ident(*recv) == cp && m@ == "offset"@ && args@.len() == 0 {
                (Ok("_n_offset"@), st)
            } else if cp is Some && path_ident(*recv) == cp && m@ == "direction"@ && args@.len() == 0 {
                (Ok("_n_direction"@), st)
            } else {
                let (r, s1) = em_expr(env, *recv, cp, st);
                match r {
                    Err(x) => (Err(x), s1),
                    Ok(rt) => {
                        if unary_method_text(m@) is Some {
                            (Ok(unary_method_text(m@)->Some_0 + "("@ + rt + ")"@), s1)
                        } else if binary_method_text(m@) is Some && args@.len() < 1 {
                            (Ok(Seq::empty()), s1)
                        } else if binary_method_text(m@) is Some {
                            let (a, s2) = em_expr(env, args@[0], cp, s1);
                            match a {
                                Err(x) => (Err(x), s2),
                                Ok(at) => (Ok(binary_method_text(m@)->Some_0 + "("@ + rt + ", "@ + at + ")"@), s2),
                            }
                        } else if m@ == "clamp"@ && args@.len() < 2 {
                            (Ok(Seq::empty()), s1)
                        } else if m@ == "clamp"@ {
                            let (lo, s2) = em_expr(env, args@[0], cp, s1);
                            match lo {
                                Err(x) => (Err(x), s2),
                                Ok(lt) => {
                                    let (hi, s3) = em_expr(env, args@[1], cp, s2);
                                    match hi {
                                        Err(x) => (Err(x), s3),
                                        Ok(ht) => (Ok("clamp("@ + rt + ", "@ + lt + ", "@ + ht + ")"@), s3),
                                    }
                                },
                            }
                        } else if m@ == "distance"@ {
                            if args@.len() == 0 {
                                (Ok("distance"@ + "("@ + rt + ")"@), s1)
                            } else {
                                let (a, s2) = em_expr(env, args@[0], cp, s1);
                                match a {
                                    Err(x) => (Err(x), s2),
                                    Ok(at) => (Ok("distance"@ + "("@ + rt + ", "@ + at + ")"@), s2),
                                }
                            }
                        } else {
                            (Err(err_at(e.span, "cellarium C015: '"@ + m@
                                + "' is not a recognized method. See cellarium docs for supported operations."@)), s1)
                        }
                    },
                }
            }
        },
        _ => (Ok(Seq::empty()), st),
    }
}

/// Translates the arguments `s[i..]` in order, after the texts in `acc`.
pub open spec fn em_args(env: EmitEnv, s: Seq<Expr>, i: int, acc: Seq<Seq<char>>, cp: Option<Seq<char>>, st: EmitState)
    -> (Result<Seq<Seq<char>>, ErrorView>, EmitState)
    decreases s, s.len() - i,
{
    if 0 <= i < s.len() {
        let (t, s1) = em_expr(env, s[i], cp, st);
        match t {
            Err(x) => (Err(x), s1),
            Ok(tt) => em_args(env, s, i + 1, acc.push(tt), cp, s1),
        }
    } else {
        (Ok(acc), st)
    }
}

/// How many arguments the translation of a free function reads.
pub open spec fn call_arity(name: Seq<char>) -> nat {
    if name == "mix"@ { 3 }
    else if name == "step"@ { 2 }
    else if name == "smoothstep"@ { 3 }
    else if name == "atan2"@ { 2 }
    else if name == "vec2"@ { 2 }
    else if name == "vec3"@ { 3 }
    else if name == "vec4"@ { 4 }
    else if name == "Color::rgb"@ { 3 }
    else if name == "Color::rgba"@ { 4 }
    else if name == "Color::hsv"@ { 3 }
    else { 0 }
}

/// The WGSL for a call of a recognised free function on translated arguments.
pub open spec fn call_text(name: Seq<char>, a: Seq<Seq<char>>, span: SpanId) -> Result<Seq<char>, ErrorView> {
    if name == "mix"@ {
        Ok("mix("@ + a[0] + ", "@ + a[1] + ", "@ + a[2] + ")"@)
    } else if name == "step"@ {
        Ok("step("@ + a[0] + ", "@ + a[1] + ")"@)
    } else if name == "smoothstep"@ {
        Ok("smoothstep("@ + a[0] + ", "@ + a[1] + ", "@ + a[2] + ")"@)
    } else if name == "atan2"@ {
        Ok("atan2("@ + a[0] + ", "@ + a[1] + ")"@)
    } else if name == "vec2"@ {
        Ok("vec2f("@ + a[0] + ", "@ + a[1] + ")"@)
    } else if name == "vec3"@ {
        Ok("vec3f("@ + a[0] + ", "@ + a[1] + ", "@ + a[2] + ")"@)
    } else if name == "vec4"@ {
        Ok("vec4f("@ + a[0] + ", "@ + a[1] + ", "@ + a[2] + ", "@ + a[3] + ")"@)
    } else if name == "Color::rgb"@ {
        Ok("vec4f("@ + a[0] + ", "@ + a[1] + ", "@ + a[2] + ", 1.0)"@)
    } else if name == "Color::rgba"@ {
        Ok("vec4f("@ + a[0] + ", "@ + a[1] + ", "@ + a[2] + ", "@ + a[3] + ")"@)
    } else if name == "Color::hsv"@ {
        Ok("hsv_to_rgb("@ + a[0] + ", "@ + a[1] + ", "@ + a[2] + ")"@)
    } else {
        Err(err_at(span, "cellarium C015: '"@ + name + "' is not a recognized function."@))
    }
}

/// Translates a call of a free function: the function must be a path; all
/// arguments are translated before the name is looked up.
pub open spec fn em_call(env: EmitEnv, e: Expr, cp: Option<Seq<char>>, st: EmitState) -> Emitted
    decreases e, 3int,
{
    match e.kind {
        ExprKind::Call(f, args) => match f.kind {
            ExprKind::Path(p) => {
                let (a, s1) = em_args(env, args@, 0, Seq::empty(), cp, st);
                match a {
                    Err(x) => (Err(x), s1),
                    Ok(ts) => (call_text(segments_text(p), ts, f.span), s1),
                }
            },
            _ => (Err(err_at(f.span, "cellarium: unsupported function call syntax"@)), st),
        },
        _ => (Ok(Seq::empty()), st),
    }
}

/// Translates `if c { a } else { b }` to `select(b, a, c)`.
pub open spec fn em_if(env: EmitEnv, e: Expr, cp: Option<Seq<char>>, st: EmitState) -> Emitted
    decreases e, 3int,
{
    match e.kind {
        ExprKind::If(c, b, els) => {
            let (ct, s1) = em_expr(env, *c, cp, st);
            match ct {
                Err(x) => (Err(x), s1),
                Ok(cv) => {
                    if b.stmts@.len() > 0 && b.stmts@[b.stmts@.len() - 1] matches Stmt::Expr(_, false) {
                        let t = b.stmts@[b.stmts@.len() - 1]->Expr_0;
                        let (tt, s2) = em_expr(env, t, cp, s1);
                        match tt {
                            Err(x) => (Err(x), s2),
                            Ok(tv) => match els {
                                Some(x) => {
                                    let (et, s3) = em_expr(env, *x, cp, s2);
                                    match et {
                                        Err(y) => (Err(y), s3),
                                        Ok(ev) => (Ok("select("@ + ev + ", "@ + tv + ", "@ + cv + ")"@), s3),
                                    }
                                },
                                None => (Err(err_at(e.span, "cellarium: if expression must have an else branch"@)), s2),
                            },
                        }
                    } else {
                        (Err(err_at(e.span, "cellarium: if branch must produce a value"@)), s1)
                    }
                },
            }
        },
        _ => (Ok(Seq::empty()), st),
    }
}

/// The methods that the per-direction rewrite keeps as calls.
pub open spec fn wp_method(m: Seq<char>) -> bool {
    m == "sin"@ || m == "cos"@ || m == "abs"@ || m == "sqrt"@
}

/// Translates a closure body with `cp.X` read as `prefix` + `X`, for one of
/// the four central-difference neighbours; forms it does not rewrite are
/// translated as usual.
pub open spec fn em_wp(env: EmitEnv, e: Expr, cp: Seq<char>, prefix: Seq<char>, st: EmitState) -> Emitted
    decreases e, 5int,
{
    match e.kind {
        ExprKind::Field(base, m) => {
            if path_ident(*base) == Some(cp) && m is Named {
                (Ok(prefix + m->Named_0@), st)
            } else {
                let (b, s1) = em_wp(env, *base, cp, prefix, st);
                match b {
                    Err(x) => (Err(x), s1),
                    Ok(bt) => match m {
                        Member::Named(n) => (Ok(bt + "."@ + n@), s1),
                        Member::Unnamed(_) => (Err(err_at(e.span, "cellarium: unsupported field access"@)), s1),
                    },
                }
            }
        },
        ExprKind::Binary(a, op, b) => {
            let (l, s1) = em_wp(env, *a, cp, prefix, st);
            match l {
                Err(x) => (Err(x), s1),
                Ok(lt) => {
                    let (r, s2) = em_wp(env, *b, cp, prefix, s1);
                    match r {
                        Err(x) => (Err(x), s2),
                        Ok(rt) => match arith_text(op) {
                            Some(o) => (Ok("("@ + lt + " "@ + o + " "@ + rt + ")"@), s2),
                            None => em_expr(env, e, Some(cp), s2),
                        },
                    }
                },
            }
        },
        ExprKind::Unary(op, x) => {
            let (v, s1) = em_wp(env, *x, cp, prefix, st);
            match v {
                Err(y) => (Err(y), s1),
                Ok(t) => match op {
                    UnOp::Neg => (Ok("(-"@ + t + ")"@), s1),
                    _ => em_expr(env, e, Some(cp), s1),
                },
            }
        },
        ExprKind::MethodCall(recv, m, _) => {
            let (r, s1) = em_wp(env, *recv, cp, prefix, st);
            match r {
                Err(x) => (Err(x), s1),
                Ok(rt) => if wp_method(m@) {
                    (Ok(m@ + "("@ + rt + ")"@), s1)
                } else {
                    em_expr(env, e, Some(cp), s1)
                },
            }
        },
        _ => em_expr(env, e, Some(cp), st),
    }
}

/// Translates a recognised spatial operator `mc` into code that leaves its
/// result in the WGSL variable `var`.
pub open spec fn em_spatial(env: EmitEnv, mc: Expr, var: Seq<char>, st: EmitState) -> Emitted
    decreases mc, 2int,
{
    match spatial_op_of(mc) {
        None => (Ok(Seq::empty()), st),
        Some(op) => {
            proof { lemma_spatial_parts_decrease(mc); }
            let (cw, s1) = em_expr(env, op.body, Some(op.param), st);
            match cw {
                Err(x) => (Err(x), s1),
                Ok(c) => {
                    if op.kind is Gradient || op.kind is Divergence {
                        let (r, s2) = em_wp(env, op.body, op.param, "_nr_"@, s1);
                        match r {
                            Err(x) => (Err(x), s2),
                            Ok(rt) => {
                                let (l, s3) = em_wp(env, op.body, op.param, "_nl_"@, s2);
                                match l {
                                    Err(x) => (Err(x), s3),
                                    Ok(lt) => {
                                        let (t, s4) = em_wp(env, op.body, op.param, "_nt_"@, s3);
                                        match t {
                                            Err(x) => (Err(x), s4),
                                            Ok(tt) => {
                                                let (b, s5) = em_wp(env, op.body, op.param, "_nb_"@, s4);
                                                match b {
                                                    Err(x) => (Err(x), s5),
                                                    Ok(bt) => (Ok(difference_text(env, op, var, rt, lt, tt, bt)), s5),
                                                }
                                            },
                                        }
                                    },
                                }
                            },
                        }
                    } else if op.kind is SumWhere || op.kind is MeanWhere || op.kind is MinWhere || op.kind is MaxWhere {
                        match op.filter {
                            Some((fp, fb)) => {
                                let (f, s2) = em_expr(env, fb, Some(fp), s1);
                                match f {
                                    Err(x) => (Err(x), s2),
                                    Ok(fv) => (Ok(loop_op_text(env, op, var, c, Some(fv))), s2),
                                }
                            },
                            None => (Ok(loop_op_text(env, op, var, c, None)), s1),
                        }
                    } else {
                        (Ok(loop_op_text(env, op, var, c, None)), s1)
                    }
                },
            }
        },
    }
}


// ---------------------------------------------------------------------------
// Side conditions: id budget and call arities
// ---------------------------------------------------------------------------

/// The value of the last statement of a block's statements when it is an
/// expression without `;`, as used by block and `if` expressions.
pub open spec fn budget_tail(s: Seq<Stmt>) -> nat
    decreases s, 0int,
{
    if s.len() > 0 {
        match s[s.len() - 1] {
            Stmt::Expr(t, false) => budget(t),
            _ => 0,
        }
    } else {
        0
    }
}

/// An upper bound on how many spatial-operator ids translating `e` takes.
pub open spec fn budget(e: Expr) -> nat
    decreases e, 2int,
{
    match e.kind {
        ExprKind::Field(b, _) => budget(*b),
        ExprKind::Unary(_, b) => budget(*b),
        ExprKind::Paren(b) => budget(*b),
        ExprKind::Group(b) => budget(*b),
        ExprKind::Binary(a, _, b) => budget(*a) + budget(*b),
        ExprKind::MethodCall(recv, _, args) => {
            if path_ident(*recv) == Some("nb"@) {
                match spatial_op_of(e) {
                    Some(op) => {
                        proof { lemma_spatial_parts_decrease(e); }
                        1 + budget(op.body) + 4 * wbudget(op.body) + match op.filter {
                            Some((_, fb)) => budget(fb),
                            None => 0,
                        }
                    },
                    None => 0,
                }
            } else {
                budget(*recv) + budget_all(args@, 0)
            }
        },
        ExprKind::Call(_, args) => budget_all(args@, 0),
        ExprKind::If(c, b, els) => budget(*c) + budget_tail(b.stmts@) + match els {
            Some(x) => budget(*x),
            None => 0,
        },
        ExprKind::Block(b) => budget_tail(b.stmts@),
        _ => 0,
    }
}

/// An upper bound on how many ids the per-direction rewrite of `e` takes.
pub open spec fn wbudget(e: Expr) -> nat
    decreases e, 3int,
{
    match e.kind {
        ExprKind::Field(b, _) => wbudget(*b),
        ExprKind::Binary(a, _, b) => wbudget(*a) + wbudget(*b) + budget(e),
        ExprKind::Unary(_, x) => wbudget(*x) + budget(e),
        ExprKind::MethodCall(recv, _, _) => wbudget(*recv) + budget(e),
        _ => budget(e),
    }
}

pub open spec fn budget_all(s: Seq<Expr>, i: int) -> nat
    decreases s, s.len() - i,
{
    if 0 <= i < s.len() { budget(s[i]) + budget_all(s, i + 1) } else { 0 }
}

/// Ids a recognised spatial operator takes besides its own.
pub open spec fn op_budget(op: SpatialOpView) -> nat {
    budget(op.body) + 4 * wbudget(op.body) + match op.filter {
        Some((_, fb)) => budget(fb),
        None => 0,
    }
}

pub open spec fn method_arity_ok(m: Seq<char>, n: nat) -> bool {
    &&& binary_method_text(m) is Some ==> n >= 1
    &&& m == "clamp"@ ==> n >= 2
}

/// Every built-in method and function call has the arguments its translation reads.
pub open spec fn arity_ok(e: Expr) -> bool
    decreases e, 0int,
{
    match e.kind {
        ExprKind::Field(b, _) => arity_ok(*b),
        ExprKind::Unary(_, b) => arity_ok(*b),
        ExprKind::Paren(b) => arity_ok(*b),
        ExprKind::Group(b) => arity_ok(*b),
        ExprKind::Binary(a, _, b) => arity_ok(*a) && arity_ok(*b),
        ExprKind::MethodCall(recv, m, args) => {
            &&& (path_ident(*recv) == Some("nb"@) || method_arity_ok(m@, args@.len()))
            &&& arity_ok(*recv)
            &&& arity_all(args@, 0)
        },
        ExprKind::Call(f, args) => {
            &&& match f.kind {
                ExprKind::Path(p) => args@.len() >= call_arity(segments_text(p)),
                _ => true,
            }
            &&& arity_ok(*f)
            &&& arity_all(args@, 0)
        },
        ExprKind::If(c, b, els) => {
            &&& arity_ok(*c)
            &&& arity_stmts(b.stmts@, 0)
            &&& match els {
                Some(x) => arity_ok(*x),
                None => true,
            }
        },
        ExprKind::Block(b) => arity_stmts(b.stmts@, 0),
        ExprKind::Struct(fs) => arity_fields(fs@, 0),
        ExprKind::Closure(_, body, _) => arity_ok(*body),
        ExprKind::Return(Some(x), _) => arity_ok(*x),
        _ => true,
    }
}

pub open spec fn arity_all(s: Seq<Expr>, i: int) -> bool
    decreases s, s.len() - i,
{
    if 0 <= i < s.len() { arity_ok(s[i]) && arity_all(s, i + 1) } else { true }
}

pub open spec fn arity_fields(s: Seq<crate::ast::FieldValue>, i: int) -> bool
    decreases s, s.len() - i,
{
    if 0 <= i < s.len() { arity_ok(s[i].expr) && arity_fields(s, i + 1) } else { true }
}

pub open spec fn arity_stmts(s: Seq<Stmt>, i: int) -> bool
    decreases s, s.len() - i,
{
    if 0 <= i < s.len() {
        (match s[i] {
            Stmt::Local(l) => match l.init {
                Some(x) => arity_ok(x),
                None => true,
            },
            Stmt::Expr(x, _) => arity_ok(x),
            Stmt::Other => true,
        }) && arity_stmts(s, i + 1)
    } else {
        true
    }
}

} // verus!
