//! Whole WGSL shaders: the update (compute) shader, the view (fragment)
//! shader and the init (fragment) shader of a cell.
use vstd::prelude::*;
use crate::ast::{Block, ErrorView, Expr, ExprKind, MacroError, Stmt, err_at, text_result};
use crate::emit::{EmitEnv, EmitState, em_expr, arity_ok, budget, concat, swz_of, tex_of};
use crate::lower::{CellImplInfo, InfoView, ConstInfo, FieldDef, Neighborhood, compute_tile_config, emit_vertex_shader,
    field_slot, neighbor_count_fits, radius_of, texture_count_for, tile_bytes, tile_config, tile_config_fits,
    user_var, user_var_text, vertex_shader_text};
use crate::stmt::{StmtState, em_stmts, em_stmt, emit_stmt, pat_name, rbudget, stmt_arity, stmt_budget, stmts_budget};
use crate::text::{dec, push, push_dec, text};
use crate::translate::{EmitCtx, emit_expr, env_ok};

verus! {

// ---------------------------------------------------------------------------
// Shared pieces
// ---------------------------------------------------------------------------

/// The WGSL helper that `Color::hsv` translates to.
pub open spec fn hsv_text() -> Seq<char> {
    "fn hsv_to_rgb(h: f32, s: f32, v: f32) -> vec4f {\n    let hh = ((h % 1.0) + 1.0) % 1.0;\n    let c = v * s;\n    let h6 = hh * 6.0;\n    let x = c * (1.0 - abs(h6 % 2.0 - 1.0));\n    let m = v - c;\n    var rgb: vec3f;\n    if (h6 < 1.0) { rgb = vec3f(c, x, 0.0); }\n    else if (h6 < 2.0) { rgb = vec3f(x, c, 0.0); }\n    else if (h6 < 3.0) { rgb = vec3f(0.0, c, x); }\n    else if (h6 < 4.0) { rgb = vec3f(0.0, x, c); }\n    else if (h6 < 5.0) { rgb = vec3f(x, 0.0, c); }\n    else { rgb = vec3f(c, 0.0, x); }\n    return vec4f(rgb + m, 1.0);\n}\n\n"@
}

fn hsv_str() -> (r: &'static str)
    ensures
        r@ == hsv_text(),
{
    "fn hsv_to_rgb(h: f32, s: f32, v: f32) -> vec4f {\n    let hh = ((h % 1.0) + 1.0) % 1.0;\n    let c = v * s;\n    let h6 = hh * 6.0;\n    let x = c * (1.0 - abs(h6 % 2.0 - 1.0));\n    let m = v - c;\n    var rgb: vec3f;\n    if (h6 < 1.0) { rgb = vec3f(c, x, 0.0); }\n    else if (h6 < 2.0) { rgb = vec3f(x, c, 0.0); }\n    else if (h6 < 3.0) { rgb = vec3f(0.0, c, x); }\n    else if (h6 < 4.0) { rgb = vec3f(0.0, x, c); }\n    else if (h6 < 5.0) { rgb = vec3f(x, 0.0, c); }\n    else { rgb = vec3f(c, 0.0, x); }\n    return vec4f(rgb + m, 1.0);\n}\n\n"
}

/// How many `vec4f` the tunable constants take in the uniform block.
pub open spec fn param_vec4s(nc: nat) -> nat {
    ((nc + 3) / 4) as nat
}

/// The WGSL uniform block: tick, zoom, resolution, camera, viewport, and
/// the tunable constants packed four to a `vec4f`.
pub open spec fn uniforms_text(nc: nat) -> Seq<char> {
    "struct Uniforms {\n    tick: u32,\n    zoom: f32,\n    resolution: vec2f,\n    camera: vec2f,\n    viewport: vec2f,\n"@
    + (if param_vec4s(nc) > 0 { "    params: array<vec4f, "@ + dec(param_vec4s(nc)) + ">,\n"@ } else { Seq::empty() })
    + "}\n\n"@
}

/// One read binding per state texture, bindings `0..nt`.
pub open spec fn bindings_text(nt: nat) -> Seq<char> {
    concat(Seq::new(nt, |i: int| "@group(0) @binding("@ + dec(i as nat) + ") var state_tex"@ + dec(i as nat) + ": texture_2d<f32>;\n"@))
}

/// The header of the fragment shaders that read the state.
pub open spec fn shader_header_text(nc: nat, nt: nat) -> Seq<char> {
    "// --- Auto-generated by cellarium ---\n\n"@ + uniforms_text(nc) + bindings_text(nt)
    + "@group(0) @binding("@ + dec(nt) + ") var<uniform> uniforms: Uniforms;\n\n"@ + hsv_text()
}

/// The tunable constants read from the uniform block, in declaration order.
pub open spec fn param_reads_text(cs: Seq<Seq<char>>) -> Seq<char> {
    concat(Seq::new(cs.len(), |i: int|
        "    let "@ + user_var_text(cs[i]) + " = uniforms.params["@ + dec((i / 4) as nat) + "]["@ + dec((i % 4) as nat) + "];\n"@))
    + (if cs.len() > 0 { "\n"@ } else { Seq::empty() })
}

/// Storage bindings for the written textures, after the uniform binding.
pub open spec fn out_bindings_text(nt: nat) -> Seq<char> {
    concat(Seq::new(nt, |i: int|
        "@group(0) @binding("@ + dec(nt + 1 + i as nat) + ") var out_tex"@ + dec(i as nat) + ": texture_storage_2d<rgba32float, write>;\n"@))
}

/// Tile constants and workgroup arrays of the shared-memory path.
pub open spec fn shared_decls_text(nt: nat, tile: nat, radius: nat) -> Seq<char> {
    let p = tile + 2 * radius;
    "const TILE_SIZE: u32 = "@ + dec(tile) + "u;\n"@
    + "const RADIUS: u32 = "@ + dec(radius) + "u;\n"@
    + "const PADDED: u32 = "@ + dec(p) + "u;\n\n"@
    + concat(Seq::new(nt, |i: int| "var<workgroup> shared_tex"@ + dec(i as nat) + ": array<vec4f, "@ + dec(p * p) + ">;\n"@))
    + "\n"@
}

/// The header of the update compute shader.
pub open spec fn compute_header_text(nc: nat, nt: nat, tile: nat, radius: nat, shared: bool) -> Seq<char> {
    "// --- Auto-generated by cellarium (compute) ---\n\n"@ + uniforms_text(nc) + bindings_text(nt)
    + "@group(0) @binding("@ + dec(nt) + ") var<uniform> uniforms: Uniforms;\n"@
    + out_bindings_text(nt) + "\n"@
    + (if shared { shared_decls_text(nt, tile, radius) } else { Seq::empty() })
    + hsv_text()
}

/// The load of the cell's own state field `f`.
pub open spec fn self_fetch_line(env: EmitEnv, f: Seq<char>) -> Seq<char> {
    if env.compute && env.shared {
        "    let _self_"@ + f + " = shared_tex"@ + tex_of(env, f) + "[ly * PADDED + lx]."@ + swz_of(env, f) + ";"@
    } else {
        "    let _self_"@ + f + " = textureLoad(state_tex"@ + tex_of(env, f) + ", cell_coord, 0)."@ + swz_of(env, f) + ";"@
    }
}

/// Loads of the fields `fs[i..]` not yet in `fetched`, each once.
pub open spec fn self_fetch_lines(env: EmitEnv, fs: Seq<Seq<char>>, i: int, fetched: Seq<Seq<char>>) -> Seq<Seq<char>>
    decreases fs.len() - i,
{
    if 0 <= i < fs.len() {
        let f = fs[i];
        if fetched.contains(f) {
            self_fetch_lines(env, fs, i + 1, fetched)
        } else {
            seq![self_fetch_line(env, f)] + self_fetch_lines(env, fs, i + 1, fetched.push(f))
        }
    } else {
        Seq::empty()
    }
}

/// Lines, each followed by a newline.
pub open spec fn lines_text(lines: Seq<Seq<char>>) -> Seq<char> {
    concat(lines.map_values(|l: Seq<char>| l + "\n"@))
}

pub open spec fn env_of(info: InfoView, compute: bool, shared: bool) -> EmitEnv {
    EmitEnv {
        fields: info.fields,
        sizes: info.sizes,
        constants: info.constants,
        neighborhood: info.neighborhood,
        compute,
        shared,
    }
}

pub open spec fn fresh_state() -> StmtState {
    StmtState { counter: 0, body: Seq::empty(), output: Seq::empty() }
}


// ---------------------------------------------------------------------------
// Shared pieces, executable
// ---------------------------------------------------------------------------

pub(crate) fn push_uniforms(out: &mut String, nc: usize)
    requires
        nc + 3 <= usize::MAX,
    ensures
        final(out)@ == old(out)@ + uniforms_text(nc as nat),
{
    let ghost start = out@;
    push(out, "struct Uniforms {\n    tick: u32,\n    zoom: f32,\n    resolution: vec2f,\n    camera: vec2f,\n    viewport: vec2f,\n");
    let pv = (nc + 3) / 4;
    if pv > 0 {
        push(out, "    params: array<vec4f, ");
        push_dec(out, pv as u64);
        push(out, ">,\n");
    }
    push(out, "}\n\n");
    assert(out@ =~= start + uniforms_text(nc as nat));
}

fn push_bindings(out: &mut String, nt: usize)
    ensures
        final(out)@ == old(out)@ + bindings_text(nt as nat),
{
    let ghost start = out@;
    let ghost lines = Seq::new(nt as nat, |i: int| "@group(0) @binding("@ + dec(i as nat) + ") var state_tex"@ + dec(i as nat) + ": texture_2d<f32>;\n"@);
    let mut i: usize = 0;
    while i < nt
        invariant
            0 <= i <= nt,
            lines == Seq::new(nt as nat, |i: int| "@group(0) @binding("@ + dec(i as nat) + ") var state_tex"@ + dec(i as nat) + ": texture_2d<f32>;\n"@),
            out@ == start + concat(lines.take(i as int)),
        decreases nt - i,
    {
        push(out, "@group(0) @binding(");
        push_dec(out, i as u64);
        push(out, ") var state_tex");
        push_dec(out, i as u64);
        push(out, ": texture_2d<f32>;\n");
        proof { assert(lines.take(i as int + 1).drop_last() =~= lines.take(i as int)); }
        i = i + 1;
    }
    assert(lines.take(nt as int) =~= lines);
}

/// The header of the fragment shaders that read the state.
pub fn emit_shader_header(info: &CellImplInfo, num_textures: usize) -> (r: String)
    requires
        info.constants.len() + 3 <= usize::MAX,
    ensures
        r@ == shader_header_text(info.constants@.len(), num_textures as nat),
{
    let mut s = text("// --- Auto-generated by cellarium ---\n\n");
    push_uniforms(&mut s, info.constants.len());
    push_bindings(&mut s, num_textures);
    push(&mut s, "@group(0) @binding(");
    push_dec(&mut s, num_textures as u64);
    push(&mut s, ") var<uniform> uniforms: Uniforms;\n\n");
    push(&mut s, hsv_str());
    s
}

/// The reads of the tunable constants from the uniform block.
pub fn emit_param_reads(info: &CellImplInfo) -> (r: String)
    ensures
        r@ == param_reads_text(info@.constants),
{
    let cs = &info.constants;
    let n = cs.len();
    let ghost lines = Seq::new(cs@.len(), |i: int|
        "    let "@ + user_var_text(cs@[i].name@) + " = uniforms.params["@ + dec((i / 4) as nat) + "]["@ + dec((i % 4) as nat) + "];\n"@);
    let mut s = String::new();
    let mut i: usize = 0;
    while i < n
        invariant
            n == cs.len(),
            0 <= i <= n,
            lines == Seq::new(cs@.len(), |i: int|
                "    let "@ + user_var_text(cs@[i].name@) + " = uniforms.params["@ + dec((i / 4) as nat) + "]["@ + dec((i % 4) as nat) + "];\n"@),
            s@ == concat(lines.take(i as int)),
        decreases n - i,
    {
        let uv = user_var(cs[i].name.as_str());
        push(&mut s, "    let ");
        push(&mut s, uv.as_str());
        push(&mut s, " = uniforms.params[");
        push_dec(&mut s, (i / 4) as u64);
        push(&mut s, "][");
        push_dec(&mut s, (i % 4) as u64);
        push(&mut s, "];\n");
        proof { assert(lines.take(i as int + 1).drop_last() =~= lines.take(i as int)); }
        i = i + 1;
    }
    assert(lines.take(n as int) =~= lines);
    let ghost names = info@.constants;
    assert(lines =~= Seq::new(names.len(), |i: int|
        "    let "@ + user_var_text(names[i]) + " = uniforms.params["@ + dec((i / 4) as nat) + "]["@ + dec((i % 4) as nat) + "];\n"@));
    if n > 0 {
        push(&mut s, "\n");
    }
    s
}

fn push_out_bindings(out: &mut String, nt: usize)
    requires
        nt + 1 + nt <= usize::MAX,
    ensures
        final(out)@ == old(out)@ + out_bindings_text(nt as nat),
{
    let ghost start = out@;
    let ghost outs = Seq::new(nt as nat, |i: int|
        "@group(0) @binding("@ + dec(nt as nat + 1 + i as nat) + ") var out_tex"@ + dec(i as nat) + ": texture_storage_2d<rgba32float, write>;\n"@);
    let mut i: usize = 0;
    while i < nt
        invariant
            nt + 1 + nt <= usize::MAX,
            0 <= i <= nt,
            outs == Seq::new(nt as nat, |i: int|
                "@group(0) @binding("@ + dec(nt as nat + 1 + i as nat) + ") var out_tex"@ + dec(i as nat) + ": texture_storage_2d<rgba32float, write>;\n"@),
            out@ == start + concat(outs.take(i as int)),
        decreases nt - i,
    {
        push(out, "@group(0) @binding(");
        push_dec(out, (nt + 1 + i) as u64);
        push(out, ") var out_tex");
        push_dec(out, i as u64);
        push(out, ": texture_storage_2d<rgba32float, write>;\n");
        proof { assert(outs.take(i as int + 1).drop_last() =~= outs.take(i as int)); }
        i = i + 1;
    }
    assert(outs.take(nt as int) =~= outs);
}

fn push_shared_arrays(out: &mut String, nt: usize, area: u32)
    ensures
        final(out)@ == old(out)@ + concat(Seq::new(nt as nat, |i: int| "var<workgroup> shared_tex"@ + dec(i as nat) + ": array<vec4f, "@ + dec(area as nat) + ">;\n"@)),
{
    let ghost start = out@;
    let ghost decls = Seq::new(nt as nat, |i: int| "var<workgroup> shared_tex"@ + dec(i as nat) + ": array<vec4f, "@ + dec(area as nat) + ">;\n"@);
    let mut j: usize = 0;
    while j < nt
        invariant
            0 <= j <= nt,
            decls == Seq::new(nt as nat, |i: int| "var<workgroup> shared_tex"@ + dec(i as nat) + ": array<vec4f, "@ + dec(area as nat) + ">;\n"@),
            out@ == start + concat(decls.take(j as int)),
        decreases nt - j,
    {
        push(out, "var<workgroup> shared_tex");
        push_dec(out, j as u64);
        push(out, ": array<vec4f, ");
        push_dec(out, area as u64);
        push(out, ">;\n");
        proof { assert(decls.take(j as int + 1).drop_last() =~= decls.take(j as int)); }
        j = j + 1;
    }
    assert(decls.take(nt as int) =~= decls);
}

fn push_shared_decls(out: &mut String, nt: usize, tile_size: u32, radius: u32)
    requires
        tile_size + 2 * radius <= u32::MAX,
        (tile_size + 2 * radius) * (tile_size + 2 * radius) <= u32::MAX,
    ensures
        final(out)@ == old(out)@ + shared_decls_text(nt as nat, tile_size as nat, radius as nat),
{
    let ghost start = out@;
    let padded = tile_size + 2 * radius;
    push(out, "const TILE_SIZE: u32 = ");
    push_dec(out, tile_size as u64);
    push(out, "u;\n");
    push(out, "const RADIUS: u32 = ");
    push_dec(out, radius as u64);
    push(out, "u;\n");
    push(out, "const PADDED: u32 = ");
    push_dec(out, padded as u64);
    push(out, "u;\n\n");
    let area = padded * padded;
    push_shared_arrays(out, nt, area);
    push(out, "\n");
    assert(out@ =~= start + shared_decls_text(nt as nat, tile_size as nat, radius as nat));
}

/// The header of the update compute shader.
pub fn emit_compute_shader_header(info: &CellImplInfo, num_textures: usize, tile_size: u32, radius: u32, use_shared: bool) -> (r: String)
    requires
        info.constants.len() + 3 <= usize::MAX,
        num_textures + 1 + num_textures <= usize::MAX,
        use_shared ==> tile_size + 2 * radius <= u32::MAX,
        use_shared ==> (tile_size + 2 * radius) * (tile_size + 2 * radius) <= u32::MAX,
    ensures
        r@ == compute_header_text(info.constants@.len(), num_textures as nat, tile_size as nat, radius as nat, use_shared),
{
    let mut s = text("// --- Auto-generated by cellarium (compute) ---\n\n");
    push_uniforms(&mut s, info.constants.len());
    push_bindings(&mut s, num_textures);
    push(&mut s, "@group(0) @binding(");
    push_dec(&mut s, num_textures as u64);
    push(&mut s, ") var<uniform> uniforms: Uniforms;\n");
    push_out_bindings(&mut s, num_textures);
    push(&mut s, "\n");
    if use_shared {
        push_shared_decls(&mut s, num_textures, tile_size, radius);
    }
    push(&mut s, hsv_str());
    s
}

impl<'a> EmitCtx<'a> {
    /// Loads the cell's own field into the preamble once, and names its variable.
    pub fn ensure_self_field(&mut self, field_name: &str) -> (r: String)
        requires
            env_ok(old(self).env()),
        ensures
            r@ == "_self_"@ + field_name@,
            final(self).self_fields_fetched.deep_view() == if old(self).self_fields_fetched.deep_view().contains(field_name@) {
                old(self).self_fields_fetched.deep_view()
            } else {
                old(self).self_fields_fetched.deep_view().push(field_name@)
            },
            final(self).preamble.deep_view() == if old(self).self_fields_fetched.deep_view().contains(field_name@) {
                old(self).preamble.deep_view()
            } else {
                old(self).preamble.deep_view().push(self_fetch_line(old(self).env(), field_name@))
            },
            final(self).info == old(self).info,
            final(self).counter == old(self).counter,
            final(self).body == old(self).body,
            final(self).output_lines == old(self).output_lines,
            final(self).compute_mode == old(self).compute_mode,
            final(self).use_shared == old(self).use_shared,
    {
        let mut var_name = text("_self_");
        push(&mut var_name, field_name);
        let ghost fetched = self.self_fields_fetched.deep_view();
        let n = self.self_fields_fetched.len();
        let mut i: usize = 0;
        while i < n
            invariant
                n == self.self_fields_fetched.len(),
                fetched == self.self_fields_fetched.deep_view(),
                var_name@ == "_self_"@ + field_name@,
                0 <= i <= n,
                forall|j: int| 0 <= j < i ==> fetched[j] != field_name@,
            decreases n - i,
        {
            if crate::text::str_eq(self.self_fields_fetched[i].as_str(), field_name) {
                proof { assert(fetched[i as int] == field_name@); }
                return var_name;
            }
            i = i + 1;
        }
        proof {
            if fetched.contains(field_name@) {
                let k = choose|k: int| 0 <= k < fetched.len() && fetched[k] == field_name@;
                assert(fetched[k] != field_name@);
            }
        }
        self.self_fields_fetched.push(text(field_name));
        proof { assert(self.self_fields_fetched.deep_view() =~= fetched.push(field_name@)); }
        let (tex, swizzle) = crate::lower::field_texture_swizzle(&self.info.fields, field_name);
        let mut line = text("    let _self_");
        push(&mut line, field_name);
        if self.compute_mode && self.use_shared {
            push(&mut line, " = shared_tex");
            push_dec(&mut line, tex as u64);
            push(&mut line, "[ly * PADDED + lx].");
        } else {
            push(&mut line, " = textureLoad(state_tex");
            push_dec(&mut line, tex as u64);
            push(&mut line, ", cell_coord, 0).");
        }
        push(&mut line, swizzle.as_str());
        push(&mut line, ";");
        let ghost pre = self.preamble.deep_view();
        self.preamble.push(line);
        proof { assert(self.preamble.deep_view() =~= pre.push(line@)); }
        var_name
    }
}

/// Loads every state field of the cell into the preamble (each once).
pub(crate) fn fetch_all_self_fields(ctx: &mut EmitCtx)
    requires
        env_ok(old(ctx).env()),
        old(ctx).preamble@.len() == 0,
        old(ctx).self_fields_fetched@.len() == 0,
    ensures
        final(ctx).preamble.deep_view() == self_fetch_lines(old(ctx).env(), old(ctx).info@.fields, 0, Seq::empty()),
        final(ctx).info == old(ctx).info,
        final(ctx).counter == old(ctx).counter,
        final(ctx).body == old(ctx).body,
        final(ctx).output_lines == old(ctx).output_lines,
        final(ctx).compute_mode == old(ctx).compute_mode,
        final(ctx).use_shared == old(ctx).use_shared,
{
    let ghost env = ctx.env();
    let ghost fs = ctx.info@.fields;
    proof {
        assert(ctx.preamble.deep_view() =~= Seq::<Seq<char>>::empty());
        assert(ctx.self_fields_fetched.deep_view() =~= Seq::<Seq<char>>::empty());
    }
    let n = ctx.info.fields.len();
    let mut i: usize = 0;
    while i < n
        invariant
            env == ctx.env(),
            env == old(ctx).env(),
            env_ok(env),
            fs == ctx.info@.fields,
            n == fs.len(),
            0 <= i <= n,
            ctx.info == old(ctx).info,
            ctx.counter == old(ctx).counter,
            ctx.body == old(ctx).body,
            ctx.output_lines == old(ctx).output_lines,
            ctx.compute_mode == old(ctx).compute_mode,
            ctx.use_shared == old(ctx).use_shared,
            self_fetch_lines(env, fs, 0, Seq::empty())
                == ctx.preamble.deep_view() + self_fetch_lines(env, fs, i as int, ctx.self_fields_fetched.deep_view()),
        decreases n - i,
    {
        let ghost pre = ctx.preamble.deep_view();
        let ghost fetched = ctx.self_fields_fetched.deep_view();
        let info = ctx.info;
        let _ = ctx.ensure_self_field(info.fields[i].name.as_str());
        proof {
            let f = fs[i as int];
            if !fetched.contains(f) {
                assert(pre.push(self_fetch_line(env, f)) + self_fetch_lines(env, fs, i as int + 1, fetched.push(f))
                    =~= pre + (seq![self_fetch_line(env, f)] + self_fetch_lines(env, fs, i as int + 1, fetched.push(f))));
            }
        }
        i = i + 1;
    }
    assert(self_fetch_lines(env, fs, n as int, ctx.self_fields_fetched.deep_view()) =~= Seq::<Seq<char>>::empty());
    assert(ctx.preamble.deep_view() + Seq::<Seq<char>>::empty() =~= ctx.preamble.deep_view());
}

/// Appends each line followed by a newline.
pub(crate) fn push_lines(out: &mut String, lines: &Vec<String>)
    ensures
        final(out)@ == old(out)@ + lines_text(lines.deep_view()),
{
    let ghost start = out@;
    let ghost d = lines.deep_view();
    let ghost parts = d.map_values(|l: Seq<char>| l + "\n"@);
    let n = lines.len();
    let mut i: usize = 0;
    while i < n
        invariant
            n == lines.len(),
            d == lines.deep_view(),
            parts == d.map_values(|l: Seq<char>| l + "\n"@),
            0 <= i <= n,
            out@ == start + concat(parts.take(i as int)),
        decreases n - i,
    {
        push(out, lines[i].as_str());
        push(out, "\n");
        proof {
            assert(d[i as int] == lines@[i as int]@);
            assert(parts.take(i as int + 1).drop_last() =~= parts.take(i as int));
        }
        i = i + 1;
    }
    assert(parts.take(n as int) =~= parts);
}

} // verus!
