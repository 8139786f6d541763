use cellarium::ast::{BinOp, Block, Expr, ExprKind, FieldValue, Lit, Local, Member, PathExpr, Pat, Stmt, UnOp};
use cellarium::cell::{cell_impl, try_cell_impl, CellImplItem, ImplMember};
use cellarium::discover::discover_fields;
use cellarium::layout::{TypeKind, TypeRef};
use cellarium::limits::{arity_check, block_budget_check};
use cellarium::lower::{compute_tile_config, emit_vertex_shader, user_var, ConstInfo, CellImplInfo, FieldDef, Neighborhood};
use cellarium::stage::{emit_init_shader, emit_update_shader, emit_view_shader};

fn at(kind: ExprKind) -> Expr {
    Expr { kind, span: 7 }
}

fn path(segs: &[&str]) -> Expr {
    at(ExprKind::Path(PathExpr { segments: segs.iter().map(|s| s.to_string()).collect(), plain: true }))
}

fn float(t: &str) -> Expr {
    at(ExprKind::Lit(Lit::Float(t.to_string())))
}

fn field(base: Expr, name: &str) -> Expr {
    at(ExprKind::Field(Box::new(base), Member::Named(name.to_string())))
}

fn self_field(name: &str) -> Expr {
    field(path(&["self"]), name)
}

fn call(f: &[&str], args: Vec<Expr>) -> Expr {
    at(ExprKind::Call(Box::new(path(f)), args))
}

fn method(recv: Expr, m: &str, args: Vec<Expr>) -> Expr {
    at(ExprKind::MethodCall(Box::new(recv), m.to_string(), args))
}

fn binary(a: Expr, op: BinOp, b: Expr) -> Expr {
    at(ExprKind::Binary(Box::new(a), op, Box::new(b)))
}

fn struct_lit(fields: Vec<(&str, Expr)>) -> Expr {
    at(ExprKind::Struct(fields.into_iter().map(|(n, e)| FieldValue { member: Member::Named(n.to_string()), expr: e, span: 3 }).collect()))
}

fn closure(param: &str, body: Expr) -> Expr {
    at(ExprKind::Closure(vec![Pat::Ident { name: param.to_string(), mutable: false }], Box::new(body), format!("|{}| ..", param)))
}

fn tail(e: Expr) -> Block {
    Block { stmts: vec![Stmt::Expr(e, false)] }
}

fn let_stmt(name: &str, e: Expr) -> Stmt {
    Stmt::Local(Local { pat: Pat::Ident { name: name.to_string(), mutable: false }, init: Some(e), span: 5 })
}

fn info(fields: &[&str], consts: &[&str], nb: Neighborhood) -> CellImplInfo {
    CellImplInfo {
        neighborhood: nb,
        constants: consts.iter().map(|c| ConstInfo { name: c.to_string(), expr: float("0.5") }).collect(),
        fields: fields.iter().map(|f| FieldDef { name: f.to_string(), size: 1 }).collect(),
    }
}

fn state(fields: &[(&str, u32)]) -> Vec<FieldDef> {
    fields.iter().map(|(n, s)| FieldDef { name: n.to_string(), size: *s }).collect()
}

const VERTEX: &str = "@vertex\nfn vs_main(@builtin(vertex_index) vid: u32) -> @builtin(position) vec4f {\n    let x = f32(vid & 1u) * 4.0 - 1.0;\n    let y = f32((vid >> 1u) & 1u) * 4.0 - 1.0;\n    return vec4f(x, y, 0.0, 1.0);\n}\n\n";

const HSV: &str = "fn hsv_to_rgb(h: f32, s: f32, v: f32) -> vec4f {\n    let hh = ((h % 1.0) + 1.0) % 1.0;\n    let c = v * s;\n    let h6 = hh * 6.0;\n    let x = c * (1.0 - abs(h6 % 2.0 - 1.0));\n    let m = v - c;\n    var rgb: vec3f;\n    if (h6 < 1.0) { rgb = vec3f(c, x, 0.0); }\n    else if (h6 < 2.0) { rgb = vec3f(x, c, 0.0); }\n    else if (h6 < 3.0) { rgb = vec3f(0.0, c, x); }\n    else if (h6 < 4.0) { rgb = vec3f(0.0, x, c); }\n    else if (h6 < 5.0) { rgb = vec3f(x, 0.0, c); }\n    else { rgb = vec3f(c, 0.0, x); }\n    return vec4f(rgb + m, 1.0);\n}\n\n";

const UNIFORMS_ONE_PARAM: &str = "struct Uniforms {\n    tick: u32,\n    zoom: f32,\n    resolution: vec2f,\n    camera: vec2f,\n    viewport: vec2f,\n    params: array<vec4f, 1>,\n}\n\n";

#[test]
fn user_var_prefixes_names() {
    assert_eq!(user_var("speed"), "v_speed");
}

#[test]
fn neighborhood_radius_and_counts() {
    assert_eq!(Neighborhood::Moore.radius(), 1);
    assert_eq!(Neighborhood::VonNeumann.radius(), 1);
    assert_eq!(Neighborhood::Radius(3).radius(), 3);
    assert_eq!(Neighborhood::Moore.neighbor_count(), 8);
    assert_eq!(Neighborhood::VonNeumann.neighbor_count(), 4);
    assert_eq!(Neighborhood::Radius(2).neighbor_count(), 24);
    assert_eq!(Neighborhood::Moore.skip_condition(), "if (_dx == 0 && _dy == 0) { continue; }");
    assert_eq!(Neighborhood::VonNeumann.skip_condition(), "if (abs(_dx) + abs(_dy) > 1 || (_dx == 0 && _dy == 0)) { continue; }");
}

#[test]
fn tile_config_choices() {
    assert_eq!(compute_tile_config(1, 1), (16, true));
    assert_eq!(compute_tile_config(8, 1), (16, true));
    assert_eq!(compute_tile_config(9, 1), (8, true));
    assert_eq!(compute_tile_config(1, 4), (8, true));
    assert_eq!(compute_tile_config(20, 2), (16, false));
}

#[test]
fn vertex_shader_is_a_fullscreen_triangle() {
    assert_eq!(emit_vertex_shader(), VERTEX);
}

#[test]
fn init_shader_exact_text() {
    let i = info(&["a"], &["RATE"], Neighborhood::Moore);
    let block = tail(struct_lit(vec![("a", float("1.0"))]));
    let s = emit_init_shader(&i, &block).ok().unwrap();
    let expected = format!(
        "// --- Auto-generated by cellarium ---\n\n{}@group(0) @binding(0) var<uniform> uniforms: Uniforms;\n\n{}struct Output {{\n    @location(0) tex0: vec4f,\n}}\n\n@fragment\nfn fs_main(@builtin(position) frag_pos: vec4f) -> Output {{\n    let cell_coord = vec2i(frag_pos.xy);\n    let v_x = f32(cell_coord.x);\n    let v_y = f32(cell_coord.y);\n    let v_w = uniforms.resolution.x;\n    let v_h = uniforms.resolution.y;\n\n    let v_RATE = uniforms.params[0][0];\n\n        return Output(vec4f(1.0, 0.0, 0.0, 0.0));\n}}\n",
        UNIFORMS_ONE_PARAM, VERTEX);
    assert_eq!(s, expected);
}

#[test]
fn view_shader_exact_text() {
    let i = info(&["a"], &["RATE"], Neighborhood::Moore);
    let block = tail(call(&["Color", "rgb"], vec![self_field("a"), path(&["RATE"]), float("0.0")]));
    let s = emit_view_shader(&i, &block).ok().unwrap();
    let expected = format!(
        "// --- Auto-generated by cellarium ---\n\n{}@group(0) @binding(0) var state_tex0: texture_2d<f32>;\n@group(0) @binding(1) var<uniform> uniforms: Uniforms;\n\n{}{}@fragment\nfn fs_main(@builtin(position) frag_pos: vec4f) -> @location(0) vec4f {{\n    let center = uniforms.viewport * 0.5;\n    let view_pos = (frag_pos.xy - center) / uniforms.zoom + uniforms.camera;\n    let cell_coord_raw = vec2i(floor(view_pos));\n    let cell_coord = (cell_coord_raw % vec2i(uniforms.resolution) + vec2i(uniforms.resolution)) % vec2i(uniforms.resolution);\n\n    let v_RATE = uniforms.params[0][0];\n\n    let _self_a = textureLoad(state_tex0, cell_coord, 0).r;\n\n    return vec4f(_self_a, v_RATE, 0.0, 1.0);\n}}\n",
        UNIFORMS_ONE_PARAM, HSV, VERTEX);
    assert_eq!(s, expected);
}

#[test]
fn view_if_else_becomes_select() {
    let i = info(&["a"], &[], Neighborhood::Moore);
    let cond = binary(self_field("a"), BinOp::Gt, float("0.5"));
    let e = at(ExprKind::If(Box::new(cond), tail(path(&["Color", "WHITE"])), Some(Box::new(at(ExprKind::Block(tail(path(&["Color", "BLACK"]))))))));
    let s = emit_view_shader(&i, &tail(e)).ok().unwrap();
    assert!(s.contains("    return select(vec4f(0.0, 0.0, 0.0, 1.0), vec4f(1.0, 1.0, 1.0, 1.0), (_self_a > 0.5));\n}\n"));
}

#[test]
fn update_shader_exact_text() {
    let i = info(&["a"], &["RATE"], Neighborhood::Moore);
    let block = tail(struct_lit(vec![("a", self_field("a"))]));
    let s = emit_update_shader(&i, &block).ok().unwrap();
    let expected = format!(
        "// --- Auto-generated by cellarium (compute) ---\n\n{}@group(0) @binding(0) var state_tex0: texture_2d<f32>;\n@group(0) @binding(1) var<uniform> uniforms: Uniforms;\n@group(0) @binding(2) var out_tex0: texture_storage_2d<rgba32float, write>;\n\nconst TILE_SIZE: u32 = 16u;\nconst RADIUS: u32 = 1u;\nconst PADDED: u32 = 18u;\n\nvar<workgroup> shared_tex0: array<vec4f, 324>;\n\n{}@compute @workgroup_size(16, 16, 1)\nfn cs_main(\n    @builtin(global_invocation_id) global_id: vec3u,\n    @builtin(local_invocation_id) local_id: vec3u,\n    @builtin(workgroup_id) wg_id: vec3u,\n) {{\n    let cell_coord = vec2i(global_id.xy);\n    let res = vec2i(uniforms.resolution);\n\n    let tile_origin = vec2i(wg_id.xy) * vec2i(16i) - vec2i(1i);\n    let tid = local_id.y * 16u + local_id.x;\n\n    for (var i = tid; i < 324u; i += 256u) {{\n        let sy = i / 18u;\n        let sx = i % 18u;\n        let gc = (tile_origin + vec2i(i32(sx), i32(sy)) + res) % res;\n        shared_tex0[i] = textureLoad(state_tex0, gc, 0);\n    }}\n\n    workgroupBarrier();\n\n    if (global_id.x >= u32(res.x) || global_id.y >= u32(res.y)) {{\n        return;\n    }}\n\n    let lx = local_id.x + 1u;\n    let ly = local_id.y + 1u;\n\n    let v_RATE = uniforms.params[0][0];\n\n    let _self_a = shared_tex0[ly * PADDED + lx].r;\n\n        textureStore(out_tex0, cell_coord, vec4f(_self_a, 0.0, 0.0, 0.0));\n\n}}\n",
        UNIFORMS_ONE_PARAM, HSV);
    assert_eq!(s, expected);
}

#[test]
fn update_shader_without_shared_memory_for_large_radius() {
    let i = info(&["a"], &[], Neighborhood::Radius(20));
    let block = tail(struct_lit(vec![("a", self_field("a"))]));
    let s = emit_update_shader(&i, &block).ok().unwrap();
    assert!(s.contains("@compute @workgroup_size(16, 16, 1)\n"));
    assert!(!s.contains("workgroupBarrier"));
    assert!(s.contains("    let _self_a = textureLoad(state_tex0, cell_coord, 0).r;\n"));
}

#[test]
fn spatial_operator_is_hoisted_into_a_variable() {
    let i = info(&["a"], &[], Neighborhood::Moore);
    let sum = method(path(&["nb"]), "sum", vec![closure("c", field(path(&["c"]), "a"))]);
    let block = Block { stmts: vec![let_stmt("s", sum), Stmt::Expr(struct_lit(vec![("a", path(&["s"]))]), false)] };
    let s = emit_update_shader(&i, &block).ok().unwrap();
    assert!(s.contains("v_s"));
    assert!(s.contains("textureStore(out_tex0, cell_coord, vec4f(v_s, 0.0, 0.0, 0.0));"));
}

#[test]
fn unsupported_expression_is_reported() {
    let i = info(&["a"], &[], Neighborhood::Moore);
    let block = tail(at(ExprKind::Match("match x {}".to_string())));
    let e = emit_view_shader(&i, &block).err().unwrap();
    assert_eq!(e.message, "cellarium C019: 'match x {}' is not supported in cell code.");
    assert_eq!(e.span, 7);
}

#[test]
fn unrecognized_spatial_operator_is_reported() {
    let i = info(&["a"], &[], Neighborhood::Moore);
    let op = method(path(&["nb"]), "median", vec![closure("c", field(path(&["c"]), "a"))]);
    let e = emit_view_shader(&i, &tail(op)).err().unwrap();
    assert_eq!(e.message, "cellarium: unrecognized spatial operator 'median'");
}

#[test]
fn fields_are_discovered_once_in_order() {
    let block = Block { stmts: vec![
        let_stmt("x", binary(self_field("b"), BinOp::Add, self_field("a"))),
        Stmt::Expr(struct_lit(vec![("a", self_field("b")), ("c", path(&["x"]))]), false),
    ] };
    let names: Vec<String> = discover_fields(&block);
    assert_eq!(names, vec!["b".to_string(), "a".to_string(), "c".to_string()]);
}

#[test]
fn arity_and_budget_checks() {
    let missing = method(self_field("a"), "max", vec![]);
    assert!(!arity_check(&missing));
    let ok = method(self_field("a"), "max", vec![float("1.0")]);
    assert!(arity_check(&ok));
    let short_call = call(&["mix"], vec![float("1.0")]);
    assert!(!arity_check(&short_call));
    let sum = method(path(&["nb"]), "sum", vec![closure("c", field(path(&["c"]), "a"))]);
    assert!(block_budget_check(&Block { stmts: vec![let_stmt("s", sum)] }));
}

fn game_item(update: Block, view: Block, init: Option<Block>) -> CellImplItem {
    state_item(&[("a", 1)], update, view, init)
}

fn state_item(fields: &[(&str, u32)], update: Block, view: Block, init: Option<Block>) -> CellImplItem {
    let mut items = vec![
        ImplMember::Const { name: "RATE".to_string(), expr: float("0.5") },
        ImplMember::Fn { name: "update".to_string(), span: 11, body: update },
        ImplMember::Fn { name: "view".to_string(), span: 12, body: view },
    ];
    if let Some(b) = init {
        items.push(ImplMember::Fn { name: "init".to_string(), span: 13, body: b });
    }
    CellImplItem { self_ty: TypeRef { kind: TypeKind::Path(vec!["Blink".to_string()]), span: 2 }, items, state: state(fields) }
}

#[test]
fn cell_impl_generates_all_shaders() {
    let update = tail(struct_lit(vec![("a", self_field("a"))]));
    let view = tail(call(&["Color", "rgb"], vec![self_field("a"), path(&["RATE"]), float("0.0")]));
    let init = tail(struct_lit(vec![("a", float("1.0"))]));
    let out = cell_impl("neighborhood = moore", 0, game_item(update, view, Some(init))).ok().unwrap();
    assert_eq!(out.struct_name, "Blink");
    assert!(out.has_init);
    assert_eq!(out.param_names, vec!["RATE".to_string()]);
    assert_eq!(out.tile_size, 16);
    assert!(out.update_shader.starts_with("// --- Auto-generated by cellarium (compute) ---"));
    assert!(out.view_shader.contains("return vec4f(_self_a, v_RATE, 0.0, 1.0);"));
    assert!(out.init_shader.contains("return Output(vec4f(1.0, 0.0, 0.0, 0.0));"));
}

#[test]
fn cell_impl_without_init_has_empty_init_shader() {
    let update = tail(struct_lit(vec![("a", self_field("a"))]));
    let view = tail(path(&["Color", "WHITE"]));
    let out = cell_impl("", 0, game_item(update, view, None)).ok().unwrap();
    assert!(!out.has_init);
    assert_eq!(out.init_shader, "");
}

#[test]
fn cell_impl_reports_missing_methods_and_unknown_ones() {
    let item = CellImplItem {
        self_ty: TypeRef { kind: TypeKind::Path(vec!["Blink".to_string()]), span: 2 },
        items: vec![ImplMember::Fn { name: "view".to_string(), span: 12, body: tail(path(&["Color", "WHITE"])) }],
        state: state(&[("a", 1)]),
    };
    let e = cell_impl("", 0, item).err().unwrap();
    assert_eq!(e.message, "cellarium: missing required method `update`");
    assert_eq!(e.span, 2);

    let item = CellImplItem {
        self_ty: TypeRef { kind: TypeKind::Path(vec!["Blink".to_string()]), span: 2 },
        items: vec![ImplMember::Fn { name: "step".to_string(), span: 14, body: tail(path(&["x"])) }],
        state: state(&[("a", 1)]),
    };
    let e = cell_impl("", 0, item).err().unwrap();
    assert_eq!(e.message, "cellarium C015: 'step' is not a recognized method. Expected update, view, or init.");
    assert_eq!(e.span, 14);

    let update = tail(struct_lit(vec![("a", self_field("a"))]));
    let item = CellImplItem {
        self_ty: TypeRef { kind: TypeKind::Path(vec!["Blink".to_string()]), span: 2 },
        items: vec![ImplMember::Fn { name: "update".to_string(), span: 11, body: update }],
        state: state(&[("a", 1)]),
    };
    let e = cell_impl("", 0, item).err().unwrap();
    assert_eq!(e.message, "cellarium: missing required method `view`");
}

#[test]
fn cell_impl_checks_method_bodies() {
    let bad = Block { stmts: vec![Stmt::Local(Local { pat: Pat::Ident { name: "x".to_string(), mutable: true }, init: Some(float("1.0")), span: 9 })] };
    let view = tail(path(&["Color", "WHITE"]));
    let e = cell_impl("", 0, game_item(bad, view, None)).err().unwrap();
    assert_eq!(e.message, "cellarium C006: let mut is not supported. All bindings are immutable in cell code.");
    assert_eq!(e.span, 9);
}

#[test]
fn cell_impl_reports_attribute_errors_first() {
    let update = tail(struct_lit(vec![("a", self_field("a"))]));
    let view = tail(path(&["Color", "WHITE"]));
    let e = cell_impl("neighborhood = hex", 99, game_item(update, view, None)).err().unwrap();
    assert_eq!(e.message, "cellarium: unknown neighborhood 'hex'. Expected moore, von_neumann, or radius(N).");
    assert_eq!(e.span, 99);
}

#[test]
fn try_cell_impl_refuses_missing_arguments() {
    let update = tail(struct_lit(vec![("a", method(self_field("a"), "max", vec![]))]));
    let view = tail(path(&["Color", "WHITE"]));
    assert!(try_cell_impl("", 0, game_item(update, view, None)).is_none());
    let update = tail(struct_lit(vec![("a", self_field("a"))]));
    let view = tail(path(&["Color", "WHITE"]));
    assert!(try_cell_impl("", 0, game_item(update, view, None)).unwrap().is_ok());
}

#[test]
fn fields_follow_the_state_layout() {
    // a: f32 -> tex0.r, b: Vec2 -> tex0.gb, c: f32 -> tex0.a, d: Vec3 -> tex1.rgb
    let fields = [("a", 1), ("b", 2), ("c", 1), ("d", 3)];
    let update = tail(struct_lit(vec![
        ("d", self_field("d")), ("c", self_field("c")), ("b", self_field("b")), ("a", self_field("a")),
    ]));
    let view = tail(path(&["Color", "WHITE"]));
    let init = tail(struct_lit(vec![
        ("b", call(&["vec2"], vec![float("1.0"), float("2.0")])), ("a", float("3.0")),
        ("c", float("4.0")), ("d", call(&["vec3"], vec![float("5.0"), float("6.0"), float("7.0")])),
    ]));
    let out = cell_impl("", 0, state_item(&fields, update, view, Some(init))).ok().unwrap();
    assert!(out.update_shader.contains("    let _self_a = shared_tex0[ly * PADDED + lx].r;
"));
    assert!(out.update_shader.contains("    let _self_b = shared_tex0[ly * PADDED + lx].gb;
"));
    assert!(out.update_shader.contains("    let _self_c = shared_tex0[ly * PADDED + lx].a;
"));
    assert!(out.update_shader.contains("    let _self_d = shared_tex1[ly * PADDED + lx].rgb;
"));
    assert!(out.update_shader.contains("        textureStore(out_tex0, cell_coord, vec4f(_self_a, _self_b, _self_c));
"));
    assert!(out.update_shader.contains("        textureStore(out_tex1, cell_coord, vec4f(_self_d, 0.0));
"));
    assert!(out.init_shader.contains("return Output(vec4f(3.0, vec2f(1.0, 2.0), 4.0), vec4f(vec3f(5.0, 6.0, 7.0), 0.0));"));
}

#[test]
fn returned_state_must_assign_every_field() {
    let update = tail(struct_lit(vec![("a", float("1.0"))]));
    let view = tail(path(&["Color", "WHITE"]));
    let e = cell_impl("", 0, state_item(&[("a", 1), ("b", 1)], update, view, None)).err().unwrap();
    assert_eq!(e.message, "cellarium C003: Missing field 'b' in return struct. All state fields must be assigned.");
    assert_eq!(e.span, 7);
}

#[test]
fn returned_state_has_no_extra_fields() {
    let update = tail(struct_lit(vec![("a", float("1.0")), ("z", float("2.0"))]));
    let view = tail(path(&["Color", "WHITE"]));
    let e = cell_impl("", 0, state_item(&[("a", 1)], update, view, None)).err().unwrap();
    assert_eq!(e.message, "cellarium C004: Extra field 'z' in return struct.");
    assert_eq!(e.span, 3);
}

#[test]
fn unknown_state_field_is_reported() {
    let update = tail(struct_lit(vec![("a", self_field("a"))]));
    let view = tail(call(&["Color", "rgb"], vec![self_field("q"), float("0.0"), float("0.0")]));
    let e = cell_impl("", 0, state_item(&[("a", 1)], update, view, None)).err().unwrap();
    assert_eq!(e.message, "cellarium C017: 'q' is not a field of Blink.");

    let sum = method(path(&["nb"]), "sum", vec![closure("n", field(path(&["n"]), "w"))]);
    let update = Block { stmts: vec![let_stmt("s", sum), Stmt::Expr(struct_lit(vec![("a", path(&["s"]))]), false)] };
    let view = tail(path(&["Color", "WHITE"]));
    let e = cell_impl("", 0, state_item(&[("a", 1)], update, view, None)).err().unwrap();
    assert_eq!(e.message, "cellarium C017: 'w' is not a field of Blink.");
}

#[test]
fn typed_let_mut_is_refused() {
    let pat = Pat::Typed(Box::new(Pat::Ident { name: "x".to_string(), mutable: true }));
    let bad = Block { stmts: vec![Stmt::Local(Local { pat, init: Some(float("1.0")), span: 9 })] };
    let view = tail(path(&["Color", "WHITE"]));
    let e = cell_impl("", 0, game_item(bad, view, None)).err().unwrap();
    assert_eq!(e.message, "cellarium C006: let mut is not supported. All bindings are immutable in cell code.");
    assert_eq!(e.span, 9);
}

#[test]
fn unary_negation_and_not() {
    let i = info(&["a"], &[], Neighborhood::Moore);
    let e = at(ExprKind::Unary(UnOp::Neg, Box::new(self_field("a"))));
    let s = emit_view_shader(&i, &tail(e)).ok().unwrap();
    assert!(s.contains("    return (-_self_a);\n"));
}

fn early_return(cond: Expr, value: Expr) -> Stmt {
    let ret = at(ExprKind::Return(Some(Box::new(value)), "return ..".to_string()));
    Stmt::Expr(at(ExprKind::If(Box::new(cond), Block { stmts: vec![Stmt::Expr(ret, true)] }, None)), false)
}

#[test]
fn early_return_in_update_returns_from_the_shader() {
    let i = info(&["a"], &[], Neighborhood::Moore);
    let block = Block { stmts: vec![
        early_return(binary(self_field("a"), BinOp::Gt, float("0.5")), struct_lit(vec![("a", float("0.0"))])),
        Stmt::Expr(struct_lit(vec![("a", self_field("a"))]), false),
    ] };
    let s = emit_update_shader(&i, &block).ok().unwrap();
    assert!(s.contains("        if ((_self_a > 0.5)) {\n        textureStore(out_tex0, cell_coord, vec4f(0.0, 0.0, 0.0, 0.0));\n            return;\n        }\n        textureStore(out_tex0, cell_coord, vec4f(_self_a, 0.0, 0.0, 0.0));\n\n}\n"));
}

#[test]
fn early_return_in_view() {
    let i = info(&["a"], &[], Neighborhood::Moore);
    let block = Block { stmts: vec![
        early_return(binary(self_field("a"), BinOp::Gt, float("0.5")), path(&["Color", "WHITE"])),
        Stmt::Expr(path(&["Color", "BLACK"]), false),
    ] };
    let s = emit_view_shader(&i, &block).ok().unwrap();
    assert!(s.ends_with("    if ((_self_a > 0.5)) {\n        return vec4f(1.0, 1.0, 1.0, 1.0);\n    }\n    return vec4f(0.0, 0.0, 0.0, 1.0);\n}\n"));
}

#[test]
fn if_else_returning_structs() {
    let i = info(&["a"], &[], Neighborhood::Moore);
    let cond = binary(path(&["x"]), BinOp::Gt, float("1.0"));
    let e = at(ExprKind::If(Box::new(cond), tail(struct_lit(vec![("a", float("1.0"))])),
        Some(Box::new(at(ExprKind::Block(tail(struct_lit(vec![("a", float("0.0"))]))))))));
    let s = emit_init_shader(&i, &tail(e)).ok().unwrap();
    assert!(s.ends_with("        // if/else return\n        if ((v_x > 1.0)) {\n            return Output(vec4f(1.0, 0.0, 0.0, 0.0));\n        } else {\n            return Output(vec4f(0.0, 0.0, 0.0, 0.0));\n        }\n}\n"));
}

#[test]
fn vector_closures_accumulate_vectors() {
    let mean = method(path(&["nb"]), "mean", vec![closure("c", field(path(&["c"]), "v"))]);
    let update = Block { stmts: vec![let_stmt("m", mean), Stmt::Expr(struct_lit(vec![("v", path(&["m"])), ("h", self_field("h"))]), false)] };
    let view = tail(path(&["Color", "WHITE"]));
    let out = cell_impl("", 0, state_item(&[("v", 2), ("h", 1)], update, view, None)).ok().unwrap();
    assert!(out.update_shader.contains("_acc: vec2f = vec2f(0.0);\n"));
    assert!(out.update_shader.contains(" / 8.0;\n"));

    let count = method(path(&["nb"]), "count", vec![closure("c", binary(field(path(&["c"]), "h"), BinOp::Gt, float("0.5")))]);
    let update = Block { stmts: vec![let_stmt("k", count), Stmt::Expr(struct_lit(vec![("v", self_field("v")), ("h", path(&["k"]))]), false)] };
    let view = tail(path(&["Color", "WHITE"]));
    let out = cell_impl("", 0, state_item(&[("v", 2), ("h", 1)], update, view, None)).ok().unwrap();
    assert!(out.update_shader.contains("_acc: f32 = 0.0;\n"));
}

#[test]
fn filtered_mean_of_vectors_defaults_to_the_zero_vector() {
    let op = method(path(&["nb"]), "mean_where", vec![
        closure("c", binary(field(path(&["c"]), "v"), BinOp::Mul, float("2.0"))),
        closure("c", binary(field(path(&["c"]), "h"), BinOp::Gt, float("0.5"))),
    ]);
    let update = Block { stmts: vec![let_stmt("m", op), Stmt::Expr(struct_lit(vec![("v", path(&["m"])), ("h", self_field("h"))]), false)] };
    let view = tail(path(&["Color", "WHITE"]));
    let out = cell_impl("", 0, state_item(&[("h", 1), ("v", 3)], update, view, None)).ok().unwrap();
    assert!(out.update_shader.contains("_acc: vec3f = vec3f(0.0);\n"));
    assert!(out.update_shader.contains("_cnt: f32 = 0.0;\n"));
    assert!(out.update_shader.contains(", vec3f(0.0), "));
    assert!(out.update_shader.contains("textureStore(out_tex0, cell_coord, vec4f(_self_h, v_m));"));
}

#[test]
fn comparing_vectors_is_refused() {
    let cond = binary(self_field("v"), BinOp::Gt, float("0.5"));
    let e = at(ExprKind::If(Box::new(cond), tail(path(&["Color", "WHITE"])), Some(Box::new(at(ExprKind::Block(tail(path(&["Color", "BLACK"]))))))));
    let update = tail(struct_lit(vec![("v", self_field("v"))]));
    let err = cell_impl("", 0, state_item(&[("v", 2)], update, tail(e), None)).err().unwrap();
    assert_eq!(err.message, "cellarium C014: Cannot compare Vec2 values. Use .length() for vector magnitude comparison.");

    let cond = binary(method(self_field("v"), "length", vec![]), BinOp::Gt, float("0.5"));
    let e = at(ExprKind::If(Box::new(cond), tail(path(&["Color", "WHITE"])), Some(Box::new(at(ExprKind::Block(tail(path(&["Color", "BLACK"]))))))));
    let update = tail(struct_lit(vec![("v", self_field("v"))]));
    assert!(cell_impl("", 0, state_item(&[("v", 2)], update, tail(e), None)).is_ok());
}

#[test]
fn returned_field_of_the_wrong_type_is_reported() {
    let update = tail(struct_lit(vec![("v", float("1.0"))]));
    let view = tail(path(&["Color", "WHITE"]));
    let e = cell_impl("", 0, state_item(&[("v", 2)], update, view, None)).err().unwrap();
    assert_eq!(e.message, "cellarium C005: Type mismatch for field 'v': expected Vec2, got f32.");
    assert_eq!(e.span, 3);

    let update = tail(struct_lit(vec![("v", binary(self_field("v"), BinOp::Mul, float("0.5")))]));
    let view = tail(path(&["Color", "WHITE"]));
    assert!(cell_impl("", 0, state_item(&[("v", 2)], update, view, None)).is_ok());
}

#[test]
fn if_branches_of_different_types_are_reported() {
    let cond = binary(self_field("a"), BinOp::Gt, float("0.5"));
    let e = at(ExprKind::If(Box::new(cond), tail(call(&["vec2"], vec![float("1.0"), float("0.0")])),
        Some(Box::new(at(ExprKind::Block(tail(float("0.0"))))))));
    let update = Block { stmts: vec![let_stmt("x", e), Stmt::Expr(struct_lit(vec![("a", self_field("a"))]), false)] };
    let view = tail(path(&["Color", "WHITE"]));
    let err = cell_impl("", 0, state_item(&[("a", 1)], update, view, None)).err().unwrap();
    assert_eq!(err.message, "cellarium C013: if branches have different types: Vec2 vs f32.");
}

#[test]
fn local_bindings_carry_their_types() {
    let update = Block { stmts: vec![
        let_stmt("m", call(&["vec2"], vec![float("1.0"), float("2.0")])),
        Stmt::Expr(struct_lit(vec![("a", path(&["m"]))]), false),
    ] };
    let view = tail(path(&["Color", "WHITE"]));
    let e = cell_impl("", 0, state_item(&[("a", 1)], update, view, None)).err().unwrap();
    assert_eq!(e.message, "cellarium C005: Type mismatch for field 'a': expected f32, got Vec2.");

    let cond = binary(path(&["d"]), BinOp::Lt, float("0.5"));
    let view = Block { stmts: vec![
        let_stmt("d", self_field("v")),
        Stmt::Expr(at(ExprKind::If(Box::new(cond), tail(path(&["Color", "WHITE"])),
            Some(Box::new(at(ExprKind::Block(tail(path(&["Color", "BLACK"])))))))), false),
    ] };
    let update = tail(struct_lit(vec![("v", self_field("v"))]));
    let e = cell_impl("", 0, state_item(&[("v", 2)], update, view, None)).err().unwrap();
    assert_eq!(e.message, "cellarium C014: Cannot compare Vec2 values. Use .length() for vector magnitude comparison.");
}
