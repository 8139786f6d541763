use cellarium::ast::{Block, Expr, ExprKind, Lit, Local, Member, PathExpr, Pat, Stmt};
use cellarium::check::validate_method_body;
use cellarium::layout::{default_writes, derive_cell_state_impl, type_size, StateData, StateField, StateInput, TypeKind, TypeRef};
use cellarium::lower::Neighborhood;
use cellarium::parse::{extract_self_type_name, parse_neighborhood, parse_u32, remove_spaces, trim};

fn ty(segs: &[&str]) -> TypeRef {
    TypeRef { kind: TypeKind::Path(segs.iter().map(|s| s.to_string()).collect()), span: 4 }
}

fn state(fields: &[(&str, &str)]) -> StateInput {
    StateInput {
        name: "Example".to_string(),
        span: 1,
        data: StateData::Named(fields.iter().map(|(n, t)| StateField { name: n.to_string(), ty: ty(&[t]) }).collect()),
    }
}

fn at(kind: ExprKind) -> Expr {
    Expr { kind, span: 6 }
}

fn path(segs: &[&str]) -> Expr {
    at(ExprKind::Path(PathExpr { segments: segs.iter().map(|s| s.to_string()).collect(), plain: true }))
}

fn body(e: Expr) -> Block {
    Block { stmts: vec![Stmt::Expr(e, false)] }
}

#[test]
fn type_sizes() {
    assert_eq!(type_size(&ty(&["f32"])).ok(), Some(1));
    assert_eq!(type_size(&ty(&["cellarium", "Vec2"])).ok(), Some(2));
    assert_eq!(type_size(&ty(&["Vec3"])).ok(), Some(3));
    assert_eq!(type_size(&ty(&["Vec4"])).ok(), Some(4));
    let e = type_size(&ty(&["String"])).err().unwrap();
    assert_eq!(e.message, "cellarium C001: 'String' is not a GPU-compatible type. State fields must be f32, Vec2, Vec3, or Vec4.");
    assert_eq!(e.span, 4);
    let e = type_size(&TypeRef { kind: TypeKind::Other("& str".to_string()), span: 4 }).err().unwrap();
    assert_eq!(e.message, "cellarium C001: '& str' is not a GPU-compatible type. State fields must be f32, Vec2, Vec3, or Vec4.");
    let e = type_size(&ty(&[])).err().unwrap();
    assert_eq!(e.message, "cellarium C001: empty type path");
}

#[test]
fn packing_example_of_the_documentation() {
    let l = derive_cell_state_impl(&state(&[("a", "f32"), ("b", "Vec2"), ("c", "f32"), ("d", "Vec3"), ("e", "f32")])).ok().unwrap();
    assert_eq!(l.texture_count, 2);
    let got: Vec<(String, u32, u32, u32)> = l.fields.into_iter().map(|f| (f.name, f.texture, f.offset, f.size)).collect();
    assert_eq!(got, vec![
        ("a".to_string(), 0, 0, 1),
        ("b".to_string(), 0, 1, 2),
        ("c".to_string(), 0, 3, 1),
        ("d".to_string(), 1, 0, 3),
        ("e".to_string(), 1, 3, 1),
    ]);
}

#[test]
fn two_floats_share_one_texture() {
    let l = derive_cell_state_impl(&state(&[("a", "f32"), ("b", "f32")])).ok().unwrap();
    assert_eq!(l.texture_count, 1);
    assert_eq!((l.fields[1].texture, l.fields[1].offset), (0, 1));
}

#[test]
fn empty_struct_has_no_texture() {
    let l = derive_cell_state_impl(&state(&[])).ok().unwrap();
    assert_eq!(l.texture_count, 0);
    assert!(l.fields.is_empty());
}

#[test]
fn too_many_floats_is_c002() {
    let fields: Vec<(&str, &str)> = vec![("a", "Vec4"); 9];
    let e = derive_cell_state_impl(&state(&fields)).err().unwrap();
    assert_eq!(e.message, "cellarium C002: State exceeds maximum of 32 floats (36 declared). Reduce the number of state fields.");
    assert_eq!(e.span, 1);
}

#[test]
fn thirty_two_floats_fill_eight_textures() {
    let fields: Vec<(&str, &str)> = vec![("a", "Vec4"); 8];
    let l = derive_cell_state_impl(&state(&fields)).ok().unwrap();
    assert_eq!(l.texture_count, 8);
}

#[test]
fn too_many_textures_is_refused() {
    let fields: Vec<(&str, &str)> = vec![("a", "Vec3"), ("b", "Vec2"), ("c", "Vec3"), ("d", "Vec2"), ("e", "Vec3"), ("f", "Vec2"),
        ("g", "Vec3"), ("h", "Vec2"), ("i", "Vec3")];
    let e = derive_cell_state_impl(&state(&fields)).err().unwrap();
    assert_eq!(e.message, "cellarium C002: State needs 9 textures after packing; the maximum is 8. Reorder the state fields so that they pack more tightly.");
}

#[test]
fn first_bad_field_type_is_reported() {
    let e = derive_cell_state_impl(&state(&[("a", "f32"), ("b", "u8"), ("c", "bool")])).err().unwrap();
    assert_eq!(e.message, "cellarium C001: 'u8' is not a GPU-compatible type. State fields must be f32, Vec2, Vec3, or Vec4.");
}

#[test]
fn derive_needs_a_struct_with_named_fields() {
    let e = derive_cell_state_impl(&StateInput { name: "T".to_string(), span: 3, data: StateData::Unnamed }).err().unwrap();
    assert_eq!(e.message, "cellarium: CellState requires named fields");
    let e = derive_cell_state_impl(&StateInput { name: "E".to_string(), span: 3, data: StateData::NotStruct }).err().unwrap();
    assert_eq!(e.message, "cellarium: CellState can only be derived on structs");
    assert_eq!(e.span, 3);
}

#[test]
fn neighborhood_attribute() {
    assert!(matches!(parse_neighborhood("", 0), Ok(Neighborhood::Moore)));
    assert!(matches!(parse_neighborhood("   ", 0), Ok(Neighborhood::Moore)));
    assert!(matches!(parse_neighborhood("neighborhood = moore", 0), Ok(Neighborhood::Moore)));
    assert!(matches!(parse_neighborhood("neighborhood = von_neumann", 0), Ok(Neighborhood::VonNeumann)));
    assert!(matches!(parse_neighborhood("neighborhood = radius(3)", 0), Ok(Neighborhood::Radius(3))));
    assert!(matches!(parse_neighborhood(" neighborhood = radius ( 12 ) ", 0), Ok(Neighborhood::Radius(12))));
    assert!(matches!(parse_neighborhood("neighborhood = radius(+5)", 0), Ok(Neighborhood::Radius(5))));
}

#[test]
fn neighborhood_attribute_errors() {
    let e = parse_neighborhood("neighborhood = radius(x)", 8).err().unwrap();
    assert_eq!(e.message, "cellarium: invalid radius 'x'. Expected a positive integer.");
    assert_eq!(e.span, 8);
    let e = parse_neighborhood("neighborhood = radius()", 8).err().unwrap();
    assert_eq!(e.message, "cellarium: invalid radius ''. Expected a positive integer.");
    let e = parse_neighborhood("neighborhood = radius(4294967296)", 8).err().unwrap();
    assert_eq!(e.message, "cellarium: invalid radius '4294967296'. Expected a positive integer.");
    let e = parse_neighborhood("neighborhood = hex", 8).err().unwrap();
    assert_eq!(e.message, "cellarium: unknown neighborhood 'hex'. Expected moore, von_neumann, or radius(N).");
    let e = parse_neighborhood("shape = square", 8).err().unwrap();
    assert_eq!(e.message, "cellarium: unknown attribute parameter 'shape=square'. Expected 'neighborhood = ...'.");
}

#[test]
fn text_helpers() {
    assert_eq!(trim("\t a b \n"), "a b");
    assert_eq!(remove_spaces("a b  c"), "abc");
    assert_eq!(parse_u32("42"), Some(42));
    assert_eq!(parse_u32("+7"), Some(7));
    assert_eq!(parse_u32("007"), Some(7));
    assert_eq!(parse_u32("4294967295"), Some(4294967295));
    assert_eq!(parse_u32("4294967296"), None);
    assert_eq!(parse_u32("-1"), None);
    assert_eq!(parse_u32("+"), None);
    assert_eq!(parse_u32(""), None);
    assert_eq!(parse_u32("1a"), None);
}

#[test]
fn self_type_name() {
    assert_eq!(extract_self_type_name(&ty(&["crate", "cells", "Life"])).ok().unwrap(), "Life");
    let e = extract_self_type_name(&TypeRef { kind: TypeKind::Other("(A, B)".to_string()), span: 5 }).err().unwrap();
    assert_eq!(e.message, "cellarium: expected a named type");
    let e = extract_self_type_name(&ty(&[])).err().unwrap();
    assert_eq!(e.message, "cellarium: cannot determine struct name");
}

fn rejected(kind: ExprKind, nb: Neighborhood) -> String {
    validate_method_body(&body(at(kind)), "update", &nb).err().unwrap().message
}

#[test]
fn rules_of_cell_code() {
    assert_eq!(rejected(ExprKind::Assign("x = 1.0".to_string()), Neighborhood::Moore),
        "cellarium C006: reassignment is not supported. All bindings are immutable in cell code.");
    assert_eq!(rejected(ExprKind::ForLoop("for ..".to_string()), Neighborhood::Moore),
        "cellarium C007: Unbounded loops are not GPU-compatible. Use spatial operators for neighbor iteration.");
    assert_eq!(rejected(ExprKind::While("while ..".to_string()), Neighborhood::Moore),
        "cellarium C007: Unbounded loops are not GPU-compatible. Use spatial operators for neighbor iteration.");
    assert_eq!(rejected(ExprKind::Loop("loop ..".to_string()), Neighborhood::Moore),
        "cellarium C007: Unbounded loops are not GPU-compatible. Use spatial operators for neighbor iteration.");
    assert_eq!(rejected(ExprKind::Match("match ..".to_string()), Neighborhood::Moore),
        "cellarium C008: match is not supported in cell code. Use if/else chains.");
    assert_eq!(rejected(ExprKind::Reference("&x".to_string()), Neighborhood::Moore),
        "cellarium C016: References and borrowing are not used in cell code.");
    assert_eq!(rejected(ExprKind::Unsafe("unsafe {}".to_string()), Neighborhood::Moore),
        "cellarium C019: 'unsafe' is not supported in cell code.");
}

#[test]
fn let_mut_is_c006() {
    let b = Block { stmts: vec![Stmt::Local(Local { pat: Pat::Ident { name: "x".to_string(), mutable: true }, init: None, span: 2 })] };
    let e = validate_method_body(&b, "view", &Neighborhood::Moore).err().unwrap();
    assert_eq!(e.message, "cellarium C006: let mut is not supported. All bindings are immutable in cell code.");
    assert_eq!(e.span, 2);
}

#[test]
fn gradient_needs_more_than_von_neumann() {
    let closure = at(ExprKind::Closure(vec![Pat::Ident { name: "c".to_string(), mutable: false }],
        Box::new(at(ExprKind::Field(Box::new(path(&["c"])), Member::Named("a".to_string())))), "|c| c.a".to_string()));
    let grad = at(ExprKind::MethodCall(Box::new(path(&["nb"])), "gradient".to_string(), vec![closure]));
    let b = body(grad);
    let e = validate_method_body(&b, "update", &Neighborhood::VonNeumann).err().unwrap();
    assert_eq!(e.message, "cellarium C012: gradient/divergence requires moore or radius(N) neighborhood.");
    assert!(validate_method_body(&b, "update", &Neighborhood::Moore).is_ok());
    assert!(validate_method_body(&b, "update", &Neighborhood::Radius(2)).is_ok());
}

#[test]
fn rules_reach_into_closures_and_branches() {
    let bad = at(ExprKind::Loop("loop {}".to_string()));
    let closure = at(ExprKind::Closure(vec![Pat::Ident { name: "c".to_string(), mutable: false }], Box::new(bad), "|c| loop {}".to_string()));
    let op = at(ExprKind::MethodCall(Box::new(path(&["nb"])), "sum".to_string(), vec![closure]));
    let e = validate_method_body(&body(op), "update", &Neighborhood::Moore).err().unwrap();
    assert!(e.message.starts_with("cellarium C007"));
    let cond = at(ExprKind::Lit(Lit::Bool(true)));
    let inner = Block { stmts: vec![Stmt::Expr(at(ExprKind::Reference("&y".to_string())), true)] };
    let e = validate_method_body(&body(at(ExprKind::If(Box::new(cond), inner, None))), "update", &Neighborhood::Moore).err().unwrap();
    assert!(e.message.starts_with("cellarium C016"));
    // struct literals and fields are not searched
    assert!(validate_method_body(&body(at(ExprKind::Struct(vec![]))), "update", &Neighborhood::Moore).is_ok());
}

fn neighbour_sum() -> Expr {
    let closure = at(ExprKind::Closure(vec![Pat::Ident { name: "c".to_string(), mutable: false }],
        Box::new(at(ExprKind::Field(Box::new(path(&["c"])), Member::Named("a".to_string())))), "|c| c.a".to_string()));
    at(ExprKind::MethodCall(Box::new(path(&["nb"])), "sum".to_string(), vec![closure]))
}

#[test]
fn closures_only_in_spatial_operators() {
    assert!(validate_method_body(&body(neighbour_sum()), "update", &Neighborhood::Moore).is_ok());
    let closure = at(ExprKind::Closure(vec![], Box::new(path(&["x"])), "|| x".to_string()));
    let e = validate_method_body(&body(closure), "update", &Neighborhood::Moore).err().unwrap();
    assert_eq!(e.message, "cellarium C010: Closures are only valid as arguments to Neighbors methods.");
    let nested = at(ExprKind::Closure(vec![], Box::new(path(&["x"])), "|| x".to_string()));
    let call = at(ExprKind::MethodCall(Box::new(path(&["v"])), "max".to_string(), vec![nested]));
    let e = validate_method_body(&body(call), "update", &Neighborhood::Moore).err().unwrap();
    assert!(e.message.starts_with("cellarium C010"));
}

#[test]
fn neighbors_only_in_update() {
    let e = validate_method_body(&body(neighbour_sum()), "view", &Neighborhood::Moore).err().unwrap();
    assert_eq!(e.message, "cellarium C011: Neighbors is only available in the update method.");
    let e = validate_method_body(&body(neighbour_sum()), "init", &Neighborhood::Moore).err().unwrap();
    assert!(e.message.starts_with("cellarium C011"));
}

#[test]
fn accessors_only_in_neighbour_closures() {
    let outside = at(ExprKind::MethodCall(Box::new(path(&["c"])), "offset".to_string(), vec![]));
    let e = validate_method_body(&body(outside), "update", &Neighborhood::Moore).err().unwrap();
    assert_eq!(e.message, "cellarium C018: Spatial accessor c.offset()/c.direction()/c.distance() used outside a neighbor closure.");
    let inside_body = at(ExprKind::MethodCall(Box::new(path(&["c"])), "distance".to_string(), vec![]));
    let closure = at(ExprKind::Closure(vec![Pat::Ident { name: "c".to_string(), mutable: false }], Box::new(inside_body), "|c| c.distance()".to_string()));
    let op = at(ExprKind::MethodCall(Box::new(path(&["nb"])), "sum".to_string(), vec![closure]));
    assert!(validate_method_body(&body(op), "update", &Neighborhood::Moore).is_ok());
    // the distance between two vectors is no accessor
    let two = at(ExprKind::MethodCall(Box::new(path(&["p"])), "distance".to_string(), vec![path(&["q"])]));
    assert!(validate_method_body(&body(two), "view", &Neighborhood::Moore).is_ok());
}

#[test]
fn default_values_are_written_channel_by_channel() {
    let l = derive_cell_state_impl(&state(&[("a", "f32"), ("b", "Vec2"), ("c", "f32"), ("d", "Vec3")])).ok().unwrap();
    let w: Vec<(usize, u32, u32, u32)> = default_writes(&l).iter().map(|w| (w.field, w.component, w.texture, w.channel)).collect();
    assert_eq!(w, vec![
        (0, 0, 0, 0),
        (1, 0, 0, 1), (1, 1, 0, 2),
        (2, 0, 0, 3),
        (3, 0, 1, 0), (3, 1, 1, 1), (3, 2, 1, 2),
    ]);
}

#[test]
fn typed_mutable_binding_is_refused() {
    let pat = Pat::Typed(Box::new(Pat::Ident { name: "x".to_string(), mutable: true }));
    let b = Block { stmts: vec![Stmt::Local(Local { pat, init: None, span: 4 })] };
    let e = validate_method_body(&b, "update", &Neighborhood::Moore).err().unwrap();
    assert_eq!(e.message, "cellarium C006: let mut is not supported. All bindings are immutable in cell code.");
}
