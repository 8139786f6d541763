//! The `#[cell]` attribute as a whole: reading the impl block, checking its
//! methods against the rules and against the state it is for, and emitting
//! the three shaders.
use vstd::prelude::*;
use crate::ast::{Block, ErrorView, Expr, MacroError, SpanId, err_at};
use crate::check::{check_body, validate_method_body};
use crate::layout::TypeRef;
use crate::limits::{arity_stmts_check, block_budget_check};
use crate::lower::{CellImplInfo, ConstInfo, FieldDef, InfoView, Neighborhood, compute_tile_config, names_of,
    neighbor_count_fits, radius_of, sizes_of, sizes_ok, texture_count, texture_count_for, tile_bytes, tile_config,
    tile_config_fits};
use crate::state_use::{check_state_use, use_body};
use crate::parse::{extract_self_type_name, neighborhood_of, parse_neighborhood, self_type_name_of};
use crate::stage::{emit_init_shader, emit_update_shader, emit_view_shader, fragment_ok, init_shader_text,
    update_ok, update_shader_text, view_shader_text};
use crate::text::{push, str_eq, text};

verus! {

/// A member of the impl block that `#[cell]` is applied to.
pub enum ImplMember {
    /// An associated constant: its name and its initialiser.
    Const { name: String, expr: Expr },
    /// A method: its name, where the name stands, and its body.
    Fn { name: String, span: SpanId, body: Block },
    /// Anything else (types, macros), which the attribute ignores.
    Other,
}

/// The impl block that `#[cell]` is applied to, with the state type it is
/// for.
pub struct CellImplItem {
    pub self_ty: TypeRef,
    pub items: Vec<ImplMember>,
    /// The fields of the state type in declaration order, with their sizes,
    /// as `#[derive(CellState)]` lays them out.
    pub state: Vec<FieldDef>,
}

/// The members of an impl block sorted out: the constants in order, and the
/// body of each of the three methods (the last one given, if repeated).
pub struct Methods {
    pub constants: Seq<ConstInfo>,
    pub update: Option<Block>,
    pub view: Option<Block>,
    pub init: Option<Block>,
}

pub open spec fn no_methods() -> Methods {
    Methods { constants: Seq::empty(), update: None, view: None, init: None }
}

pub open spec fn c015_text(name: Seq<char>) -> Seq<char> {
    "cellarium C015: '"@ + name + "' is not a recognized method. Expected update, view, or init."@
}

/// Sorts out the members `items[i..]` on top of `m`, or reports the first
/// method that is not one of `update`, `view` and `init`.
pub open spec fn collect_methods(items: Seq<ImplMember>, i: int, m: Methods) -> Result<Methods, ErrorView>
    decreases items.len() - i,
{
    if 0 <= i < items.len() {
        match items[i] {
            ImplMember::Const { name, expr } => collect_methods(items, i + 1, Methods {
                constants: m.constants.push(ConstInfo { name, expr }),
                update: m.update,
                view: m.view,
                init: m.init,
            }),
            ImplMember::Fn { name, span, body } => if name@ == "update"@ {
                collect_methods(items, i + 1, Methods { constants: m.constants, update: Some(body), view: m.view, init: m.init })
            } else if name@ == "view"@ {
                collect_methods(items, i + 1, Methods { constants: m.constants, update: m.update, view: Some(body), init: m.init })
            } else if name@ == "init"@ {
                collect_methods(items, i + 1, Methods { constants: m.constants, update: m.update, view: m.view, init: Some(body) })
            } else {
                Err(err_at(span, c015_text(name@)))
            },
            ImplMember::Other => collect_methods(items, i + 1, m),
        }
    } else {
        Ok(m)
    }
}

/// What the attribute has established before any shader is emitted.
pub struct CellPlan {
    pub neighborhood: Neighborhood,
    pub name: Seq<char>,
    pub constants: Seq<Seq<char>>,
    pub update: Block,
    pub view: Block,
    pub init: Option<Block>,
    pub fields: Seq<Seq<char>>,
    pub sizes: Seq<u32>,
}

pub open spec fn init_checked(init: Option<Block>, nb: Neighborhood) -> Result<(), ErrorView> {
    match init {
        Some(b) => check_body(b, "init"@, nb),
        None => Ok(()),
    }
}

/// How the methods use the state, `update` first, then `view`, then `init`.
pub open spec fn state_use_checked(m: Methods, u: Block, v: Block, st: Seq<Seq<char>>, ss: Seq<u32>, sn: Seq<char>) -> Result<(), ErrorView> {
    match use_body(u, st, ss, sn, true) {
        Err(x) => Err(x),
        Ok(_) => match use_body(v, st, ss, sn, false) {
            Err(x) => Err(x),
            Ok(_) => match m.init {
                Some(b) => use_body(b, st, ss, sn, true),
                None => Ok(()),
            },
        },
    }
}

/// The attribute's analysis of an impl block: the neighbourhood, the type's
/// name, the methods (both `update` and `view` required, every body checked
/// against the rules, then against the declared state fields) and the state
/// fields, or the first error.
pub open spec fn cell_plan(attr: Seq<char>, site: SpanId, item: CellImplItem) -> Result<CellPlan, ErrorView> {
    match neighborhood_of(attr, site) {
        Err(x) => Err(x),
        Ok(nb) => match self_type_name_of(item.self_ty) {
            Err(x) => Err(x),
            Ok(name) => match collect_methods(item.items@, 0, no_methods()) {
                Err(x) => Err(x),
                Ok(m) => match m.update {
                    None => Err(err_at(item.self_ty.span, "cellarium: missing required method `update`"@)),
                    Some(u) => match m.view {
                        None => Err(err_at(item.self_ty.span, "cellarium: missing required method `view`"@)),
                        Some(v) => match check_body(u, "update"@, nb) {
                            Err(x) => Err(x),
                            Ok(_) => match check_body(v, "view"@, nb) {
                                Err(x) => Err(x),
                                Ok(_) => match init_checked(m.init, nb) {
                                    Err(x) => Err(x),
                                    Ok(_) => match state_use_checked(m, u, v, names_of(item.state@), sizes_of(item.state@), name) {
                                        Err(x) => Err(x),
                                        Ok(_) => Ok(CellPlan {
                                            neighborhood: nb,
                                            name,
                                            constants: m.constants.map_values(|c: ConstInfo| c.name@),
                                            update: u,
                                            view: v,
                                            init: m.init,
                                            fields: names_of(item.state@),
                                            sizes: sizes_of(item.state@),
                                        }),
                                    },
                                },
                            },
                        },
                    },
                },
            },
        },
    }
}

pub open spec fn plan_info(p: CellPlan) -> InfoView {
    InfoView { neighborhood: p.neighborhood, constants: p.constants, fields: p.fields, sizes: p.sizes }
}

/// What emitting the shaders of a plan needs (see [`update_ok`] and [`fragment_ok`]).
pub open spec fn plan_fits(p: CellPlan) -> bool {
    &&& update_ok(plan_info(p), p.update)
    &&& fragment_ok(plan_info(p), p.view)
    &&& p.init matches Some(b) ==> fragment_ok(plan_info(p), b)
}

/// What the attribute generates for a cell type.
pub struct CellView {
    pub name: Seq<char>,
    pub update_shader: Seq<char>,
    pub view_shader: Seq<char>,
    pub init_shader: Seq<char>,
    pub has_init: bool,
    pub param_names: Seq<Seq<char>>,
    pub tile_size: u32,
}

/// The shaders and metadata of a planned cell, or the first emission error.
pub open spec fn plan_output(p: CellPlan) -> Result<CellView, ErrorView> {
    let info = plan_info(p);
    match update_shader_text(info, p.update) {
        Err(x) => Err(x),
        Ok(us) => match view_shader_text(info, p.view) {
            Err(x) => Err(x),
            Ok(vs) => match (match p.init {
                Some(b) => init_shader_text(info, b),
                None => Ok(Seq::empty()),
            }) {
                Err(x) => Err(x),
                Ok(is) => Ok(CellView {
                    name: p.name,
                    update_shader: us,
                    view_shader: vs,
                    init_shader: is,
                    has_init: p.init is Some,
                    param_names: p.constants,
                    tile_size: tile_config(radius_of(p.neighborhood), texture_count_for(p.sizes)).0,
                }),
            },
        },
    }
}

/// Everything the attribute produces for `attr` and `item`, or its first error.
pub open spec fn cell_output(attr: Seq<char>, site: SpanId, item: CellImplItem) -> Result<CellView, ErrorView> {
    match cell_plan(attr, site, item) {
        Err(x) => Err(x),
        Ok(p) => plan_output(p),
    }
}

// ---------------------------------------------------------------------------
// Executable
// ---------------------------------------------------------------------------

/// The result of the analysis: the cell description and the method bodies.
pub struct CellAnalysis {
    pub struct_name: String,
    pub info: CellImplInfo,
    pub update: Block,
    pub view: Block,
    pub init: Option<Block>,
}

impl CellAnalysis {
    pub open spec fn plan(&self) -> CellPlan {
        CellPlan {
            neighborhood: self.info.neighborhood,
            name: self.struct_name@,
            constants: self.info@.constants,
            update: self.update,
            view: self.view,
            init: self.init,
            fields: self.info@.fields,
            sizes: self.info@.sizes,
        }
    }
}

/// The generated shaders and metadata of a cell type.
pub struct CellOutput {
    pub struct_name: String,
    pub update_shader: String,
    pub view_shader: String,
    pub init_shader: String,
    pub has_init: bool,
    pub param_names: Vec<String>,
    /// The workgroup side of the update shader.
    pub tile_size: u32,
}

impl View for CellOutput {
    type V = CellView;

    open spec fn view(&self) -> CellView {
        CellView {
            name: self.struct_name@,
            update_shader: self.update_shader@,
            view_shader: self.view_shader@,
            init_shader: self.init_shader@,
            has_init: self.has_init,
            param_names: self.param_names@.map_values(|s: String| s@),
            tile_size: self.tile_size,
        }
    }
}

fn c015(span: SpanId, name: &str) -> (e: MacroError)
    ensures
        e@ == err_at(span, c015_text(name@)),
{
    let mut m = text("cellarium C015: '");
    push(&mut m, name);
    push(&mut m, "' is not a recognized method. Expected update, view, or init.");
    MacroError::new(span, m)
}

fn collect(members: Vec<ImplMember>) -> (r: Result<(Vec<ConstInfo>, Option<Block>, Option<Block>, Option<Block>), MacroError>)
    ensures
        match r {
            Ok((c, u, v, i)) => collect_methods(members@, 0, no_methods())
                == Ok::<Methods, ErrorView>(Methods { constants: c@, update: u, view: v, init: i }),
            Err(e) => collect_methods(members@, 0, no_methods()) == Err::<Methods, ErrorView>(e@),
        },
{
    let ghost orig = members@;
    let mut items = members;
    let mut constants: Vec<ConstInfo> = Vec::new();
    let mut update: Option<Block> = None;
    let mut view: Option<Block> = None;
    let mut init: Option<Block> = None;
    let mut k: usize = 0;
    assert(items@ =~= orig.skip(0));
    assert(orig.len() == items.len());
    while items.len() > 0
        invariant
            orig == members@,
            k <= orig.len(),
            orig.len() <= usize::MAX,
            items@ == orig.skip(k as int),
            collect_methods(orig, 0, no_methods())
                == collect_methods(orig, k as int, Methods { constants: constants@, update, view, init }),
        decreases items.len(),
    {
        let it = items.remove(0);
        proof {
            assert(it == orig[k as int]);
            assert(items@ =~= orig.skip(k as int + 1));
        }
        match it {
            ImplMember::Const { name, expr } => {
                constants.push(ConstInfo { name, expr });
            }
            ImplMember::Fn { name, span, body } => {
                if str_eq(name.as_str(), "update") {
                    update = Some(body);
                } else if str_eq(name.as_str(), "view") {
                    view = Some(body);
                } else if str_eq(name.as_str(), "init") {
                    init = Some(body);
                } else {
                    return Err(c015(span, name.as_str()));
                }
            }
            ImplMember::Other => {}
        }
        k = k + 1;
    }
    Ok((constants, update, view, init))
}

/// Checks a method body, mapping the outcome to the analysis's result.
fn check_method(b: &Block, method: &str, nb: &Neighborhood) -> (r: Result<(), MacroError>)
    ensures
        match r {
            Ok(_) => check_body(*b, method@, *nb) == Ok::<(), ErrorView>(()),
            Err(e) => check_body(*b, method@, *nb) == Err::<(), ErrorView>(e@),
        },
{
    validate_method_body(b, method, nb)
}

/// Analyses the impl block of a cell type (see [`cell_plan`]).
pub fn analyze_cell(attr: &str, call_site: SpanId, item: CellImplItem) -> (r: Result<CellAnalysis, MacroError>)
    requires
        sizes_ok(sizes_of(item.state@)),
    ensures
        match r {
            Ok(a) => cell_plan(attr@, call_site, item) == Ok::<CellPlan, ErrorView>(a.plan()),
            Err(e) => cell_plan(attr@, call_site, item) == Err::<CellPlan, ErrorView>(e@),
        },
{
    let neighborhood = match parse_neighborhood(attr, call_site) {
        Ok(n) => n,
        Err(e) => { return Err(e); }
    };
    let struct_name = match extract_self_type_name(&item.self_ty) {
        Ok(n) => n,
        Err(e) => { return Err(e); }
    };
    let name_span = item.self_ty.span;
    let (constants, update, view, init) = match collect(item.items) {
        Ok(c) => c,
        Err(e) => { return Err(e); }
    };
    let update = match update {
        Some(b) => b,
        None => { return Err(MacroError::new(name_span, text("cellarium: missing required method `update`"))); }
    };
    let view = match view {
        Some(b) => b,
        None => { return Err(MacroError::new(name_span, text("cellarium: missing required method `view`"))); }
    };
    match check_method(&update, "update", &neighborhood) {
        Ok(_) => {},
        Err(e) => { return Err(e); }
    }
    match check_method(&view, "view", &neighborhood) {
        Ok(_) => {},
        Err(e) => { return Err(e); }
    }
    if let Some(b) = &init {
        match check_method(b, "init", &neighborhood) {
            Ok(_) => {},
            Err(e) => { return Err(e); }
        }
    }
    let fields = item.state;
    match check_state_use(&update, &fields, struct_name.as_str(), true) {
        Ok(_) => {},
        Err(e) => { return Err(e); }
    }
    match check_state_use(&view, &fields, struct_name.as_str(), false) {
        Ok(_) => {},
        Err(e) => { return Err(e); }
    }
    if let Some(b) = &init {
        match check_state_use(b, &fields, struct_name.as_str(), true) {
            Ok(_) => {},
            Err(e) => { return Err(e); }
        }
    }
    let info = CellImplInfo { neighborhood, constants, fields };
    Ok(CellAnalysis { struct_name, info, update, view, init })
}

fn copy_names(constants: &Vec<ConstInfo>) -> (r: Vec<String>)
    ensures
        r@.map_values(|s: String| s@) == constants@.map_values(|c: ConstInfo| c.name@),
{
    let mut out: Vec<String> = Vec::new();
    let n = constants.len();
    let mut i: usize = 0;
    while i < n
        invariant
            n == constants.len(),
            0 <= i <= n,
            out@.len() == i,
            forall|k: int| 0 <= k < i ==> (#[trigger] out@[k])@ == constants@[k].name@,
        decreases n - i,
    {
        out.push(constants[i].name.clone());
        i = i + 1;
    }
    assert(out@.map_values(|s: String| s@) =~= constants@.map_values(|c: ConstInfo| c.name@));
    out
}

/// Emits the shaders of an analysed cell (see [`plan_output`]).
pub fn emit_cell(a: &CellAnalysis) -> (r: Result<CellOutput, MacroError>)
    requires
        plan_fits(a.plan()),
    ensures
        match r {
            Ok(out) => plan_output(a.plan()) == Ok::<CellView, ErrorView>(out@),
            Err(e) => plan_output(a.plan()) == Err::<CellView, ErrorView>(e@),
        },
{
    assert(plan_info(a.plan()) == a.info@);
    let update_shader = match emit_update_shader(&a.info, &a.update) {
        Ok(s) => s,
        Err(e) => { return Err(e); }
    };
    let view_shader = match emit_view_shader(&a.info, &a.view) {
        Ok(s) => s,
        Err(e) => { return Err(e); }
    };
    let (has_init, init_shader) = match &a.init {
        Some(b) => match emit_init_shader(&a.info, b) {
            Ok(s) => (true, s),
            Err(e) => { return Err(e); }
        },
        None => (false, String::new()),
    };
    let num_textures = texture_count(&a.info.fields);
    let (tile_size, _use_shared) = compute_tile_config(a.info.neighborhood.radius(), num_textures as u32);
    let param_names = copy_names(&a.info.constants);
    Ok(CellOutput {
        struct_name: a.struct_name.clone(),
        update_shader,
        view_shader,
        init_shader,
        has_init,
        param_names,
        tile_size,
    })
}

/// Generates everything the `#[cell]` attribute produces for an impl block
/// (see [`cell_output`]); errors that have no place of their own are
/// reported at `call_site`.
pub fn cell_impl(attr: &str, call_site: SpanId, item: CellImplItem) -> (r: Result<CellOutput, MacroError>)
    requires
        sizes_ok(sizes_of(item.state@)),
        cell_plan(attr@, call_site, item) matches Ok(p) ==> plan_fits(p),
    ensures
        match r {
            Ok(out) => cell_output(attr@, call_site, item) == Ok::<CellView, ErrorView>(out@),
            Err(e) => cell_output(attr@, call_site, item) == Err::<CellView, ErrorView>(e@),
        },
{
    let a = match analyze_cell(attr, call_site, item) {
        Ok(a) => a,
        Err(e) => { return Err(e); }
    };
    emit_cell(&a)
}

// ---------------------------------------------------------------------------
// Checking what emission needs
// ---------------------------------------------------------------------------

fn tile_fits_check(radius: u32, nt: usize) -> (r: bool)
    ensures
        r == tile_config_fits(radius as nat, nt as nat),
{
    let p: u128 = 16 + 2 * (radius as u128);
    assert(p * p <= 0x4_0000_0000_0000_0000_0000) by (nonlinear_arith)
        requires p <= 0x2_0000_0010;
    let one: u128 = p * p * 16;
    if one > 0xffff_ffff {
        return false;
    }
    assert(one * nt <= 0xffff_ffff * 0xffff_ffff_ffff_ffff) by (nonlinear_arith)
        requires one <= 0xffff_ffff, nt <= 0xffff_ffff_ffff_ffff;
    let all: u128 = one * (nt as u128);
    all <= 0xffff_ffff
}

fn sizes_check(fields: &Vec<FieldDef>) -> (r: bool)
    ensures
        r == (sizes_ok(sizes_of(fields@)) && names_of(fields@).len() == sizes_of(fields@).len()),
{
    let n = fields.len();
    if n > 32 {
        return false;
    }
    let mut i: usize = 0;
    while i < n
        invariant
            n == fields.len(),
            0 <= i <= n,
            forall|k: int| 0 <= k < i ==> 1 <= #[trigger] sizes_of(fields@)[k] <= 4,
        decreases n - i,
    {
        if fields[i].size < 1 || fields[i].size > 4 {
            assert(sizes_of(fields@)[i as int] == fields@[i as int].size);
            return false;
        }
        i = i + 1;
    }
    true
}

fn neighbor_fits_check(nb: &Neighborhood) -> (r: bool)
    ensures
        r == neighbor_count_fits(*nb),
{
    match nb {
        Neighborhood::Radius(n) => {
            let side: u128 = 2 * (*n as u128) + 1;
            assert(side * side <= 0x4_0000_0000_0000_0000_0000) by (nonlinear_arith)
                requires side <= 0x2_0000_0000;
            side * side <= 0x1_0000_0000
        }
        _ => true,
    }
}

fn fragment_fits_check(info: &CellImplInfo, b: &Block) -> (r: bool)
    ensures
        r == fragment_ok(info@, *b),
{
    sizes_check(&info.fields)
        && info.constants.len() <= usize::MAX - 3
        && neighbor_fits_check(&info.neighborhood)
        && arity_stmts_check(&b.stmts)
        && block_budget_check(b)
}

/// Whether the shaders of an analysed cell can be emitted (see [`plan_fits`]).
pub fn plan_fits_check(a: &CellAnalysis) -> (r: bool)
    ensures
        r == plan_fits(a.plan()),
{
    assert(plan_info(a.plan()) == a.info@);
    if !(sizes_check(&a.info.fields) && a.info.constants.len() <= usize::MAX - 3) {
        return false;
    }
    let nt = texture_count(&a.info.fields);
    let update_fits = tile_fits_check(a.info.neighborhood.radius(), nt)
        && arity_stmts_check(&a.update.stmts)
        && block_budget_check(&a.update);
    let view_fits = fragment_fits_check(&a.info, &a.view);
    let init_fits = match &a.init {
        Some(b) => fragment_fits_check(&a.info, b),
        None => true,
    };
    update_fits && view_fits && init_fits
}

/// Like [`cell_impl`], for any impl block of a well-formed state: `None` when the analysis succeeds but
/// a method body is beyond what emission handles (a built-in call without
/// its arguments, a neighbourhood or a state too large for the `u32`
/// arithmetic, more spatial operators than `u32` ids).
pub fn try_cell_impl(attr: &str, call_site: SpanId, item: CellImplItem) -> (r: Option<Result<CellOutput, MacroError>>)
    requires
        sizes_ok(sizes_of(item.state@)),
    ensures
        match r {
            None => cell_plan(attr@, call_site, item) matches Ok(p) && !plan_fits(p),
            Some(Ok(out)) => cell_output(attr@, call_site, item) == Ok::<CellView, ErrorView>(out@),
            Some(Err(e)) => cell_output(attr@, call_site, item) == Err::<CellView, ErrorView>(e@),
        },
{
    let a = match analyze_cell(attr, call_site, item) {
        Ok(a) => a,
        Err(e) => { return Some(Err(e)); }
    };
    if !plan_fits_check(&a) {
        return None;
    }
    Some(emit_cell(&a))
}

} // verus!
