//! The cell description that shader emission works from, and its small pieces:
//! neighbourhoods, name mangling, tile sizing and field placement.
use vstd::prelude::*;
use crate::ast::Expr;
use crate::ast::ErrorView;
use crate::layout::{LayoutView, SlotView, StateInput, cursor, floats_upto, law_fields_fit_in_textures,
    law_greedy_declaration_order, layout_of, lemma_cursor_bounds, lemma_cursor_monotone, lemma_cursor_step,
    lemma_floats_at_least_count, lemma_sizes_fit, packing, sizes_from, slot, textures_used};
use crate::text::{dec, push, push_dec, text};

verus! {

/// Prefixes a user-chosen name so that it cannot collide with a WGSL keyword.
pub open spec fn user_var_text(name: Seq<char>) -> Seq<char> {
    "v_"@ + name
}

/// Prefixes a user-chosen name so that it cannot collide with a WGSL keyword.
pub fn user_var(name: &str) -> (r: String)
    ensures
        r@ == user_var_text(name@),
{
    let mut s = text("v_");
    push(&mut s, name);
    s
}

/// Which cells around a cell its spatial operators visit.
pub enum Neighborhood {
    Moore,
    VonNeumann,
    Radius(u32),
}

/// The Chebyshev radius that the loops of a neighbourhood cover.
pub open spec fn radius_of(n: Neighborhood) -> nat {
    match n {
        Neighborhood::Moore => 1,
        Neighborhood::VonNeumann => 1,
        Neighborhood::Radius(r) => r as nat,
    }
}

/// How many cells a neighbourhood visits (the cell itself excluded).
pub open spec fn neighbor_count_of(n: Neighborhood) -> nat {
    match n {
        Neighborhood::Moore => 8,
        Neighborhood::VonNeumann => 4,
        Neighborhood::Radius(r) => ((2 * r + 1) * (2 * r + 1) - 1) as nat,
    }
}

/// The WGSL statement that skips offsets outside a neighbourhood.
pub open spec fn skip_text(n: Neighborhood) -> Seq<char> {
    match n {
        Neighborhood::VonNeumann => "if (abs(_dx) + abs(_dy) > 1 || (_dx == 0 && _dy == 0)) { continue; }"@,
        _ => "if (_dx == 0 && _dy == 0) { continue; }"@,
    }
}

/// The neighbourhood's `(2N+1)²-1` count fits in a `u32`.
pub open spec fn neighbor_count_fits(n: Neighborhood) -> bool {
    match n {
        Neighborhood::Radius(r) => (2 * r + 1) * (2 * r + 1) <= u32::MAX + 1,
        _ => true,
    }
}

impl Neighborhood {
    pub fn radius(&self) -> (r: u32)
        ensures
            r as nat == radius_of(*self),
    {
        match self {
            Neighborhood::Moore => 1,
            Neighborhood::VonNeumann => 1,
            Neighborhood::Radius(n) => *n,
        }
    }

    pub fn skip_condition(&self) -> (s: &'static str)
        ensures
            s@ == skip_text(*self),
    {
        match self {
            Neighborhood::VonNeumann => "if (abs(_dx) + abs(_dy) > 1 || (_dx == 0 && _dy == 0)) { continue; }",
            _ => "if (_dx == 0 && _dy == 0) { continue; }",
        }
    }

    pub fn neighbor_count(&self) -> (c: u32)
        requires
            neighbor_count_fits(*self),
        ensures
            c as nat == neighbor_count_of(*self),
    {
        match self {
            Neighborhood::Moore => 8,
            Neighborhood::VonNeumann => 4,
            Neighborhood::Radius(n) => {
                let n = *n;
                assert((2 * n + 1) * (2 * n + 1) >= 1) by (nonlinear_arith);
                let side: u64 = 2 * (n as u64) + 1;
                assert(side * side <= u32::MAX + 1);
                assert(side * side <= u64::MAX) by (nonlinear_arith)
                    requires side * side <= u32::MAX + 1;
                let sq: u64 = side * side;
                (sq - 1) as u32
            }
        }
    }
}

/// A state field, as the state struct declares it: its name and its size
/// in floats.
pub struct FieldDef {
    pub name: String,
    pub size: u32,
}

/// An associated constant of the cell impl: its name and its initialiser.
pub struct ConstInfo {
    pub name: String,
    pub expr: Expr,
}

/// What shader emission knows about a cell: its neighbourhood, its tunable
/// constants, and its state fields in declaration order.
pub struct CellImplInfo {
    pub neighborhood: Neighborhood,
    pub constants: Vec<ConstInfo>,
    pub fields: Vec<FieldDef>,
}

/// The names of a list of field definitions.
pub open spec fn names_of(v: Seq<FieldDef>) -> Seq<Seq<char>> {
    v.map_values(|f: FieldDef| f.name@)
}

/// The names of a list of constants.
pub open spec fn const_names_of(v: Seq<ConstInfo>) -> Seq<Seq<char>> {
    v.map_values(|c: ConstInfo| c.name@)
}

/// What emission reads of a [`CellImplInfo`]: the neighbourhood, the names
/// of the constants, and the names and sizes of the state fields in
/// declaration order.
pub struct InfoView {
    pub neighborhood: Neighborhood,
    pub constants: Seq<Seq<char>>,
    pub fields: Seq<Seq<char>>,
    pub sizes: Seq<u32>,
}

impl View for CellImplInfo {
    type V = InfoView;

    open spec fn view(&self) -> InfoView {
        InfoView {
            neighborhood: self.neighborhood,
            constants: const_names_of(self.constants@),
            fields: names_of(self.fields@),
            sizes: sizes_of(self.fields@),
        }
    }
}

/// Bytes of workgroup memory that a square tile of `side` cells needs for
/// `num_textures` RGBA32F textures.
pub open spec fn tile_bytes(side: int, num_textures: int) -> int {
    side * side * 16 * num_textures
}

/// The tile size and whether the shared-memory path is used: 16×16 tiles
/// if their padded halo fits in 16 KiB, else 8×8 tiles if those fit, else
/// 16×16 tiles without shared memory.
pub open spec fn tile_config(radius: nat, num_textures: nat) -> (u32, bool) {
    if tile_bytes(16 + 2 * radius as int, num_textures as int) <= 16384 {
        (16, true)
    } else if tile_bytes(8 + 2 * radius as int, num_textures as int) <= 16384 {
        (8, true)
    } else {
        (16, false)
    }
}

/// The arithmetic of [`compute_tile_config`] stays within `u32`.
pub open spec fn tile_config_fits(radius: nat, num_textures: nat) -> bool {
    &&& tile_bytes(16 + 2 * radius as int, 1) <= u32::MAX
    &&& tile_bytes(16 + 2 * radius as int, num_textures as int) <= u32::MAX
}

/// Chooses the workgroup tile for the update shader (see [`tile_config`]).
pub fn compute_tile_config(radius: u32, num_textures: u32) -> (r: (u32, bool))
    requires
        tile_config_fits(radius as nat, num_textures as nat),
    ensures
        r == tile_config(radius as nat, num_textures as nat),
        r.1 ==> tile_bytes(r.0 + 2 * radius as int, num_textures as int) <= 16384,
{
    let ghost p16 = 16 + 2 * radius;
    let ghost p8 = 8 + 2 * radius;
    assert(tile_bytes(p8, num_textures as int) <= tile_bytes(p16, num_textures as int)) by (nonlinear_arith)
        requires p8 <= p16, p8 >= 0, num_textures >= 0;
    assert(p16 <= u32::MAX) by (nonlinear_arith)
        requires p16 * p16 * 16 * 1 <= u32::MAX, p16 >= 16;
    assert(p16 * p16 <= u32::MAX) by (nonlinear_arith)
        requires p16 * p16 * 16 * 1 <= u32::MAX, p16 >= 0;
    let padded_16 = 16 + 2 * radius;
    let bytes_16 = padded_16 * padded_16 * 16 * num_textures;
    if bytes_16 <= 16384 {
        return (16, true);
    }
    assert(p8 * p8 <= p16 * p16) by (nonlinear_arith) requires 0 <= p8 <= p16;
    assert(p8 * p8 * 16 <= p16 * p16 * 16) by (nonlinear_arith) requires p8 * p8 <= p16 * p16;
    assert(p8 * p8 * 16 * num_textures <= p16 * p16 * 16 * num_textures) by (nonlinear_arith)
        requires p8 * p8 * 16 <= p16 * p16 * 16, num_textures >= 0;
    let padded_8 = 8 + 2 * radius;
    let bytes_8 = padded_8 * padded_8 * 16 * num_textures;
    if bytes_8 <= 16384 {
        return (8, true);
    }
    (16, false)
}

/// The WGSL vertex stage shared by all fragment pipelines: one triangle that
/// covers the viewport.
pub open spec fn vertex_shader_text() -> Seq<char> {
    "@vertex\nfn vs_main(@builtin(vertex_index) vid: u32) -> @builtin(position) vec4f {\n    let x = f32(vid & 1u) * 4.0 - 1.0;\n    let y = f32((vid >> 1u) & 1u) * 4.0 - 1.0;\n    return vec4f(x, y, 0.0, 1.0);\n}\n\n"@
}

pub fn emit_vertex_shader() -> (s: &'static str)
    ensures
        s@ == vertex_shader_text(),
{
    "@vertex\nfn vs_main(@builtin(vertex_index) vid: u32) -> @builtin(position) vec4f {\n    let x = f32(vid & 1u) * 4.0 - 1.0;\n    let y = f32((vid >> 1u) & 1u) * 4.0 - 1.0;\n    return vec4f(x, y, 0.0, 1.0);\n}\n\n"
}

// ---------------------------------------------------------------------------
// Field placement: the state fields, in declaration order, packed as
// `#[derive(CellState)]` packs them (see `crate::layout`).
// ---------------------------------------------------------------------------

/// The sizes in floats of a list of field definitions.
pub open spec fn sizes_of(v: Seq<FieldDef>) -> Seq<u32> {
    v.map_values(|f: FieldDef| f.size)
}

/// Field sizes that a state struct can have: one to four floats each, and
/// no more fields than 32 floats allow.
pub open spec fn sizes_ok(ss: Seq<u32>) -> bool {
    &&& ss.len() <= 32
    &&& forall|k: int| 0 <= k < ss.len() ==> 1 <= #[trigger] ss[k] <= 4
}

/// The position of the first field with this name, if any.
pub open spec fn field_index(fields: Seq<Seq<char>>, name: Seq<char>) -> Option<nat>
    decreases fields.len(),
{
    if fields.len() == 0 {
        None
    } else {
        match field_index(fields.drop_last(), name) {
            Some(i) => Some(i),
            None => if fields.last() == name { Some((fields.len() - 1) as nat) } else { None },
        }
    }
}

/// Texture, first channel and channel count of a field: where the greedy
/// packing of the sizes puts it; an unknown name maps to texture 0,
/// channel 0, one channel.
pub open spec fn field_slot(fields: Seq<Seq<char>>, sizes: Seq<u32>, name: Seq<char>) -> (nat, nat, nat) {
    match field_index(fields, name) {
        Some(i) => (slot(sizes, i as int).0, slot(sizes, i as int).1, sizes[i as int] as nat),
        None => (0, 0, 1),
    }
}

/// The WGSL swizzle of `size` channels starting at channel `off`.
pub open spec fn swizzle_text(off: nat, size: nat) -> Seq<char> {
    "rgba"@.subrange(off as int, (off + size) as int)
}

/// Number of RGBA textures the fields take (at least one).
pub open spec fn texture_count_for(sizes: Seq<u32>) -> nat {
    if textures_used(sizes) >= 1 { textures_used(sizes) } else { 1 }
}

proof fn lemma_field_index_bound(fields: Seq<Seq<char>>, name: Seq<char>)
    ensures
        field_index(fields, name) matches Some(i) ==> i < fields.len() && fields[i as int] == name,
    decreases fields.len(),
{
    if fields.len() > 0 {
        lemma_field_index_bound(fields.drop_last(), name);
    }
}

/// A found position in a prefix stays the position in the whole sequence.
proof fn lemma_field_index_prefix(fields: Seq<Seq<char>>, name: Seq<char>, k: int)
    requires
        0 <= k <= fields.len(),
        field_index(fields.take(k), name) is Some,
    ensures
        field_index(fields, name) == field_index(fields.take(k), name),
    decreases fields.len() - k,
{
    if k < fields.len() {
        assert(fields.take(k + 1).drop_last() =~= fields.take(k));
        lemma_field_index_prefix(fields, name, k + 1);
    } else {
        assert(fields.take(k) =~= fields);
    }
}

/// A field's channels lie inside one RGBA texture, among those the fields take.
pub proof fn lemma_field_slot_bounds(fields: Seq<Seq<char>>, sizes: Seq<u32>, name: Seq<char>)
    requires
        sizes_ok(sizes),
        fields.len() == sizes.len(),
    ensures
        1 <= field_slot(fields, sizes, name).2 <= 4,
        field_slot(fields, sizes, name).1 + field_slot(fields, sizes, name).2 <= 4,
        field_slot(fields, sizes, name).0 < texture_count_for(sizes),
{
    lemma_field_index_bound(fields, name);
    match field_index(fields, name) {
        Some(i) => {
            let k = i as int;
            lemma_cursor_step(sizes, k);
            lemma_cursor_monotone(sizes, k + 1, sizes.len() as int);
        },
        None => {},
    }
}

/// With distinct names, a field's position is found by its name.
proof fn lemma_field_index_distinct(fields: Seq<Seq<char>>, k: int)
    requires
        fields.no_duplicates(),
        0 <= k < fields.len(),
    ensures
        field_index(fields, fields[k]) == Some(k as nat),
    decreases fields.len(),
{
    let n = fields.len();
    if k < n - 1 {
        assert(fields.drop_last().no_duplicates());
        assert(fields.drop_last()[k] == fields[k]);
        lemma_field_index_distinct(fields.drop_last(), k);
    } else {
        lemma_field_index_bound(fields.drop_last(), fields[k]);
        match field_index(fields.drop_last(), fields[k]) {
            Some(j) => {
                assert(fields.drop_last()[j as int] == fields[j as int]);
            },
            None => {},
        }
    }
}

/// The names of the fields of a derived state layout.
pub open spec fn layout_names(l: LayoutView) -> Seq<Seq<char>> {
    l.fields.map_values(|f: SlotView| f.name)
}

/// The sizes of the fields of a derived state layout.
pub open spec fn layout_sizes(l: LayoutView) -> Seq<u32> {
    l.fields.map_values(|f: SlotView| f.size as u32)
}

/// The shaders place every state field where `#[derive(CellState)]` put it:
/// given the derive's layout of a struct (whose field names are distinct),
/// the texture, first channel and channel count that emission uses for a
/// field are those of the layout.
pub proof fn law_field_slots_follow_the_derived_layout(input: StateInput, l: LayoutView, k: int)
    requires
        layout_of(input) == Ok::<LayoutView, ErrorView>(l),
        layout_names(l).no_duplicates(),
        0 <= k < l.fields.len(),
    ensures
        field_slot(layout_names(l), layout_sizes(l), l.fields[k].name)
            == (l.fields[k].texture, l.fields[k].offset, l.fields[k].size),
        sizes_ok(layout_sizes(l)),
{
    law_greedy_declaration_order(input, l);
    law_fields_fit_in_textures(input, l);
    let fs = input.data->Named_0@;
    let ss = sizes_from(fs, 0, Seq::empty())->Ok_0;
    assert(l == packing(fs, ss));
    lemma_sizes_fit(fs, ss);
    assert(layout_sizes(l) =~= ss);
    assert(layout_names(l)[k] == l.fields[k].name);
    lemma_field_index_distinct(layout_names(l), k);
    assert(l.fields.len() <= 32) by {
        lemma_floats_at_least_count(l.fields, l.fields.len() as int);
    }
}

/// One swizzle letter.
fn channel_letter(c: u32) -> (r: &'static str)
    requires
        c < 4,
    ensures
        r@ == "rgba"@.subrange(c as int, c as int + 1),
{
    proof {
        reveal_strlit("rgba");
        reveal_strlit("r");
        reveal_strlit("g");
        reveal_strlit("b");
        reveal_strlit("a");
    }
    if c == 0 {
        assert("rgba"@.subrange(0, 1) =~= "r"@);
        "r"
    } else if c == 1 {
        assert("rgba"@.subrange(1, 2) =~= "g"@);
        "g"
    } else if c == 2 {
        assert("rgba"@.subrange(2, 3) =~= "b"@);
        "b"
    } else {
        assert("rgba"@.subrange(3, 4) =~= "a"@);
        "a"
    }
}

/// The swizzle of `size` channels from `off` (see [`swizzle_text`]).
pub fn swizzle(off: u32, size: u32) -> (r: String)
    requires
        off + size <= 4,
    ensures
        r@ == swizzle_text(off as nat, size as nat),
{
    let mut s = text("");
    proof {
        reveal_strlit("");
        reveal_strlit("rgba");
        assert(""@ =~= "rgba"@.subrange(off as int, off as int));
    }
    let mut c = off;
    while c < off + size
        invariant
            off <= c <= off + size,
            off + size <= 4,
            s@ == "rgba"@.subrange(off as int, c as int),
        decreases off + size - c,
    {
        proof { reveal_strlit("rgba"); }
        let ghost before = s@;
        push(&mut s, channel_letter(c));
        proof {
            assert(s@ =~= "rgba"@.subrange(off as int, c as int + 1));
        }
        c = c + 1;
    }
    s
}

/// Texture, first channel and channel count of the named field (see [`field_slot`]).
pub fn field_slot_of(fields: &Vec<FieldDef>, name: &str) -> (r: (u32, u32, u32))
    requires
        sizes_ok(sizes_of(fields@)),
    ensures
        (r.0 as nat, r.1 as nat, r.2 as nat) == field_slot(names_of(fields@), sizes_of(fields@), name@),
        1 <= r.2 <= 4,
        r.1 + r.2 <= 4,
        (r.0 as nat) < texture_count_for(sizes_of(fields@)),
{
    let ghost names = names_of(fields@);
    let ghost ss = sizes_of(fields@);
    proof { lemma_field_slot_bounds(names, ss, name@); }
    let n = fields.len();
    let mut i: usize = 0;
    let mut current_tex: u32 = 0;
    let mut current_offset: u32 = 0;
    let target = text(name);
    while i < n
        invariant
            n == fields.len(),
            names == names_of(fields@),
            ss == sizes_of(fields@),
            sizes_ok(ss),
            0 <= i <= n,
            target@ == name@,
            (current_tex as nat, current_offset as nat) == cursor(ss, i as int),
            field_index(names.take(i as int), name@) is None,
        decreases n - i,
    {
        proof {
            assert(names.take(i as int + 1).drop_last() =~= names.take(i as int));
            lemma_cursor_bounds(ss, i as int);
            assert(ss[i as int] == fields@[i as int].size);
        }
        let size = fields[i].size;
        if current_offset + size > 4 {
            current_tex = current_tex + 1;
            current_offset = 0;
        }
        if fields[i].name == target {
            proof {
                assert(names[i as int] == fields@[i as int].name@);
                assert(field_index(names.take(i as int + 1), name@) == Some(i as nat));
                lemma_field_index_prefix(names, name@, i as int + 1);
                assert(field_slot(names, ss, name@) == (current_tex as nat, current_offset as nat, size as nat));
                lemma_field_slot_bounds(names, ss, name@);
            }
            return (current_tex, current_offset, size);
        }
        current_offset = current_offset + size;
        i = i + 1;
    }
    assert(names.take(n as int) =~= names);
    (0, 0, 1)
}

/// Texture index and swizzle of the named field.
pub fn field_texture_swizzle(fields: &Vec<FieldDef>, name: &str) -> (r: (u32, String))
    requires
        sizes_ok(sizes_of(fields@)),
    ensures
        r.0 as nat == field_slot(names_of(fields@), sizes_of(fields@), name@).0,
        r.1@ == swizzle_text(field_slot(names_of(fields@), sizes_of(fields@), name@).1,
            field_slot(names_of(fields@), sizes_of(fields@), name@).2),
{
    let (tex, off, size) = field_slot_of(fields, name);
    (tex, swizzle(off, size))
}

/// Number of RGBA textures the fields take, at least one (see [`texture_count_for`]).
pub fn texture_count(fields: &Vec<FieldDef>) -> (r: usize)
    requires
        sizes_ok(sizes_of(fields@)),
    ensures
        r as nat == texture_count_for(sizes_of(fields@)),
        1 <= r <= 33,
{
    let ghost ss = sizes_of(fields@);
    let n = fields.len();
    let mut i: usize = 0;
    let mut current_tex: u32 = 0;
    let mut current_offset: u32 = 0;
    while i < n
        invariant
            n == fields.len(),
            ss == sizes_of(fields@),
            sizes_ok(ss),
            0 <= i <= n,
            (current_tex as nat, current_offset as nat) == cursor(ss, i as int),
        decreases n - i,
    {
        proof {
            lemma_cursor_bounds(ss, i as int);
            assert(ss[i as int] == fields@[i as int].size);
        }
        let size = fields[i].size;
        if current_offset + size > 4 {
            current_tex = current_tex + 1;
            current_offset = 0;
        }
        current_offset = current_offset + size;
        i = i + 1;
    }
    proof { lemma_cursor_bounds(ss, n as int); }
    if n == 0 { 1 } else { current_tex as usize + 1 }
}

} // verus!
