//! The state layout that `#[derive(CellState)]` computes: the size of each
//! field in floats, and a greedy packing of the fields, in declaration
//! order, into RGBA textures of four channels.
use vstd::prelude::*;
use crate::ast::{ErrorView, MacroError, SpanId, err_at};
use crate::text::{dec, push, push_dec, str_eq, text};

verus! {

/// A field's type, as far as the layout needs it.
pub enum TypeKind {
    /// A path type; the identifiers of its segments.
    Path(Vec<String>),
    /// Any other type; its source text.
    Other(String),
}

pub struct TypeRef {
    pub kind: TypeKind,
    pub span: SpanId,
}

pub struct StateField {
    pub name: String,
    pub ty: TypeRef,
}

/// The body of the item the derive is applied to.
pub enum StateData {
    /// A struct with named fields.
    Named(Vec<StateField>),
    /// A tuple or unit struct.
    Unnamed,
    /// An enum or a union.
    NotStruct,
}

/// The item `#[derive(CellState)]` is applied to.
pub struct StateInput {
    pub name: String,
    /// Location of the item's name.
    pub span: SpanId,
    pub data: StateData,
}

/// Where one field lives: texture, first channel, and channel count.
pub struct PackedField {
    pub name: String,
    pub texture: u32,
    pub offset: u32,
    pub size: u32,
}

/// The computed layout of a state struct.
pub struct StateLayout {
    pub texture_count: u32,
    pub fields: Vec<PackedField>,
}

pub struct SlotView {
    pub name: Seq<char>,
    pub texture: nat,
    pub offset: nat,
    pub size: nat,
}

pub struct LayoutView {
    pub texture_count: nat,
    pub fields: Seq<SlotView>,
}

impl View for PackedField {
    type V = SlotView;

    open spec fn view(&self) -> SlotView {
        SlotView { name: self.name@, texture: self.texture as nat, offset: self.offset as nat, size: self.size as nat }
    }
}

impl View for StateLayout {
    type V = LayoutView;

    open spec fn view(&self) -> LayoutView {
        LayoutView { texture_count: self.texture_count as nat, fields: self.fields@.map_values(|f: PackedField| f@) }
    }
}

/// The most floats of state a cell may have.
pub const MAX_STATE_FLOATS: u32 = 32;

/// The most state textures a cell may have.
pub const MAX_STATE_TEXTURES: u32 = 8;

// ---------------------------------------------------------------------------
// Field sizes
// ---------------------------------------------------------------------------

pub open spec fn c001_text(t: Seq<char>) -> Seq<char> {
    "cellarium C001: '"@ + t + "' is not a GPU-compatible type. State fields must be f32, Vec2, Vec3, or Vec4."@
}

/// The size in floats of the state types, by the last segment of their path.
pub open spec fn size_of_name(id: Seq<char>) -> Option<u32> {
    if id == "f32"@ {
        Some(1u32)
    } else if id == "Vec2"@ {
        Some(2u32)
    } else if id == "Vec3"@ {
        Some(3u32)
    } else if id == "Vec4"@ {
        Some(4u32)
    } else {
        None
    }
}

/// A field type's size in floats, or why it cannot be state.
pub open spec fn type_size_of(t: TypeRef) -> Result<u32, ErrorView> {
    match t.kind {
        TypeKind::Path(segs) => if segs@.len() == 0 {
            Err(err_at(t.span, "cellarium C001: empty type path"@))
        } else {
            let id = segs@.last()@;
            match size_of_name(id) {
                Some(n) => Ok(n),
                None => Err(err_at(t.span, c001_text(id))),
            }
        },
        TypeKind::Other(src) => Err(err_at(t.span, c001_text(src@))),
    }
}

/// The sizes of the fields `fs[i..]` appended to `acc`, or the first error.
pub open spec fn sizes_from(fs: Seq<StateField>, i: int, acc: Seq<u32>) -> Result<Seq<u32>, ErrorView>
    decreases fs.len() - i,
{
    if 0 <= i < fs.len() {
        match type_size_of(fs[i].ty) {
            Err(x) => Err(x),
            Ok(s) => sizes_from(fs, i + 1, acc.push(s)),
        }
    } else {
        Ok(acc)
    }
}

pub open spec fn total_of(ss: Seq<u32>) -> nat
    decreases ss.len(),
{
    if ss.len() == 0 { 0 } else { total_of(ss.drop_last()) + ss.last() as nat }
}

// ---------------------------------------------------------------------------
// Greedy packing
// ---------------------------------------------------------------------------

/// Where a field of `size` channels goes when the current texture is `tex`
/// and its next free channel is `off`: there if it fits, else at the start
/// of the next texture.
pub open spec fn place(tex: nat, off: nat, size: nat) -> (nat, nat) {
    if off + size > 4 { (tex + 1, 0) } else { (tex, off) }
}

/// The current texture and next free channel after the first `k` fields.
pub open spec fn cursor(ss: Seq<u32>, k: int) -> (nat, nat)
    decreases k,
{
    if k <= 0 {
        (0, 0)
    } else {
        let c = cursor(ss, k - 1);
        let p = place(c.0, c.1, ss[k - 1] as nat);
        (p.0, p.1 + ss[k - 1] as nat)
    }
}

/// The texture and first channel of field `k`.
pub open spec fn slot(ss: Seq<u32>, k: int) -> (nat, nat) {
    let c = cursor(ss, k);
    place(c.0, c.1, ss[k] as nat)
}

/// How many textures the packing uses.
pub open spec fn textures_used(ss: Seq<u32>) -> nat {
    if ss.len() == 0 { 0 } else { cursor(ss, ss.len() as int).0 + 1 }
}

/// The layout of fields named `fs` with sizes `ss`.
pub open spec fn packing(fs: Seq<StateField>, ss: Seq<u32>) -> LayoutView {
    LayoutView {
        texture_count: textures_used(ss),
        fields: Seq::new(ss.len(), |k: int| SlotView {
            name: fs[k].name@,
            texture: slot(ss, k).0,
            offset: slot(ss, k).1,
            size: ss[k] as nat,
        }),
    }
}

pub open spec fn c002_text(total: nat) -> Seq<char> {
    "cellarium C002: State exceeds maximum of 32 floats ("@ + dec(total)
    + " declared). Reduce the number of state fields."@
}

pub open spec fn c002_textures_text(count: nat) -> Seq<char> {
    "cellarium C002: State needs "@ + dec(count)
    + " textures after packing; the maximum is 8. Reorder the state fields so that they pack more tightly."@
}

/// The layout of a state struct, or the first error the derive reports.
pub open spec fn layout_of(input: StateInput) -> Result<LayoutView, ErrorView> {
    match input.data {
        StateData::NotStruct => Err(err_at(input.span, "cellarium: CellState can only be derived on structs"@)),
        StateData::Unnamed => Err(err_at(input.span, "cellarium: CellState requires named fields"@)),
        StateData::Named(fs) => match sizes_from(fs@, 0, Seq::empty()) {
            Err(x) => Err(x),
            Ok(ss) => if total_of(ss) > 32 {
                Err(err_at(input.span, c002_text(total_of(ss))))
            } else if textures_used(ss) > 8 {
                Err(err_at(input.span, c002_textures_text(textures_used(ss))))
            } else {
                Ok(packing(fs@, ss))
            },
        },
    }
}

/// The field count stays far from where the float total could overflow.
pub open spec fn input_fits(input: StateInput) -> bool {
    input.data matches StateData::Named(fs) ==> fs.len() < 0x1000_0000
}

// ---------------------------------------------------------------------------
// Executable
// ---------------------------------------------------------------------------

fn c001(span: SpanId, t: &str) -> (e: MacroError)
    ensures
        e@ == err_at(span, c001_text(t@)),
{
    let mut m = text("cellarium C001: '");
    push(&mut m, t);
    push(&mut m, "' is not a GPU-compatible type. State fields must be f32, Vec2, Vec3, or Vec4.");
    MacroError::new(span, m)
}

/// The size in floats of a state field's type (see [`type_size_of`]).
pub fn type_size(ty: &TypeRef) -> (r: Result<u32, MacroError>)
    ensures
        match r {
            Ok(n) => type_size_of(*ty) == Ok::<u32, ErrorView>(n),
            Err(e) => type_size_of(*ty) == Err::<u32, ErrorView>(e@),
        },
{
    match &ty.kind {
        TypeKind::Path(segs) => {
            let n = segs.len();
            if n == 0 {
                return Err(MacroError::new(ty.span, text("cellarium C001: empty type path")));
            }
            let ident = segs[n - 1].as_str();
            if str_eq(ident, "f32") {
                Ok(1)
            } else if str_eq(ident, "Vec2") {
                Ok(2)
            } else if str_eq(ident, "Vec3") {
                Ok(3)
            } else if str_eq(ident, "Vec4") {
                Ok(4)
            } else {
                Err(c001(ty.span, ident))
            }
        }
        TypeKind::Other(src) => Err(c001(ty.span, src.as_str())),
    }
}

proof fn lemma_total_push(ss: Seq<u32>, s: u32)
    ensures
        total_of(ss.push(s)) == total_of(ss) + s,
{
    assert(ss.push(s).drop_last() =~= ss);
}

proof fn lemma_sizes_bounded(fs: Seq<StateField>, i: int, acc: Seq<u32>)
    requires
        0 <= i <= fs.len(),
        sizes_from(fs, i, acc) is Ok,
        acc.len() == i,
    ensures
        sizes_from(fs, i, acc)->Ok_0.len() == fs.len(),
        forall|k: int| 0 <= k < acc.len() ==> sizes_from(fs, i, acc)->Ok_0[k] == acc[k],
        forall|k: int| i <= k < fs.len() ==> type_size_of(#[trigger] fs[k].ty) == Ok::<u32, ErrorView>(sizes_from(fs, i, acc)->Ok_0[k]),
    decreases fs.len() - i,
{
    if i < fs.len() {
        let s = type_size_of(fs[i].ty)->Ok_0;
        lemma_sizes_bounded(fs, i + 1, acc.push(s));
        assert(acc.push(s)[i] == s);
        assert forall|k: int| 0 <= k < acc.len() implies sizes_from(fs, i, acc)->Ok_0[k] == acc[k] by {
            assert(acc.push(s)[k] == acc[k]);
        }
    }
}

fn field_sizes(fields: &Vec<StateField>) -> (r: Result<Vec<u32>, MacroError>)
    requires
        fields.len() < 0x1000_0000,
    ensures
        match r {
            Ok(ss) => sizes_from(fields@, 0, Seq::empty()) == Ok::<Seq<u32>, ErrorView>(ss@),
            Err(e) => sizes_from(fields@, 0, Seq::empty()) == Err::<Seq<u32>, ErrorView>(e@),
        },
{
    let mut sizes: Vec<u32> = Vec::new();
    let n = fields.len();
    let mut i: usize = 0;
    while i < n
        invariant
            n == fields.len(),
            0 <= i <= n,
            sizes_from(fields@, 0, Seq::empty()) == sizes_from(fields@, i as int, sizes@),
        decreases n - i,
    {
        match type_size(&fields[i].ty) {
            Err(e) => {
                return Err(e);
            },
            Ok(s) => {
                sizes.push(s);
            },
        }
        i = i + 1;
    }
    Ok(sizes)
}

/// Every size is between 1 and 4 and the sizes add up to at most `4 * len`.
proof fn lemma_sizes_small(fs: Seq<StateField>, ss: Seq<u32>)
    requires
        sizes_from(fs, 0, Seq::empty()) == Ok::<Seq<u32>, ErrorView>(ss),
    ensures
        ss.len() == fs.len(),
        forall|k: int| 0 <= k < ss.len() ==> 1 <= #[trigger] ss[k] <= 4,
        forall|k: int| 0 <= k < ss.len() ==> type_size_of(#[trigger] fs[k].ty) == Ok::<u32, ErrorView>(ss[k]),
{
    lemma_sizes_bounded(fs, 0, Seq::empty());
    assert forall|k: int| 0 <= k < ss.len() implies 1 <= #[trigger] ss[k] <= 4 by {
        assert(type_size_of(fs[k].ty) == Ok::<u32, ErrorView>(ss[k]));
    }
}

proof fn lemma_total_prefix(ss: Seq<u32>, k: int)
    requires
        0 <= k <= ss.len(),
        forall|j: int| 0 <= j < ss.len() ==> #[trigger] ss[j] <= 4,
    ensures
        total_of(ss.take(k)) <= 4 * k,
    decreases k,
{
    if k > 0 {
        lemma_total_prefix(ss, k - 1);
        assert(ss.take(k).drop_last() =~= ss.take(k - 1));
    }
}

fn sum_sizes(sizes: &Vec<u32>) -> (t: u32)
    requires
        sizes.len() < 0x1000_0000,
        forall|k: int| 0 <= k < sizes.len() ==> #[trigger] sizes@[k] <= 4,
    ensures
        t == total_of(sizes@),
{
    let mut total: u32 = 0;
    let n = sizes.len();
    let mut i: usize = 0;
    while i < n
        invariant
            n == sizes.len(),
            n < 0x1000_0000,
            forall|k: int| 0 <= k < sizes.len() ==> #[trigger] sizes@[k] <= 4,
            0 <= i <= n,
            total == total_of(sizes@.take(i as int)),
        decreases n - i,
    {
        proof {
            lemma_total_prefix(sizes@, i as int);
            lemma_total_push(sizes@.take(i as int), sizes@[i as int]);
            assert(sizes@.take(i as int + 1) =~= sizes@.take(i as int).push(sizes@[i as int]));
        }
        total = total + sizes[i];
        i = i + 1;
    }
    assert(sizes@.take(n as int) =~= sizes@);
    total
}

/// The cursor stays inside a texture and moves by at most one texture per field.
pub(crate) proof fn lemma_cursor_bounds(ss: Seq<u32>, k: int)
    requires
        0 <= k <= ss.len(),
        forall|j: int| 0 <= j < ss.len() ==> 1 <= #[trigger] ss[j] <= 4,
    ensures
        cursor(ss, k).1 <= 4,
        cursor(ss, k).0 <= k,
    decreases k,
{
    if k > 0 {
        lemma_cursor_bounds(ss, k - 1);
    }
}

fn pack(fields: &Vec<StateField>, sizes: &Vec<u32>) -> (r: (u32, Vec<PackedField>))
    requires
        sizes.len() == fields.len(),
        sizes.len() < 0x1000_0000,
        forall|k: int| 0 <= k < sizes.len() ==> 1 <= #[trigger] sizes@[k] <= 4,
    ensures
        r.0 as nat == textures_used(sizes@),
        r.1@.map_values(|f: PackedField| f@) == packing(fields@, sizes@).fields,
{
    let ghost ss = sizes@;
    let mut mappings: Vec<PackedField> = Vec::new();
    let mut current_tex: u32 = 0;
    let mut current_offset: u32 = 0;
    let n = sizes.len();
    let mut i: usize = 0;
    while i < n
        invariant
            n == sizes.len(),
            ss == sizes@,
            n == fields.len(),
            n < 0x1000_0000,
            forall|k: int| 0 <= k < ss.len() ==> 1 <= #[trigger] ss[k] <= 4,
            0 <= i <= n,
            (current_tex as nat, current_offset as nat) == cursor(ss, i as int),
            mappings@.len() == i,
            forall|k: int| 0 <= k < i ==> (#[trigger] mappings@[k])@ == packing(fields@, ss).fields[k],
        decreases n - i,
    {
        proof { lemma_cursor_bounds(ss, i as int); }
        let size = sizes[i];
        if current_offset + size > 4 {
            current_tex = current_tex + 1;
            current_offset = 0;
        }
        mappings.push(PackedField { name: fields[i].name.clone(), texture: current_tex, offset: current_offset, size });
        current_offset = current_offset + size;
        i = i + 1;
    }
    proof { lemma_cursor_bounds(ss, n as int); }
    let texture_count = if n == 0 { 0 } else { current_tex + 1 };
    assert(mappings@.map_values(|f: PackedField| f@) =~= packing(fields@, ss).fields);
    (texture_count, mappings)
}

fn c002(span: SpanId, total: u32) -> (e: MacroError)
    ensures
        e@ == err_at(span, c002_text(total as nat)),
{
    let mut m = text("cellarium C002: State exceeds maximum of 32 floats (");
    push_dec(&mut m, total as u64);
    push(&mut m, " declared). Reduce the number of state fields.");
    MacroError::new(span, m)
}

fn c002_textures(span: SpanId, count: u32) -> (e: MacroError)
    ensures
        e@ == err_at(span, c002_textures_text(count as nat)),
{
    let mut m = text("cellarium C002: State needs ");
    push_dec(&mut m, count as u64);
    push(&mut m, " textures after packing; the maximum is 8. Reorder the state fields so that they pack more tightly.");
    MacroError::new(span, m)
}

/// Computes the texture layout of a state struct (see [`layout_of`]).
pub fn derive_cell_state_impl(input: &StateInput) -> (r: Result<StateLayout, MacroError>)
    requires
        input_fits(*input),
    ensures
        match r {
            Ok(l) => layout_of(*input) == Ok::<LayoutView, ErrorView>(l@),
            Err(e) => layout_of(*input) == Err::<LayoutView, ErrorView>(e@),
        },
{
    let fields = match &input.data {
        StateData::Named(fs) => fs,
        StateData::Unnamed => {
            return Err(MacroError::new(input.span, text("cellarium: CellState requires named fields")));
        }
        StateData::NotStruct => {
            return Err(MacroError::new(input.span, text("cellarium: CellState can only be derived on structs")));
        }
    };
    let sizes = match field_sizes(fields) {
        Ok(s) => s,
        Err(e) => { return Err(e); }
    };
    proof { lemma_sizes_small(fields@, sizes@); }
    let total_floats = sum_sizes(&sizes);
    if total_floats > MAX_STATE_FLOATS {
        return Err(c002(input.span, total_floats));
    }
    let (texture_count, mappings) = pack(fields, &sizes);
    if texture_count > MAX_STATE_TEXTURES {
        return Err(c002_textures(input.span, texture_count));
    }
    Ok(StateLayout { texture_count, fields: mappings })
}

// ---------------------------------------------------------------------------
// Writing default values into the textures
// ---------------------------------------------------------------------------

/// One float of a field's default value and where it goes: field `field`,
/// its component `component` (x, y, z, w), into texture `texture`, channel
/// `channel`.
pub struct TexelWrite {
    pub field: usize,
    pub component: u32,
    pub texture: u32,
    pub channel: u32,
}

/// The writes of field `k`: each of its components into consecutive
/// channels from its offset.
pub open spec fn field_writes(fields: Seq<SlotView>, k: int) -> Seq<(nat, nat, nat, nat)> {
    Seq::new(fields[k].size, |c: int| (k as nat, c as nat, fields[k].texture, fields[k].offset + c as nat))
}

/// The writes of the first `k` fields, field by field.
pub open spec fn writes_upto(fields: Seq<SlotView>, k: int) -> Seq<(nat, nat, nat, nat)>
    decreases k,
{
    if k <= 0 { Seq::empty() } else { writes_upto(fields, k - 1) + field_writes(fields, k - 1) }
}

pub open spec fn write_view(w: TexelWrite) -> (nat, nat, nat, nat) {
    (w.field as nat, w.component as nat, w.texture as nat, w.channel as nat)
}

/// Where every float of the default state goes in the textures (see [`writes_upto`]).
pub fn default_writes(layout: &StateLayout) -> (r: Vec<TexelWrite>)
    requires
        forall|k: int| 0 <= k < layout.fields@.len() ==>
            (#[trigger] layout.fields@[k]).offset + layout.fields@[k].size <= 4,
    ensures
        r@.map_values(|w: TexelWrite| write_view(w)) == writes_upto(layout@.fields, layout@.fields.len() as int),
{
    let ghost fs = layout@.fields;
    let mut out: Vec<TexelWrite> = Vec::new();
    let n = layout.fields.len();
    let mut k: usize = 0;
    while k < n
        invariant
            n == layout.fields.len(),
            fs == layout@.fields,
            fs.len() == n,
            forall|j: int| 0 <= j < n ==> (#[trigger] layout.fields@[j]).offset + layout.fields@[j].size <= 4,
            0 <= k <= n,
            out@.map_values(|w: TexelWrite| write_view(w)) == writes_upto(fs, k as int),
        decreases n - k,
    {
        let f = &layout.fields[k];
        assert(fs[k as int] == f@);
        let ghost before = out@.map_values(|w: TexelWrite| write_view(w));
        let mut c: u32 = 0;
        while c < f.size
            invariant
                0 <= c <= f.size,
                f.offset + f.size <= 4,
                fs[k as int] == f@,
                0 <= k < n,
                fs.len() == n,
                out@.map_values(|w: TexelWrite| write_view(w)) == before + field_writes(fs, k as int).take(c as int),
            decreases f.size - c,
        {
            let ghost prev = out@;
            out.push(TexelWrite { field: k, component: c, texture: f.texture, channel: f.offset + c });
            proof {
                assert(out@.map_values(|w: TexelWrite| write_view(w))
                    =~= before + field_writes(fs, k as int).take(c as int + 1)) by {
                    let m = out@.map_values(|w: TexelWrite| write_view(w));
                    let pm = prev.map_values(|w: TexelWrite| write_view(w));
                    assert(pm == before + field_writes(fs, k as int).take(c as int));
                    let fw = field_writes(fs, k as int);
                    assert(fw.len() == f.size);
                    assert(pm.len() == before.len() + c);
                    let rhs = before + fw.take(c as int + 1);
                    assert(rhs.len() == m.len());
                    assert forall|i: int| 0 <= i < m.len() implies
                        #[trigger] m[i] == rhs[i] by {
                        if i < prev.len() {
                            assert(out@[i] == prev[i]);
                            assert(m[i] == pm[i]);
                            assert(rhs[i] == pm[i]);
                        } else {
                            assert(i == before.len() + c);
                            assert(rhs[i] == fw[c as int]);
                            assert(out@[i] == TexelWrite { field: k, component: c, texture: f.texture, channel: (f.offset + c) as u32 });
                        }
                    }
                }
            }
            c = c + 1;
        }
        proof {
            assert(field_writes(fs, k as int).take(f.size as int) =~= field_writes(fs, k as int));
        }
        k = k + 1;
    }
    out
}

// ---------------------------------------------------------------------------
// Properties of the packing
// ---------------------------------------------------------------------------

/// `a` comes no later than `b` in (texture, channel) order.
pub open spec fn lex_le(a: (nat, nat), b: (nat, nat)) -> bool {
    a.0 < b.0 || (a.0 == b.0 && a.1 <= b.1)
}

/// The floats taken by the first `k` fields of a layout.
pub open spec fn floats_upto(fields: Seq<SlotView>, k: int) -> nat
    decreases k,
{
    if k <= 0 { 0 } else { floats_upto(fields, k - 1) + fields[k - 1].size }
}

pub(crate) proof fn lemma_cursor_step(ss: Seq<u32>, k: int)
    requires
        0 <= k < ss.len(),
        forall|j: int| 0 <= j < ss.len() ==> 1 <= #[trigger] ss[j] <= 4,
    ensures
        lex_le(cursor(ss, k), slot(ss, k)),
        lex_le(slot(ss, k), cursor(ss, k + 1)),
        cursor(ss, k + 1) == (slot(ss, k).0, slot(ss, k).1 + ss[k] as nat),
        slot(ss, k).1 + ss[k] <= 4,
        slot(ss, k).0 <= cursor(ss, k).0 + 1,
{
    lemma_cursor_bounds(ss, k);
}

pub(crate) proof fn lemma_cursor_monotone(ss: Seq<u32>, j: int, k: int)
    requires
        0 <= j <= k <= ss.len(),
        forall|i: int| 0 <= i < ss.len() ==> 1 <= #[trigger] ss[i] <= 4,
    ensures
        lex_le(cursor(ss, j), cursor(ss, k)),
    decreases k - j,
{
    if j < k {
        lemma_cursor_monotone(ss, j, k - 1);
        lemma_cursor_step(ss, k - 1);
    }
}

proof fn lemma_floats_upto(fs: Seq<StateField>, ss: Seq<u32>, k: int)
    requires
        ss.len() == fs.len(),
        0 <= k <= ss.len(),
    ensures
        floats_upto(packing(fs, ss).fields, k) == total_of(ss.take(k)),
    decreases k,
{
    if k > 0 {
        lemma_floats_upto(fs, ss, k - 1);
        assert(ss.take(k).drop_last() =~= ss.take(k - 1));
    }
}

/// Every field of a derived layout lies inside one texture: it starts at a
/// channel such that all its channels (one to four) fit in the four of an
/// RGBA texture, in a texture below the layout's texture count. The layout
/// uses at most eight textures and 32 floats.
pub proof fn law_fields_fit_in_textures(input: StateInput, l: LayoutView)
    requires
        layout_of(input) == Ok::<LayoutView, ErrorView>(l),
    ensures
        l.texture_count <= 8,
        floats_upto(l.fields, l.fields.len() as int) <= 32,
        forall|k: int| 0 <= k < l.fields.len() ==> {
            &&& 1 <= (#[trigger] l.fields[k]).size <= 4
            &&& l.fields[k].offset + l.fields[k].size <= 4
            &&& l.fields[k].texture < l.texture_count
        },
{
    let fs = input.data->Named_0@;
    let ss = sizes_from(fs, 0, Seq::empty())->Ok_0;
    lemma_sizes_small(fs, ss);
    lemma_floats_upto(fs, ss, ss.len() as int);
    assert(ss.take(ss.len() as int) =~= ss);
    assert forall|k: int| 0 <= k < l.fields.len() implies {
        &&& 1 <= (#[trigger] l.fields[k]).size <= 4
        &&& l.fields[k].offset + l.fields[k].size <= 4
        &&& l.fields[k].texture < l.texture_count
    } by {
        lemma_cursor_step(ss, k);
        lemma_cursor_monotone(ss, k + 1, ss.len() as int);
    }
}

/// The fields of a derived layout never share a channel: a later field
/// starts in a later texture, or in the same texture after the earlier
/// field's last channel.
pub proof fn law_fields_disjoint(input: StateInput, l: LayoutView, j: int, k: int)
    requires
        layout_of(input) == Ok::<LayoutView, ErrorView>(l),
        0 <= j < k < l.fields.len(),
    ensures
        l.fields[j].texture < l.fields[k].texture
            || (l.fields[j].texture == l.fields[k].texture
                && l.fields[j].offset + l.fields[j].size <= l.fields[k].offset),
{
    let fs = input.data->Named_0@;
    let ss = sizes_from(fs, 0, Seq::empty())->Ok_0;
    lemma_sizes_small(fs, ss);
    lemma_cursor_step(ss, j);
    lemma_cursor_step(ss, k);
    lemma_cursor_monotone(ss, j + 1, k);
}

/// A derived layout lists the fields in declaration order, each with its
/// type's size; the first field starts texture 0 at channel 0, and each
/// later field either follows the previous one in the same texture or,
/// when it does not fit in what is left of it, starts the next texture.
pub proof fn law_greedy_declaration_order(input: StateInput, l: LayoutView)
    requires
        layout_of(input) == Ok::<LayoutView, ErrorView>(l),
    ensures
        input.data is Named,
        l.fields.len() == input.data->Named_0@.len(),
        forall|k: int| 0 <= k < l.fields.len() ==> {
            &&& (#[trigger] l.fields[k]).name == input.data->Named_0@[k].name@
            &&& type_size_of(input.data->Named_0@[k].ty) == Ok::<u32, ErrorView>(l.fields[k].size as u32)
        },
        l.fields.len() > 0 ==> l.fields[0].texture == 0 && l.fields[0].offset == 0,
        forall|k: int| 0 < k < l.fields.len() ==> {
            let prev = l.fields[k - 1];
            let cur = #[trigger] l.fields[k];
            if prev.offset + prev.size + cur.size <= 4 {
                cur.texture == prev.texture && cur.offset == prev.offset + prev.size
            } else {
                cur.texture == prev.texture + 1 && cur.offset == 0
            }
        },
        l.texture_count == if l.fields.len() == 0 { 0 } else { l.fields[l.fields.len() - 1].texture + 1 },
{
    let fs = input.data->Named_0@;
    let ss = sizes_from(fs, 0, Seq::empty())->Ok_0;
    lemma_sizes_small(fs, ss);
    assert forall|k: int| 0 < k < l.fields.len() implies {
        let prev = l.fields[k - 1];
        let cur = #[trigger] l.fields[k];
        if prev.offset + prev.size + cur.size <= 4 {
            cur.texture == prev.texture && cur.offset == prev.offset + prev.size
        } else {
            cur.texture == prev.texture + 1 && cur.offset == 0
        }
    } by {
        lemma_cursor_step(ss, k - 1);
    }
    if ss.len() > 0 {
        lemma_cursor_step(ss, ss.len() - 1);
    }
}

/// The derive's sizes are one to four floats each, one per field.
pub(crate) proof fn lemma_sizes_fit(fs: Seq<StateField>, ss: Seq<u32>)
    requires
        sizes_from(fs, 0, Seq::empty()) == Ok::<Seq<u32>, ErrorView>(ss),
    ensures
        ss.len() == fs.len(),
        forall|k: int| 0 <= k < ss.len() ==> 1 <= #[trigger] ss[k] <= 4,
{
    lemma_sizes_small(fs, ss);
}

/// Every field takes at least one float.
pub(crate) proof fn lemma_floats_at_least_count(fields: Seq<SlotView>, k: int)
    requires
        0 <= k <= fields.len(),
        forall|j: int| 0 <= j < fields.len() ==> 1 <= (#[trigger] fields[j]).size,
    ensures
        floats_upto(fields, k) >= k,
    decreases k,
{
    if k > 0 {
        lemma_floats_at_least_count(fields, k - 1);
    }
}

} // verus!
