//! The simulation's configuration, the ping-pong pair of state textures,
//! and the decisions the window takes on each key.
use vstd::prelude::*;
use crate::text::text;

verus! {

// ---------------------------------------------------------------------------
// Configuration
// ---------------------------------------------------------------------------

/// How a simulation is set up before it runs: grid size, window size (the
/// window is maximised when none is given), title, ticks per frame, and
/// whether it starts paused. The cell type is the parameter.
pub struct Simulation<T> {
    pub width: u32,
    pub height: u32,
    pub window_width: Option<u32>,
    pub window_height: Option<u32>,
    pub title: String,
    pub ticks_per_frame: u32,
    pub paused: bool,
    pub cell: core::marker::PhantomData<T>,
}

impl<T> Simulation<T> {
    /// A simulation of a `width` × `height` grid, titled "Cellarium", one
    /// tick per frame, running, in a maximised window.
    pub fn new(width: u32, height: u32) -> (s: Self)
        ensures
            s.width == width,
            s.height == height,
            s.window_width is None,
            s.window_height is None,
            s.title@ == "Cellarium"@,
            s.ticks_per_frame == 1,
            !s.paused,
    {
        Simulation {
            width,
            height,
            window_width: None,
            window_height: None,
            title: text("Cellarium"),
            ticks_per_frame: 1,
            paused: false,
            cell: core::marker::PhantomData,
        }
    }

    pub fn title(self, title: &str) -> (s: Self)
        ensures
            s.title@ == title@,
            s.width == self.width && s.height == self.height,
            s.window_width == self.window_width && s.window_height == self.window_height,
            s.ticks_per_frame == self.ticks_per_frame,
            s.paused == self.paused,
    {
        Simulation { title: text(title), ..self }
    }

    pub fn ticks_per_frame(self, n: u32) -> (s: Self)
        ensures
            s.ticks_per_frame == n,
            s.title@ == self.title@,
            s.width == self.width && s.height == self.height,
            s.window_width == self.window_width && s.window_height == self.window_height,
            s.paused == self.paused,
    {
        Simulation { ticks_per_frame: n, ..self }
    }

    pub fn paused(self, paused: bool) -> (s: Self)
        ensures
            s.paused == paused,
            s.title@ == self.title@,
            s.width == self.width && s.height == self.height,
            s.window_width == self.window_width && s.window_height == self.window_height,
            s.ticks_per_frame == self.ticks_per_frame,
    {
        Simulation { paused, ..self }
    }

    pub fn window_size(self, width: u32, height: u32) -> (s: Self)
        ensures
            s.window_width == Some(width),
            s.window_height == Some(height),
            s.title@ == self.title@,
            s.width == self.width && s.height == self.height,
            s.ticks_per_frame == self.ticks_per_frame,
            s.paused == self.paused,
    {
        Simulation { window_width: Some(width), window_height: Some(height), ..self }
    }
}

/// Bytes of the fixed part of the uniform block: tick, zoom, resolution,
/// camera and viewport.
pub const UNIFORM_HEADER_BYTES: u64 = 32;

/// The size of the uniform buffer: the fixed part, then the parameters
/// packed four to a 16-byte `vec4f`.
pub fn uniform_buffer_size(param_count: usize) -> (r: u64)
    requires
        param_count + 3 <= usize::MAX,
        32 + 16 * ((param_count + 3) / 4) <= u64::MAX,
    ensures
        r == 32 + 16 * ((param_count + 3) / 4),
{
    let param_vec4s = (param_count + 3) / 4;
    UNIFORM_HEADER_BYTES + 16 * (param_vec4s as u64)
}

// ---------------------------------------------------------------------------
// Ping-pong state textures
// ---------------------------------------------------------------------------

/// The two sets of state textures (and their views): one is read while the
/// other is written, and they trade places after every tick.
pub struct TextureState<T, W> {
    pub textures_a: Vec<T>,
    pub textures_b: Vec<T>,
    pub views_a: Vec<W>,
    pub views_b: Vec<W>,
    /// `false`: read A, write B; `true`: read B, write A.
    pub phase: bool,
    pub width: u32,
    pub height: u32,
    pub texture_count: u32,
}

impl<T, W> TextureState<T, W> {
    /// The textures of set A and set B, with their views; reading starts on A.
    pub fn new(textures_a: Vec<T>, textures_b: Vec<T>, views_a: Vec<W>, views_b: Vec<W>,
        width: u32, height: u32, texture_count: u32) -> (s: Self)
        requires
            textures_a.len() == texture_count,
            textures_b.len() == texture_count,
            views_a.len() == texture_count,
            views_b.len() == texture_count,
        ensures
            s.wf(),
            s.textures_a@ == textures_a@,
            s.textures_b@ == textures_b@,
            s.views_a@ == views_a@,
            s.views_b@ == views_b@,
            !s.phase,
            s.width == width,
            s.height == height,
            s.texture_count == texture_count,
    {
        TextureState { textures_a, textures_b, views_a, views_b, phase: false, width, height, texture_count }
    }

    /// Each set holds one texture, with its view, per state texture.
    pub open spec fn wf(&self) -> bool {
        &&& self.textures_a@.len() == self.texture_count
        &&& self.textures_b@.len() == self.texture_count
        &&& self.views_a@.len() == self.texture_count
        &&& self.views_b@.len() == self.texture_count
    }

    pub open spec fn reading(&self) -> Seq<W> {
        if self.phase { self.views_b@ } else { self.views_a@ }
    }

    pub open spec fn writing(&self) -> Seq<W> {
        if self.phase { self.views_a@ } else { self.views_b@ }
    }

    /// The views of the textures holding the current state.
    pub fn read_views(&self) -> (r: &[W])
        ensures
            r@ == self.reading(),
    {
        if self.phase { self.views_b.as_slice() } else { self.views_a.as_slice() }
    }

    /// The views of the textures the next state is written to.
    pub fn write_views(&self) -> (r: &[W])
        ensures
            r@ == self.writing(),
    {
        if self.phase { self.views_a.as_slice() } else { self.views_b.as_slice() }
    }

    /// The textures holding the current state.
    pub fn read_textures(&self) -> (r: &[T])
        ensures
            r@ == if self.phase { self.textures_b@ } else { self.textures_a@ },
    {
        if self.phase { self.textures_b.as_slice() } else { self.textures_a.as_slice() }
    }

    /// The textures the next state is written to.
    pub fn write_textures(&self) -> (r: &[T])
        ensures
            r@ == if self.phase { self.textures_a@ } else { self.textures_b@ },
    {
        if self.phase { self.textures_a.as_slice() } else { self.textures_b.as_slice() }
    }

    /// Makes the written set the one that is read, and the other way round.
    pub fn swap(&mut self)
        ensures
            final(self).phase == !old(self).phase,
            final(self).textures_a@ == old(self).textures_a@,
            final(self).textures_b@ == old(self).textures_b@,
            final(self).views_a@ == old(self).views_a@,
            final(self).views_b@ == old(self).views_b@,
            final(self).width == old(self).width,
            final(self).height == old(self).height,
            final(self).texture_count == old(self).texture_count,
    {
        self.phase = !self.phase;
    }
}

/// After a swap the set just written is the one read, and the set just read
/// is the one written next; two swaps restore the phase.
pub proof fn law_swap_exchanges_roles<T, W>(before: TextureState<T, W>, after: TextureState<T, W>, again: TextureState<T, W>)
    requires
        after.phase == !before.phase,
        after.views_a@ == before.views_a@,
        after.views_b@ == before.views_b@,
        again.phase == !after.phase,
    ensures
        after.reading() == before.writing(),
        after.writing() == before.reading(),
        again.phase == before.phase,
{
}

/// The bytes that fill a texture of `width` × `height` texels with one
/// 16-byte texel, row after row.
pub fn texel_fill(texel: [u8; 16], width: u32, height: u32) -> (data: Vec<u8>)
    requires
        width * height * 16 <= usize::MAX,
    ensures
        data@.len() == width * height * 16,
        forall|i: int| 0 <= i < data@.len() ==> #[trigger] data@[i] == texel@[i % 16],
{
    let total: usize = (width as usize) * (height as usize) * 16;
    let mut data: Vec<u8> = Vec::new();
    let mut i: usize = 0;
    while i < total
        invariant
            total == width * height * 16,
            0 <= i <= total,
            data@.len() == i,
            forall|k: int| 0 <= k < i ==> #[trigger] data@[k] == texel@[k % 16],
        decreases total - i,
    {
        data.push(texel[i % 16]);
        i = i + 1;
    }
    data
}

// ---------------------------------------------------------------------------
// Window controls
// ---------------------------------------------------------------------------

/// The most ticks per frame that `+` reaches.
pub const MAX_TICKS_PER_FRAME: u32 = 64;

/// The runtime state that the keyboard controls change.
pub struct Controls {
    pub paused: bool,
    pub ticks_per_frame: u32,
    /// The parameter `[` and `]` act on.
    pub selected_param: usize,
    pub param_count: usize,
}

/// The keys the window reacts to.
#[derive(Clone, Copy)]
pub enum Key {
    Escape,
    Space,
    ArrowRight,
    Equal,
    Minus,
    KeyR,
    Tab,
    BracketLeft,
    BracketRight,
    Other,
}

/// What the window does after a key, beyond changing [`Controls`].
#[derive(Clone, Copy, PartialEq, Eq, Structural)]
pub enum Action {
    Exit,
    Redraw,
    /// Run one tick, then redraw.
    StepAndRedraw,
    /// Restart from the initial state, then redraw.
    ResetAndRedraw,
    /// Print the selected parameter.
    ShowParam,
    /// Divide the parameter by the step factor and print it.
    DecreaseParam(usize),
    /// Multiply the parameter by the step factor and print it.
    IncreaseParam(usize),
    Nothing,
}

impl Controls {
    pub open spec fn same(&self, other: &Self) -> bool {
        &&& self.paused == other.paused
        &&& self.ticks_per_frame == other.ticks_per_frame
        &&& self.selected_param == other.selected_param
        &&& self.param_count == other.param_count
    }

    /// The controls after a key and the action it asks for: Escape quits,
    /// Space pauses or resumes, → steps while paused, `=` and `-` change the
    /// ticks per frame (up to 64, down to 1), R resets, Tab selects the next
    /// parameter, `[` and `]` scale the selected one.
    pub fn on_key(&mut self, key: Key) -> (a: Action)
        ensures
            final(self).param_count == old(self).param_count,
            key is Escape ==> a is Exit && final(self).same(&*old(self)),
            key is Space ==> a is Redraw && final(self).paused == !old(self).paused
                && final(self).ticks_per_frame == old(self).ticks_per_frame
                && final(self).selected_param == old(self).selected_param,
            key is ArrowRight ==> (if old(self).paused { a is StepAndRedraw } else { a is Nothing })
                && final(self).same(&*old(self)),
            key is Equal ==> a is Nothing
                && final(self).ticks_per_frame == (if old(self).ticks_per_frame + 1 <= 64 {
                    old(self).ticks_per_frame + 1
                } else {
                    64
                })
                && final(self).paused == old(self).paused
                && final(self).selected_param == old(self).selected_param,
            key is Minus ==> a is Nothing
                && final(self).ticks_per_frame == (if old(self).ticks_per_frame >= 2 {
                    old(self).ticks_per_frame - 1
                } else {
                    1
                })
                && final(self).paused == old(self).paused
                && final(self).selected_param == old(self).selected_param,
            key is KeyR ==> a is ResetAndRedraw && final(self).same(&*old(self)),
            key is Tab ==> (if old(self).param_count > 0 {
                a is ShowParam
                    && final(self).selected_param == (old(self).selected_param + 1) % (old(self).param_count as int)
                    && final(self).paused == old(self).paused
                    && final(self).ticks_per_frame == old(self).ticks_per_frame
            } else {
                a is Nothing && final(self).same(&*old(self))
            }),
            key is BracketLeft ==> (if old(self).param_count > 0 {
                a == Action::DecreaseParam(old(self).selected_param)
            } else {
                a is Nothing
            }) && final(self).same(&*old(self)),
            key is BracketRight ==> (if old(self).param_count > 0 {
                a == Action::IncreaseParam(old(self).selected_param)
            } else {
                a is Nothing
            }) && final(self).same(&*old(self)),
            key is Other ==> a is Nothing && final(self).same(&*old(self)),
    {
        match key {
            Key::Space => {
                self.paused = !self.paused;
                Action::Redraw
            }
            Key::ArrowRight => if self.paused { Action::StepAndRedraw } else { Action::Nothing },
            Key::Equal => {
                self.ticks_per_frame = if self.ticks_per_frame < MAX_TICKS_PER_FRAME {
                    self.ticks_per_frame + 1
                } else {
                    MAX_TICKS_PER_FRAME
                };
                Action::Nothing
            }
            Key::Minus => {
                let down = if self.ticks_per_frame >= 1 { self.ticks_per_frame - 1 } else { 0 };
                self.ticks_per_frame = if down >= 1 { down } else { 1 };
                Action::Nothing
            }
            Key::KeyR => Action::ResetAndRedraw,
            Key::Escape => Action::Exit,
            Key::Tab => {
                if self.param_count > 0 {
                    let n = self.param_count;
                    let s = self.selected_param;
                    proof {
                        vstd::arithmetic::div_mod::lemma_add_mod_noop_right(1, s as int, n as int);
                        vstd::arithmetic::div_mod::lemma_mod_bound(s as int, n as int);
                    }
                    self.selected_param = (s % n + 1) % n;
                    Action::ShowParam
                } else {
                    Action::Nothing
                }
            }
            Key::BracketLeft => if self.param_count > 0 { Action::DecreaseParam(self.selected_param) } else { Action::Nothing },
            Key::BracketRight => if self.param_count > 0 { Action::IncreaseParam(self.selected_param) } else { Action::Nothing },
            Key::Other => Action::Nothing,
        }
    }

    /// How many ticks to run before drawing a frame.
    pub fn frame_ticks(&self) -> (n: u32)
        ensures
            n == if self.paused { 0 } else { self.ticks_per_frame },
    {
        if self.paused { 0 } else { self.ticks_per_frame }
    }
}

/// The selected parameter stays a valid index under every key, and the
/// ticks per frame stay between 1 and 64 once they are there.
pub proof fn law_controls_stay_in_range(before: Controls, after: Controls, key: Key, a: Action)
    requires
        before.param_count > 0 ==> before.selected_param < before.param_count,
        1 <= before.ticks_per_frame <= 64,
        after.param_count == before.param_count,
        match key {
            Key::Escape => a is Exit && after.same(&before),
            Key::Space => a is Redraw && after.paused == !before.paused
                && after.ticks_per_frame == before.ticks_per_frame
                && after.selected_param == before.selected_param,
            Key::ArrowRight => after.same(&before),
            Key::Equal => after.ticks_per_frame == if before.ticks_per_frame + 1 <= 64 {
                    before.ticks_per_frame + 1
                } else {
                    64
                }
                && after.selected_param == before.selected_param,
            Key::Minus => after.ticks_per_frame == if before.ticks_per_frame >= 2 {
                    before.ticks_per_frame - 1
                } else {
                    1
                }
                && after.selected_param == before.selected_param,
            Key::Tab => if before.param_count > 0 {
                    after.selected_param == (before.selected_param + 1) % (before.param_count as int)
                        && after.ticks_per_frame == before.ticks_per_frame
                } else {
                    after.same(&before)
                },
            _ => after.same(&before),
        },
    ensures
        after.param_count > 0 ==> after.selected_param < after.param_count,
        1 <= after.ticks_per_frame <= 64,
{
}

} // verus!
