//! The state of the frame loop: a counter of generations and a timer. Once
//! per frame the loop asks whether a generation is due and which draw to
//! make; the answers name the bind group to use, so that a draw always reads
//! the grid that the latest dispatch wrote.

use vstd::prelude::*;
use vstd::arithmetic::div_mod::{lemma_fundamental_div_mod, lemma_fundamental_div_mod_converse};
use crate::bindings::{reads, writes};
use crate::grid::{cell_count, cell_count_spec, valid_dimension};
use crate::runner::WindowEvent;
use crate::simulation::{current_index, current_index_spec};

verus! {

/// The side length of a workgroup of the compute shader.
pub const WORKGROUP_SIZE: u32 = 8;

/// The vertices of the quad that stands for one cell: two triangles.
pub const QUAD_VERTICES: u32 = 6;

/// The time between two generations, in nanoseconds.
pub const GENERATION_NANOS: u64 = 10_000;

/// One run of the compute shader over the whole grid.
#[derive(Clone, Copy, Debug, PartialEq, Eq)]
pub struct Dispatch {
    /// The bind group to run with: 0 or 1.
    pub bind_group: usize,
    /// The number of workgroups along the grid's columns.
    pub workgroups_x: u32,
    /// The number of workgroups along the grid's rows.
    pub workgroups_y: u32,
    /// The number of workgroups in depth: always one.
    pub workgroups_z: u32,
}

/// One instanced draw of the grid.
#[derive(Clone, Copy, Debug, PartialEq, Eq)]
pub struct Draw {
    /// The bind group to draw with: 0 or 1.
    pub bind_group: usize,
    /// The number of vertices of one instance.
    pub vertices: u32,
    /// The number of instances: one for each cell.
    pub instances: u32,
}

/// Why the surface gave no texture to draw on.
#[derive(Clone, Copy, Debug, PartialEq, Eq)]
pub enum SurfaceError {
    /// No texture came in time.
    Timeout,
    /// The surface has changed and must be configured again.
    Outdated,
    /// The surface was lost and must be made again.
    Lost,
    /// No memory is left.
    OutOfMemory,
}

/// The least number of workgroups of side length `size` that cover `cells`
/// cells in a row.
pub open spec fn workgroups_spec(cells: u32, size: u32) -> int {
    (cells + size - 1) / (size as int)
}

/// The least number of workgroups of side length `size` that cover `cells`
/// cells in a row.
pub fn workgroups(cells: u32, size: u32) -> (count: u32)
    requires
        size > 0,
    ensures
        count == workgroups_spec(cells, size),
        count * size >= cells,
        cells > 0 ==> (count - 1) * size < cells,
        cells == 0 ==> count == 0,
{
    let whole: u32 = cells / size;
    let rest: u32 = cells % size;
    proof {
        let c = cells as int;
        let s = size as int;
        lemma_fundamental_div_mod(c, s);
        assert(s * (c / s) == (c / s) * s) by (nonlinear_arith);
        assert((c / s + 1) * s == (c / s) * s + s) by (nonlinear_arith);
        assert((c / s - 1) * s == (c / s) * s - s) by (nonlinear_arith);
        assert((c / s) * s >= c / s) by (nonlinear_arith)
            requires
                s >= 1,
                c / s >= 0,
        ;
        if rest == 0 {
            lemma_fundamental_div_mod_converse(c + s - 1, s, c / s, s - 1);
        } else {
            lemma_fundamental_div_mod_converse(c + s - 1, s, c / s + 1, c % s - 1);
        }
    }
    if rest == 0 {
        whole
    } else {
        whole + 1
    }
}

/// The state of the frame loop as plain values: what the contracts speak
/// of.
pub struct AppView {
    /// The number of vertices of one instance of a draw.
    pub num_vertices: u32,
    /// The side length of the grid.
    pub grid_size: u32,
    /// How many generations have been dispatched.
    pub step: u32,
    /// The time between two generations, in nanoseconds.
    pub generation_duration: u64,
    /// When the latest generation was dispatched, or when the loop started,
    /// in nanoseconds on the caller's clock.
    pub last_generation: u64,
}

impl AppView {
    /// The grid has a usable side length, a draw's instance is the quad,
    /// and the interval is the program's constant.
    pub open spec fn wf(self) -> bool {
        &&& valid_dimension(self.grid_size)
        &&& self.num_vertices == QUAD_VERTICES
        &&& self.generation_duration == GENERATION_NANOS
    }

    /// The state of a loop that has just started at `now` for a grid of side
    /// length `grid_size`.
    pub open spec fn start(grid_size: u32, now: u64) -> AppView {
        AppView {
            num_vertices: QUAD_VERTICES,
            grid_size,
            step: 0,
            generation_duration: GENERATION_NANOS,
            last_generation: now,
        }
    }

    /// A generation is due at `now` when the time since the latest one is
    /// the interval or longer.
    pub open spec fn due(self, now: u64) -> bool {
        now - self.last_generation >= self.generation_duration
    }

    /// The dispatch of the next generation: with the bind group of the
    /// counter's parity, over enough workgroups to cover the grid.
    pub open spec fn dispatch(self) -> Dispatch {
        Dispatch {
            bind_group: current_index_spec(self.step) as usize,
            workgroups_x: workgroups_spec(self.grid_size, WORKGROUP_SIZE) as u32,
            workgroups_y: workgroups_spec(self.grid_size, WORKGROUP_SIZE) as u32,
            workgroups_z: 1,
        }
    }

    /// The draw of the current grid: with the bind group of the counter's
    /// parity, one instance for each cell.
    pub open spec fn draw(self) -> Draw {
        Draw {
            bind_group: current_index_spec(self.step) as usize,
            vertices: self.num_vertices,
            instances: cell_count_spec(self.grid_size) as u32,
        }
    }

    /// What the loop is told when it asks at `now` whether a generation is
    /// due: the dispatch to make if it is, nothing if not.
    pub open spec fn dispatch_at(self, now: u64) -> Option<Dispatch> {
        if self.due(now) {
            Some(self.dispatch())
        } else {
            None
        }
    }

    /// The state after the loop has asked at `now` whether a generation is
    /// due: one generation further and the timer started again if it was,
    /// the same if not.
    pub open spec fn after_update(self, now: u64) -> AppView {
        if self.due(now) {
            AppView { step: (self.step + 1) as u32, last_generation: now, ..self }
        } else {
            self
        }
    }

    /// The state after the loop has asked at each of `times` in turn.
    pub open spec fn after_updates(self, times: Seq<u64>) -> AppView
        decreases times.len(),
    {
        if times.len() == 0 {
            self
        } else {
            self.after_updates(times.drop_last()).after_update(times.last())
        }
    }

    /// Asking before a generation is due changes nothing, however often it
    /// is done: the counter and the timer stay as they are.
    pub proof fn lemma_early_updates_keep_state(self, times: Seq<u64>)
        requires
            forall|i: int| 0 <= i < times.len() ==> !self.due(times[i]),
        ensures
            self.after_updates(times) == self,
            self.after_updates(times).step == self.step,
        decreases times.len(),
    {
        if times.len() > 0 {
            self.lemma_early_updates_keep_state(times.drop_last());
        }
    }

    /// The draw that follows a dispatch reads the grid that the dispatch
    /// wrote, and never the one that the dispatch read.
    pub proof fn lemma_draw_reads_latest(self, now: u64)
        requires
            self.step < u32::MAX,
            self.due(now),
        ensures
            reads(self.after_update(now).draw().bind_group as int) == writes(
                self.dispatch().bind_group as int,
            ),
            reads(self.after_update(now).draw().bind_group as int) != reads(
                self.dispatch().bind_group as int,
            ),
    {
    }

    /// Every draw has one instance for each cell of the grid, and reads the
    /// grid that the parity of the counter names.
    pub proof fn lemma_draw_covers_grid(self)
        requires
            self.wf(),
        ensures
            self.draw().instances == self.grid_size * self.grid_size,
            self.draw().bind_group == self.step % 2,
            reads(self.draw().bind_group as int) == current_index_spec(self.step),
    {
    }

    /// The counter goes up by one with each dispatch and stays where it is
    /// without one.
    pub proof fn lemma_update_counts_dispatches(self, now: u64)
        requires
            self.step < u32::MAX,
        ensures
            self.dispatch_at(now).is_some() ==> self.after_update(now).step == self.step + 1,
            self.dispatch_at(now).is_none() ==> self.after_update(now).step == self.step,
    {
    }
}

/// The state of the frame loop.
#[derive(Clone, Copy, Debug, PartialEq, Eq)]
pub struct App {
    num_vertices: u32,
    grid_size: u32,
    step: u32,
    generation_duration: u64,
    last_generation: u64,
}

impl View for App {
    type V = AppView;

    closed spec fn view(&self) -> AppView {
        AppView {
            num_vertices: self.num_vertices,
            grid_size: self.grid_size,
            step: self.step,
            generation_duration: self.generation_duration,
            last_generation: self.last_generation,
        }
    }
}

impl App {
    #[verifier::type_invariant]
    spec fn inv(&self) -> bool {
        self@.wf()
    }

    /// The state of a loop that starts at `now` for a grid of side length
    /// `grid_size`: no generation yet, the timer started.
    pub fn new(grid_size: u32, now: u64) -> (app: App)
        requires
            valid_dimension(grid_size),
        ensures
            app@ == AppView::start(grid_size, now),
            app@.wf(),
    {
        App {
            num_vertices: QUAD_VERTICES,
            grid_size,
            step: 0,
            generation_duration: GENERATION_NANOS,
            last_generation: now,
        }
    }

    /// The side length of the grid.
    pub fn grid_size(&self) -> (n: u32)
        ensures
            n == self@.grid_size,
            self@.wf(),
    {
        proof {
            use_type_invariant(self);
        }
        self.grid_size
    }

    /// The number of vertices of one instance of a draw.
    pub fn num_vertices(&self) -> (n: u32)
        ensures
            n == self@.num_vertices,
            n == QUAD_VERTICES,
    {
        proof {
            use_type_invariant(self);
        }
        self.num_vertices
    }

    /// How many generations have been dispatched.
    pub fn step(&self) -> (step: u32)
        ensures
            step == self@.step,
    {
        self.step
    }

    /// The time between two generations, in nanoseconds.
    pub fn generation_duration(&self) -> (nanos: u64)
        ensures
            nanos == self@.generation_duration,
            nanos == GENERATION_NANOS,
    {
        proof {
            use_type_invariant(self);
        }
        self.generation_duration
    }

    /// When the latest generation was dispatched, or when the loop started.
    pub fn last_generation(&self) -> (nanos: u64)
        ensures
            nanos == self@.last_generation,
    {
        self.last_generation
    }

    /// Whether a generation is due at `now`.
    pub fn is_due(&self, now: u64) -> (due: bool)
        ensures
            due == self@.due(now),
    {
        now >= self.last_generation && now - self.last_generation >= self.generation_duration
    }

    /// The program handles no event of its own: the answer is always
    /// `false`, and the state stays as it is.
    pub fn input(&mut self, event: &WindowEvent) -> (handled: bool)
        ensures
            !handled,
            final(self)@ == old(self)@,
    {
        false
    }

    /// Asks at `now` whether a generation is due. If it is, the answer is the
    /// dispatch to make, the counter goes up by one and the timer starts
    /// again at `now`; however long the generation was due, it is one
    /// dispatch. If not, there is nothing to do and the state stays as it is.
    pub fn update(&mut self, now: u64) -> (dispatch: Option<Dispatch>)
        requires
            old(self)@.due(now) ==> old(self)@.step < u32::MAX,
        ensures
            final(self)@ == old(self)@.after_update(now),
            dispatch == old(self)@.dispatch_at(now),
            final(self)@.wf(),
    {
        proof {
            use_type_invariant(&*self);
        }
        if self.is_due(now) {
            let count: u32 = workgroups(self.grid_size, WORKGROUP_SIZE);
            let dispatch = Dispatch {
                bind_group: current_index(self.step),
                workgroups_x: count,
                workgroups_y: count,
                workgroups_z: 1,
            };
            self.step = self.step + 1;
            self.last_generation = now;
            Some(dispatch)
        } else {
            None
        }
    }

    /// The draw of this frame, given whether the surface gave a texture to
    /// draw on. With a texture the answer is the draw of the current grid,
    /// one instance for each cell; without, it is the surface's error, and
    /// the frame is left out.
    pub fn render(&self, surface: Result<(), SurfaceError>) -> (outcome: Result<Draw, SurfaceError>)
        ensures
            surface.is_ok() ==> outcome == Ok::<Draw, SurfaceError>(self@.draw()),
            surface.is_err() ==> outcome == Err::<Draw, SurfaceError>(surface->Err_0),
            outcome.is_ok() ==> outcome->Ok_0.instances == self@.grid_size * self@.grid_size,
            outcome.is_ok() ==> outcome->Ok_0.bind_group == self@.step % 2,
            outcome.is_ok() ==> outcome->Ok_0.vertices == QUAD_VERTICES,
    {
        proof {
            use_type_invariant(self);
        }
        match surface {
            Ok(_) => Ok(
                Draw {
                    bind_group: current_index(self.step),
                    vertices: self.num_vertices,
                    instances: cell_count(self.grid_size),
                },
            ),
            Err(error) => Err(error),
        }
    }
}

} // verus!
