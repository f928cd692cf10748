//! A mode-driven policy deciding when a frame is drawn and whether it is
//! retained, returned once, or discarded.
//!
//! The renderer never draws by itself: the caller asks `wants_step_frame` /
//! `wants_fresh_frame` whether a frame is due, computes it against the
//! drawing backend, and hands it over. The policy of what happens to the
//! frame is verified here.

use vstd::prelude::*;

verus! {

/// A collection of various formats describing the type of content produced
/// during a render.
#[derive(Debug, Clone, PartialEq, Eq)]
pub enum Renders {
    /// The structure produced during the use of the SingleRgbArray mode.
    SingleRgbArray(RenderFrame),
    /// The collection of frames produced during the RgbArray mode.
    RgbArray(Vec<RenderFrame>),
    /// The collection of row strings representing the contents of the
    /// environment when using Ansi mode.
    Ansi(Vec<String>),
    /// Indicates that no render has been produced.
    Empty,
}

/// Defines various palettes capable of describing the colour of a pixel.
#[derive(Debug, Clone, PartialEq, Eq, Structural)]
pub enum RenderColor {
    /// Holds the red-green-blue values of some pixel.
    RGB(u8, u8, u8),
}

/// A surface which holds pixels describing the contents produced during a
/// render.
#[derive(Debug, Clone, PartialEq, Eq)]
pub struct RenderFrame(pub Vec<Vec<RenderColor>>);

/// A caller-selected policy governing whether and how a frame is produced
/// and returned.
#[derive(Debug, Clone, Copy, PartialEq, Eq, Structural)]
pub enum RenderMode {
    /// Rendering is done through the terminal or an external display; frames
    /// are never retained.
    Human,
    /// Exactly one freshly computed frame is produced on demand; nothing is
    /// retained across steps.
    SingleRgbArray,
    /// Every step's frame is appended to a list, drained on explicit request
    /// or reset.
    RgbArray,
    /// A text representation of the environment's current state.
    Ansi,
    /// Rendering is skipped entirely.
    Disabled,
}

impl Default for RenderMode {
    fn default() -> (r: Self)
        ensures
            r == RenderMode::Disabled,
    {
        RenderMode::Disabled
    }
}

/// The list of frames a step appends under an accumulating configuration:
/// a single frame handed over is retained, anything else leaves the list as
/// it stands.
pub open spec fn step_frames(
    acc: Seq<RenderFrame>,
    accumulating: bool,
    frame: Renders,
) -> Seq<RenderFrame> {
    match frame {
        Renders::SingleRgbArray(f) => if accumulating {
            acc.push(f)
        } else {
            acc
        },
        _ => acc,
    }
}

/// The frame list after a whole run of steps, each handing over one render
/// result.
pub open spec fn run_steps(
    acc: Seq<RenderFrame>,
    accumulating: bool,
    frames: Seq<Renders>,
) -> Seq<RenderFrame>
    decreases frames.len(),
{
    if frames.len() == 0 {
        acc
    } else {
        run_steps(step_frames(acc, accumulating, frames.first()), accumulating, frames.drop_first())
    }
}

/// The single frame a render result hands over, if any.
pub open spec fn single_frame(frame: Renders) -> Seq<RenderFrame> {
    match frame {
        Renders::SingleRgbArray(f) => seq![f],
        _ => seq![],
    }
}

/// All single frames of a run of render results, in order.
pub open spec fn collected(frames: Seq<Renders>) -> Seq<RenderFrame>
    decreases frames.len(),
{
    if frames.len() == 0 {
        seq![]
    } else {
        single_frame(frames.first()) + collected(frames.drop_first())
    }
}

/// Under an accumulating configuration a run of steps retains exactly the
/// frames handed over, in order, appended after what already stood in the
/// list; in particular, `k` steps each handing over a single frame leave
/// `k` more frames in the list.
pub proof fn lemma_accumulating_retains_every_frame(acc: Seq<RenderFrame>, frames: Seq<Renders>)
    ensures
        run_steps(acc, true, frames) == acc + collected(frames),
        (forall|i: int|
            0 <= i < frames.len() ==> frames[i] is SingleRgbArray) ==> run_steps(
            acc,
            true,
            frames,
        ).len() == acc.len() + frames.len(),
    decreases frames.len(),
{
    if frames.len() == 0 {
        assert(run_steps(acc, true, frames) =~= acc + collected(frames));
    } else {
        lemma_accumulating_retains_every_frame(
            step_frames(acc, true, frames.first()),
            frames.drop_first(),
        );
        assert(step_frames(acc, true, frames.first()) =~= acc + single_frame(frames.first()));
        assert(acc + single_frame(frames.first()) + collected(frames.drop_first()) =~= acc
            + collected(frames));
        if forall|i: int| 0 <= i < frames.len() ==> frames[i] is SingleRgbArray {
            assert(frames.first() is SingleRgbArray);
            assert(forall|i: int|
                0 <= i < frames.drop_first().len() ==> frames.drop_first()[i]
                    is SingleRgbArray) by {
                assert(forall|i: int|
                    0 <= i < frames.drop_first().len() ==> frames.drop_first()[i] == frames[i + 1]);
            }
        }
    }
}

/// Without an accumulating configuration a run of steps retains nothing
/// beyond what already stood in the list.
pub proof fn lemma_non_accumulating_retains_nothing(acc: Seq<RenderFrame>, frames: Seq<Renders>)
    ensures
        run_steps(acc, false, frames) == acc,
    decreases frames.len(),
{
    if frames.len() > 0 {
        lemma_non_accumulating_retains_nothing(acc, frames.drop_first());
    }
}

/// Under the `Disabled` mode nothing is ever drawn, however many steps are
/// taken: no step wants a frame, no explicit request wants a fresh one, and
/// a handed-over frame would not be retained either.
pub proof fn lemma_disabled_mode_never_draws(r: Renderer, frame: Renders)
    requires
        r.spec_mode() == RenderMode::Disabled,
    ensures
        r.skips_step(),
        !r.accumulates(),
        step_frames(r.frames(), r.accumulates(), frame) == r.frames(),
{
}

/// A structure which stores the frames produced while stepping, according
/// to the active render mode.
#[derive(Debug, Clone)]
pub struct Renderer {
    /// Render modes which must not retain any frame.
    no_returns_render: Vec<RenderMode>,
    /// Render modes which produce exactly one frame on demand.
    single_render: Vec<RenderMode>,
    /// The render mode associated with the environment holding this object.
    mode: RenderMode,
    /// The renders produced, in chronological order.
    render_list: Vec<RenderFrame>,
}

impl Renderer {
    /// The active render mode.
    pub closed spec fn spec_mode(self) -> RenderMode {
        self.mode
    }

    /// The modes classified as producing no returned frames.
    pub closed spec fn no_return_modes(self) -> Seq<RenderMode> {
        self.no_returns_render@
    }

    /// The modes classified as producing exactly one on-demand frame.
    pub closed spec fn single_modes(self) -> Seq<RenderMode> {
        self.single_render@
    }

    /// The frames accumulated so far.
    pub closed spec fn frames(self) -> Seq<RenderFrame> {
        self.render_list@
    }

    /// Whether a step skips drawing entirely: nothing is drawn when the mode
    /// is `Disabled`, and single-shot frames are computed lazily, not eagerly.
    pub open spec fn skips_step(self) -> bool {
        self.spec_mode() == RenderMode::Disabled || self.single_modes().contains(self.spec_mode())
    }

    /// Whether the active mode draws but retains nothing.
    pub open spec fn no_return(self) -> bool {
        self.no_return_modes().contains(self.spec_mode())
    }

    /// Whether the active mode accumulates every step's frame.
    pub open spec fn accumulates(self) -> bool {
        !self.skips_step() && !self.no_return()
    }

    /// The classification sets and the mode never change after construction.
    pub open spec fn same_classification(self, other: Renderer) -> bool {
        self.spec_mode() == other.spec_mode() && self.no_return_modes() == other.no_return_modes()
            && self.single_modes() == other.single_modes()
    }

    /// Constructs a renderer with an empty list of frames; the classification
    /// sets default to `Human` drawing without retention and `SingleRgbArray`
    /// producing one frame on demand.
    pub fn new(
        mode: RenderMode,
        no_returns_render: Option<Vec<RenderMode>>,
        single_render: Option<Vec<RenderMode>>,
    ) -> (r: Renderer)
        ensures
            r.spec_mode() == mode,
            r.frames() == Seq::<RenderFrame>::empty(),
            match no_returns_render {
                Some(v) => r.no_return_modes() == v@,
                None => r.no_return_modes() == seq![RenderMode::Human],
            },
            match single_render {
                Some(v) => r.single_modes() == v@,
                None => r.single_modes() == seq![RenderMode::SingleRgbArray],
            },
    {
        let no_returns = match no_returns_render {
            Some(v) => v,
            None => {
                let mut d: Vec<RenderMode> = Vec::new();
                d.push(RenderMode::Human);
                proof {
                    assert(d@ =~= seq![RenderMode::Human]);
                }
                d
            },
        };
        let singles = match single_render {
            Some(v) => v,
            None => {
                let mut d: Vec<RenderMode> = Vec::new();
                d.push(RenderMode::SingleRgbArray);
                proof {
                    assert(d@ =~= seq![RenderMode::SingleRgbArray]);
                }
                d
            },
        };
        Renderer { no_returns_render: no_returns, single_render: singles, mode, render_list: Vec::new() }
    }

    /// Whether the coming step must draw a frame and hand it to
    /// `render_step`: exactly when the mode neither skips drawing nor is
    /// single-shot.
    pub fn wants_step_frame(&self) -> (r: bool)
        ensures
            r == !self.skips_step(),
    {
        !matches!(self.mode, RenderMode::Disabled) && !mode_list_contains(&self.single_render, self.mode)
    }

    /// Stores the frame drawn for one environment step, when the active mode
    /// retains frames; under every other mode the list stands unchanged.
    pub fn render_step(&mut self, frame: Renders)
        ensures
            final(self).same_classification(*old(self)),
            final(self).frames() == step_frames(old(self).frames(), old(self).accumulates(), frame),
    {
        if !matches!(self.mode, RenderMode::Disabled) && !mode_list_contains(
            &self.single_render,
            self.mode,
        ) {
            if !mode_list_contains(&self.no_returns_render, self.mode) {
                match frame {
                    Renders::SingleRgbArray(f) => self.render_list.push(f),
                    _ => (),
                }
            }
        }
    }

    /// Whether an explicit render request needs one freshly computed frame:
    /// exactly under a single-shot mode.
    pub fn wants_fresh_frame(&self) -> (r: bool)
        ensures
            r == self.single_modes().contains(self.spec_mode()),
    {
        mode_list_contains(&self.single_render, self.mode)
    }

    /// Answers an explicit render request: a single-shot mode passes the
    /// fresh frame through without storing it, an accumulating mode returns
    /// the collected list and empties it, every other mode returns nothing.
    pub fn get_renders(&mut self, fresh: Option<Renders>) -> (r: Renders)
        ensures
            final(self).same_classification(*old(self)),
            old(self).single_modes().contains(old(self).spec_mode()) ==> {
                &&& final(self).frames() == old(self).frames()
                &&& r == match fresh {
                    Some(f) => f,
                    None => Renders::Empty,
                }
            },
            old(self).accumulates() ==> {
                &&& final(self).frames() == Seq::<RenderFrame>::empty()
                &&& r matches Renders::RgbArray(v) && v@ == old(self).frames()
            },
            !old(self).single_modes().contains(old(self).spec_mode()) && !old(self).accumulates()
                ==> {
                &&& final(self).frames() == old(self).frames()
                &&& r == Renders::Empty
            },
    {
        if mode_list_contains(&self.single_render, self.mode) {
            match fresh {
                Some(f) => f,
                None => Renders::Empty,
            }
        } else if !matches!(self.mode, RenderMode::Disabled) && !mode_list_contains(
            &self.no_returns_render,
            self.mode,
        ) {
            let mut renders: Vec<RenderFrame> = Vec::new();
            core::mem::swap(&mut renders, &mut self.render_list);
            Renders::RgbArray(renders)
        } else {
            Renders::Empty
        }
    }

    /// Empties the collection of frames collected, whatever the mode.
    pub fn reset(&mut self)
        ensures
            final(self).same_classification(*old(self)),
            final(self).frames() == Seq::<RenderFrame>::empty(),
    {
        self.render_list.clear();
    }
}

/// Linear membership test over a list of render modes.
fn mode_list_contains(list: &Vec<RenderMode>, mode: RenderMode) -> (r: bool)
    ensures
        r == list@.contains(mode),
{
    let mut i: usize = 0;
    while i < list.len()
        invariant
            0 <= i <= list@.len(),
            forall|j: int| 0 <= j < i ==> list@[j] != mode,
        decreases list@.len() - i,
    {
        if list[i] == mode {
            assert(list@.contains(mode));
            return true;
        }
        i += 1;
    }
    assert(!list@.contains(mode));
    false
}

} // verus!
