use vstd::prelude::*;
use crate::surface::{swap_seq, Surface, SurfaceSet};

verus! {

/// The input events the canvas tells apart; everything else the host sees
/// arrives as `Other`.
#[derive(Clone, Copy, Debug, PartialEq, Eq, Structural)]
pub enum CanvasEvent {
    /// A touch or press has just started.
    PointerBegan,
    PointerMoved,
    PointerEnded,
    Resized { width: u32, height: u32 },
    Other,
}

/// Number of vertices of the full-screen triangle that a render draws.
pub const FULLSCREEN_VERTICES: u32 = 3;

/// The surface order after the canvas has seen `e`: a pointer press
/// exchanges the first two surfaces, any other event changes nothing.
pub open spec fn next_order<E>(order: Seq<E>, e: CanvasEvent) -> Seq<E> {
    if e is PointerBegan {
        swap_seq(order, 0, 1)
    } else {
        order
    }
}

/// Index of the surface that a render samples: the one after the active
/// surface, so that no pass reads the texture it writes.
pub open spec fn source_index(active: int, len: int) -> int {
    (active + 1) % len
}

/// What the host records for one frame: bind `pipeline`, bind the binding
/// of `source`, and draw `vertex_count` vertices.
pub struct DrawPlan<'a, R, P> {
    pub pipeline: &'a P,
    pub source: &'a Surface<R>,
    pub vertex_count: u32,
}

/// A ping-pong pair of surfaces with the shared pipeline that draws from them.
pub struct DrawingCanvas<R, P> {
    tex: SurfaceSet<R>,
    pipeline: P,
}

impl<R, P> DrawingCanvas<R, P> {
    pub closed spec fn surfaces(&self) -> Seq<Surface<R>> {
        self.tex@
    }

    pub closed spec fn active_index(&self) -> int {
        self.tex.active_index()
    }

    pub closed spec fn pipeline_spec(&self) -> P {
        self.pipeline
    }

    pub closed spec fn wf(&self) -> bool {
        self.tex.wf()
    }

    /// A canvas over a built surface set and a shared pipeline.
    pub fn new(tex: SurfaceSet<R>, pipeline: P) -> (r: Self)
        requires
            tex.wf(),
        ensures
            r.wf(),
            r.surfaces() == tex@,
            r.active_index() == tex.active_index(),
            r.pipeline_spec() == pipeline,
    {
        DrawingCanvas { tex, pipeline }
    }

    /// The surfaces, in their current order.
    pub fn surface_set(&self) -> (r: &SurfaceSet<R>)
        ensures
            r@ == self.surfaces(),
            r.active_index() == self.active_index(),
            self.wf() ==> r.wf(),
    {
        &self.tex
    }

    /// The shared pipeline.
    pub fn pipeline(&self) -> (r: &P)
        ensures
            *r == self.pipeline_spec(),
    {
        &self.pipeline
    }

    /// Reacts to one event: a pointer press exchanges the first two
    /// surfaces; every other event leaves the canvas as it was.
    pub fn update(&mut self, event: &CanvasEvent)
        requires
            old(self).wf(),
        ensures
            final(self).wf(),
            final(self).surfaces() == next_order(old(self).surfaces(), *event),
            final(self).active_index() == old(self).active_index(),
            final(self).pipeline_spec() == old(self).pipeline_spec(),
    {
        proof {
            self.tex.lemma_wf_bounds();
        }
        if let CanvasEvent::PointerBegan = event {
            let _ = self.tex.swap(0, 1);
        }
    }

    /// The frame's draw: the shared pipeline, sampling the surface after the
    /// active one, over a full-screen triangle.
    pub fn render(&self) -> (r: DrawPlan<'_, R, P>)
        requires
            self.wf(),
        ensures
            *r.pipeline == self.pipeline_spec(),
            *r.source == self.surfaces()[source_index(self.active_index(), self.surfaces().len() as int)],
            source_index(self.active_index(), self.surfaces().len() as int) != self.active_index(),
            r.vertex_count == FULLSCREEN_VERTICES,
    {
        proof {
            self.tex.lemma_wf_bounds();
        }
        let n = self.tex.len();
        let c = self.tex.cursor();
        let s = if c + 1 == n { 0 } else { c + 1 };
        proof {
            let (a, m) = (c as int, n as int);
            assert(source_index(a, m) == s as int) by (nonlinear_arith)
                requires
                    0 <= a < m,
                    m >= 2,
                    s as int == if a + 1 == m { 0 } else { a + 1 },
            ;
        }
        DrawPlan { pipeline: &self.pipeline, source: self.tex.get(s), vertex_count: FULLSCREEN_VERTICES }
    }
}

/// An event other than a pointer press leaves the surface order unchanged.
pub proof fn lemma_other_events_keep_order<E>(order: Seq<E>, e: CanvasEvent)
    requires
        !(e is PointerBegan),
    ensures
        next_order(order, e) == order,
{
}

/// Two pointer presses in a row give back the original surface order.
pub proof fn lemma_two_presses_restore<E>(order: Seq<E>)
    requires
        order.len() >= 2,
    ensures
        next_order(next_order(order, CanvasEvent::PointerBegan), CanvasEvent::PointerBegan) == order,
{
    crate::surface::lemma_swap_twice(order, 0, 1);
}

} // verus!
