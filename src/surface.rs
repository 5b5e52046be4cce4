use vstd::prelude::*;

verus! {

/// Pixel format of every canvas surface: 8-bit RGBA in the sRGB colour space.
#[derive(Clone, Copy, Debug, PartialEq, Eq, Structural)]
pub enum SurfaceFormat {
    Rgba8UnormSrgb,
}

/// What the host must allocate for one surface: a two-dimensional colour
/// texture that can be both a render target and a sampled input.
#[derive(Clone, Copy, Debug, PartialEq, Eq, Structural)]
pub struct SurfaceDesc {
    /// Position of the surface in its set, used to label the GPU objects.
    pub index: usize,
    pub width: u32,
    pub height: u32,
    pub mip_level_count: u32,
    pub sample_count: u32,
    pub format: SurfaceFormat,
    pub sampled: bool,
    pub render_attachment: bool,
}

/// Failures of canvas construction and of explicit surface reordering.
#[derive(Clone, Copy, Debug, PartialEq, Eq, Structural)]
pub enum CanvasError {
    /// The device cannot hold a surface of the requested extent.
    ResourceCreation,
    /// Fewer than two surfaces were requested; ping-pong needs a pair.
    InvalidSurfaceCount,
    /// A surface index at or past the number of surfaces.
    IndexOutOfRange,
    /// The binding layout of the surfaces differs from the pipeline's.
    PipelineLayoutMismatch,
}

/// The descriptor of the surface at `index` of a set sized `width` by `height`.
pub open spec fn canvas_desc(index: usize, width: u32, height: u32) -> SurfaceDesc {
    SurfaceDesc {
        index,
        width,
        height,
        mip_level_count: 1,
        sample_count: 1,
        format: SurfaceFormat::Rgba8UnormSrgb,
        sampled: true,
        render_attachment: true,
    }
}

/// An extent the device accepts: non-empty and within its largest 2D texture side.
pub open spec fn extent_fits(width: u32, height: u32, max_dimension: u32) -> bool {
    0 < width <= max_dimension && 0 < height <= max_dimension
}

/// `s` with the elements at `i` and `j` exchanged.
pub open spec fn swap_seq<E>(s: Seq<E>, i: int, j: int) -> Seq<E> {
    s.update(i, s[j]).update(j, s[i])
}

/// Exchanging the same two positions twice gives back the original order.
pub proof fn lemma_swap_twice<E>(s: Seq<E>, a: int, b: int)
    requires
        0 <= a < s.len(),
        0 <= b < s.len(),
    ensures
        swap_seq(swap_seq(s, a, b), a, b) == s,
{
    assert(swap_seq(swap_seq(s, a, b), a, b) =~= s);
}

fn desc_at(index: usize, width: u32, height: u32) -> (r: SurfaceDesc)
    ensures
        r == canvas_desc(index, width, height),
{
    SurfaceDesc {
        index,
        width,
        height,
        mip_level_count: 1,
        sample_count: 1,
        format: SurfaceFormat::Rgba8UnormSrgb,
        sampled: true,
        render_attachment: true,
    }
}

/// Checks a requested surface set against the device limit and returns the
/// descriptor of each surface to allocate, in order.
pub fn plan_surfaces(width: u32, height: u32, count: usize, max_dimension: u32) -> (r: Result<
    Vec<SurfaceDesc>,
    CanvasError,
>)
    ensures
        count < 2 ==> r == Err::<Vec<SurfaceDesc>, CanvasError>(CanvasError::InvalidSurfaceCount),
        count >= 2 && !extent_fits(width, height, max_dimension) ==> r == Err::<
            Vec<SurfaceDesc>,
            CanvasError,
        >(CanvasError::ResourceCreation),
        count >= 2 && extent_fits(width, height, max_dimension) ==> r is Ok && r->Ok_0@ == Seq::new(
            count as nat,
            |i: int| canvas_desc(i as usize, width, height),
        ),
{
    if count < 2 {
        return Err(CanvasError::InvalidSurfaceCount);
    }
    if width == 0 || height == 0 || width > max_dimension || height > max_dimension {
        return Err(CanvasError::ResourceCreation);
    }
    let mut descs: Vec<SurfaceDesc> = Vec::new();
    let mut i: usize = 0;
    while i < count
        invariant
            i <= count,
            descs@ == Seq::new(i as nat, |k: int| canvas_desc(k as usize, width, height)),
        decreases count - i,
    {
        descs.push(desc_at(i, width, height));
        i = i + 1;
        assert(descs@ =~= Seq::new(i as nat, |k: int| canvas_desc(k as usize, width, height)));
    }
    Ok(descs)
}

/// One off-screen surface: its descriptor and the GPU resources the host
/// allocated for it (texture, view and binding, released together).
pub struct Surface<R> {
    desc: SurfaceDesc,
    resources: R,
}

impl<R> Surface<R> {
    pub closed spec fn desc_spec(&self) -> SurfaceDesc {
        self.desc
    }

    pub closed spec fn resources_spec(&self) -> R {
        self.resources
    }

    pub fn new(desc: SurfaceDesc, resources: R) -> (r: Self)
        ensures
            r.desc_spec() == desc,
            r.resources_spec() == resources,
    {
        Surface { desc, resources }
    }

    pub fn desc(&self) -> (r: &SurfaceDesc)
        ensures
            *r == self.desc_spec(),
    {
        &self.desc
    }

    pub fn resources(&self) -> (r: &R)
        ensures
            *r == self.resources_spec(),
    {
        &self.resources
    }
}


/// An ordered, fixed-length sequence of surfaces and a cursor naming the
/// active one.
pub struct SurfaceSet<R> {
    surfaces: Vec<Surface<R>>,
    cursor: usize,
}

impl<R> View for SurfaceSet<R> {
    type V = Seq<Surface<R>>;

    closed spec fn view(&self) -> Seq<Surface<R>> {
        self.surfaces@
    }
}

impl<R> SurfaceSet<R> {
    /// Index of the surface that the next render writes.
    pub closed spec fn active_index(&self) -> int {
        self.cursor as int
    }

    /// At least a pair of surfaces, and the cursor on one of them.
    pub closed spec fn wf(&self) -> bool {
        &&& self.surfaces@.len() >= 2
        &&& self.cursor < self.surfaces@.len()
    }

    /// What well-formedness tells a caller: a pair or more, and the cursor
    /// on one of them.
    pub proof fn lemma_wf_bounds(&self)
        requires
            self.wf(),
        ensures
            self@.len() >= 2,
            0 <= self.active_index() < self@.len(),
    {
    }

    /// Builds the set: checks the request as `plan_surfaces` does, then asks
    /// `alloc` for the GPU resources of each surface in order. The cursor
    /// starts on the first surface.
    pub fn create<F: Fn(SurfaceDesc) -> R>(
        width: u32,
        height: u32,
        count: usize,
        max_dimension: u32,
        alloc: F,
    ) -> (r: Result<SurfaceSet<R>, CanvasError>)
        requires
            forall|d: SurfaceDesc| #[trigger] alloc.requires((d,)),
        ensures
            count < 2 ==> r is Err && r->Err_0 == CanvasError::InvalidSurfaceCount,
            count >= 2 && !extent_fits(width, height, max_dimension) ==> r is Err && r->Err_0
                == CanvasError::ResourceCreation,
            count >= 2 && extent_fits(width, height, max_dimension) ==> r is Ok,
            r is Ok ==> {
                let set = r->Ok_0;
                &&& set.wf()
                &&& set@.len() == count
                &&& set.active_index() == 0
                &&& forall|i: int|
                    0 <= i < count ==> (#[trigger] set@[i]).desc_spec() == canvas_desc(
                        i as usize,
                        width,
                        height,
                    ) && alloc.ensures((set@[i].desc_spec(),), set@[i].resources_spec())
            },
    {
        let descs = match plan_surfaces(width, height, count, max_dimension) {
            Ok(d) => d,
            Err(e) => {
                return Err(e);
            },
        };
        let mut surfaces: Vec<Surface<R>> = Vec::new();
        let mut i: usize = 0;
        while i < descs.len()
            invariant
                descs@ == Seq::new(count as nat, |k: int| canvas_desc(k as usize, width, height)),
                i <= descs@.len(),
                surfaces@.len() == i,
                forall|d: SurfaceDesc| #[trigger] alloc.requires((d,)),
                forall|k: int|
                    0 <= k < i ==> (#[trigger] surfaces@[k]).desc_spec() == canvas_desc(
                        k as usize,
                        width,
                        height,
                    ) && alloc.ensures((surfaces@[k].desc_spec(),), surfaces@[k].resources_spec()),
            decreases descs@.len() - i,
        {
            let d = descs[i];
            let res = alloc(d);
            surfaces.push(Surface::new(d, res));
            i = i + 1;
        }
        Ok(SurfaceSet { surfaces, cursor: 0 })
    }

    /// Number of surfaces.
    pub fn len(&self) -> (r: usize)
        ensures
            r == self@.len(),
    {
        self.surfaces.len()
    }

    /// The cursor: index of the surface the next render writes.
    pub fn cursor(&self) -> (r: usize)
        ensures
            r == self.active_index(),
    {
        self.cursor
    }

    /// The surface at `i`.
    pub fn get(&self, i: usize) -> (r: &Surface<R>)
        requires
            i < self@.len(),
        ensures
            *r == self@[i as int],
    {
        &self.surfaces[i]
    }

    /// The surface designated as the target of the next render.
    pub fn active(&self) -> (r: &Surface<R>)
        requires
            self.wf(),
        ensures
            *r == self@[self.active_index()],
    {
        &self.surfaces[self.cursor]
    }

    /// Exchanges the surfaces at `i` and `j`, leaving the cursor where it is.
    /// An index at or past the number of surfaces is refused and nothing moves.
    pub fn swap(&mut self, i: usize, j: usize) -> (r: Result<(), CanvasError>)
        requires
            old(self).wf(),
        ensures
            final(self).wf(),
            final(self).active_index() == old(self).active_index(),
            i < old(self)@.len() && j < old(self)@.len() ==> r is Ok && final(self)@ == swap_seq(
                old(self)@,
                i as int,
                j as int,
            ),
            !(i < old(self)@.len() && j < old(self)@.len()) ==> r == Err::<(), CanvasError>(
                CanvasError::IndexOutOfRange,
            ) && final(self)@ == old(self)@,
    {
        if i >= self.surfaces.len() || j >= self.surfaces.len() {
            return Err(CanvasError::IndexOutOfRange);
        }
        self.surfaces.as_mut_slice().swap(i, j);
        Ok(())
    }
}

} // verus!
