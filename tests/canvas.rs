use drawing_canvas::{
    check_pipeline_layout, init_draw_shaders, pipeline_tags, plan_surfaces,
    surface_binding_layout, BindingSlot, CanvasError, CanvasEvent, DrawShaders, DrawingCanvas,
    ShaderStage, SurfaceDesc, SurfaceFormat, SurfaceSet, FULLSCREEN_VERTICES,
};

fn ids(set: &SurfaceSet<usize>) -> Vec<usize> {
    let mut v = Vec::new();
    for i in 0..set.len() {
        v.push(*set.get(i).resources());
    }
    v
}

fn set_of(count: usize) -> SurfaceSet<usize> {
    SurfaceSet::create(64, 32, count, 4096, |d: SurfaceDesc| d.index).unwrap()
}

fn canvas_ids(c: &DrawingCanvas<usize, &'static str>) -> Vec<usize> {
    ids(c.surface_set())
}

#[test]
fn swap_twice_restores_order() {
    let mut set = set_of(4);
    set.swap(1, 3).unwrap();
    assert_eq!(ids(&set), vec![0, 3, 2, 1]);
    set.swap(1, 3).unwrap();
    assert_eq!(ids(&set), vec![0, 1, 2, 3]);
}

#[test]
fn swap_same_index_is_identity() {
    let mut set = set_of(3);
    set.swap(2, 2).unwrap();
    assert_eq!(ids(&set), vec![0, 1, 2]);
}

#[test]
fn cursor_starts_at_zero() {
    let set = set_of(3);
    assert_eq!(set.cursor(), 0);
    assert_eq!(*set.active().resources(), 0);
}

#[test]
fn non_press_events_change_nothing() {
    let mut c = DrawingCanvas::new(set_of(2), "pipeline");
    let events = [
        CanvasEvent::PointerMoved,
        CanvasEvent::PointerEnded,
        CanvasEvent::Resized { width: 800, height: 600 },
        CanvasEvent::Other,
    ];
    for e in events.iter() {
        c.update(e);
        assert_eq!(canvas_ids(&c), vec![0, 1]);
        assert_eq!(c.surface_set().cursor(), 0);
    }
}

#[test]
fn two_presses_restore_order() {
    let mut c = DrawingCanvas::new(set_of(3), "pipeline");
    c.update(&CanvasEvent::PointerBegan);
    assert_eq!(canvas_ids(&c), vec![1, 0, 2]);
    c.update(&CanvasEvent::PointerBegan);
    assert_eq!(canvas_ids(&c), vec![0, 1, 2]);
}

#[test]
fn render_leaves_canvas_unchanged() {
    let mut c = DrawingCanvas::new(set_of(2), "pipeline");
    c.update(&CanvasEvent::PointerBegan);
    let before = canvas_ids(&c);
    let descs_before: Vec<SurfaceDesc> =
        (0..2).map(|i| *c.surface_set().get(i).desc()).collect();
    let plan = c.render();
    assert_eq!(*plan.pipeline, "pipeline");
    assert_eq!(*plan.source.resources(), 0);
    assert_eq!(plan.vertex_count, FULLSCREEN_VERTICES);
    assert_eq!(plan.vertex_count, 3);
    assert_eq!(canvas_ids(&c), before);
    let descs_after: Vec<SurfaceDesc> = (0..2).map(|i| *c.surface_set().get(i).desc()).collect();
    assert_eq!(descs_before, descs_after);
    assert_eq!(c.surface_set().cursor(), 0);
}

#[test]
fn render_samples_the_inactive_surface() {
    let c = DrawingCanvas::new(set_of(2), "pipeline");
    let plan = c.render();
    assert_eq!(*plan.source.resources(), 1);
    assert_eq!(*c.pipeline(), "pipeline");
}

#[test]
fn create_sizes_every_surface() {
    let set = SurfaceSet::create(1920, 1080, 3, 8192, |d: SurfaceDesc| (d.width, d.height)).unwrap();
    assert_eq!(set.len(), 3);
    for i in 0..3 {
        let d = set.get(i).desc();
        assert_eq!(d.index, i);
        assert_eq!((d.width, d.height), (1920, 1080));
        assert_eq!(*set.get(i).resources(), (1920, 1080));
        assert_eq!(d.mip_level_count, 1);
        assert_eq!(d.sample_count, 1);
        assert_eq!(d.format, SurfaceFormat::Rgba8UnormSrgb);
        assert!(d.sampled && d.render_attachment);
    }
}

#[test]
fn create_rejects_extent_over_limit() {
    let w = SurfaceSet::create(8193, 16, 2, 8192, |d: SurfaceDesc| d.index);
    assert_eq!(w.err(), Some(CanvasError::ResourceCreation));
    let h = SurfaceSet::create(16, 8193, 2, 8192, |d: SurfaceDesc| d.index);
    assert_eq!(h.err(), Some(CanvasError::ResourceCreation));
    let z = SurfaceSet::create(0, 16, 2, 8192, |d: SurfaceDesc| d.index);
    assert_eq!(z.err(), Some(CanvasError::ResourceCreation));
    let edge = SurfaceSet::create(8192, 8192, 2, 8192, |d: SurfaceDesc| d.index);
    assert!(edge.is_ok());
}

#[test]
fn create_rejects_fewer_than_two_surfaces() {
    let one = SurfaceSet::create(16, 16, 1, 8192, |d: SurfaceDesc| d.index);
    assert_eq!(one.err(), Some(CanvasError::InvalidSurfaceCount));
    assert_eq!(plan_surfaces(16, 16, 0, 8192), Err(CanvasError::InvalidSurfaceCount));
}

#[test]
fn plan_lists_each_surface() {
    let plan = plan_surfaces(10, 20, 2, 100).unwrap();
    assert_eq!(plan.len(), 2);
    assert_eq!(plan[0].index, 0);
    assert_eq!(plan[1].index, 1);
    assert_eq!((plan[1].width, plan[1].height), (10, 20));
}

#[test]
fn swap_out_of_range_is_refused() {
    let mut set = set_of(2);
    assert_eq!(set.swap(0, 2), Err(CanvasError::IndexOutOfRange));
    assert_eq!(set.swap(5, 1), Err(CanvasError::IndexOutOfRange));
    assert_eq!(ids(&set), vec![0, 1]);
    assert_eq!(set.cursor(), 0);
}

#[test]
fn press_resize_press_scenario() {
    let mut c = DrawingCanvas::new(set_of(2), "pipeline");
    assert_eq!(canvas_ids(&c), vec![0, 1]);
    assert_eq!(c.surface_set().cursor(), 0);
    c.update(&CanvasEvent::PointerBegan);
    assert_eq!(canvas_ids(&c), vec![1, 0]);
    c.update(&CanvasEvent::Resized { width: 1024, height: 768 });
    assert_eq!(canvas_ids(&c), vec![1, 0]);
    c.update(&CanvasEvent::PointerBegan);
    assert_eq!(canvas_ids(&c), vec![0, 1]);
}

#[test]
fn layouts_must_match() {
    let surf = surface_binding_layout();
    assert_eq!(surf, vec![BindingSlot::SampledTexture, BindingSlot::Sampler]);
    assert_eq!(check_pipeline_layout(&surf, &surface_binding_layout()), Ok(()));
    let swapped = vec![BindingSlot::Sampler, BindingSlot::SampledTexture];
    assert_eq!(check_pipeline_layout(&surf, &swapped), Err(CanvasError::PipelineLayoutMismatch));
    let short = vec![BindingSlot::SampledTexture];
    assert_eq!(check_pipeline_layout(&surf, &short), Err(CanvasError::PipelineLayoutMismatch));
}

#[test]
fn shader_loads_cover_the_render_pair() {
    let loads = init_draw_shaders();
    assert_eq!(loads.len(), 2);
    assert_eq!(loads[0].tag, DrawShaders::RenderVert);
    assert_eq!(loads[0].stage, ShaderStage::Vertex);
    assert_eq!(loads[0].path, "./src/gl/canvas_render.vert");
    assert_eq!(loads[1].tag, DrawShaders::RenderFrag);
    assert_eq!(loads[1].stage, ShaderStage::Fragment);
    assert_eq!(loads[1].path, "./src/gl/canvas_render.frag");
    assert_eq!(loads[1].entry_point, "main");
    let (v, f) = pipeline_tags();
    assert_eq!((v, f), (loads[0].tag, loads[1].tag));
}
