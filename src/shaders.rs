use vstd::prelude::*;

verus! {

/// Tags of the canvas's shader modules.
#[derive(Clone, Copy, Debug, PartialEq, Eq, Structural)]
pub enum DrawShaders {
    RenderVert,
    RenderFrag,
    DrawVert,
    DrawFrag,
}

/// Pipeline stage a shader module is compiled for.
#[derive(Clone, Copy, Debug, PartialEq, Eq, Structural)]
pub enum ShaderStage {
    Vertex,
    Fragment,
}

/// One shader module to load: its tag, source file, entry point and stage.
#[derive(Clone, Copy, Debug)]
pub struct ShaderLoad {
    pub tag: DrawShaders,
    pub path: &'static str,
    pub entry_point: &'static str,
    pub stage: ShaderStage,
}

/// The vertex and fragment tags the canvas pipeline is built from.
pub fn pipeline_tags() -> (r: (DrawShaders, DrawShaders))
    ensures
        r == (DrawShaders::RenderVert, DrawShaders::RenderFrag),
{
    (DrawShaders::RenderVert, DrawShaders::RenderFrag)
}

/// The shader modules the canvas needs, in load order: the render vertex
/// stage, then the render fragment stage, each with entry point `main`.
pub fn init_draw_shaders() -> (r: Vec<ShaderLoad>)
    ensures
        r@.len() == 2,
        r@[0].tag == DrawShaders::RenderVert,
        r@[0].stage == ShaderStage::Vertex,
        r@[0].path@ == "./src/gl/canvas_render.vert"@,
        r@[0].entry_point@ == "main"@,
        r@[1].tag == DrawShaders::RenderFrag,
        r@[1].stage == ShaderStage::Fragment,
        r@[1].path@ == "./src/gl/canvas_render.frag"@,
        r@[1].entry_point@ == "main"@,
{
    vec![
        ShaderLoad {
            tag: DrawShaders::RenderVert,
            path: "./src/gl/canvas_render.vert",
            entry_point: "main",
            stage: ShaderStage::Vertex,
        },
        ShaderLoad {
            tag: DrawShaders::RenderFrag,
            path: "./src/gl/canvas_render.frag",
            entry_point: "main",
            stage: ShaderStage::Fragment,
        },
    ]
}

} // verus!
