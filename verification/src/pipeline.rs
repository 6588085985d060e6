//! The pipeline builder's decision logic. Translating shader source into a
//! GPU-executable module is the outside shader compiler's work; this module
//! takes the two compile outcomes as plain values, refuses a malformed
//! vertex layout as the device would, and otherwise assembles the immutable
//! render pipeline description whose color format always matches the
//! requested surface format.

use vstd::prelude::*;
use crate::geometry::VertexLayout;
use crate::surface::PixelFormat;

verus! {

/// How vertices are assembled into primitives.
#[derive(Copy, Clone, PartialEq, Eq, Structural, Debug)]
pub enum PrimitiveTopology {
    PointList,
    LineList,
    TriangleList,
}

/// How the fragment's color is combined with the target's.
#[derive(Copy, Clone, PartialEq, Eq, Structural, Debug)]
pub enum BlendMode {
    /// The fragment replaces the target; no blending.
    Replace,
    /// Standard source-alpha blending.
    AlphaBlend,
}

/// What the outside shader compiler reported for one shader source.
#[derive(PartialEq, Eq, Debug)]
pub enum CompileOutcome {
    /// The source was translated into a GPU-executable module.
    Compiled,
    /// The compiler refused the source; the diagnostics are its own.
    Failed(String),
}

/// Why the pipeline could not be built; all of these are fatal at startup.
#[derive(PartialEq, Eq, Debug)]
pub enum BuildError {
    /// The shader compiler refused a source, with its diagnostics.
    ShaderCompilationFailed(String),
    /// The device refuses the assembled description, e.g. a malformed
    /// vertex layout.
    PipelineRejected,
    /// The device could not allocate the static geometry buffer.
    OutOfDeviceMemory,
}

/// The immutable render pipeline description: compiled shaders for both
/// stages, the vertex layout, the blend mode, the primitive topology and
/// the color target's format.
#[derive(PartialEq, Eq, Debug)]
pub struct PipelinePlan {
    pub target_format: PixelFormat,
    pub topology: PrimitiveTopology,
    pub blend: BlendMode,
    pub layout: VertexLayout,
    pub sample_count: u32,
}

impl PipelinePlan {
    /// A plan the device accepts: a well-formed vertex layout and a single
    /// sample per pixel.
    pub open spec fn wf(self) -> bool {
        &&& self.layout.wf()
        &&& self.sample_count == 1
    }
}

/// Builds the render pipeline description for this library's fixed draw:
/// triangle list, replace-blend, one sample, targeting `target_format`.
///
/// The outcome is decided entirely by the arguments: it fails with the
/// vertex shader's diagnostics if that compile failed, else with the
/// fragment shader's if that one failed, else the device refuses a
/// malformed vertex layout, and otherwise the plan is owed — with its
/// color format equal to the requested surface format, so the two never
/// drift apart.
pub fn build_pipeline(
    vertex_shader: CompileOutcome,
    fragment_shader: CompileOutcome,
    layout: VertexLayout,
    target_format: PixelFormat,
) -> (r: Result<PipelinePlan, BuildError>)
    ensures
        r is Ok <==> vertex_shader is Compiled && fragment_shader is Compiled && layout.wf(),
        r matches Ok(plan) ==> plan == (PipelinePlan {
            target_format,
            topology: PrimitiveTopology::TriangleList,
            blend: BlendMode::Replace,
            layout,
            sample_count: 1,
        }) && plan.wf() && plan.target_format == target_format,
        vertex_shader matches CompileOutcome::Failed(diag) ==> r == Result::<
            PipelinePlan,
            BuildError,
        >::Err(BuildError::ShaderCompilationFailed(diag)),
        vertex_shader is Compiled ==> (fragment_shader matches CompileOutcome::Failed(diag)
            ==> r == Result::<PipelinePlan, BuildError>::Err(
            BuildError::ShaderCompilationFailed(diag),
        )),
        vertex_shader is Compiled && fragment_shader is Compiled && !layout.wf() ==> r
            == Result::<PipelinePlan, BuildError>::Err(BuildError::PipelineRejected),
{
    match vertex_shader {
        CompileOutcome::Failed(diag) => Err(BuildError::ShaderCompilationFailed(diag)),
        CompileOutcome::Compiled => match fragment_shader {
            CompileOutcome::Failed(diag) => Err(BuildError::ShaderCompilationFailed(diag)),
            CompileOutcome::Compiled => {
                if layout_accepted(&layout) {
                    Ok(
                        PipelinePlan {
                            target_format,
                            topology: PrimitiveTopology::TriangleList,
                            blend: BlendMode::Replace,
                            layout,
                            sample_count: 1,
                        },
                    )
                } else {
                    Err(BuildError::PipelineRejected)
                }
            },
        },
    }
}

/// Decides whether the device accepts the vertex layout: exactly the
/// layout's well-formedness.
pub fn layout_accepted(layout: &VertexLayout) -> (r: bool)
    ensures
        r == layout.wf(),
{
    if layout.stride == 0 {
        return false;
    }
    let n = layout.attributes.len();
    let mut i: usize = 0;
    while i < n
        invariant
            n == layout.attributes@.len(),
            0 <= i <= n,
            forall|k: int|
                0 <= k < i ==> (#[trigger] layout.attributes@[k]).offset
                    + layout.attributes@[k].format.spec_byte_size() <= layout.stride,
            forall|k: int, j: int|
                0 <= k < j < i ==> (#[trigger] layout.attributes@[k]).offset
                    + layout.attributes@[k].format.spec_byte_size() <= (
                #[trigger] layout.attributes@[j]).offset,
            forall|k: int, j: int|
                0 <= k < j < i ==> (#[trigger] layout.attributes@[k]).shader_location != (
                #[trigger] layout.attributes@[j]).shader_location,
        decreases n - i,
    {
        let a = layout.attributes[i];
        let end = a.offset.checked_add(a.format.byte_size());
        match end {
            None => {
                return false;
            },
            Some(end) => {
                if end > layout.stride {
                    return false;
                }
                if i > 0 {
                    let prev = layout.attributes[i - 1];
                    if prev.offset + prev.format.byte_size() > a.offset {
                        return false;
                    }
                }
                let mut j: usize = 0;
                while j < i
                    invariant
                        n == layout.attributes@.len(),
                        0 <= j <= i < n,
                        a == layout.attributes@[i as int],
                        forall|k: int|
                            0 <= k < j ==> (#[trigger] layout.attributes@[k]).shader_location
                                != layout.attributes@[i as int].shader_location,
                    decreases i - j,
                {
                    if layout.attributes[j].shader_location == a.shader_location {
                        return false;
                    }
                    j = j + 1;
                }
            },
        }
        i = i + 1;
    }
    true
}

} // verus!
