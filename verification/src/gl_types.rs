//! Shared vocabulary of the rendering pipeline: shader stages,
//! uniform and attribute names, primitive modes, and the error
//! taxonomy.  Every construction-time failure aborts construction
//! entirely; every render-time failure aborts that render call.

use vstd::prelude::*;

verus! {

/// The two shader stages of a pipeline.
#[derive(Clone, Copy, Debug, PartialEq, Eq, Structural)]
pub enum Stage {
    Vertex,
    Fragment,
}

/// The named per-draw-call constants the shape shaders declare.
#[derive(Clone, Copy, Debug, PartialEq, Eq, Structural)]
pub enum UniformName {
    /// `m`, the model matrix.
    Model,
    /// `v`, the view matrix.
    View,
    /// `p`, the projection matrix.
    Projection,
    /// `vm`, the combined view-model matrix.
    ViewModel,
    /// `n`, the normal matrix (inverse transpose of `vm`).
    Normal,
    /// `color`, a wireframe colour.
    Color,
    /// `lightSource`, the vector towards the light.
    LightSource,
    /// `lightColor`, the light's colour.
    LightColor,
    /// `ambientLight`, the ambient term.
    AmbientLight,
    /// `uSampler`, the texture sampler unit.
    Sampler,
}

/// The named per-vertex inputs the shape shaders declare.
#[derive(Clone, Copy, Debug, PartialEq, Eq, Structural)]
pub enum AttributeName {
    /// `aPos`, the cube's vertex position.
    CubePosition,
    /// `position`.
    Position,
    /// `color`, a per-vertex colour.
    VertexColor,
    /// `normal`.
    Normal,
    /// `texCoord`.
    TexCoord,
}

/// The primitive mode of a draw call.
#[derive(Clone, Copy, Debug, PartialEq, Eq, Structural)]
pub enum PrimitiveMode {
    Lines,
    Points,
    Triangles,
}

/// Why resolving a canvas to a drawing context failed.
#[derive(Clone, Copy, Debug, PartialEq, Eq, Structural)]
pub enum ContextAcquisitionError {
    /// No window object.
    MissingWindow,
    /// No document object.
    MissingDocument,
    /// No element with the given id.
    MissingElement,
    /// The element is not a canvas.
    NotACanvas,
    /// The canvas refused a context of the required profile.
    ContextRefused,
}

/// Everything that can go wrong while building or driving a shape
/// renderer.
#[derive(Clone, Debug, PartialEq, Eq)]
pub enum GfxError {
    /// The canvas id did not resolve to a usable drawing context.
    ContextAcquisition(ContextAcquisitionError),
    /// The context refused to allocate a program object.
    ProgramAllocation,
    /// The context refused to allocate a shader stage object.
    StageAllocation(Stage),
    /// A stage failed to compile; `log` is the stage's diagnostic log.
    ShaderCompile { stage: Stage, log: String },
    /// The two compiled stages failed to link; `log` is the program's
    /// diagnostic log.
    ShaderLink { log: String },
    /// The context refused to allocate a vertex buffer.
    BufferAllocation,
    /// The context refused to allocate a texture object.
    TextureAllocation,
    /// The linked program has no active uniform of this name.
    UnknownUniform { name: UniformName },
    /// The linked program has no active attribute of this name.
    UnknownAttribute { name: AttributeName },
}

} // verus!
