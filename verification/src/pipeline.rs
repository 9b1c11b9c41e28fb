//! Builder for a graphics pipeline.  Both shader stages must be supplied
//! before building; a missing stage is a setup failure surfaced to the
//! caller, fatal only to the pipeline being created.

use vstd::prelude::*;
use crate::common::TextureFormat;
use crate::common::VibeVJError;

verus! {

/// Primitive assembly modes.
#[derive(Debug, Clone, Copy, PartialEq, Eq, Structural)]
pub enum Topology {
    TriangleList,
    TriangleStrip,
    LineList,
    PointList,
}

/// Which faces are culled.
#[derive(Debug, Clone, Copy, PartialEq, Eq, Structural)]
pub enum CullMode {
    Off,
    Front,
    Back,
}

/// A built pipeline: what the builder settled on.
#[derive(Debug, Clone, Copy, PartialEq, Eq, Structural)]
pub struct Pipeline {
    pub format: TextureFormat,
    pub topology: Topology,
    pub cull_mode: CullMode,
    pub depth_enabled: bool,
}

impl Pipeline {
    pub fn builder() -> (b: PipelineBuilder)
        ensures
            b == PipelineBuilder::default_spec(),
    {
        PipelineBuilder::new()
    }
}

/// Accumulates pipeline settings; `build` fails without both shaders.
#[derive(Debug, Clone, Copy, PartialEq, Eq, Structural)]
pub struct PipelineBuilder {
    pub has_vertex_shader: bool,
    pub has_fragment_shader: bool,
    pub topology: Topology,
    pub cull_mode: CullMode,
    pub depth_enabled: bool,
}

impl PipelineBuilder {
    /// The starting configuration: triangle list, back-face culling, no
    /// shaders yet.
    pub open spec fn default_spec() -> PipelineBuilder {
        PipelineBuilder {
            has_vertex_shader: false,
            has_fragment_shader: false,
            topology: Topology::TriangleList,
            cull_mode: CullMode::Back,
            depth_enabled: false,
        }
    }

    pub fn new() -> (b: PipelineBuilder)
        ensures
            b == PipelineBuilder::default_spec(),
    {
        PipelineBuilder {
            has_vertex_shader: false,
            has_fragment_shader: false,
            topology: Topology::TriangleList,
            cull_mode: CullMode::Back,
            depth_enabled: false,
        }
    }

    pub fn vertex_shader(self) -> (b: PipelineBuilder)
        ensures
            b == (PipelineBuilder { has_vertex_shader: true, ..self }),
    {
        PipelineBuilder { has_vertex_shader: true, ..self }
    }

    pub fn fragment_shader(self) -> (b: PipelineBuilder)
        ensures
            b == (PipelineBuilder { has_fragment_shader: true, ..self }),
    {
        PipelineBuilder { has_fragment_shader: true, ..self }
    }

    pub fn topology(self, topology: Topology) -> (b: PipelineBuilder)
        ensures
            b == (PipelineBuilder { topology, ..self }),
    {
        PipelineBuilder { topology, ..self }
    }

    pub fn cull_mode(self, cull_mode: CullMode) -> (b: PipelineBuilder)
        ensures
            b == (PipelineBuilder { cull_mode, ..self }),
    {
        PipelineBuilder { cull_mode, ..self }
    }

    pub fn depth_stencil(self) -> (b: PipelineBuilder)
        ensures
            b == (PipelineBuilder { depth_enabled: true, ..self }),
    {
        PipelineBuilder { depth_enabled: true, ..self }
    }

    /// Build the pipeline: succeeds exactly when both shader stages were
    /// supplied; a missing vertex shader is reported first.
    pub fn build(self, format: TextureFormat) -> (r: Result<Pipeline, VibeVJError>)
        ensures
            r is Ok <==> self.has_vertex_shader && self.has_fragment_shader,
            r is Ok ==> r->Ok_0 == (Pipeline {
                format,
                topology: self.topology,
                cull_mode: self.cull_mode,
                depth_enabled: self.depth_enabled,
            }),
            !self.has_vertex_shader ==> (r matches Err(VibeVJError::RenderError(m))
                && m@ == "Vertex shader not set"@),
            self.has_vertex_shader && !self.has_fragment_shader ==> (r matches Err(
                VibeVJError::RenderError(m),
            ) && m@ == "Fragment shader not set"@),
    {
        if !self.has_vertex_shader {
            return Err(VibeVJError::RenderError("Vertex shader not set".to_string()));
        }
        if !self.has_fragment_shader {
            return Err(VibeVJError::RenderError("Fragment shader not set".to_string()));
        }
        Ok(Pipeline {
            format,
            topology: self.topology,
            cull_mode: self.cull_mode,
            depth_enabled: self.depth_enabled,
        })
    }
}

} // verus!
