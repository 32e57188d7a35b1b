//! Compiled compute shaders.

use crate::descriptors::{Addressing, Filtering};
use crate::device::{address_mode_of, create_sampler, create_shader_module, filter_mode_of};
use crate::error::EngineError;
use std::sync::Arc;
use vstd::prelude::*;

verus! {

/// How the sampler of a shader reads textures: one address mode for all three
/// coordinates, one filter for magnifying, minifying and mipmaps.
#[derive(Clone, Copy, Debug)]
pub struct SamplerOptions {
    pub address_mode: Addressing,
    pub filter: Filtering,
}

/// A compiled compute shader with its optional sampler, known to the
/// pipeline cache by its `id`. Two shaders of one `id` must mean the same.
#[derive(Clone)]
pub struct CompiledWgsl {
    pub(crate) id: String,
    pub(crate) module: Arc<wgpu::ShaderModule>,
    pub(crate) sampler: Option<Arc<wgpu::Sampler>>,
    pub(crate) sampler_filters: bool,
    pub(crate) source: String,
}

impl CompiledWgsl {
    /// The id the shader was compiled under.
    pub closed spec fn id_view(&self) -> Seq<char> {
        self.id@
    }

    /// The source the shader was compiled from.
    pub closed spec fn source_view(&self) -> Seq<char> {
        self.source@
    }

    /// Whether the shader has a sampler.
    pub closed spec fn has_sampler(&self) -> bool {
        self.sampler.is_some()
    }

    /// Whether the sampler of the shader filters.
    pub closed spec fn filtering(&self) -> bool {
        self.sampler_filters
    }

    /// Whether the shader has a sampler and, if so, whether it filters: what
    /// the layout of its texture group depends on.
    pub open spec fn sampler_kind(&self) -> Option<bool> {
        if self.has_sampler() {
            Some(self.filtering())
        } else {
            None
        }
    }

    /// Compiles `wgsl_code` on `device` under the id `id`, and creates the
    /// sampler that `sampler_options` describes, if any.
    ///
    /// Whether the device takes the source and the sampler is the device's
    /// decision: a refusal is `EngineError::Compilation` with its message.
    pub fn new(
        id: &str,
        wgsl_code: &str,
        device: &wgpu::Device,
        sampler_options: Option<&SamplerOptions>,
    ) -> (compiled: Result<Self, EngineError>)
        ensures
            match compiled {
                Ok(shader) => {
                    &&& shader.id_view() == id@
                    &&& shader.source_view() == wgsl_code@
                    &&& shader.has_sampler() == sampler_options.is_some()
                    &&& sampler_options.is_some() ==> shader.filtering() == (
                    sampler_options.unwrap().filter == Filtering::Linear)
                },
                Err(error) => error is Compilation,
            },
    {
        let module = match create_shader_module(device, id, wgsl_code) {
            Ok(module) => module,
            Err(message) => {
                return Err(EngineError::Compilation(message));
            },
        };
        let mut sampler: Option<Arc<wgpu::Sampler>> = None;
        let mut sampler_filters: bool = false;
        match sampler_options {
            Some(options) => {
                let address_mode = address_mode_of(options.address_mode);
                let filter = filter_mode_of(options.filter);
                match create_sampler(device, address_mode, filter) {
                    Ok(created) => {
                        sampler = Some(Arc::new(created));
                        sampler_filters = options.filter == Filtering::Linear;
                    },
                    Err(message) => {
                        return Err(EngineError::Compilation(message));
                    },
                }
            },
            None => {},
        }
        Ok(
            CompiledWgsl {
                id: id.to_owned(),
                module: Arc::new(module),
                sampler,
                sampler_filters,
                source: wgsl_code.to_owned(),
            },
        )
    }

    /// The id the shader was compiled under.
    pub fn id(&self) -> (id: &String)
        ensures
            id@ == self.id_view(),
    {
        &self.id
    }

    /// Whether the shader has a sampler.
    pub fn uses_sampler(&self) -> (uses: bool)
        ensures
            uses == self.has_sampler(),
    {
        self.sampler.is_some()
    }

    /// Whether the sampler of the shader filters.
    pub fn sampler_filters(&self) -> (filters: bool)
        ensures
            filters == self.filtering(),
    {
        self.sampler_filters
    }
}

} // verus!
