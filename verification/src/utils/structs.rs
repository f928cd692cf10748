//! Structures commonly used to describe environments.

use core::marker::PhantomData;
use vstd::prelude::*;

use crate::utils::renderer::RenderMode;

verus! {

/// Defines a set of common properties used to describe an environment
/// further.
#[derive(Debug)]
pub struct Metadata<T> {
    /// The render modes supported by the environment.
    pub render_modes: &'static [RenderMode],
    /// The frame rate used by the internal renderer.
    pub render_fps: u32,
    /// Ties the description to the environment type it belongs to.
    pub marker: PhantomData<T>,
}

impl<T> Clone for Metadata<T> {
    fn clone(&self) -> (r: Self)
        ensures
            r == *self,
    {
        *self
    }
}

impl<T> Copy for Metadata<T> {

}

impl<T> Metadata<T> {
    /// Builds the description from the supported modes and the frame rate.
    pub fn new(render_modes: &'static [RenderMode], render_fps: u32) -> (r: Self)
        ensures
            r.render_modes@ == render_modes@,
            r.render_fps == render_fps,
    {
        Metadata { render_modes, render_fps, marker: PhantomData }
    }
}

} // verus!
