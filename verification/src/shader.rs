//! A linked shader pipeline: it owns the program handle the driver returned
//! from compiling and linking the two stages (driver work the host performs),
//! and emits the use-program and uniform-setting commands.
//!
//! Uniform setters are fire-and-forget: a name absent from the program is
//! ignored by the driver, so setting one is never an error.

use vstd::prelude::*;

use crate::device::{Command, CommandView, Device, MatrixRef, UniformName};

verus! {

pub struct Pipeline {
    pub id: u32,
}

impl Pipeline {
    /// Wraps a program handle the driver linked.
    pub fn from_program(id: u32) -> (p: Pipeline)
        ensures
            p.id == id,
    {
        Pipeline { id }
    }

    /// Makes this pipeline's program current.
    pub fn use_program(&self, dev: &mut Device)
        ensures
            final(dev).next_handle == old(dev).next_handle,
            final(dev).log() == old(dev).log().push(
                CommandView::UseProgram { program: self.id },
            ),
    {
        dev.record(Command::UseProgram { program: self.id });
    }

    /// Sets an integer uniform (a sampler slot, most of the time).
    pub fn set_uniform_1i(&self, dev: &mut Device, name: UniformName, value: i32)
        ensures
            final(dev).next_handle == old(dev).next_handle,
            final(dev).log() == old(dev).log().push(
                CommandView::SetUniformInt { name, value },
            ),
    {
        dev.record(Command::SetUniformInt { name, value });
    }

    /// Sets a matrix uniform; the host computes the named matrix.
    pub fn set_uniform_matrix(&self, dev: &mut Device, name: UniformName, matrix: MatrixRef)
        ensures
            final(dev).next_handle == old(dev).next_handle,
            final(dev).log() == old(dev).log().push(
                CommandView::SetUniformMatrix { name, matrix },
            ),
    {
        dev.record(Command::SetUniformMatrix { name, matrix });
    }

    /// Sets a scalar uniform to the exact rational `numer / denom`; the host
    /// performs the one floating-point division at replay time.
    pub fn set_uniform_ratio(&self, dev: &mut Device, name: UniformName, numer: u32, denom: u32)
        ensures
            final(dev).next_handle == old(dev).next_handle,
            final(dev).log() == old(dev).log().push(
                CommandView::SetUniformRatio { name, numer, denom },
            ),
    {
        dev.record(Command::SetUniformRatio { name, numer, denom });
    }

    /// Releases the linked program: exactly one delete. Taking the pipeline
    /// by value makes a second release impossible.
    pub fn release(self, dev: &mut Device)
        ensures
            final(dev).next_handle == old(dev).next_handle,
            final(dev).log() == old(dev).log().push(
                CommandView::DeleteProgram { program: self.id },
            ),
    {
        dev.record(Command::DeleteProgram { program: self.id });
    }
}

} // verus!
