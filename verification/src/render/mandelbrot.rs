//! Which reference orbit the GPU currently holds.
//!
//! The orbit buffer is up to 800 KB, so it is only re-uploaded when the
//! scene's reference generation differs from the one last written.

use vstd::prelude::*;

verus! {

pub struct OrbitUpload {
    /// Reference generation currently sitting in the orbit buffer. `None`
    /// until the first upload.
    uploaded_generation: Option<u64>,
}

impl OrbitUpload {
    /// The generation last written to the orbit buffer, if any.
    pub closed spec fn spec_uploaded(&self) -> Option<u64> {
        self.uploaded_generation
    }

    /// Nothing uploaded yet.
    pub fn new() -> (r: Self)
        ensures
            r.spec_uploaded() == None::<u64>,
    {
        OrbitUpload { uploaded_generation: None }
    }

    /// Whether the orbit of `generation` must be written before drawing.
    pub fn needs_upload(&self, generation: u64) -> (r: bool)
        ensures
            r == (self.spec_uploaded() != Some(generation)),
    {
        match self.uploaded_generation {
            Some(g) => g != generation,
            None => true,
        }
    }

    /// The orbit of `generation` has been written.
    pub fn record(&mut self, generation: u64)
        ensures
            final(self).spec_uploaded() == Some(generation),
    {
        self.uploaded_generation = Some(generation);
    }

    pub fn uploaded_generation(&self) -> (r: Option<u64>)
        ensures
            r == self.spec_uploaded(),
    {
        self.uploaded_generation
    }
}

} // verus!
