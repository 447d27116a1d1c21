//! A transport assembled from an input half and an output half.

use vstd::prelude::*;

verus! {

/// Reads come from `input`, writes, flushes and shutdowns go to `output`.
pub struct IoChannel<I, O> {
    input: I,
    output: O,
}

impl<I, O> IoChannel<I, O> {
    /// The half that reads are taken from.
    pub closed spec fn input(&self) -> I {
        self.input
    }

    /// The half that writes go to.
    pub closed spec fn output(&self) -> O {
        self.output
    }

    /// A channel reading from `input` and writing to `output`.
    pub fn new(input: I, output: O) -> (channel: Self)
        ensures
            channel.input() == input,
            channel.output() == output,
    {
        IoChannel { input, output }
    }

    /// The input half, where a read of the channel goes.
    pub fn input_mut(&mut self) -> (input: &mut I)
        ensures
            *input == old(self).input(),
            final(self).input() == *final(input),
            final(self).output() == old(self).output(),
    {
        &mut self.input
    }

    /// The output half, where a write, flush or shutdown of the channel goes.
    pub fn output_mut(&mut self) -> (output: &mut O)
        ensures
            *output == old(self).output(),
            final(self).output() == *final(output),
            final(self).input() == old(self).input(),
    {
        &mut self.output
    }
}

} // verus!
