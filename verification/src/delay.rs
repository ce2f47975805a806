//! A monophonic fixed-length delay line

use vstd::prelude::*;
use crate::float_bits::F32Bits;

verus! {

/// A monophonic fixed-length delay line.
///
/// Samples that are passed in to `process()` are stored and then returned later after a delay of
/// a fixed number of samples.
///
/// The buffer holds one slot more than the delay length: the slot at `position` is the next one
/// to be written, and the slots after it (wrapping around) hold the stored samples, oldest first.
pub struct FixedDelayLine {
    buffer: Vec<F32Bits>,
    position: usize,
}

/// The buffer index `position + offset`, wrapped around a buffer of length `len`
///
/// Valid for `position < len` and `offset <= len`.
pub open spec fn wrap_index(position: int, offset: int, len: int) -> int {
    if position + offset < len {
        position + offset
    } else {
        position + offset - len
    }
}

/// One step of a delay line holding `contents` (oldest first): the new contents and the
/// output sample when `input` is processed
pub open spec fn delay_step(contents: Seq<F32Bits>, input: F32Bits) -> (Seq<F32Bits>, F32Bits) {
    if contents.len() == 0 {
        (contents, input)
    } else {
        (contents.drop_first().push(input), contents[0])
    }
}

/// The contents and outputs of a delay line holding `contents` after processing `inputs` in order
pub open spec fn delay_run(contents: Seq<F32Bits>, inputs: Seq<F32Bits>) -> (
    Seq<F32Bits>,
    Seq<F32Bits>,
)
    decreases inputs.len(),
{
    if inputs.len() == 0 {
        (contents, Seq::empty())
    } else {
        let (before, outputs) = delay_run(contents, inputs.drop_last());
        let (after, output) = delay_step(before, inputs.last());
        (after, outputs.push(output))
    }
}

/// A delay line delays its input by its length: after processing `inputs`, the outputs are the
/// stored samples followed by the inputs, cut to the number of inputs, and what's left is stored.
/// Every sample comes out exactly `contents.len()` calls after it went in.
pub proof fn delay_line_delays_by_its_length(contents: Seq<F32Bits>, inputs: Seq<F32Bits>)
    ensures
        delay_run(contents, inputs).1 == (contents + inputs).take(inputs.len() as int),
        delay_run(contents, inputs).0 == (contents + inputs).skip(inputs.len() as int),
    decreases inputs.len(),
{
    if inputs.len() > 0 {
        let m = inputs.len() as int;
        let prefix = inputs.drop_last();
        delay_line_delays_by_its_length(contents, prefix);
        let all = contents + inputs;
        assert(contents + prefix =~= all.take(m - 1 + contents.len()));
        let before = all.skip(m - 1).take(contents.len() as int);
        assert(delay_run(contents, prefix).0 =~= before);
        assert(delay_run(contents, prefix).1 =~= all.take(m - 1));
        if contents.len() == 0 {
            assert(all =~= inputs);
            assert(all.take(m) =~= all.take(m - 1).push(inputs.last()));
            assert(all.skip(m) =~= before);
        } else {
            assert(before[0] == all[m - 1]);
            assert(all.take(m) =~= all.take(m - 1).push(all[m - 1]));
            assert(before.drop_first().push(inputs.last()) =~= all.skip(m));
        }
    }
}

impl View for FixedDelayLine {
    type V = Seq<F32Bits>;

    /// The stored samples, oldest first; its length is the delay in samples
    closed spec fn view(&self) -> Seq<F32Bits> {
        let len = self.buffer@.len() as int;
        Seq::new(
            (len - 1) as nat,
            |k: int| self.buffer@[wrap_index(self.position as int, 1 + k, len)],
        )
    }
}

impl FixedDelayLine {
    /// The delay line's internal invariant: the buffer has at least one slot, and the write
    /// position lies within it
    #[verifier::type_invariant]
    closed spec fn wf(&self) -> bool {
        &&& self.buffer@.len() >= 1
        &&& self.position < self.buffer@.len()
    }

    /// Makes a delay line that delays its input by `length_in_samples` samples,
    /// initialized with silence (`0.0`)
    pub fn with_fixed_length(length_in_samples: usize) -> (r: FixedDelayLine)
        requires
            length_in_samples < usize::MAX,
        ensures
            r@ == Seq::new(length_in_samples as nat, |k: int| F32Bits { bits: 0 }),
    {
        let buffer = vec![F32Bits::zero(); length_in_samples + 1];
        let r = FixedDelayLine { buffer, position: 0 };
        proof {
            assert(r@ =~= Seq::new(length_in_samples as nat, |k: int| F32Bits { bits: 0 }));
        }
        r
    }

    /// Provides the delay line's length in samples
    pub fn length_in_samples(&self) -> (r: usize)
        ensures
            r == self@.len(),
    {
        proof {
            use_type_invariant(self);
        }
        self.buffer.len() - 1
    }

    /// Processes a single sample of input and returns a delayed sample of output
    ///
    /// The output is the oldest stored sample, which is dropped while the input is stored as the
    /// newest; with a delay length of zero the input is returned unchanged.
    pub fn process(&mut self, input: F32Bits) -> (r: F32Bits)
        ensures
            (final(self)@, r) == delay_step(old(self)@, input),
    {
        proof {
            use_type_invariant(&*self);
        }
        let ghost old_buffer = self.buffer@;
        let ghost old_position = self.position as int;
        let ghost old_view = self@;
        let len = self.buffer.len();
        // Write the sample to the buffer at the current position
        let position = self.position;
        self.buffer[position] = input;
        // Advance the buffer position, wrapping back to the start if necessary
        let next_position = if position + 1 == len {
            0
        } else {
            position + 1
        };
        self.position = next_position;
        // Read out the delayed sample from the new buffer position
        let r = self.buffer[self.position];
        proof {
            let n = len as int;
            if n > 1 {
                assert(old_view[0] == old_buffer[wrap_index(old_position, 1, n)]);
                assert(self@ =~= old_view.drop_first().push(input)) by {
                    assert forall|k: int| 0 <= k < n - 1 implies #[trigger] self@[k]
                        == old_view.drop_first().push(input)[k] by {
                        if k < n - 2 {
                            assert(old_view[k + 1] == old_buffer[wrap_index(
                                old_position,
                                1 + (k + 1),
                                n,
                            )]);
                        }
                    }
                }
            } else {
                assert(self@ =~= old_view);
            }
        }
        r
    }

    /// Returns an iterator that provides the delay line's contents starting from the oldest sample
    pub fn iter(&self) -> (r: FixedDelayLineIter<'_>)
        ensures
            r.remaining() == self@,
    {
        proof {
            use_type_invariant(self);
        }
        // Start from the oldest sample, i.e. the sample that would be returned next from process()
        let len = self.buffer.len();
        let start_position = if (self.position + 1) < len {
            self.position + 1
        } else {
            0
        };
        // End at the current position, i.e. the slot after the most recently written sample
        let end_position = self.position;
        let r = FixedDelayLineIter { delay_line: self, position: start_position, end_position };
        proof {
            assert(r.remaining() =~= self@);
        }
        r
    }
}

/// An iterator over the FixedDelayLine's buffer, see [FixedDelayLine::iter]
///
/// Provides the delay line's buffer contents, starting with the oldest stored sample and ending
/// with the most recently stored sample.
pub struct FixedDelayLineIter<'a> {
    delay_line: &'a FixedDelayLine,
    position: usize,
    end_position: usize,
}

impl<'a> FixedDelayLineIter<'a> {
    /// The iterator's internal invariant: both positions lie within the buffer
    #[verifier::type_invariant]
    closed spec fn wf(&self) -> bool {
        &&& self.position < self.delay_line.buffer@.len()
        &&& self.end_position < self.delay_line.buffer@.len()
    }

    /// The samples that are still to be provided, in order
    pub closed spec fn remaining(&self) -> Seq<F32Bits> {
        let len = self.delay_line.buffer@.len() as int;
        let count = if self.position <= self.end_position {
            self.end_position - self.position
        } else {
            self.end_position + len - self.position
        };
        Seq::new(
            count as nat,
            |k: int| self.delay_line.buffer@[wrap_index(self.position as int, k, len)],
        )
    }

    /// Provides the next sample, or `None` when all samples have been provided
    pub fn next(&mut self) -> (r: Option<F32Bits>)
        ensures
            old(self).remaining().len() == 0 ==> r is None && final(self).remaining()
                == old(self).remaining(),
            old(self).remaining().len() > 0 ==> r == Some(old(self).remaining()[0])
                && final(self).remaining() == old(self).remaining().drop_first(),
    {
        proof {
            use_type_invariant(&*self);
        }
        let ghost old_remaining = self.remaining();
        if self.position != self.end_position {
            let len = self.delay_line.buffer.len();
            let result = self.delay_line.buffer[self.position];
            let next_position = if self.position + 1 == len {
                0
            } else {
                self.position + 1
            };
            self.position = next_position;
            proof {
                assert(self.remaining() =~= old_remaining.drop_first());
            }
            Some(result)
        } else {
            None
        }
    }
}

} // verus!
