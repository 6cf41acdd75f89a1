use vstd::prelude::*;

verus! {

/// Writer is an abstraction of an output buffer that can rewind back to a
/// previous position. The formatting engine uses rewinds to discard
/// whitespace it has already copied.
///
/// The buffer is modelled by `bytes`, the sequence of bytes it currently
/// holds; every method is specified against that model.
pub trait Writer: Sized {
    /// The bytes currently held by the buffer.
    spec fn bytes(&self) -> Seq<u8>;

    /// Writes a single byte to the output
    /// and implicitly advances the position by 1.
    fn write(&mut self, byte: u8)
        requires
            old(self).bytes().len() < usize::MAX,
        ensures
            final(self).bytes() == old(self).bytes().push(byte),
    ;

    /// Writes multiple bytes to the output
    /// and implicitly advances the position by the number of bytes written.
    fn write_bytes(&mut self, bytes: &[u8])
        requires
            old(self).bytes().len() + bytes@.len() <= usize::MAX,
        ensures
            final(self).bytes() == old(self).bytes() + bytes@,
    ;

    /// Rewinds to a previous position, discarding every byte after it.
    fn rewind(&mut self, previous_position: usize)
        requires
            previous_position <= old(self).bytes().len(),
        ensures
            final(self).bytes() == old(self).bytes().take(previous_position as int),
    ;

    /// Gets the current position.
    fn position(&self) -> (r: usize)
        ensures
            r == self.bytes().len(),
    ;
}

/// Implementation of the Writer trait for a standard vector.
impl Writer for Vec<u8> {
    open spec fn bytes(&self) -> Seq<u8> {
        self@
    }

    fn write(&mut self, byte: u8) {
        self.push(byte);
    }

    fn write_bytes(&mut self, bytes: &[u8]) {
        let ghost initial = self@;
        let mut j: usize = 0;
        while j < bytes.len()
            invariant
                j <= bytes@.len(),
                self@ == initial + bytes@.take(j as int),
            decreases bytes@.len() - j,
        {
            self.push(bytes[j]);
            proof {
                assert(initial + bytes@.take(j as int + 1)
                    =~= (initial + bytes@.take(j as int)).push(bytes@[j as int]));
            }
            j += 1;
        }
        proof {
            assert(bytes@.take(bytes@.len() as int) =~= bytes@);
        }
    }

    fn rewind(&mut self, previous_position: usize) {
        self.truncate(previous_position);
    }

    fn position(&self) -> (r: usize) {
        self.len()
    }
}

/// Writer that only counts the number of bytes written.
/// The bytes themselves are discarded; a ghost copy of them remains so
/// that the counter satisfies the same contracts as a real buffer.
pub struct CountingWriter {
    /// Number of bytes currently stored in the "buffer".
    position: usize,

    /// Maximum number of bytes that the "buffer" ever contained.
    maximum_position: usize,

    /// The bytes that a real buffer would hold at this point.
    contents: Ghost<Seq<u8>>,
}

impl CountingWriter {
    #[verifier::type_invariant]
    spec fn wf(self) -> bool {
        &&& self.position == self.contents@.len()
        &&& self.position <= self.maximum_position
    }

    /// The high-water mark: the largest length the buffer has ever had.
    pub closed spec fn max_bytes(&self) -> nat {
        self.maximum_position as nat
    }

    /// Factory method.
    pub fn new() -> (w: CountingWriter)
        ensures
            w.bytes() == Seq::<u8>::empty(),
            w.max_bytes() == 0,
    {
        CountingWriter { position: 0, maximum_position: 0, contents: Ghost(Seq::empty()) }
    }

    /// Getter: the high-water mark, which never falls below the current
    /// length.
    pub fn maximum_position(&self) -> (r: usize)
        ensures
            r == self.max_bytes(),
            r >= self.bytes().len(),
    {
        proof {
            use_type_invariant(self);
        }
        self.maximum_position
    }
}

impl Writer for CountingWriter {
    closed spec fn bytes(&self) -> Seq<u8> {
        self.contents@
    }

    fn write(&mut self, byte: u8)
        ensures
            final(self).max_bytes() == vstd::math::max(
                old(self).max_bytes() as int,
                final(self).bytes().len() as int,
            ),
    {
        proof {
            use_type_invariant(&*self);
        }
        let new_position = self.position + 1;
        let new_maximum = if new_position > self.maximum_position {
            new_position
        } else {
            self.maximum_position
        };
        let ghost new_contents = self.contents@.push(byte);
        *self = CountingWriter {
            position: new_position,
            maximum_position: new_maximum,
            contents: Ghost(new_contents),
        };
    }

    fn write_bytes(&mut self, bytes: &[u8])
        ensures
            final(self).max_bytes() == vstd::math::max(
                old(self).max_bytes() as int,
                final(self).bytes().len() as int,
            ),
    {
        proof {
            use_type_invariant(&*self);
        }
        let new_position = self.position + bytes.len();
        let new_maximum = if new_position > self.maximum_position {
            new_position
        } else {
            self.maximum_position
        };
        let ghost new_contents = self.contents@ + bytes@;
        *self = CountingWriter {
            position: new_position,
            maximum_position: new_maximum,
            contents: Ghost(new_contents),
        };
    }

    fn rewind(&mut self, previous_position: usize)
        ensures
            final(self).max_bytes() == old(self).max_bytes(),
    {
        proof {
            use_type_invariant(&*self);
        }
        let ghost new_contents = self.contents@.take(previous_position as int);
        *self = CountingWriter {
            position: previous_position,
            maximum_position: self.maximum_position,
            contents: Ghost(new_contents),
        };
    }

    fn position(&self) -> (r: usize) {
        proof {
            use_type_invariant(self);
        }
        self.position
    }
}

} // verus!
