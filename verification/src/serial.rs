//! A bounded first-in-first-out byte buffer between formatted output and
//! the serial transmitter.

use vstd::prelude::*;
use vstd::string::StringSliceAdditionalSpecFns;

verus! {

/// How many bytes the transmit buffer holds.
pub const SERIAL_BUFFER_CAPACITY: usize = 32;

/// A bounded queue of bytes awaiting transmission.
pub struct SerialBuffer {
    queue: Vec<u8>,
}

impl View for SerialBuffer {
    type V = Seq<u8>;

    closed spec fn view(&self) -> Seq<u8> {
        self.queue@
    }
}

impl SerialBuffer {
    /// The buffer never exceeds its capacity.
    pub open spec fn wf(&self) -> bool {
        self@.len() <= SERIAL_BUFFER_CAPACITY
    }

    /// An empty buffer.
    pub fn new() -> (r: SerialBuffer)
        ensures
            r@ == Seq::<u8>::empty(),
            r.wf(),
    {
        SerialBuffer { queue: Vec::new() }
    }

    /// Append a string's bytes. When the string does not fit, the buffer
    /// fills up to its capacity and the rest is rejected.
    pub fn write_str(&mut self, s: &str) -> (r: Result<(), ()>)
        requires
            old(self).wf(),
        ensures
            final(self).wf(),
            old(self)@.len() + s.spec_bytes().len() <= SERIAL_BUFFER_CAPACITY ==> r
                == Ok::<(), ()>(()) && final(self)@ == old(self)@ + s.spec_bytes(),
            old(self)@.len() + s.spec_bytes().len() > SERIAL_BUFFER_CAPACITY ==> r
                == Err::<(), ()>(()) && final(self)@ == old(self)@ + s.spec_bytes().take(
                SERIAL_BUFFER_CAPACITY - old(self)@.len(),
            ),
    {
        let bytes = s.as_bytes();
        let mut i: usize = 0;
        while i < bytes.len()
            invariant
                i <= bytes.len(),
                bytes@ == s.spec_bytes(),
                old(self).wf(),
                self@ == old(self)@ + bytes@.take(i as int),
                self@.len() <= SERIAL_BUFFER_CAPACITY,
            decreases bytes.len() - i,
        {
            if self.queue.len() >= SERIAL_BUFFER_CAPACITY {
                proof {
                    assert(bytes@.take((SERIAL_BUFFER_CAPACITY - old(self)@.len()) as int)
                        =~= bytes@.take(i as int));
                }
                return Err(());
            }
            self.queue.push(bytes[i]);
            proof {
                assert(old(self)@ + bytes@.take((i + 1) as int) =~= (old(self)@ + bytes@.take(
                    i as int,
                )).push(bytes@[i as int]));
            }
            i = i + 1;
        }
        proof {
            assert(bytes@.take(bytes@.len() as int) =~= bytes@);
        }
        Ok(())
    }

    /// Take the oldest byte out of the buffer.
    pub fn dequeue(&mut self) -> (r: Option<u8>)
        requires
            old(self).wf(),
        ensures
            final(self).wf(),
            old(self)@.len() == 0 ==> r is None && final(self)@ == old(self)@,
            old(self)@.len() > 0 ==> r == Some(old(self)@[0]) && final(self)@ == old(
                self,
            )@.drop_first(),
    {
        if self.queue.len() == 0 {
            None
        } else {
            Some(self.queue.remove(0))
        }
    }
}

} // verus!
