//! The bridge between two matched peers: what a reader does with the
//! outcome of a read, and a writer with that of a write. The bridge copies
//! bytes as they are; it neither frames nor opens them.

use crate::model::TCP_BUFFER_SIZE;
use vstd::prelude::*;
use vstd::slice::{slice_subrange, slice_to_vec};

verus! {

/// How many chunks may wait between the reader and the writer of one
/// direction before the reader has to pause.
pub const QUEUE_CAPACITY: usize = 2;

/// The chunk that a reader hands on after a read into `buf`: the bytes
/// read, where the read gave `count` bytes, at least one and no more than
/// `buf` holds. The end of the stream, a failed read (`None`) and a count
/// that cannot be end the direction.
pub open spec fn forwarded(buf: Seq<u8>, read: Option<usize>) -> Option<Seq<u8>> {
    match read {
        Some(count) => if 0 < count <= buf.len() {
            Some(buf.subrange(0, count as int))
        } else {
            None
        },
        None => None,
    }
}

/// A buffer to read into: as long as the largest chunk, and zeroed.
pub fn read_buffer() -> (buf: Vec<u8>)
    ensures
        buf@.len() == TCP_BUFFER_SIZE,
        forall|i: int| 0 <= i < buf@.len() ==> buf@[i] == 0,
{
    let mut buf: Vec<u8> = Vec::new();
    buf.resize(TCP_BUFFER_SIZE, 0u8);
    buf
}

/// What a reader hands on after a read into `buf`, or `None` where its
/// direction has ended.
pub fn on_read(buf: &[u8], read: Option<usize>) -> (chunk: Option<Vec<u8>>)
    ensures
        match forwarded(buf@, read) {
            Some(bytes) => chunk matches Some(c) && c@ == bytes,
            None => chunk is None,
        },
{
    match read {
        Some(count) => {
            if 0 < count && count <= buf.len() {
                Some(slice_to_vec(slice_subrange(buf, 0, count)))
            } else {
                None
            }
        },
        None => None,
    }
}

/// Whether a writer goes on after a write of `chunk`: it does where the
/// socket took every byte, and ends its direction on a failed write (`None`)
/// and on a short one.
pub fn on_write(chunk: &[u8], wrote: Option<usize>) -> (goes_on: bool)
    ensures
        goes_on == (wrote == Some(chunk@.len() as usize)),
{
    match wrote {
        Some(count) => count == chunk.len(),
        None => false,
    }
}

/// The two directions of a bridge, each running or ended.
#[derive(Debug, Clone, Copy, PartialEq, Eq, Structural)]
pub struct Bridge {
    pub a_to_b: bool,
    pub b_to_a: bool,
}

/// A direction of a bridge.
#[derive(Debug, Clone, Copy, PartialEq, Eq, Structural)]
pub enum Direction {
    AToB,
    BToA,
}

/// Begins a bridge: both directions run.
pub fn pipe() -> (bridge: Bridge)
    ensures
        bridge == (Bridge { a_to_b: true, b_to_a: true }),
{
    Bridge { a_to_b: true, b_to_a: true }
}

impl Bridge {
    /// Notes that `direction` has ended.
    pub fn end(&mut self, direction: Direction)
        ensures
            *final(self) == match direction {
                Direction::AToB => Bridge { a_to_b: false, ..*old(self) },
                Direction::BToA => Bridge { b_to_a: false, ..*old(self) },
            },
    {
        match direction {
            Direction::AToB => {
                self.a_to_b = false;
            },
            Direction::BToA => {
                self.b_to_a = false;
            },
        }
    }

    /// Whether the bridge is over: it is once both directions have ended.
    pub fn finished(&self) -> (over: bool)
        ensures
            over == (!self.a_to_b && !self.b_to_a),
    {
        !self.a_to_b && !self.b_to_a
    }
}

} // verus!
