//! Decisions of the frame sources: which backend to use, when a frame is
//! complete, and which bin of a spectrum is the loudest.
use vstd::prelude::*;

verus! {

/// The capture backends a frame can come from.
#[derive(Debug, Clone, Copy, PartialEq, Eq, Structural)]
pub enum Source {
    /// A live capture device.
    Alsa,
    /// Raw native-endian `f32` samples read from a named pipe.
    MpdFifo,
}

/// The backend named by a command-line choice: the streamed pipe for
/// `mpd_fifo`, the capture device for any other choice or none.
pub open spec fn source_named(choice: Option<Seq<char>>) -> Source {
    match choice {
        Some(name) => if name == "mpd_fifo"@ {
            Source::MpdFifo
        } else {
            Source::Alsa
        },
        None => Source::Alsa,
    }
}

impl Source {
    /// Picks the backend for an optional command-line choice.
    pub fn from_choice(choice: Option<&String>) -> (r: Source)
        ensures
            r == source_named(
                match choice {
                    Some(name) => Some(name@),
                    None => None,
                },
            ),
    {
        match choice {
            Some(name) => {
                let fifo = "mpd_fifo".to_owned();
                if name.eq(&fifo) {
                    Source::MpdFifo
                } else {
                    Source::Alsa
                }
            },
            None => Source::Alsa,
        }
    }
}

/// Position of an `f32`, given by its bit pattern, in IEEE 754 totalOrder:
/// positive patterns in increasing order of their bits, negative ones in
/// decreasing order and below every positive one (so `-0.0 < +0.0`, and each
/// NaN sits beyond the infinity of its sign).
pub open spec fn total_order_key(bits: u32) -> int {
    if bits < 0x8000_0000 {
        bits as int
    } else {
        0x7fff_ffff - bits as int
    }
}

/// The totalOrder position of the `f32` with bit pattern `bits`.
pub fn total_order_position(bits: u32) -> (r: i64)
    ensures
        r == total_order_key(bits),
{
    if bits < 0x8000_0000 {
        bits as i64
    } else {
        0x7fff_ffffi64 - bits as i64
    }
}

/// Index of the loudest bin of a spectrum, given as the `f32` bit patterns of
/// its magnitudes and compared in totalOrder. Among equal maxima the last one
/// wins; an empty spectrum gives 0.
pub fn get_highest_output_index(output_bits: &[u32]) -> (r: usize)
    ensures
        output_bits@.len() == 0 ==> r == 0,
        output_bits@.len() > 0 ==> {
            &&& r < output_bits@.len()
            &&& forall|j: int|
                0 <= j < output_bits@.len() ==> total_order_key(#[trigger] output_bits@[j])
                    <= total_order_key(output_bits@[r as int])
            &&& forall|j: int|
                r < j < output_bits@.len() ==> total_order_key(#[trigger] output_bits@[j])
                    < total_order_key(output_bits@[r as int])
        },
{
    let n = output_bits.len();
    if n == 0 {
        return 0;
    }
    let mut best: usize = 0;
    let mut best_key = total_order_position(output_bits[0]);
    let mut i: usize = 1;
    while i < n
        invariant
            n == output_bits@.len(),
            1 <= i <= n,
            best < i,
            best_key == total_order_key(output_bits@[best as int]),
            forall|j: int|
                0 <= j < i ==> total_order_key(#[trigger] output_bits@[j]) <= best_key,
            forall|j: int|
                best < j < i ==> total_order_key(#[trigger] output_bits@[j]) < best_key,
        decreases n - i,
    {
        let key = total_order_position(output_bits[i]);
        if key >= best_key {
            best = i;
            best_key = key;
        }
        i = i + 1;
    }
    best
}

/// How far a frame buffer of `target` samples has been filled by a source
/// that may deliver partial blocks.
#[derive(Debug, Clone, Copy, PartialEq, Eq, Structural)]
pub struct FillProgress {
    pub filled: usize,
    pub target: usize,
}

impl FillProgress {
    /// No more samples have been counted than the buffer holds.
    pub open spec fn wf(&self) -> bool {
        self.filled <= self.target
    }

    /// An empty buffer of `target` samples.
    pub fn new(target: usize) -> (r: FillProgress)
        ensures
            r.wf(),
            r.filled == 0,
            r.target == target,
    {
        FillProgress { filled: 0, target }
    }

    /// Samples still missing; the next read goes to `filled..target`.
    pub fn remaining(&self) -> (r: usize)
        requires
            self.wf(),
        ensures
            r == self.target - self.filled,
    {
        self.target - self.filled
    }

    /// The buffer holds a whole frame.
    pub fn is_complete(&self) -> (r: bool)
        requires
            self.wf(),
        ensures
            r == (self.filled == self.target),
    {
        self.filled == self.target
    }

    /// Counts `count` more samples delivered into the missing part; returns
    /// whether the frame is now complete.
    pub fn record_read(&mut self, count: usize) -> (r: bool)
        requires
            old(self).wf(),
            count <= old(self).target - old(self).filled,
        ensures
            final(self).wf(),
            final(self).target == old(self).target,
            final(self).filled == old(self).filled + count,
            r == (final(self).filled == final(self).target),
    {
        self.filled = self.filled + count;
        self.filled == self.target
    }
}

} // verus!
