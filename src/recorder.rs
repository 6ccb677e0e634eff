use crate::window::{last_n, lemma_last_n_append, RollingWindow};
use vstd::prelude::*;

verus! {

/// What a recorder has taken in: every sample accepted, in order (each one is
/// also handed to the output file), and how many arrived since the window was
/// last analyzed.
pub struct RecorderView<T> {
    pub samples: Seq<T>,
    pub pending: nat,
}

/// The recorder after accepting `block`, with an analysis window of `w`
/// samples: once `w` samples have arrived since the last analysis, the
/// window is analyzed and the count starts again.
pub open spec fn accepted<T>(r: RecorderView<T>, block: Seq<T>, w: nat) -> RecorderView<T> {
    let total = r.pending + block.len();
    RecorderView {
        samples: r.samples + block,
        pending: if total >= w {
            0
        } else {
            total
        },
    }
}

/// The recorder after accepting each of `blocks` in order.
pub open spec fn accepted_all<T>(r: RecorderView<T>, blocks: Seq<Seq<T>>, w: nat) -> RecorderView<
    T,
>
    decreases blocks.len(),
{
    if blocks.len() == 0 {
        r
    } else {
        accepted(accepted_all(r, blocks.drop_last(), w), blocks.last(), w)
    }
}

/// The blocks laid end to end.
pub open spec fn concat_blocks<T>(blocks: Seq<Seq<T>>) -> Seq<T>
    decreases blocks.len(),
{
    if blocks.len() == 0 {
        Seq::empty()
    } else {
        concat_blocks(blocks.drop_last()) + blocks.last()
    }
}

/// The sum of the blocks' lengths.
pub open spec fn total_len<T>(blocks: Seq<Seq<T>>) -> nat
    decreases blocks.len(),
{
    if blocks.len() == 0 {
        0
    } else {
        total_len(blocks.drop_last()) + blocks.last().len()
    }
}

/// Every sample of every block accepted is recorded, in the order of
/// delivery, none twice: the recorded count grows by exactly the sum of the
/// blocks' lengths.
pub proof fn lemma_records_every_block<T>(r: RecorderView<T>, blocks: Seq<Seq<T>>, w: nat)
    ensures
        accepted_all(r, blocks, w).samples == r.samples + concat_blocks(blocks),
        accepted_all(r, blocks, w).samples.len() == r.samples.len() + total_len(blocks),
    decreases blocks.len(),
{
    if blocks.len() == 0 {
        assert(r.samples + concat_blocks(blocks) =~= r.samples);
    } else {
        lemma_records_every_block(r, blocks.drop_last(), w);
        assert(r.samples + concat_blocks(blocks) =~= (r.samples + concat_blocks(
            blocks.drop_last(),
        )) + blocks.last());
    }
}

/// The decisions of the recording consumer: it takes the sample blocks in
/// the order the hardware produced them, counts what goes to the output
/// file, keeps the rolling window, and says when the window is due for
/// analysis.
///
/// Blocks still queued when the stop signal arrives are all recorded: the
/// stream is dropped first, so the queue is finite, and the session drains it
/// completely before the file is finalized.
pub struct Recorder<T> {
    window: RollingWindow<T>,
    written: u64,
    pending: usize,
    samples: Ghost<Seq<T>>,
}

impl<T> View for Recorder<T> {
    type V = RecorderView<T>;

    closed spec fn view(&self) -> RecorderView<T> {
        RecorderView { samples: self.samples@, pending: self.pending as nat }
    }
}

impl<T: Copy> Recorder<T> {
    /// The number of samples the analysis window holds.
    pub closed spec fn window_size(&self) -> nat {
        self.window.spec_capacity()
    }

    /// The samples in the analysis window, oldest first.
    pub closed spec fn window_view(&self) -> Seq<T> {
        self.window@
    }

    pub closed spec fn wf(&self) -> bool {
        &&& self.window.wf()
        &&& self.window@ == last_n(self.samples@, self.window.spec_capacity())
        &&& self.written == self.samples@.len()
        &&& self.pending < self.window.spec_capacity()
        &&& self.pending <= self.samples@.len()
    }

    /// A recorder that has taken nothing in, with an analysis window of
    /// `window_size` samples.
    pub fn new(window_size: usize) -> (r: Self)
        requires
            window_size > 0,
        ensures
            r.wf(),
            r.window_size() == window_size,
            r@ == (RecorderView::<T> { samples: Seq::empty(), pending: 0 }),
    {
        Recorder {
            window: RollingWindow::new(window_size),
            written: 0,
            pending: 0,
            samples: Ghost(Seq::empty()),
        }
    }

    /// How many samples have been handed to the output file.
    pub fn written(&self) -> (n: u64)
        requires
            self.wf(),
        ensures
            n == self@.samples.len(),
    {
        self.written
    }

    /// The rolling window, oldest sample first.
    pub fn window(&self) -> (v: Vec<T>)
        requires
            self.wf(),
        ensures
            v@ == self.window_view(),
            v@ == last_n(self@.samples, self.window_size()),
    {
        self.window.contents()
    }

    /// Takes in one block, whose samples the caller writes to the output file
    /// in order. When `window_size` samples have arrived since the last
    /// analysis, returns the most recent `window_size` samples to analyze.
    pub fn accept_block(&mut self, block: &[T]) -> (due: Option<Vec<T>>)
        requires
            old(self).wf(),
            old(self)@.samples.len() + block@.len() <= u64::MAX,
        ensures
            final(self).wf(),
            final(self).window_size() == old(self).window_size(),
            final(self)@ == accepted(old(self)@, block@, old(self).window_size()),
            due is Some <==> old(self)@.pending + block@.len() >= old(self).window_size(),
            due matches Some(v) ==> v@ == last_n(final(self)@.samples, old(self).window_size())
                && v@.len() == old(self).window_size(),
    {
        let ghost cap = self.window.spec_capacity();
        self.window.push_block(block);
        proof {
            lemma_last_n_append(self.samples@, block@, cap);
        }
        self.samples = Ghost(self.samples@ + block@);
        self.written = self.written + block.len() as u64;
        if block.len() >= self.window.capacity() - self.pending {
            self.pending = 0;
            let v = self.window.contents();
            Some(v)
        } else {
            self.pending = self.pending + block.len();
            None
        }
    }
}

} // verus!
