//! The fixed-window sample filter.
//!
//! A [`SampleBuffer`] always holds exactly [`BUFFER_SIZE`] samples, oldest
//! first; it is pre-filled with zero samples at construction. `push`
//! evicts the oldest and appends the newest. `mean_sample` is the
//! truncated mean of the window — with a deliberate quirk that is part of
//! this component's documented behavior: the sum covers only the oldest
//! `BUFFER_SIZE - 1` samples, yet is divided by the full `BUFFER_SIZE`,
//! so the denominator does not match the number of summed terms.

use vstd::prelude::*;

verus! {

/// Number of samples the window holds.
pub const BUFFER_SIZE: usize = 5;

/// A 3-axis fixed-point reading in device-native units.
#[derive(Clone, Copy, Debug, PartialEq, Eq, Structural)]
pub struct Sample {
    /// X-axis reading.
    pub x: i16,
    /// Y-axis reading.
    pub y: i16,
    /// Z-axis reading.
    pub z: i16,
}

impl Default for Sample {
    /// The zero sample.
    fn default() -> (r: Sample)
        ensures
            r == (Sample { x: 0, y: 0, z: 0 }),
    {
        Sample { x: 0, y: 0, z: 0 }
    }
}

/// A window after one push: the oldest sample dropped, the new one
/// appended.
pub open spec fn pushed(w: Seq<Sample>, item: Sample) -> Seq<Sample> {
    w.subrange(1, w.len() as int).push(item)
}

/// A window after pushing every sample of `items` in order.
pub open spec fn pushed_all(w: Seq<Sample>, items: Seq<Sample>) -> Seq<Sample>
    decreases items.len(),
{
    if items.len() == 0 {
        w
    } else {
        pushed_all(pushed(w, items[0]), items.subrange(1, items.len() as int))
    }
}

/// Integer division by the window size, truncating toward zero.
pub open spec fn div_buffer_size_trunc(t: int) -> int {
    if t >= 0 {
        t / (BUFFER_SIZE as int)
    } else {
        -((-t) / (BUFFER_SIZE as int))
    }
}

/// The sum the mean is computed from on one axis: the first
/// `BUFFER_SIZE - 1` (i.e. all but the newest) values of the window.
pub open spec fn window_sum(axis: Seq<int>) -> int
    recommends
        axis.len() == BUFFER_SIZE,
{
    axis[0] + axis[1] + axis[2] + axis[3]
}

/// The window's X values, as mathematical integers.
pub open spec fn xs(w: Seq<Sample>) -> Seq<int> {
    w.map_values(|s: Sample| s.x as int)
}

/// The window's Y values.
pub open spec fn ys(w: Seq<Sample>) -> Seq<int> {
    w.map_values(|s: Sample| s.y as int)
}

/// The window's Z values.
pub open spec fn zs(w: Seq<Sample>) -> Seq<int> {
    w.map_values(|s: Sample| s.z as int)
}

/// The sliding window: always exactly [`BUFFER_SIZE`] samples, oldest
/// first.
#[derive(Debug)]
pub struct SampleBuffer {
    samples: Vec<Sample>,
}

impl View for SampleBuffer {
    type V = Seq<Sample>;

    closed spec fn view(&self) -> Seq<Sample> {
        self.samples@
    }
}

impl SampleBuffer {
    /// Well-formed: the window is full (it always is; constructors
    /// establish this and `push` preserves it).
    pub open spec fn wf(&self) -> bool {
        self@.len() == BUFFER_SIZE
    }

    /// A window pre-filled with zero samples.
    pub fn new() -> (r: SampleBuffer)
        ensures
            r.wf(),
            forall|i: int| 0 <= i < BUFFER_SIZE ==> r@[i] == (Sample { x: 0, y: 0, z: 0 }),
    {
        let mut samples: Vec<Sample> = Vec::new();
        samples.push(Sample::default());
        samples.push(Sample::default());
        samples.push(Sample::default());
        samples.push(Sample::default());
        samples.push(Sample::default());
        SampleBuffer { samples }
    }

    /// The sample at position `i` (0 is the oldest).
    pub fn sample_at(&self, i: usize) -> (r: Sample)
        requires
            self.wf(),
            i < BUFFER_SIZE,
        ensures
            r == self@[i as int],
    {
        self.samples[i]
    }

    /// Add new item to the buffer, while forgetting about the oldest one.
    pub fn push(&mut self, item: Sample)
        requires
            old(self).wf(),
        ensures
            final(self).wf(),
            final(self)@ == pushed(old(self)@, item),
    {
        let ghost orig = self.samples@;
        let mut i: usize = 0;
        while i < BUFFER_SIZE - 1
            invariant
                self.samples@.len() == BUFFER_SIZE,
                i < BUFFER_SIZE,
                forall|j: int| 0 <= j < i ==> self.samples@[j] == orig[j + 1],
                forall|j: int| i <= j < BUFFER_SIZE ==> self.samples@[j] == orig[j],
            decreases BUFFER_SIZE - 1 - i,
        {
            let next = self.samples[i + 1];
            self.samples.set(i, next);
            i += 1;
        }
        self.samples.set(BUFFER_SIZE - 1, item);
        proof {
            assert(self.samples@ =~= pushed(orig, item));
        }
    }

    /// The truncated mean of the window: on each axis, the sum of all but
    /// the newest sample, divided by the full window size, truncating
    /// toward zero.
    pub fn mean_sample(&self) -> (r: Sample)
        requires
            self.wf(),
        ensures
            r.x as int == div_buffer_size_trunc(window_sum(xs(self@))),
            r.y as int == div_buffer_size_trunc(window_sum(ys(self@))),
            r.z as int == div_buffer_size_trunc(window_sum(zs(self@))),
    {
        let s0 = self.samples[0];
        let s1 = self.samples[1];
        let s2 = self.samples[2];
        let s3 = self.samples[3];

        let total_x: i32 = s0.x as i32 + s1.x as i32 + s2.x as i32 + s3.x as i32;
        let total_y: i32 = s0.y as i32 + s1.y as i32 + s2.y as i32 + s3.y as i32;
        let total_z: i32 = s0.z as i32 + s1.z as i32 + s2.z as i32 + s3.z as i32;

        let mean_x = div_buffer_size_toward_zero(total_x);
        let mean_y = div_buffer_size_toward_zero(total_y);
        let mean_z = div_buffer_size_toward_zero(total_z);

        Sample { x: mean_x as i16, y: mean_y as i16, z: mean_z as i16 }
    }
}

/// Divide by the window size, truncating toward zero (Rust's `/` on the
/// mathematical value of the sum).
fn div_buffer_size_toward_zero(t: i32) -> (r: i32)
    requires
        -0x2_0000 <= t <= 0x2_0000,
    ensures
        r as int == div_buffer_size_trunc(t as int),
        -0x8000 <= r <= 0x7FFF,
{
    if t >= 0 {
        ((t as u32) / (BUFFER_SIZE as u32)) as i32
    } else {
        -((((-t) as u32) / (BUFFER_SIZE as u32)) as i32)
    }
}

/// Law: after pushing at least a window's worth of samples, the window
/// holds exactly the `BUFFER_SIZE` most recent ones, oldest first,
/// whatever it held before.
pub proof fn lemma_window_retains_latest(w: Seq<Sample>, items: Seq<Sample>)
    requires
        w.len() == BUFFER_SIZE,
        items.len() >= BUFFER_SIZE,
    ensures
        pushed_all(w, items) == items.subrange(
            items.len() - BUFFER_SIZE,
            items.len() as int,
        ),
{
    lemma_pushed_all_suffix(w, items);
    assert((w + items).subrange(
        w.len() + items.len() - BUFFER_SIZE,
        (w.len() + items.len()) as int,
    ) =~= items.subrange(items.len() - BUFFER_SIZE, items.len() as int));
}

/// A full window pushed through `items` ends as the last `BUFFER_SIZE`
/// elements of the original window followed by `items`.
proof fn lemma_pushed_all_suffix(w: Seq<Sample>, items: Seq<Sample>)
    requires
        w.len() == BUFFER_SIZE,
    ensures
        pushed_all(w, items).len() == BUFFER_SIZE,
        pushed_all(w, items) == (w + items).subrange(
            w.len() + items.len() - BUFFER_SIZE,
            (w.len() + items.len()) as int,
        ),
    decreases items.len(),
{
    if items.len() == 0 {
        assert((w + items).subrange(0, BUFFER_SIZE as int) =~= w);
    } else {
        let w1 = pushed(w, items[0]);
        let rest = items.subrange(1, items.len() as int);
        lemma_pushed_all_suffix(w1, rest);
        assert((w1 + rest).subrange(
            w1.len() + rest.len() - BUFFER_SIZE,
            (w1.len() + rest.len()) as int,
        ) =~= (w + items).subrange(
            w.len() + items.len() - BUFFER_SIZE,
            (w.len() + items.len()) as int,
        ));
    }
}

} // verus!
