use vstd::prelude::*;

use crate::frame::{
    BFormat2D, BFormat3D, FrameLayout, Mc51Chn, Mc61Chn, Mc71Chn, McQuad, McRear, Mono, SampleFrame,
    Stereo,
};

verus! {

/// The frames that the flat sample sequence `s` holds, `frame_len()` samples
/// each, in order. Samples after the last whole frame belong to no frame.
pub open spec fn frames_of<F: FrameLayout>(s: Seq<F::Sample>) -> Seq<F> {
    Seq::new(
        s.len() / F::frame_len(),
        |i: int| F::from_seq(s.subrange(i * F::frame_len(), (i + 1) * F::frame_len())),
    )
}

/// The samples of `frames`, frame after frame.
pub open spec fn samples_of<F: FrameLayout>(frames: Seq<F>) -> Seq<F::Sample>
    decreases frames.len(),
{
    if frames.len() == 0 {
        Seq::empty()
    } else {
        samples_of(frames.drop_last()) + frames.last().samples()
    }
}

proof fn lemma_frame_len_positive<F: FrameLayout>()
    ensures
        0 < F::frame_len() <= 8,
{
    let f = F::from_seq(Seq::empty());
    f.lemma_layout();
}

/// A buffer of `n` whole frames reads as `n` frames, and reading those frames
/// back as samples, in order, gives the buffer again.
pub proof fn lemma_round_trip<F: FrameLayout>(s: Seq<F::Sample>, n: nat)
    requires
        s.len() == n * F::frame_len(),
    ensures
        frames_of::<F>(s).len() == n,
        samples_of(frames_of::<F>(s)) == s,
    decreases n,
{
    let k: int = F::frame_len() as int;
    lemma_frame_len_positive::<F>();
    vstd::arithmetic::div_mod::lemma_div_by_multiple(n as int, k as int);
    if n > 0 {
        let m: int = n - 1;
        assert(s.len() == m * k + k) by (nonlinear_arith)
            requires
                s.len() == n * k,
                m == n - 1,
        ;
        assert(0 <= m * k) by (nonlinear_arith)
            requires
                0 <= m,
                0 < k,
        ;
        let p = s.subrange(0, m * k);
        lemma_round_trip::<F>(p, m as nat);
        let fs = frames_of::<F>(s);
        assert(fs.len() == n);
        assert forall|i: int| 0 <= i < m implies fs.drop_last()[i] == frames_of::<F>(p)[i] by {
            assert(0 <= i * k) by (nonlinear_arith)
                requires
                    0 <= i,
                    0 < k,
            ;
            assert((i + 1) * k <= m * k) by (nonlinear_arith)
                requires
                    i < m,
                    0 < k,
            ;
            assert((i + 1) * k == i * k + k) by (nonlinear_arith);
            assert(p.len() == m * k);
            assert(s.subrange(i * k, (i + 1) * k) =~= p.subrange(i * k, (i + 1) * k));
        }
        assert(fs.drop_last() =~= frames_of::<F>(p));
        assert((m + 1) * k == m * k + k) by (nonlinear_arith);
        let tail = s.subrange(m * k, m * k + k);
        assert(fs.last() == F::from_seq(tail));
        F::lemma_from_seq(tail);
        assert(samples_of(fs) == samples_of(fs.drop_last()) + fs.last().samples());
        assert(samples_of(fs) =~= s);
    } else {
        assert(s.len() == 0) by (nonlinear_arith)
            requires
                s.len() == n * k,
                n == 0,
        ;
        assert(s =~= Seq::<F::Sample>::empty());
    }
}

/// Flattening frames and reading the result as frames gives them back.
pub proof fn lemma_frames_round_trip<F: FrameLayout>(frames: Seq<F>)
    ensures
        samples_of(frames).len() == frames.len() * F::frame_len(),
        frames_of::<F>(samples_of(frames)) == frames,
    decreases frames.len(),
{
    let k: int = F::frame_len() as int;
    lemma_frame_len_positive::<F>();
    let n = frames.len();
    if n > 0 {
        let init = frames.drop_last();
        let m: int = n - 1;
        lemma_frames_round_trip::<F>(init);
        frames.last().lemma_layout();
        let s = samples_of(frames);
        let p = samples_of(init);
        assert(s.len() == n * k) by (nonlinear_arith)
            requires
                s.len() == m * k + k,
                m == n - 1,
        ;
        vstd::arithmetic::div_mod::lemma_div_by_multiple(n as int, k as int);
        assert(s == p + frames.last().samples());
        vstd::arithmetic::div_mod::lemma_div_by_multiple(m, k);
        assert(p.len() == m * k);
        assert forall|i: int| 0 <= i < n implies frames_of::<F>(s)[i] == frames[i] by {
            assert(0 <= i * k) by (nonlinear_arith)
                requires
                    0 <= i,
                    0 < k,
            ;
            assert((i + 1) * k == i * k + k) by (nonlinear_arith);
            if i < m {
                assert((i + 1) * k <= m * k) by (nonlinear_arith)
                    requires
                        i < m,
                        0 < k,
                ;
                assert(s.subrange(i * k, (i + 1) * k) =~= p.subrange(i * k, (i + 1) * k));
                assert(frames_of::<F>(p)[i] == init[i]);
            } else {
                assert(i * k == m * k);
                assert(s.subrange(i * k, (i + 1) * k) =~= frames.last().samples());
            }
        }
        assert(frames_of::<F>(s) =~= frames);
    }
}

/// No frame of a buffer reaches past its end, whatever the buffer's length.
pub proof fn lemma_frames_in_bounds<F: FrameLayout>(s: Seq<F::Sample>, i: int)
    requires
        0 <= i < frames_of::<F>(s).len(),
    ensures
        0 <= i * F::frame_len(),
        (i + 1) * F::frame_len() <= s.len(),
{
    let k = F::frame_len() as int;
    lemma_frame_len_positive::<F>();
    let q = s.len() as int / k;
    vstd::arithmetic::div_mod::lemma_fundamental_div_mod(s.len() as int, k);
    assert((i + 1) * k <= q * k) by (nonlinear_arith)
        requires
            i < q,
            0 < k,
    ;
    assert(0 <= i * k) by (nonlinear_arith)
        requires
            0 <= i,
            0 < k,
    ;
}

/// Storing a frame's samples over frame `i` of a flat buffer changes that
/// frame of its view and no other.
proof fn lemma_store_frame<F: FrameLayout>(
    before: Seq<F::Sample>,
    after: Seq<F::Sample>,
    i: int,
    frame: F,
)
    requires
        0 <= i < frames_of::<F>(before).len(),
        after == before.subrange(0, i * F::frame_len()) + frame.samples() + before.subrange(
            (i + 1) * F::frame_len(),
            before.len() as int,
        ),
    ensures
        frames_of::<F>(after) == frames_of::<F>(before).update(i, frame),
{
    let k = F::frame_len() as int;
    lemma_frames_in_bounds::<F>(before, i);
    frame.lemma_layout();
    assert((i + 1) * k == i * k + k) by (nonlinear_arith);
    assert(after.len() == before.len());
    assert forall|j: int| 0 <= j < frames_of::<F>(before).len() implies frames_of::<F>(after)[j]
        == frames_of::<F>(before).update(i, frame)[j] by {
        lemma_frames_in_bounds::<F>(before, j);
        assert((j + 1) * k == j * k + k) by (nonlinear_arith);
        if j < i {
            assert((j + 1) * k <= i * k) by (nonlinear_arith)
                requires
                    j < i,
                    0 < k,
            ;
            assert(after.subrange(j * k, (j + 1) * k) =~= before.subrange(j * k, (j + 1) * k));
        } else if j > i {
            assert((i + 1) * k <= j * k) by (nonlinear_arith)
                requires
                    i < j,
                    0 < k,
            ;
            assert(after.subrange(j * k, (j + 1) * k) =~= before.subrange(j * k, (j + 1) * k));
        } else {
            assert(after.subrange(j * k, (j + 1) * k) =~= frame.samples());
        }
    }
    assert(frames_of::<F>(after) =~= frames_of::<F>(before).update(i, frame));
}

/// Reads frame `i` of the flat buffer `s`.
fn read_frame<F: FrameLayout>(s: &[F::Sample], i: usize) -> (r: F)
    requires
        i < frames_of::<F>(s@).len(),
    ensures
        r == frames_of::<F>(s@)[i as int],
{
    let k = F::len();
    let n = s.len();
    proof {
        lemma_frames_in_bounds::<F>(s@, i as int);
        assert((i + 1) * k == i * k + k) by (nonlinear_arith);
        assert(i * k + k <= n);
    }
    F::read(s, i * k)
}

enum Shared<'a, F: FrameLayout> {
    Frames(&'a [F]),
    Samples(&'a [F::Sample]),
}

/// A read-only view of a buffer as a sequence of frames. It borrows the
/// buffer and copies nothing: a flat buffer of samples is read a frame at a
/// time, and always holds a whole number of frames.
pub struct FrameSlice<'a, F: FrameLayout> {
    backing: Shared<'a, F>,
}

impl<'a, F: FrameLayout> View for FrameSlice<'a, F> {
    type V = Seq<F>;

    closed spec fn view(&self) -> Seq<F> {
        match self.backing {
            Shared::Frames(s) => s@,
            Shared::Samples(s) => frames_of::<F>(s@),
        }
    }
}

impl<'a, F: FrameLayout> FrameSlice<'a, F> {
    #[verifier::type_invariant]
    closed spec fn whole_frames(self) -> bool {
        match self.backing {
            Shared::Frames(_) => true,
            Shared::Samples(s) => s@.len() % F::frame_len() == 0,
        }
    }

    /// Whether the view borrows a slice of frames, rather than of samples.
    pub closed spec fn borrows_frames(self) -> bool {
        self.backing is Frames
    }

    /// Views a slice of frames as itself.
    pub fn from_frames(frames: &'a [F]) -> (r: Self)
        ensures
            r@ == frames@,
            r.borrows_frames(),
    {
        FrameSlice { backing: Shared::Frames(frames) }
    }

    /// Views a flat buffer of samples as frames; `None` when its length is
    /// not a whole number of frames.
    pub fn from_samples(samples: &'a [F::Sample]) -> (r: Option<Self>)
        ensures
            r is Some <==> samples@.len() % F::frame_len() == 0,
            r matches Some(v) ==> v@ == frames_of::<F>(samples@) && !v.borrows_frames(),
    {
        if samples.len() % F::len() == 0 {
            Some(FrameSlice { backing: Shared::Samples(samples) })
        } else {
            None
        }
    }

    fn over_samples(samples: &'a [F::Sample]) -> (r: Self)
        requires
            samples@.len() % F::frame_len() == 0,
        ensures
            r@ == frames_of::<F>(samples@),
            !r.borrows_frames(),
    {
        FrameSlice { backing: Shared::Samples(samples) }
    }

    /// The borrowed slice of frames itself, when the view was made over one.
    pub fn as_frames(&self) -> (r: Option<&'a [F]>)
        ensures
            r is Some <==> self.borrows_frames(),
            r matches Some(fr) ==> fr@ == self@,
    {
        match self.backing {
            Shared::Frames(s) => Some(s),
            Shared::Samples(_) => None,
        }
    }

    /// Number of frames.
    pub fn len(&self) -> (r: usize)
        ensures
            r == self@.len(),
    {
        match self.backing {
            Shared::Frames(s) => s.len(),
            Shared::Samples(s) => s.len() / F::len(),
        }
    }

    /// Frame `i`.
    pub fn get(&self, i: usize) -> (r: F)
        requires
            i < self@.len(),
        ensures
            r == self@[i as int],
    {
        match self.backing {
            Shared::Frames(s) => s[i],
            Shared::Samples(s) => read_frame::<F>(s, i),
        }
    }

    /// The frames, copied out.
    pub fn to_vec(&self) -> (r: Vec<F>)
        ensures
            r@ == self@,
    {
        let n = self.len();
        let mut out: Vec<F> = Vec::new();
        let mut i: usize = 0;
        while i < n
            invariant
                n == self@.len(),
                i <= n,
                out@ == self@.subrange(0, i as int),
            decreases n - i,
        {
            out.push(self.get(i));
            i = i + 1;
            assert(out@ =~= self@.subrange(0, i as int));
        }
        assert(out@ =~= self@);
        out
    }

    /// The samples of the frames, frame after frame, copied out. For a view
    /// of a flat buffer these are the buffer's samples.
    pub fn to_samples(&self) -> (r: Vec<F::Sample>)
        ensures
            r@ == samples_of(self@),
    {
        let n = self.len();
        let mut out: Vec<F::Sample> = Vec::new();
        let mut i: usize = 0;
        while i < n
            invariant
                n == self@.len(),
                i <= n,
                out@ == samples_of(self@.subrange(0, i as int)),
            decreases n - i,
        {
            let f = self.get(i);
            f.push_samples(&mut out);
            assert(self@.subrange(0, i + 1).drop_last() =~= self@.subrange(0, i as int));
            i = i + 1;
        }
        assert(self@.subrange(0, n as int) =~= self@);
        out
    }
}

enum Exclusive<'a, F: FrameLayout> {
    Frames(&'a mut [F]),
    Samples(&'a mut [F::Sample]),
}

/// A mutable view of a buffer as a sequence of frames. It holds the buffer's
/// unique borrow and copies nothing: a frame stored through the view is
/// written into the buffer at once. A view is made over a flat buffer only when
/// it holds a whole number of frames.
pub struct FrameSliceMut<'a, F: FrameLayout> {
    backing: Exclusive<'a, F>,
}

impl<'a, F: FrameLayout> View for FrameSliceMut<'a, F> {
    type V = Seq<F>;

    closed spec fn view(&self) -> Seq<F> {
        match self.backing {
            Exclusive::Frames(s) => s@,
            Exclusive::Samples(s) => frames_of::<F>(s@),
        }
    }
}

impl<'a, F: FrameLayout> FrameSliceMut<'a, F> {
    /// Whether the view borrows a slice of frames, rather than of samples.
    pub closed spec fn borrows_frames(self) -> bool {
        self.backing is Frames
    }

    /// The borrowed slice of frames (meaningful when `borrows_frames()`).
    pub closed spec fn frame_ref(self) -> &'a mut [F] {
        self.backing->Frames_0
    }

    /// The borrowed slice of samples (meaningful when not `borrows_frames()`).
    pub closed spec fn sample_ref(self) -> &'a mut [F::Sample] {
        self.backing->Samples_0
    }

    /// Views a slice of frames as itself.
    pub fn from_frames(frames: &'a mut [F]) -> (r: Self)
        ensures
            r@ == old(frames)@,
            r.borrows_frames(),
            r.frame_ref()@ == old(frames)@,
            final(frames)@ == final(r.frame_ref())@,
    {
        FrameSliceMut { backing: Exclusive::Frames(frames) }
    }

    /// Views a flat buffer of samples as frames; `None` when its length is
    /// not a whole number of frames.
    pub fn from_samples(samples: &'a mut [F::Sample]) -> (r: Option<Self>)
        ensures
            r is Some <==> old(samples)@.len() % F::frame_len() == 0,
            r matches Some(v) ==> {
                &&& v@ == frames_of::<F>(old(samples)@)
                &&& !v.borrows_frames()
                &&& v.sample_ref()@ == old(samples)@
                &&& final(samples)@ == final(v.sample_ref())@
            },
            r is None ==> final(samples)@ == old(samples)@,
    {
        if samples.len() % F::len() == 0 {
            Some(FrameSliceMut { backing: Exclusive::Samples(samples) })
        } else {
            None
        }
    }

    fn over_samples(samples: &'a mut [F::Sample]) -> (r: Self)
        requires
            old(samples)@.len() % F::frame_len() == 0,
        ensures
            r@ == frames_of::<F>(old(samples)@),
            !r.borrows_frames(),
            r.sample_ref()@ == old(samples)@,
            final(samples)@ == final(r.sample_ref())@,
    {
        FrameSliceMut { backing: Exclusive::Samples(samples) }
    }

    /// Number of frames.
    pub fn len(&self) -> (r: usize)
        ensures
            r == self@.len(),
    {
        match &self.backing {
            Exclusive::Frames(s) => s.len(),
            Exclusive::Samples(s) => s.len() / F::len(),
        }
    }

    /// Frame `i`.
    pub fn get(&self, i: usize) -> (r: F)
        requires
            i < self@.len(),
        ensures
            r == self@[i as int],
    {
        match &self.backing {
            Exclusive::Frames(s) => s[i],
            Exclusive::Samples(s) => read_frame::<F>(s, i),
        }
    }

    /// Ends the view: from here on the borrowed buffer holds what the view
    /// last held.
    pub fn release(self)
        ensures
            self.borrows_frames() ==> final(self.frame_ref())@ == self@,
            !self.borrows_frames() ==> final(self.sample_ref())@ == self.sample_ref()@,
            !self.borrows_frames() ==> frames_of::<F>(final(self.sample_ref())@) == self@,
    {
    }

    /// Stores `frame` as frame `i`, in the borrowed buffer itself.
    pub fn set(&mut self, i: usize, frame: F)
        requires
            i < old(self)@.len(),
        ensures
            final(self)@ == old(self)@.update(i as int, frame),
            final(self).borrows_frames() == old(self).borrows_frames(),
            old(self).borrows_frames() ==> final(final(self).frame_ref())@
                == final(old(self).frame_ref())@,
            !old(self).borrows_frames() ==> final(final(self).sample_ref())@
                == final(old(self).sample_ref())@,
    {
        match &mut self.backing {
            Exclusive::Frames(s) => {
                s[i] = frame;
            },
            Exclusive::Samples(s) => {
                let k = F::len();
                let n = s.len();
                proof {
                    lemma_frames_in_bounds::<F>(s@, i as int);
                    assert((i + 1) * k == i * k + k) by (nonlinear_arith);
                    assert(i * k + k <= n);
                }
                let ghost before = s@;
                frame.write(s, i * k);
                proof {
                    lemma_store_frame::<F>(before, s@, i as int, frame);
                }
            },
        }
    }
}

} // verus!

verus! {

/// A buffer that can be viewed as a sequence of frames of `F` without
/// copying: a slice of `F` itself, or a flat slice of its samples.
pub trait AsBufferData<F: SampleFrame> {
    /// Whether the buffer holds a whole number of frames.
    spec fn holds_whole_frames(&self) -> bool;

    /// The frames that the buffer holds.
    spec fn buffer_frames(&self) -> Seq<F>;

    /// Views the buffer as frames. A flat buffer must hold a whole number of
    /// frames.
    fn as_buffer_data(&self) -> (r: FrameSlice<'_, F>)
        requires
            self.holds_whole_frames(),
        ensures
            r@ == self.buffer_frames(),
    ;
}

/// A buffer whose frames can be written through a view, without copying.
pub trait AsBufferDataMut<F: SampleFrame>: AsBufferData<F> {
    /// Views the buffer as frames that can be stored to. A flat buffer must
    /// hold a whole number of frames. Once the view is released, the buffer
    /// holds the frames that the view last held.
    fn as_buffer_data_mut(&mut self) -> (r: FrameSliceMut<'_, F>)
        requires
            old(self).holds_whole_frames(),
        ensures
            r@ == old(self).buffer_frames(),
            r.borrows_frames() ==> final(self).buffer_frames() == final(r.frame_ref())@,
            !r.borrows_frames() ==> final(self).buffer_frames() == frames_of::<F>(
                final(r.sample_ref())@,
            ),
    ;
}

impl<F: SampleFrame> AsBufferData<F> for [F] {
    open spec fn holds_whole_frames(&self) -> bool {
        true
    }

    open spec fn buffer_frames(&self) -> Seq<F> {
        self@
    }

    /// A slice of frames is viewed as itself.
    fn as_buffer_data(&self) -> (r: FrameSlice<'_, F>)
        ensures
            r.borrows_frames(),
    {
        FrameSlice::from_frames(self)
    }
}

impl<F: SampleFrame> AsBufferDataMut<F> for [F] {
    /// A slice of frames is viewed as itself.
    fn as_buffer_data_mut(&mut self) -> (r: FrameSliceMut<'_, F>)
        ensures
            r.borrows_frames(),
    {
        FrameSliceMut::from_frames(self)
    }
}

impl<S: Copy> AsBufferData<Mono<S>> for [S] where
    Mono<S>: SampleFrame<Sample = S>,
{
    open spec fn holds_whole_frames(&self) -> bool {
        self@.len() % Mono::<S>::frame_len() == 0
    }

    open spec fn buffer_frames(&self) -> Seq<Mono<S>> {
        frames_of::<Mono<S>>(self@)
    }

    fn as_buffer_data(&self) -> (r: FrameSlice<'_, Mono<S>>) {
        FrameSlice::over_samples(self)
    }
}

impl<S: Copy> AsBufferDataMut<Mono<S>> for [S] where
    Mono<S>: SampleFrame<Sample = S>,
{
    fn as_buffer_data_mut(&mut self) -> (r: FrameSliceMut<'_, Mono<S>>) {
        FrameSliceMut::over_samples(self)
    }
}

impl<S: Copy> AsBufferData<Stereo<S>> for [S] where
    Stereo<S>: SampleFrame<Sample = S>,
{
    open spec fn holds_whole_frames(&self) -> bool {
        self@.len() % Stereo::<S>::frame_len() == 0
    }

    open spec fn buffer_frames(&self) -> Seq<Stereo<S>> {
        frames_of::<Stereo<S>>(self@)
    }

    fn as_buffer_data(&self) -> (r: FrameSlice<'_, Stereo<S>>) {
        FrameSlice::over_samples(self)
    }
}

impl<S: Copy> AsBufferDataMut<Stereo<S>> for [S] where
    Stereo<S>: SampleFrame<Sample = S>,
{
    fn as_buffer_data_mut(&mut self) -> (r: FrameSliceMut<'_, Stereo<S>>) {
        FrameSliceMut::over_samples(self)
    }
}

impl<S: Copy> AsBufferData<McRear<S>> for [S] where
    McRear<S>: SampleFrame<Sample = S>,
{
    open spec fn holds_whole_frames(&self) -> bool {
        self@.len() % McRear::<S>::frame_len() == 0
    }

    open spec fn buffer_frames(&self) -> Seq<McRear<S>> {
        frames_of::<McRear<S>>(self@)
    }

    fn as_buffer_data(&self) -> (r: FrameSlice<'_, McRear<S>>) {
        FrameSlice::over_samples(self)
    }
}

impl<S: Copy> AsBufferDataMut<McRear<S>> for [S] where
    McRear<S>: SampleFrame<Sample = S>,
{
    fn as_buffer_data_mut(&mut self) -> (r: FrameSliceMut<'_, McRear<S>>) {
        FrameSliceMut::over_samples(self)
    }
}

impl<S: Copy> AsBufferData<McQuad<S>> for [S] where
    McQuad<S>: SampleFrame<Sample = S>,
{
    open spec fn holds_whole_frames(&self) -> bool {
        self@.len() % McQuad::<S>::frame_len() == 0
    }

    open spec fn buffer_frames(&self) -> Seq<McQuad<S>> {
        frames_of::<McQuad<S>>(self@)
    }

    fn as_buffer_data(&self) -> (r: FrameSlice<'_, McQuad<S>>) {
        FrameSlice::over_samples(self)
    }
}

impl<S: Copy> AsBufferDataMut<McQuad<S>> for [S] where
    McQuad<S>: SampleFrame<Sample = S>,
{
    fn as_buffer_data_mut(&mut self) -> (r: FrameSliceMut<'_, McQuad<S>>) {
        FrameSliceMut::over_samples(self)
    }
}

impl<S: Copy> AsBufferData<Mc51Chn<S>> for [S] where
    Mc51Chn<S>: SampleFrame<Sample = S>,
{
    open spec fn holds_whole_frames(&self) -> bool {
        self@.len() % Mc51Chn::<S>::frame_len() == 0
    }

    open spec fn buffer_frames(&self) -> Seq<Mc51Chn<S>> {
        frames_of::<Mc51Chn<S>>(self@)
    }

    fn as_buffer_data(&self) -> (r: FrameSlice<'_, Mc51Chn<S>>) {
        FrameSlice::over_samples(self)
    }
}

impl<S: Copy> AsBufferDataMut<Mc51Chn<S>> for [S] where
    Mc51Chn<S>: SampleFrame<Sample = S>,
{
    fn as_buffer_data_mut(&mut self) -> (r: FrameSliceMut<'_, Mc51Chn<S>>) {
        FrameSliceMut::over_samples(self)
    }
}

impl<S: Copy> AsBufferData<Mc61Chn<S>> for [S] where
    Mc61Chn<S>: SampleFrame<Sample = S>,
{
    open spec fn holds_whole_frames(&self) -> bool {
        self@.len() % Mc61Chn::<S>::frame_len() == 0
    }

    open spec fn buffer_frames(&self) -> Seq<Mc61Chn<S>> {
        frames_of::<Mc61Chn<S>>(self@)
    }

    fn as_buffer_data(&self) -> (r: FrameSlice<'_, Mc61Chn<S>>) {
        FrameSlice::over_samples(self)
    }
}

impl<S: Copy> AsBufferDataMut<Mc61Chn<S>> for [S] where
    Mc61Chn<S>: SampleFrame<Sample = S>,
{
    fn as_buffer_data_mut(&mut self) -> (r: FrameSliceMut<'_, Mc61Chn<S>>) {
        FrameSliceMut::over_samples(self)
    }
}

impl<S: Copy> AsBufferData<Mc71Chn<S>> for [S] where
    Mc71Chn<S>: SampleFrame<Sample = S>,
{
    open spec fn holds_whole_frames(&self) -> bool {
        self@.len() % Mc71Chn::<S>::frame_len() == 0
    }

    open spec fn buffer_frames(&self) -> Seq<Mc71Chn<S>> {
        frames_of::<Mc71Chn<S>>(self@)
    }

    fn as_buffer_data(&self) -> (r: FrameSlice<'_, Mc71Chn<S>>) {
        FrameSlice::over_samples(self)
    }
}

impl<S: Copy> AsBufferDataMut<Mc71Chn<S>> for [S] where
    Mc71Chn<S>: SampleFrame<Sample = S>,
{
    fn as_buffer_data_mut(&mut self) -> (r: FrameSliceMut<'_, Mc71Chn<S>>) {
        FrameSliceMut::over_samples(self)
    }
}

impl<S: Copy> AsBufferData<BFormat2D<S>> for [S] where
    BFormat2D<S>: SampleFrame<Sample = S>,
{
    open spec fn holds_whole_frames(&self) -> bool {
        self@.len() % BFormat2D::<S>::frame_len() == 0
    }

    open spec fn buffer_frames(&self) -> Seq<BFormat2D<S>> {
        frames_of::<BFormat2D<S>>(self@)
    }

    fn as_buffer_data(&self) -> (r: FrameSlice<'_, BFormat2D<S>>) {
        FrameSlice::over_samples(self)
    }
}

impl<S: Copy> AsBufferDataMut<BFormat2D<S>> for [S] where
    BFormat2D<S>: SampleFrame<Sample = S>,
{
    fn as_buffer_data_mut(&mut self) -> (r: FrameSliceMut<'_, BFormat2D<S>>) {
        FrameSliceMut::over_samples(self)
    }
}

impl<S: Copy> AsBufferData<BFormat3D<S>> for [S] where
    BFormat3D<S>: SampleFrame<Sample = S>,
{
    open spec fn holds_whole_frames(&self) -> bool {
        self@.len() % BFormat3D::<S>::frame_len() == 0
    }

    open spec fn buffer_frames(&self) -> Seq<BFormat3D<S>> {
        frames_of::<BFormat3D<S>>(self@)
    }

    fn as_buffer_data(&self) -> (r: FrameSlice<'_, BFormat3D<S>>) {
        FrameSlice::over_samples(self)
    }
}

impl<S: Copy> AsBufferDataMut<BFormat3D<S>> for [S] where
    BFormat3D<S>: SampleFrame<Sample = S>,
{
    fn as_buffer_data_mut(&mut self) -> (r: FrameSliceMut<'_, BFormat3D<S>>) {
        FrameSliceMut::over_samples(self)
    }
}

impl<F: SampleFrame> AsBufferData<F> for Vec<F> {
    open spec fn holds_whole_frames(&self) -> bool {
        true
    }

    open spec fn buffer_frames(&self) -> Seq<F> {
        self@
    }

    /// The vector's frames, viewed as themselves.
    fn as_buffer_data(&self) -> (r: FrameSlice<'_, F>)
        ensures
            r.borrows_frames(),
    {
        self.as_slice().as_buffer_data()
    }
}

impl<F: SampleFrame> AsBufferDataMut<F> for Vec<F> {
    /// The vector's frames, viewed as themselves.
    fn as_buffer_data_mut(&mut self) -> (r: FrameSliceMut<'_, F>)
        ensures
            r.borrows_frames(),
    {
        self.as_mut_slice().as_buffer_data_mut()
    }
}

impl<S: Copy> AsBufferData<Mono<S>> for Vec<S> where
    Mono<S>: SampleFrame<Sample = S>,
{
    open spec fn holds_whole_frames(&self) -> bool {
        self@.len() % Mono::<S>::frame_len() == 0
    }

    open spec fn buffer_frames(&self) -> Seq<Mono<S>> {
        frames_of::<Mono<S>>(self@)
    }

    fn as_buffer_data(&self) -> (r: FrameSlice<'_, Mono<S>>) {
        self.as_slice().as_buffer_data()
    }
}

impl<S: Copy> AsBufferDataMut<Mono<S>> for Vec<S> where
    Mono<S>: SampleFrame<Sample = S>,
{
    fn as_buffer_data_mut(&mut self) -> (r: FrameSliceMut<'_, Mono<S>>) {
        self.as_mut_slice().as_buffer_data_mut()
    }
}

impl<S: Copy> AsBufferData<Stereo<S>> for Vec<S> where
    Stereo<S>: SampleFrame<Sample = S>,
{
    open spec fn holds_whole_frames(&self) -> bool {
        self@.len() % Stereo::<S>::frame_len() == 0
    }

    open spec fn buffer_frames(&self) -> Seq<Stereo<S>> {
        frames_of::<Stereo<S>>(self@)
    }

    fn as_buffer_data(&self) -> (r: FrameSlice<'_, Stereo<S>>) {
        self.as_slice().as_buffer_data()
    }
}

impl<S: Copy> AsBufferDataMut<Stereo<S>> for Vec<S> where
    Stereo<S>: SampleFrame<Sample = S>,
{
    fn as_buffer_data_mut(&mut self) -> (r: FrameSliceMut<'_, Stereo<S>>) {
        self.as_mut_slice().as_buffer_data_mut()
    }
}

impl<S: Copy> AsBufferData<McRear<S>> for Vec<S> where
    McRear<S>: SampleFrame<Sample = S>,
{
    open spec fn holds_whole_frames(&self) -> bool {
        self@.len() % McRear::<S>::frame_len() == 0
    }

    open spec fn buffer_frames(&self) -> Seq<McRear<S>> {
        frames_of::<McRear<S>>(self@)
    }

    fn as_buffer_data(&self) -> (r: FrameSlice<'_, McRear<S>>) {
        self.as_slice().as_buffer_data()
    }
}

impl<S: Copy> AsBufferDataMut<McRear<S>> for Vec<S> where
    McRear<S>: SampleFrame<Sample = S>,
{
    fn as_buffer_data_mut(&mut self) -> (r: FrameSliceMut<'_, McRear<S>>) {
        self.as_mut_slice().as_buffer_data_mut()
    }
}

impl<S: Copy> AsBufferData<McQuad<S>> for Vec<S> where
    McQuad<S>: SampleFrame<Sample = S>,
{
    open spec fn holds_whole_frames(&self) -> bool {
        self@.len() % McQuad::<S>::frame_len() == 0
    }

    open spec fn buffer_frames(&self) -> Seq<McQuad<S>> {
        frames_of::<McQuad<S>>(self@)
    }

    fn as_buffer_data(&self) -> (r: FrameSlice<'_, McQuad<S>>) {
        self.as_slice().as_buffer_data()
    }
}

impl<S: Copy> AsBufferDataMut<McQuad<S>> for Vec<S> where
    McQuad<S>: SampleFrame<Sample = S>,
{
    fn as_buffer_data_mut(&mut self) -> (r: FrameSliceMut<'_, McQuad<S>>) {
        self.as_mut_slice().as_buffer_data_mut()
    }
}

impl<S: Copy> AsBufferData<Mc51Chn<S>> for Vec<S> where
    Mc51Chn<S>: SampleFrame<Sample = S>,
{
    open spec fn holds_whole_frames(&self) -> bool {
        self@.len() % Mc51Chn::<S>::frame_len() == 0
    }

    open spec fn buffer_frames(&self) -> Seq<Mc51Chn<S>> {
        frames_of::<Mc51Chn<S>>(self@)
    }

    fn as_buffer_data(&self) -> (r: FrameSlice<'_, Mc51Chn<S>>) {
        self.as_slice().as_buffer_data()
    }
}

impl<S: Copy> AsBufferDataMut<Mc51Chn<S>> for Vec<S> where
    Mc51Chn<S>: SampleFrame<Sample = S>,
{
    fn as_buffer_data_mut(&mut self) -> (r: FrameSliceMut<'_, Mc51Chn<S>>) {
        self.as_mut_slice().as_buffer_data_mut()
    }
}

impl<S: Copy> AsBufferData<Mc61Chn<S>> for Vec<S> where
    Mc61Chn<S>: SampleFrame<Sample = S>,
{
    open spec fn holds_whole_frames(&self) -> bool {
        self@.len() % Mc61Chn::<S>::frame_len() == 0
    }

    open spec fn buffer_frames(&self) -> Seq<Mc61Chn<S>> {
        frames_of::<Mc61Chn<S>>(self@)
    }

    fn as_buffer_data(&self) -> (r: FrameSlice<'_, Mc61Chn<S>>) {
        self.as_slice().as_buffer_data()
    }
}

impl<S: Copy> AsBufferDataMut<Mc61Chn<S>> for Vec<S> where
    Mc61Chn<S>: SampleFrame<Sample = S>,
{
    fn as_buffer_data_mut(&mut self) -> (r: FrameSliceMut<'_, Mc61Chn<S>>) {
        self.as_mut_slice().as_buffer_data_mut()
    }
}

impl<S: Copy> AsBufferData<Mc71Chn<S>> for Vec<S> where
    Mc71Chn<S>: SampleFrame<Sample = S>,
{
    open spec fn holds_whole_frames(&self) -> bool {
        self@.len() % Mc71Chn::<S>::frame_len() == 0
    }

    open spec fn buffer_frames(&self) -> Seq<Mc71Chn<S>> {
        frames_of::<Mc71Chn<S>>(self@)
    }

    fn as_buffer_data(&self) -> (r: FrameSlice<'_, Mc71Chn<S>>) {
        self.as_slice().as_buffer_data()
    }
}

impl<S: Copy> AsBufferDataMut<Mc71Chn<S>> for Vec<S> where
    Mc71Chn<S>: SampleFrame<Sample = S>,
{
    fn as_buffer_data_mut(&mut self) -> (r: FrameSliceMut<'_, Mc71Chn<S>>) {
        self.as_mut_slice().as_buffer_data_mut()
    }
}

impl<S: Copy> AsBufferData<BFormat2D<S>> for Vec<S> where
    BFormat2D<S>: SampleFrame<Sample = S>,
{
    open spec fn holds_whole_frames(&self) -> bool {
        self@.len() % BFormat2D::<S>::frame_len() == 0
    }

    open spec fn buffer_frames(&self) -> Seq<BFormat2D<S>> {
        frames_of::<BFormat2D<S>>(self@)
    }

    fn as_buffer_data(&self) -> (r: FrameSlice<'_, BFormat2D<S>>) {
        self.as_slice().as_buffer_data()
    }
}

impl<S: Copy> AsBufferDataMut<BFormat2D<S>> for Vec<S> where
    BFormat2D<S>: SampleFrame<Sample = S>,
{
    fn as_buffer_data_mut(&mut self) -> (r: FrameSliceMut<'_, BFormat2D<S>>) {
        self.as_mut_slice().as_buffer_data_mut()
    }
}

impl<S: Copy> AsBufferData<BFormat3D<S>> for Vec<S> where
    BFormat3D<S>: SampleFrame<Sample = S>,
{
    open spec fn holds_whole_frames(&self) -> bool {
        self@.len() % BFormat3D::<S>::frame_len() == 0
    }

    open spec fn buffer_frames(&self) -> Seq<BFormat3D<S>> {
        frames_of::<BFormat3D<S>>(self@)
    }

    fn as_buffer_data(&self) -> (r: FrameSlice<'_, BFormat3D<S>>) {
        self.as_slice().as_buffer_data()
    }
}

impl<S: Copy> AsBufferDataMut<BFormat3D<S>> for Vec<S> where
    BFormat3D<S>: SampleFrame<Sample = S>,
{
    fn as_buffer_data_mut(&mut self) -> (r: FrameSliceMut<'_, BFormat3D<S>>) {
        self.as_mut_slice().as_buffer_data_mut()
    }
}

} // verus!
