//! Multi-channel sample buffers and the read-only and read-write views that
//! audio callbacks get of them.

use vstd::prelude::*;

verus! {

/// A buffer of `num_samples` samples on each of its channels.
pub struct AudioSampleBuffer<S> {
    channels: Vec<Vec<S>>,
    num_samples: usize,
    silence: S,
}

impl<S: Copy> AudioSampleBuffer<S> {
    /// The samples, channel by channel.
    pub closed spec fn samples(&self) -> Seq<Seq<S>> {
        self.channels@.map_values(|c: Vec<S>| c@)
    }

    /// The number of samples on each channel.
    pub closed spec fn length(&self) -> nat {
        self.num_samples as nat
    }

    /// The value a cleared sample holds.
    pub closed spec fn silence(&self) -> S {
        self.silence
    }

    /// Every channel has the same number of samples, and both counts fit an
    /// `i32`.
    pub open spec fn wf(&self) -> bool {
        &&& self.samples().len() <= i32::MAX
        &&& self.length() <= i32::MAX
        &&& forall|c: int| 0 <= c < self.samples().len() ==> #[trigger] self.samples()[c].len()
            == self.length()
    }

    /// A buffer of silent samples.
    pub fn new(num_channels: usize, num_samples: usize, silence: S) -> (r: Self)
        requires
            num_channels <= i32::MAX,
            num_samples <= i32::MAX,
        ensures
            r.wf(),
            r.samples().len() == num_channels,
            r.length() == num_samples,
            r.silence() == silence,
            forall|c: int, i: int|
                0 <= c < num_channels && 0 <= i < num_samples ==> #[trigger] r.samples()[c][i]
                    == silence,
    {
        let mut channels: Vec<Vec<S>> = Vec::new();
        let mut c: usize = 0;
        while c < num_channels
            invariant
                c <= num_channels,
                channels@.len() == c,
                forall|k: int| 0 <= k < c ==> #[trigger] channels@[k]@.len() == num_samples,
                forall|k: int, i: int|
                    0 <= k < c && 0 <= i < num_samples ==> #[trigger] channels@[k]@[i] == silence,
            decreases num_channels - c,
        {
            let mut channel: Vec<S> = Vec::new();
            let mut i: usize = 0;
            while i < num_samples
                invariant
                    i <= num_samples,
                    channel@.len() == i,
                    forall|j: int| 0 <= j < i ==> #[trigger] channel@[j] == silence,
                decreases num_samples - i,
            {
                channel.push(silence);
                i = i + 1;
            }
            channels.push(channel);
            c = c + 1;
        }
        AudioSampleBuffer { channels, num_samples, silence }
    }

    /// The value a cleared sample holds.
    pub fn silence_value(&self) -> (r: S)
        ensures
            r == self.silence(),
    {
        self.silence
    }

    /// The number of channels.
    pub fn get_num_channels(&self) -> (r: i32)
        requires
            self.wf(),
        ensures
            r as int == self.samples().len(),
    {
        self.channels.len() as i32
    }

    /// The number of samples on each channel.
    pub fn get_num_samples(&self) -> (r: i32)
        requires
            self.wf(),
        ensures
            r as int == self.length(),
    {
        self.num_samples as i32
    }

    /// The samples of a channel; empty when there is no such channel.
    pub fn get_read_slice(&self, channel: i32) -> (r: &[S])
        requires
            self.wf(),
        ensures
            0 <= channel < self.samples().len() ==> r@ == self.samples()[channel as int],
            !(0 <= channel < self.samples().len()) ==> r@.len() == 0,
    {
        if channel < 0 || channel >= self.get_num_channels() {
            return &[];
        }
        self.channels[channel as usize].as_slice()
    }

    /// Writes one sample.
    pub fn set_sample(&mut self, channel: usize, index: usize, value: S)
        requires
            old(self).wf(),
            channel < old(self).samples().len(),
            index < old(self).length(),
        ensures
            final(self).wf(),
            final(self).samples() == old(self).samples().update(
                channel as int,
                old(self).samples()[channel as int].update(index as int, value),
            ),
            final(self).length() == old(self).length(),
            final(self).silence() == old(self).silence(),
    {
        let ghost old_samples = self.samples();
        assert(old_samples[channel as int].len() == self.length());
        assert(self.channels@[channel as int]@ == old_samples[channel as int]);
        self.channels[channel][index] = value;
        assert(self.samples() =~= old_samples.update(
            channel as int,
            old_samples[channel as int].update(index as int, value),
        ));
    }

    /// Silences every sample of every channel.
    pub fn clear(&mut self)
        requires
            old(self).wf(),
        ensures
            final(self).wf(),
            final(self).samples().len() == old(self).samples().len(),
            final(self).length() == old(self).length(),
            final(self).silence() == old(self).silence(),
            forall|c: int, i: int|
                0 <= c < final(self).samples().len() && 0 <= i < final(self).length()
                    ==> #[trigger] final(self).samples()[c][i] == final(self).silence(),
    {
        let n = self.channels.len();
        let mut c: usize = 0;
        while c < n
            invariant
                n == self.channels@.len(),
                c <= n,
                self.length() == old(self).length(),
                self.silence() == old(self).silence(),
                self.wf(),
                forall|k: int, i: int|
                    0 <= k < c && 0 <= i < self.length() ==> #[trigger] self.samples()[k][i]
                        == self.silence(),
            decreases n - c,
        {
            let mut i: usize = 0;
            while i < self.num_samples
                invariant
                    n == self.channels@.len(),
                    c < n,
                    i <= self.num_samples,
                    self.length() == old(self).length(),
                    self.silence() == old(self).silence(),
                    self.wf(),
                    forall|k: int, j: int|
                        0 <= k < c && 0 <= j < self.length() ==> #[trigger] self.samples()[k][j]
                            == self.silence(),
                    forall|j: int| 0 <= j < i ==> #[trigger] self.samples()[c as int][j] == self.silence(),
                decreases self.num_samples - i,
            {
                let s = self.silence;
                self.set_sample(c, i, s);
                i = i + 1;
            }
            c = c + 1;
        }
    }
}

/// A read-only view of a buffer, valid for one callback.
pub struct InputAudioSampleBuffer<'a, S> {
    buffer: &'a AudioSampleBuffer<S>,
}

impl<'a, S: Copy> InputAudioSampleBuffer<'a, S> {
    /// The buffer seen through the view.
    pub closed spec fn buffer(&self) -> &'a AudioSampleBuffer<S> {
        self.buffer
    }

    /// A view of the buffer.
    pub fn new(buffer: &'a AudioSampleBuffer<S>) -> (r: Self)
        ensures
            r.buffer() == buffer,
    {
        InputAudioSampleBuffer { buffer }
    }

    /// The number of channels.
    pub fn channels(&self) -> (r: usize)
        requires
            self.buffer().wf(),
        ensures
            r == self.buffer().samples().len(),
    {
        self.buffer.get_num_channels() as usize
    }

    /// The number of samples on each channel.
    pub fn samples(&self) -> (r: usize)
        requires
            self.buffer().wf(),
        ensures
            r == self.buffer().length(),
    {
        self.buffer.get_num_samples() as usize
    }

    /// The samples of a channel.
    pub fn index(&self, channel: usize) -> (r: &[S])
        requires
            self.buffer().wf(),
            channel < self.buffer().samples().len(),
        ensures
            r@ == self.buffer().samples()[channel as int],
    {
        self.buffer.get_read_slice(channel as i32)
    }
}

/// A read-write view of a buffer, valid for one callback.
pub struct OutputAudioSampleBuffer<'a, S> {
    buffer: &'a mut AudioSampleBuffer<S>,
}

impl<'a, S: Copy> OutputAudioSampleBuffer<'a, S> {
    /// The buffer seen through the view, as it stands now.
    pub closed spec fn buffer(&self) -> AudioSampleBuffer<S> {
        *self.buffer
    }

    /// A view of the buffer.
    pub fn new(buffer: &'a mut AudioSampleBuffer<S>) -> (r: Self)
        ensures
            r.buffer() == *old(buffer),
    {
        OutputAudioSampleBuffer { buffer }
    }

    /// The number of channels.
    pub fn channels(&self) -> (r: usize)
        requires
            self.buffer().wf(),
        ensures
            r == self.buffer().samples().len(),
    {
        self.buffer.get_num_channels() as usize
    }

    /// The number of samples on each channel.
    pub fn samples(&self) -> (r: usize)
        requires
            self.buffer().wf(),
        ensures
            r == self.buffer().length(),
    {
        self.buffer.get_num_samples() as usize
    }

    /// Silences every sample of every channel.
    pub fn clear(&mut self)
        requires
            old(self).buffer().wf(),
        ensures
            final(self).buffer().wf(),
            final(self).buffer().samples().len() == old(self).buffer().samples().len(),
            final(self).buffer().length() == old(self).buffer().length(),
            final(self).buffer().silence() == old(self).buffer().silence(),
            forall|c: int, i: int|
                0 <= c < final(self).buffer().samples().len() && 0 <= i < final(self).buffer().length()
                    ==> #[trigger] final(self).buffer().samples()[c][i] == final(self).buffer().silence(),
    {
        self.buffer.clear();
    }

    /// The samples of a channel.
    pub fn index(&self, channel: usize) -> (r: &[S])
        requires
            self.buffer().wf(),
            channel < self.buffer().samples().len(),
        ensures
            r@ == self.buffer().samples()[channel as int],
    {
        self.buffer.get_read_slice(channel as i32)
    }

    /// Writes one sample of a channel.
    pub fn set(&mut self, channel: usize, index: usize, value: S)
        requires
            old(self).buffer().wf(),
            channel < old(self).buffer().samples().len(),
            index < old(self).buffer().length(),
        ensures
            final(self).buffer().wf(),
            final(self).buffer().samples() == old(self).buffer().samples().update(
                channel as int,
                old(self).buffer().samples()[channel as int].update(index as int, value),
            ),
            final(self).buffer().length() == old(self).buffer().length(),
            final(self).buffer().silence() == old(self).buffer().silence(),
    {
        self.buffer.set_sample(channel, index, value);
    }
}

} // verus!
