//! The fixed network of delay lines of the plate reverberator, after
//! Dattorro (1997): their capacities and the taps that form the two outputs.
use crate::delay_line::{shifted, tap_index, DelayLine};
use vstd::prelude::*;

verus! {

/// Every delay line of the network. Samples enter through `pre_delay`, pass
/// the four input diffusers `all_pass_in_*`, and then circulate in two arms
/// (`*_1*` and `*_2*`), each fed by the tail of the other.
#[derive(Clone, Debug)]
pub struct Tank<T> {
    pub pre_delay: DelayLine<T, 10>,
    pub all_pass_in_1: DelayLine<T, 142>,
    pub all_pass_in_2: DelayLine<T, 107>,
    pub all_pass_in_3: DelayLine<T, 379>,
    pub all_pass_in_4: DelayLine<T, 277>,
    pub all_pass_decay_11: DelayLine<T, 672>,
    pub all_pass_decay_12: DelayLine<T, 1800>,
    pub delay_11: DelayLine<T, 4453>,
    pub delay_12: DelayLine<T, 3720>,
    pub all_pass_decay_21: DelayLine<T, 908>,
    pub all_pass_decay_22: DelayLine<T, 2656>,
    pub delay_21: DelayLine<T, 4217>,
    pub delay_22: DelayLine<T, 3163>,
}

/// One sample for each delay line of a `Tank`, field by field.
#[derive(Clone, Copy, Debug)]
pub struct LineSamples<T> {
    pub pre_delay: T,
    pub all_pass_in_1: T,
    pub all_pass_in_2: T,
    pub all_pass_in_3: T,
    pub all_pass_in_4: T,
    pub all_pass_decay_11: T,
    pub all_pass_decay_12: T,
    pub delay_11: T,
    pub delay_12: T,
    pub all_pass_decay_21: T,
    pub all_pass_decay_22: T,
    pub delay_21: T,
    pub delay_22: T,
}

impl<T> LineSamples<T> {
    /// Every line receives `silence`.
    pub open spec fn all(&self, silence: T) -> bool {
        &&& self.pre_delay == silence
        &&& self.all_pass_in_1 == silence
        &&& self.all_pass_in_2 == silence
        &&& self.all_pass_in_3 == silence
        &&& self.all_pass_in_4 == silence
        &&& self.all_pass_decay_11 == silence
        &&& self.all_pass_decay_12 == silence
        &&& self.delay_11 == silence
        &&& self.delay_12 == silence
        &&& self.all_pass_decay_21 == silence
        &&& self.all_pass_decay_22 == silence
        &&& self.delay_21 == silence
        &&& self.delay_22 == silence
    }
}

/// `n` copies of `silence`.
pub open spec fn silent<T>(n: nat, silence: T) -> Seq<T> {
    Seq::new(n, |_i: int| silence)
}

/// Whether output tap `k` (in the order of `spec_left_taps` and
/// `spec_right_taps`) is added to its channel's sum; the others are
/// subtracted. Both channels share the pattern `+ + - + - - -`.
pub open spec fn tap_adds(k: int) -> bool {
    k == 0 || k == 1 || k == 3
}

/// The sign of output tap `k`: `true` where it is added.
pub fn tap_is_added(k: usize) -> (r: bool)
    requires
        k < 7,
    ensures
        r == tap_adds(k as int),
{
    k == 0 || k == 1 || k == 3
}

impl<T: Copy> Tank<T> {
    /// Every delay line is well formed.
    pub open spec fn wf(&self) -> bool {
        &&& self.pre_delay.wf()
        &&& self.all_pass_in_1.wf()
        &&& self.all_pass_in_2.wf()
        &&& self.all_pass_in_3.wf()
        &&& self.all_pass_in_4.wf()
        &&& self.all_pass_decay_11.wf()
        &&& self.all_pass_decay_12.wf()
        &&& self.delay_11.wf()
        &&& self.delay_12.wf()
        &&& self.all_pass_decay_21.wf()
        &&& self.all_pass_decay_22.wf()
        &&& self.delay_21.wf()
        &&& self.delay_22.wf()
    }

    /// Every delay line holds only `silence`.
    pub open spec fn is_silent(&self, silence: T) -> bool {
        &&& self.pre_delay@ == silent(10, silence)
        &&& self.all_pass_in_1@ == silent(142, silence)
        &&& self.all_pass_in_2@ == silent(107, silence)
        &&& self.all_pass_in_3@ == silent(379, silence)
        &&& self.all_pass_in_4@ == silent(277, silence)
        &&& self.all_pass_decay_11@ == silent(672, silence)
        &&& self.all_pass_decay_12@ == silent(1800, silence)
        &&& self.delay_11@ == silent(4453, silence)
        &&& self.delay_12@ == silent(3720, silence)
        &&& self.all_pass_decay_21@ == silent(908, silence)
        &&& self.all_pass_decay_22@ == silent(2656, silence)
        &&& self.delay_21@ == silent(4217, silence)
        &&& self.delay_22@ == silent(3163, silence)
    }

    /// The seven samples that form the first output, in the order
    /// `+ + - + - - -` of their weights.
    pub open spec fn spec_left_taps(&self) -> Seq<T> {
        seq![
            self.delay_21@[tap_index(4217, 266)],
            self.delay_21@[tap_index(4217, 2974)],
            self.all_pass_decay_22@[tap_index(2656, 1913)],
            self.delay_22@[tap_index(3163, 1996)],
            self.delay_11@[tap_index(4453, 1990)],
            self.all_pass_decay_12@[tap_index(1800, 187)],
            self.delay_12@[tap_index(3720, 1066)],
        ]
    }

    /// The seven samples that form the second output, in the order
    /// `+ + - + - - -` of their weights.
    pub open spec fn spec_right_taps(&self) -> Seq<T> {
        seq![
            self.delay_11@[tap_index(4453, 353)],
            self.delay_11@[tap_index(4453, 3627)],
            self.all_pass_decay_12@[tap_index(1800, 1228)],
            self.delay_12@[tap_index(3720, 2673)],
            self.delay_21@[tap_index(4217, 2111)],
            self.all_pass_decay_22@[tap_index(2656, 335)],
            self.delay_22@[tap_index(3163, 121)],
        ]
    }

    /// The oldest sample of each line: what each line hands on when it is
    /// next stepped.
    pub open spec fn spec_oldest(&self) -> LineSamples<T> {
        LineSamples {
            pre_delay: self.pre_delay@[0],
            all_pass_in_1: self.all_pass_in_1@[0],
            all_pass_in_2: self.all_pass_in_2@[0],
            all_pass_in_3: self.all_pass_in_3@[0],
            all_pass_in_4: self.all_pass_in_4@[0],
            all_pass_decay_11: self.all_pass_decay_11@[0],
            all_pass_decay_12: self.all_pass_decay_12@[0],
            delay_11: self.delay_11@[0],
            delay_12: self.delay_12@[0],
            all_pass_decay_21: self.all_pass_decay_21@[0],
            all_pass_decay_22: self.all_pass_decay_22@[0],
            delay_21: self.delay_21@[0],
            delay_22: self.delay_22@[0],
        }
    }

    /// `self` is `prev` after one frame in which each line received the
    /// sample that `x` gives for it.
    pub open spec fn follows(&self, prev: Self, x: LineSamples<T>) -> bool {
        &&& self.pre_delay@ == shifted(prev.pre_delay@, x.pre_delay)
        &&& self.all_pass_in_1@ == shifted(prev.all_pass_in_1@, x.all_pass_in_1)
        &&& self.all_pass_in_2@ == shifted(prev.all_pass_in_2@, x.all_pass_in_2)
        &&& self.all_pass_in_3@ == shifted(prev.all_pass_in_3@, x.all_pass_in_3)
        &&& self.all_pass_in_4@ == shifted(prev.all_pass_in_4@, x.all_pass_in_4)
        &&& self.all_pass_decay_11@ == shifted(prev.all_pass_decay_11@, x.all_pass_decay_11)
        &&& self.all_pass_decay_12@ == shifted(prev.all_pass_decay_12@, x.all_pass_decay_12)
        &&& self.delay_11@ == shifted(prev.delay_11@, x.delay_11)
        &&& self.delay_12@ == shifted(prev.delay_12@, x.delay_12)
        &&& self.all_pass_decay_21@ == shifted(prev.all_pass_decay_21@, x.all_pass_decay_21)
        &&& self.all_pass_decay_22@ == shifted(prev.all_pass_decay_22@, x.all_pass_decay_22)
        &&& self.delay_21@ == shifted(prev.delay_21@, x.delay_21)
        &&& self.delay_22@ == shifted(prev.delay_22@, x.delay_22)
    }

    /// The oldest sample of every line. Within one frame each line is read
    /// here before it receives its new sample, and no line's sample depends on
    /// a later write to the same line, so reading all of them first gives
    /// what a frame that steps the lines one by one reads.
    pub fn oldest(&self) -> (r: LineSamples<T>)
        requires
            self.wf(),
        ensures
            r == self.spec_oldest(),
    {
        LineSamples {
            pre_delay: self.pre_delay.back(),
            all_pass_in_1: self.all_pass_in_1.back(),
            all_pass_in_2: self.all_pass_in_2.back(),
            all_pass_in_3: self.all_pass_in_3.back(),
            all_pass_in_4: self.all_pass_in_4.back(),
            all_pass_decay_11: self.all_pass_decay_11.back(),
            all_pass_decay_12: self.all_pass_decay_12.back(),
            delay_11: self.delay_11.back(),
            delay_12: self.delay_12.back(),
            all_pass_decay_21: self.all_pass_decay_21.back(),
            all_pass_decay_22: self.all_pass_decay_22.back(),
            delay_21: self.delay_21.back(),
            delay_22: self.delay_22.back(),
        }
    }

    /// Ends a frame: every line receives exactly one new sample, the one
    /// that `x` gives for it, and its oldest sample leaves.
    pub fn advance(&mut self, x: LineSamples<T>)
        requires
            old(self).wf(),
        ensures
            final(self).wf(),
            final(self).follows(*old(self), x),
    {
        self.pre_delay.write(x.pre_delay);
        self.all_pass_in_1.write(x.all_pass_in_1);
        self.all_pass_in_2.write(x.all_pass_in_2);
        self.all_pass_in_3.write(x.all_pass_in_3);
        self.all_pass_in_4.write(x.all_pass_in_4);
        self.all_pass_decay_11.write(x.all_pass_decay_11);
        self.all_pass_decay_12.write(x.all_pass_decay_12);
        self.delay_11.write(x.delay_11);
        self.delay_12.write(x.delay_12);
        self.all_pass_decay_21.write(x.all_pass_decay_21);
        self.all_pass_decay_22.write(x.all_pass_decay_22);
        self.delay_21.write(x.delay_21);
        self.delay_22.write(x.delay_22);
    }

    /// No tap lies less than two samples back, so a network that was silent
    /// before a frame still reads silence at every output tap after it,
    /// whatever the frame wrote.
    pub proof fn lemma_first_frame_silent(&self, prev: Self, x: LineSamples<T>, silence: T)
        requires
            prev.is_silent(silence),
            self.follows(prev, x),
        ensures
            self.spec_left_taps() == silent(7, silence),
            self.spec_right_taps() == silent(7, silence),
    {
        assert(self.spec_left_taps() =~= silent(7, silence));
        assert(self.spec_right_taps() =~= silent(7, silence));
    }

    /// A silent network that receives silence on every line stays silent.
    pub proof fn lemma_silence_kept(&self, prev: Self, x: LineSamples<T>, silence: T)
        requires
            prev.is_silent(silence),
            x.all(silence),
            self.follows(prev, x),
        ensures
            self.is_silent(silence),
    {
        assert(self.pre_delay@ =~= silent(10, silence));
        assert(self.all_pass_in_1@ =~= silent(142, silence));
        assert(self.all_pass_in_2@ =~= silent(107, silence));
        assert(self.all_pass_in_3@ =~= silent(379, silence));
        assert(self.all_pass_in_4@ =~= silent(277, silence));
        assert(self.all_pass_decay_11@ =~= silent(672, silence));
        assert(self.all_pass_decay_12@ =~= silent(1800, silence));
        assert(self.delay_11@ =~= silent(4453, silence));
        assert(self.delay_12@ =~= silent(3720, silence));
        assert(self.all_pass_decay_21@ =~= silent(908, silence));
        assert(self.all_pass_decay_22@ =~= silent(2656, silence));
        assert(self.delay_21@ =~= silent(4217, silence));
        assert(self.delay_22@ =~= silent(3163, silence));
    }

    /// Every output tap of a silent network reads silence.
    pub proof fn lemma_silent_taps(&self, silence: T)
        requires
            self.is_silent(silence),
        ensures
            self.spec_left_taps() == silent(7, silence),
            self.spec_right_taps() == silent(7, silence),
    {
        assert(self.spec_left_taps() =~= silent(7, silence));
        assert(self.spec_right_taps() =~= silent(7, silence));
    }

    /// A network in which every delay line holds only `silence`.
    pub fn new(silence: T) -> (r: Self)
        ensures
            r.wf(),
            r.is_silent(silence),
    {
        Tank {
            pre_delay: DelayLine::new(silence),
            all_pass_in_1: DelayLine::new(silence),
            all_pass_in_2: DelayLine::new(silence),
            all_pass_in_3: DelayLine::new(silence),
            all_pass_in_4: DelayLine::new(silence),
            all_pass_decay_11: DelayLine::new(silence),
            all_pass_decay_12: DelayLine::new(silence),
            delay_11: DelayLine::new(silence),
            delay_12: DelayLine::new(silence),
            all_pass_decay_21: DelayLine::new(silence),
            all_pass_decay_22: DelayLine::new(silence),
            delay_21: DelayLine::new(silence),
            delay_22: DelayLine::new(silence),
        }
    }

    /// The taps of the first output; see `spec_left_taps`.
    pub fn left_taps(&self) -> (r: [T; 7])
        requires
            self.wf(),
        ensures
            r@ == self.spec_left_taps(),
    {
        let r = [
            self.delay_21.read(266),
            self.delay_21.read(2974),
            self.all_pass_decay_22.read(1913),
            self.delay_22.read(1996),
            self.delay_11.read(1990),
            self.all_pass_decay_12.read(187),
            self.delay_12.read(1066),
        ];
        assert(r@ =~= self.spec_left_taps());
        r
    }

    /// The taps of the second output; see `spec_right_taps`.
    pub fn right_taps(&self) -> (r: [T; 7])
        requires
            self.wf(),
        ensures
            r@ == self.spec_right_taps(),
    {
        let r = [
            self.delay_11.read(353),
            self.delay_11.read(3627),
            self.all_pass_decay_12.read(1228),
            self.delay_12.read(2673),
            self.delay_21.read(2111),
            self.all_pass_decay_22.read(335),
            self.delay_22.read(121),
        ];
        assert(r@ =~= self.spec_right_taps());
        r
    }
}

} // verus!
