use vstd::prelude::*;

verus! {

/// The model of a mixing cache.
pub struct MixModel {
    pub dmg: Option<([u8; 4], (i16, i16))>,
    pub fifo: Option<([i8; 2], (i16, i16))>,
    pub mixed_sample: Option<(i16, i16)>,
}

/// Cache for values computed when mixing a sample, to be reused while the channels' outputs
/// stay the same: the four tone/wave/noise volumes with their mixed sample, the two FIFO
/// samples with theirs, and the final mixed sample.
#[derive(Debug, Default)]
pub struct Mix {
    dmg: Option<([u8; 4], (i16, i16))>,
    fifo: Option<([i8; 2], (i16, i16))>,
    pub mixed_sample: Option<(i16, i16)>,
}

impl View for Mix {
    type V = MixModel;

    closed spec fn view(&self) -> MixModel {
        MixModel { dmg: self.dmg, fifo: self.fifo, mixed_sample: self.mixed_sample }
    }
}

impl Mix {
    /// An empty cache.
    pub fn new() -> (r: Mix)
        ensures
            r@ == (MixModel { dmg: None, fifo: None, mixed_sample: None }),
    {
        Mix { dmg: None, fifo: None, mixed_sample: None }
    }

    /// Caches the tone/wave/noise part; the final mixed sample is invalidated.
    pub fn set_dmg(&mut self, volumes_sample: Option<([u8; 4], (i16, i16))>)
        ensures
            final(self)@ == (MixModel {
                dmg: volumes_sample,
                mixed_sample: None,
                ..old(self)@
            }),
    {
        self.dmg = volumes_sample;
        self.mixed_sample = None;
    }

    pub fn dmg(&self) -> (r: Option<([u8; 4], (i16, i16))>)
        ensures
            r == self@.dmg,
    {
        self.dmg
    }

    /// Caches the FIFO part; the final mixed sample is invalidated.
    pub fn set_fifo(&mut self, samples_sample: Option<([i8; 2], (i16, i16))>)
        ensures
            final(self)@ == (MixModel {
                fifo: samples_sample,
                mixed_sample: None,
                ..old(self)@
            }),
    {
        self.fifo = samples_sample;
        self.mixed_sample = None;
    }

    pub fn fifo(&self) -> (r: Option<([i8; 2], (i16, i16))>)
        ensures
            r == self@.fifo,
    {
        self.fifo
    }

    pub fn mixed_sample(&self) -> (r: Option<(i16, i16)>)
        ensures
            r == self@.mixed_sample,
    {
        self.mixed_sample
    }

    pub fn set_mixed_sample(&mut self, sample: Option<(i16, i16)>)
        ensures
            final(self)@ == (MixModel { mixed_sample: sample, ..old(self)@ }),
    {
        self.mixed_sample = sample;
    }
}

} // verus!
