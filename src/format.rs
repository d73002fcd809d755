use vstd::prelude::*;

verus! {

/// Numeric representation in which a device delivers captured samples.
#[derive(Clone, Copy, Debug, PartialEq, Eq, Structural)]
pub enum SampleFormat {
    /// 32-bit floating point, normalized to [-1, 1].
    F32,
    /// Signed 16-bit integer.
    I16,
    /// Any representation the encoder does not handle.
    Other,
}

/// One supported input configuration range, as a device reports it.
#[derive(Clone, Copy, Debug, PartialEq, Eq, Structural)]
pub struct ConfigRange {
    pub channels: u16,
    pub min_sample_rate: u32,
    pub max_sample_rate: u32,
    pub sample_format: SampleFormat,
}

/// The configuration a device reports as its default for input.
#[derive(Clone, Copy, Debug, PartialEq, Eq, Structural)]
pub struct DefaultConfig {
    pub channels: u16,
    pub sample_rate: u32,
    pub sample_format: SampleFormat,
}

/// The wire format: mono, 16-bit, little-endian PCM at `sample_rate` Hz.
#[derive(Clone, Copy, Debug, PartialEq, Eq, Structural)]
pub struct AudioFormat {
    pub sample_rate: u32,
    pub channels: u16,
    pub bit_depth: u16,
}

impl AudioFormat {
    pub open spec fn wf(&self) -> bool {
        self.channels == 1 && self.bit_depth == 16
    }

    /// The mono 16-bit format at the given rate.
    pub fn mono16(sample_rate: u32) -> (r: AudioFormat)
        ensures
            r.wf(),
            r.sample_rate == sample_rate,
    {
        AudioFormat { sample_rate, channels: 1, bit_depth: 16 }
    }
}

/// Outcome of negotiation: what goes on the wire and what the device delivers.
#[derive(Clone, Copy, Debug, PartialEq, Eq, Structural)]
pub struct CapturePlan {
    pub format: AudioFormat,
    pub input: SampleFormat,
}

pub open spec fn is_mono(c: ConfigRange) -> bool {
    c.channels == 1
}

/// `j` is the mono configuration chosen: the first one with the largest maximum rate.
pub open spec fn is_chosen_mono(cs: Seq<ConfigRange>, j: int) -> bool {
    &&& 0 <= j < cs.len()
    &&& is_mono(cs[j])
    &&& forall|i: int| 0 <= i < cs.len() && is_mono(#[trigger] cs[i])
        ==> cs[i].max_sample_rate <= cs[j].max_sample_rate
    &&& forall|i: int| 0 <= i < j && is_mono(#[trigger] cs[i])
        ==> cs[i].max_sample_rate < cs[j].max_sample_rate
}

pub open spec fn has_mono(cs: Seq<ConfigRange>) -> bool {
    exists|i: int| 0 <= i < cs.len() && is_mono(#[trigger] cs[i])
}

/// `p` is the outcome of negotiating over `cs` with default `d`.
pub open spec fn negotiated(cs: Seq<ConfigRange>, d: DefaultConfig, p: CapturePlan) -> bool {
    &&& p.format.wf()
    &&& has_mono(cs) ==> exists|j: int|
        is_chosen_mono(cs, j) && p.format.sample_rate == cs[j].max_sample_rate && p.input
            == cs[j].sample_format
    &&& !has_mono(cs) ==> p.format.sample_rate == d.sample_rate && p.input == d.sample_format
}

/// Negotiation has one outcome: at most one plan meets its description.
pub proof fn negotiation_is_unique(cs: Seq<ConfigRange>, d: DefaultConfig, p: CapturePlan, q: CapturePlan)
    requires
        negotiated(cs, d, p),
        negotiated(cs, d, q),
    ensures
        p == q,
{
    if has_mono(cs) {
        let j = choose|j: int|
            is_chosen_mono(cs, j) && p.format.sample_rate == cs[j].max_sample_rate && p.input
                == cs[j].sample_format;
        let k = choose|k: int|
            is_chosen_mono(cs, k) && q.format.sample_rate == cs[k].max_sample_rate && q.input
                == cs[k].sample_format;
        if j < k {
            assert(cs[j].max_sample_rate < cs[k].max_sample_rate);
            assert(cs[k].max_sample_rate <= cs[j].max_sample_rate);
        } else if k < j {
            assert(cs[k].max_sample_rate < cs[j].max_sample_rate);
            assert(cs[j].max_sample_rate <= cs[k].max_sample_rate);
        }
    }
}

/// Choose the capture configuration: among the mono ranges the one offering the
/// highest rate, recorded at that rate; without any mono range, the device default.
/// The wire format is mono in either case.
pub fn negotiate(configs: &Vec<ConfigRange>, default: &DefaultConfig) -> (r: CapturePlan)
    ensures
        negotiated(configs@, *default, r),
{
    let mut best: Option<usize> = None;
    let mut i: usize = 0;
    while i < configs.len()
        invariant
            i <= configs@.len(),
            best.is_none() ==> forall|k: int| 0 <= k < i ==> !is_mono(#[trigger] configs@[k]),
            best.is_some() ==> {
                let j = best.unwrap() as int;
                &&& 0 <= j < i
                &&& is_mono(configs@[j])
                &&& forall|k: int| 0 <= k < i && is_mono(#[trigger] configs@[k])
                    ==> configs@[k].max_sample_rate <= configs@[j].max_sample_rate
                &&& forall|k: int| 0 <= k < j && is_mono(#[trigger] configs@[k])
                    ==> configs@[k].max_sample_rate < configs@[j].max_sample_rate
            },
        decreases configs@.len() - i,
    {
        let c = &configs[i];
        if c.channels == 1 {
            match best {
                None => {
                    best = Some(i);
                },
                Some(j) => {
                    if c.max_sample_rate > configs[j].max_sample_rate {
                        best = Some(i);
                    }
                },
            }
        }
        i = i + 1;
    }
    match best {
        Some(j) => {
            let c = &configs[j];
            assert(is_chosen_mono(configs@, j as int));
            CapturePlan { format: AudioFormat::mono16(c.max_sample_rate), input: c.sample_format }
        },
        None => {
            CapturePlan {
                format: AudioFormat::mono16(default.sample_rate),
                input: default.sample_format,
            }
        },
    }
}

} // verus!
