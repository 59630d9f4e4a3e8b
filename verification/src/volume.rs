use vstd::prelude::*;

verus! {

/// The volume that stands for 100%.
pub const VOLUME_NORM: u32 = 0x10000;

/// The volume of silence, the least there is.
pub const VOLUME_MUTED: u32 = 0;

/// The greatest volume the protocol can carry.
pub const VOLUME_MAX: u32 = 0x7fff_ffff;

/// The number of channels one volume vector can carry at most.
pub const CHANNELS_MAX: usize = 32;

/// One volume on the server's linear integer scale.
#[derive(Clone, Copy, Debug, PartialEq, Eq, Structural)]
pub struct Volume(pub u32);

/// The volumes of the channels of one device or stream, in channel order.
#[derive(Clone, Debug)]
pub struct ChannelVolumes {
    values: Vec<u32>,
}

impl View for ChannelVolumes {
    type V = Seq<u32>;

    closed spec fn view(&self) -> Seq<u32> {
        self.values@
    }
}

/// A volume that the protocol can carry.
pub open spec fn valid_volume(v: u32) -> bool {
    v <= VOLUME_MAX
}

/// A volume vector that the protocol can carry: between one and
/// `CHANNELS_MAX` channels, each with a volume it can carry.
pub open spec fn valid_channels(s: Seq<u32>) -> bool {
    &&& 1 <= s.len() <= CHANNELS_MAX
    &&& forall|i: int| 0 <= i < s.len() ==> valid_volume(#[trigger] s[i])
}

/// `v` raised by `delta`, stopping at `VOLUME_MAX`.
pub open spec fn raised(v: u32, delta: u32) -> u32 {
    if v + delta >= VOLUME_MAX {
        VOLUME_MAX
    } else {
        (v + delta) as u32
    }
}

/// `v` lowered by `delta`, stopping at `VOLUME_MUTED`.
pub open spec fn lowered(v: u32, delta: u32) -> u32 {
    if v <= delta {
        VOLUME_MUTED
    } else {
        (v - delta) as u32
    }
}

/// Every channel of `s` raised by `delta`.
pub open spec fn increased(s: Seq<u32>, delta: u32) -> Seq<u32> {
    Seq::new(s.len(), |i: int| raised(s[i], delta))
}

/// Every channel of `s` lowered by `delta`.
pub open spec fn decreased(s: Seq<u32>, delta: u32) -> Seq<u32> {
    Seq::new(s.len(), |i: int| lowered(s[i], delta))
}

/// Raising lowers no channel and leaves the vector one that the protocol can
/// carry: each channel ends where it was or higher, at `VOLUME_MAX` at most,
/// and there where the sum would pass it.
pub proof fn lemma_increased_is_no_lower(s: Seq<u32>, delta: u32)
    requires
        valid_channels(s),
    ensures
        valid_channels(increased(s, delta)),
        increased(s, delta).len() == s.len(),
        forall|i: int| 0 <= i < s.len() ==> s[i] <= #[trigger] increased(s, delta)[i] <= VOLUME_MAX,
        forall|i: int|
            0 <= i < s.len() && s[i] + delta >= VOLUME_MAX ==> #[trigger] increased(s, delta)[i]
                == VOLUME_MAX,
{
}

/// Lowering raises no channel and leaves the vector one that the protocol
/// can carry: each channel ends where it was or lower, at `VOLUME_MUTED` at
/// least, and there where the difference would pass it.
pub proof fn lemma_decreased_is_no_higher(s: Seq<u32>, delta: u32)
    requires
        valid_channels(s),
    ensures
        valid_channels(decreased(s, delta)),
        decreased(s, delta).len() == s.len(),
        forall|i: int|
            0 <= i < s.len() ==> VOLUME_MUTED <= #[trigger] decreased(s, delta)[i] <= s[i],
        forall|i: int|
            0 <= i < s.len() && s[i] <= delta ==> #[trigger] decreased(s, delta)[i]
                == VOLUME_MUTED,
{
}

impl Volume {
    /// Whether the protocol can carry this volume.
    pub fn is_valid(&self) -> (b: bool)
        ensures
            b == valid_volume(self.0),
    {
        self.0 <= VOLUME_MAX
    }
}

impl ChannelVolumes {
    /// A vector without channels. The protocol cannot carry it.
    pub fn new() -> (cv: Self)
        ensures
            cv@ == Seq::<u32>::empty(),
    {
        ChannelVolumes { values: Vec::new() }
    }

    /// The vector with the given volumes, one for each channel.
    pub fn from_values(values: Vec<u32>) -> (cv: Self)
        ensures
            cv@ == values@,
    {
        ChannelVolumes { values }
    }

    /// The number of channels.
    pub fn len(&self) -> (n: usize)
        ensures
            n == self@.len(),
    {
        self.values.len()
    }

    /// The volume of channel `i`, if there is such a channel.
    pub fn get(&self, i: usize) -> (v: Option<Volume>)
        ensures
            v == if i < self@.len() {
                Some(Volume(self@[i as int]))
            } else {
                None
            },
    {
        if i < self.values.len() {
            Some(Volume(self.values[i]))
        } else {
            None
        }
    }

    /// The volumes, one for each channel.
    pub fn to_values(&self) -> (values: Vec<u32>)
        ensures
            values@ == self@,
    {
        self.values.clone()
    }

    /// A copy of this vector.
    pub fn duplicate(&self) -> (cv: Self)
        ensures
            cv@ == self@,
    {
        ChannelVolumes { values: self.values.clone() }
    }

    /// Whether the protocol can carry this vector.
    pub fn is_valid(&self) -> (b: bool)
        ensures
            b == valid_channels(self@),
    {
        let n = self.values.len();
        if n < 1 || n > CHANNELS_MAX {
            return false;
        }
        let mut i: usize = 0;
        while i < n
            invariant
                n == self.values@.len(),
                i <= n,
                forall|j: int| 0 <= j < i ==> valid_volume(#[trigger] self.values@[j]),
            decreases n - i,
        {
            if self.values[i] > VOLUME_MAX {
                return false;
            }
            i += 1;
        }
        true
    }

    /// Raises every channel by `inc`, stopping at `VOLUME_MAX`. There is a
    /// result exactly when the protocol can carry both this vector and `inc`.
    pub fn increase(&self, inc: Volume) -> (out: Option<ChannelVolumes>)
        ensures
            out.is_some() == (valid_channels(self@) && valid_volume(inc.0)),
            out.is_some() ==> out.unwrap()@ == increased(self@, inc.0),
            out.is_some() ==> valid_channels(out.unwrap()@),
            out.is_some() ==> out.unwrap()@.len() == self@.len(),
            out.is_some() ==> forall|i: int|
                0 <= i < self@.len() ==> self@[i] <= #[trigger] out.unwrap()@[i] <= VOLUME_MAX,
            out.is_some() ==> forall|i: int|
                0 <= i < self@.len() && self@[i] + inc.0 >= VOLUME_MAX
                    ==> #[trigger] out.unwrap()@[i] == VOLUME_MAX,
    {
        if !self.is_valid() || !inc.is_valid() {
            return None;
        }
        let n = self.values.len();
        let mut values: Vec<u32> = Vec::new();
        let mut i: usize = 0;
        while i < n
            invariant
                n == self.values@.len(),
                i <= n,
                valid_channels(self.values@),
                valid_volume(inc.0),
                values@.len() == i,
                forall|j: int| 0 <= j < i ==> #[trigger] values@[j] == raised(self.values@[j], inc.0),
            decreases n - i,
        {
            let v = self.values[i];
            let raised_v = if inc.0 >= VOLUME_MAX - v {
                VOLUME_MAX
            } else {
                v + inc.0
            };
            values.push(raised_v);
            i += 1;
        }
        assert(values@ =~= increased(self@, inc.0));
        Some(ChannelVolumes { values })
    }

    /// Lowers every channel by `dec`, stopping at `VOLUME_MUTED`. There is a
    /// result exactly when the protocol can carry both this vector and `dec`.
    pub fn decrease(&self, dec: Volume) -> (out: Option<ChannelVolumes>)
        ensures
            out.is_some() == (valid_channels(self@) && valid_volume(dec.0)),
            out.is_some() ==> out.unwrap()@ == decreased(self@, dec.0),
            out.is_some() ==> valid_channels(out.unwrap()@),
            out.is_some() ==> out.unwrap()@.len() == self@.len(),
            out.is_some() ==> forall|i: int|
                0 <= i < self@.len() ==> VOLUME_MUTED <= #[trigger] out.unwrap()@[i] <= self@[i],
            out.is_some() ==> forall|i: int|
                0 <= i < self@.len() && self@[i] <= dec.0
                    ==> #[trigger] out.unwrap()@[i] == VOLUME_MUTED,
    {
        if !self.is_valid() || !dec.is_valid() {
            return None;
        }
        let n = self.values.len();
        let mut values: Vec<u32> = Vec::new();
        let mut i: usize = 0;
        while i < n
            invariant
                n == self.values@.len(),
                i <= n,
                valid_channels(self.values@),
                values@.len() == i,
                forall|j: int| 0 <= j < i ==> #[trigger] values@[j] == lowered(self.values@[j], dec.0),
            decreases n - i,
        {
            let v = self.values[i];
            let lowered_v = if v <= dec.0 {
                VOLUME_MUTED
            } else {
                v - dec.0
            };
            values.push(lowered_v);
            i += 1;
        }
        assert(values@ =~= decreased(self@, dec.0));
        Some(ChannelVolumes { values })
    }
}

} // verus!
