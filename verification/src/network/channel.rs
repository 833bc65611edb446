//! The channel plan of each band, and a hopper that walks it.

use std::time::Duration;
use vstd::prelude::*;

verus! {

/// A frequency band.
#[derive(Debug, Clone, Copy, PartialEq, Eq, Structural)]
pub enum WiFiBand {
    /// 2.4 GHz.
    TwoPointFourGHz,
    /// 5 GHz.
    FiveGHz,
    /// 6 GHz.
    SixGHz,
}

/// The width of a channel.
#[derive(Debug, Clone, Copy, PartialEq, Eq, Structural)]
pub enum ChannelWidth {
    /// 20 MHz.
    TwentyMHz,
    /// 40 MHz.
    FortyMHz,
    /// 80 MHz.
    EightyMHz,
    /// 160 MHz.
    OneSixtyMHz,
}

impl ChannelWidth {
    /// The width in MHz.
    pub open spec fn spec_mhz(self) -> u32 {
        match self {
            ChannelWidth::TwentyMHz => 20,
            ChannelWidth::FortyMHz => 40,
            ChannelWidth::EightyMHz => 80,
            ChannelWidth::OneSixtyMHz => 160,
        }
    }

    /// The width in MHz.
    pub fn mhz(self) -> (w: u32)
        ensures
            w == self.spec_mhz(),
    {
        match self {
            ChannelWidth::TwentyMHz => 20,
            ChannelWidth::FortyMHz => 40,
            ChannelWidth::EightyMHz => 80,
            ChannelWidth::OneSixtyMHz => 160,
        }
    }
}

/// One channel of a band.
#[derive(Debug, Clone, Copy, PartialEq, Eq, Structural)]
pub struct ChannelInfo {
    /// The channel's number within its band.
    pub number: u8,
    /// The centre frequency in MHz.
    pub frequency: u32,
    /// The band.
    pub band: WiFiBand,
    /// The width.
    pub width: ChannelWidth,
    /// Whether most regulatory domains allow it.
    pub supported: bool,
}

/// The centre frequency in MHz of the channel with the given number: 1 to 14
/// lie in the 2.4 GHz band, 36 to 165 in the 5 GHz band, every other number up
/// to 233 in the 6 GHz band. Zero for a number that names no channel.
pub open spec fn channel_frequency(channel: u8) -> u32 {
    if 1 <= channel <= 14 {
        (2412 + (channel - 1) * 5) as u32
    } else if 36 <= channel <= 165 {
        (5000 + channel * 5) as u32
    } else if 1 <= channel <= 233 {
        (5945 + channel * 5) as u32
    } else {
        0
    }
}

/// Whether two channels of the given widths share spectrum: both numbers name
/// a channel, and the centres are closer than half the widths together.
pub open spec fn channels_overlap(
    channel1: u8,
    channel2: u8,
    width1: ChannelWidth,
    width2: ChannelWidth,
) -> bool {
    let f1 = channel_frequency(channel1) as int;
    let f2 = channel_frequency(channel2) as int;
    &&& f1 != 0
    &&& f2 != 0
    &&& f1 - f2 < (width1.spec_mhz() + width2.spec_mhz()) / 2
    &&& f2 - f1 < (width1.spec_mhz() + width2.spec_mhz()) / 2
}

/// The 2.4 GHz channel at the given place in the plan.
pub open spec fn channel_2_4ghz(i: int) -> ChannelInfo {
    ChannelInfo {
        number: (i + 1) as u8,
        frequency: (2412 + i * 5) as u32,
        band: WiFiBand::TwoPointFourGHz,
        width: ChannelWidth::TwentyMHz,
        supported: i + 1 <= 11,
    }
}

/// The numbers of the 5 GHz channels, in the order of the plan.
pub open spec fn numbers_5ghz() -> Seq<u8> {
    seq![
        36u8, 40, 44, 48, 52, 56, 60, 64, 100, 104, 108, 112, 116, 120, 124, 128, 132, 136, 140,
        144, 149, 153, 157, 161, 165,
    ]
}

/// The 5 GHz channel with the given number.
pub open spec fn channel_5ghz(number: u8) -> ChannelInfo {
    ChannelInfo {
        number,
        frequency: (5000 + number * 5) as u32,
        band: WiFiBand::FiveGHz,
        width: ChannelWidth::TwentyMHz,
        supported: true,
    }
}

/// The 6 GHz channel at the given place in the plan: the preferred scanning
/// channels, every fourth number from 1.
pub open spec fn channel_6ghz(i: int) -> ChannelInfo {
    ChannelInfo {
        number: (4 * i + 1) as u8,
        frequency: (5945 + (4 * i + 1) * 5) as u32,
        band: WiFiBand::SixGHz,
        width: ChannelWidth::TwentyMHz,
        supported: true,
    }
}

/// The channel plan of a band.
pub open spec fn band_channels(band: WiFiBand) -> Seq<ChannelInfo> {
    match band {
        WiFiBand::TwoPointFourGHz => Seq::new(14, |i: int| channel_2_4ghz(i)),
        WiFiBand::FiveGHz => Seq::new(25, |i: int| channel_5ghz(numbers_5ghz()[i])),
        WiFiBand::SixGHz => Seq::new(59, |i: int| channel_6ghz(i)),
    }
}

/// The centre frequency in MHz of the channel with the given number, zero
/// for a number that names no channel.
pub fn get_channel_frequency(channel: u8) -> (frequency: u32)
    ensures
        frequency == channel_frequency(channel),
{
    if channel >= 1 && channel <= 14 {
        2412 + (channel as u32 - 1) * 5
    } else if channel >= 36 && channel <= 165 {
        5000 + channel as u32 * 5
    } else if channel >= 1 && channel <= 233 {
        5945 + channel as u32 * 5
    } else {
        0
    }
}

/// Whether two channels of the given widths share spectrum.
pub fn check_channel_overlap(
    channel1: u8,
    channel2: u8,
    width1: ChannelWidth,
    width2: ChannelWidth,
) -> (overlap: bool)
    ensures
        overlap == channels_overlap(channel1, channel2, width1, width2),
{
    let width1_mhz = width1.mhz();
    let width2_mhz = width2.mhz();
    let freq1 = get_channel_frequency(channel1);
    let freq2 = get_channel_frequency(channel2);
    if freq1 == 0 || freq2 == 0 {
        return false;
    }
    let start1 = freq1 - width1_mhz / 2;
    let end1 = freq1 + width1_mhz / 2;
    let start2 = freq2 - width2_mhz / 2;
    let end2 = freq2 + width2_mhz / 2;
    start1 < end2 && end1 > start2
}

/// Whether two channels overlap does not depend on the order they are named
/// in, and a channel overlaps itself.
pub proof fn lemma_overlap_symmetric(
    channel1: u8,
    channel2: u8,
    width1: ChannelWidth,
    width2: ChannelWidth,
)
    ensures
        channels_overlap(channel1, channel2, width1, width2) == channels_overlap(
            channel2,
            channel1,
            width2,
            width1,
        ),
        channel_frequency(channel1) != 0 ==> channels_overlap(channel1, channel1, width1, width2),
{
}

/// The 2.4 GHz channels, 1 to 14.
pub fn get_2_4ghz_channels() -> (channels: Vec<ChannelInfo>)
    ensures
        channels@ == band_channels(WiFiBand::TwoPointFourGHz),
{
    let mut channels: Vec<ChannelInfo> = Vec::new();
    let mut channel: u8 = 1;
    while channel <= 14
        invariant
            1 <= channel <= 15,
            channels@.len() == channel - 1,
            forall|i: int| 0 <= i < channels@.len() ==> channels@[i] == channel_2_4ghz(i),
        decreases 15 - channel,
    {
        let frequency: u32 = 2412 + (channel as u32 - 1) * 5;
        channels.push(
            ChannelInfo {
                number: channel,
                frequency,
                band: WiFiBand::TwoPointFourGHz,
                width: ChannelWidth::TwentyMHz,
                supported: channel <= 11,
            },
        );
        channel = channel + 1;
    }
    assert(channels@ =~= band_channels(WiFiBand::TwoPointFourGHz));
    channels
}

/// The 5 GHz channels.
pub fn get_5ghz_channels() -> (channels: Vec<ChannelInfo>)
    ensures
        channels@ == band_channels(WiFiBand::FiveGHz),
{
    let channel_numbers: [u8; 25] = [
        36, 40, 44, 48, 52, 56, 60, 64, 100, 104, 108, 112, 116, 120, 124, 128, 132, 136, 140, 144,
        149, 153, 157, 161, 165,
    ];
    assert(channel_numbers@ =~= numbers_5ghz());
    let mut channels: Vec<ChannelInfo> = Vec::new();
    let mut i: usize = 0;
    while i < 25
        invariant
            i <= 25,
            channel_numbers@ == numbers_5ghz(),
            channels@.len() == i,
            forall|k: int|
                0 <= k < channels@.len() ==> channels@[k] == channel_5ghz(numbers_5ghz()[k]),
        decreases 25 - i,
    {
        let channel = channel_numbers[i];
        let frequency: u32 = 5000 + channel as u32 * 5;
        channels.push(
            ChannelInfo {
                number: channel,
                frequency,
                band: WiFiBand::FiveGHz,
                width: ChannelWidth::TwentyMHz,
                supported: true,
            },
        );
        i = i + 1;
    }
    assert(channels@ =~= band_channels(WiFiBand::FiveGHz));
    channels
}

/// The 6 GHz preferred scanning channels: every fourth number from 1 to 233.
pub fn get_6ghz_channels() -> (channels: Vec<ChannelInfo>)
    ensures
        channels@ == band_channels(WiFiBand::SixGHz),
{
    let mut channels: Vec<ChannelInfo> = Vec::new();
    let mut channel: u8 = 1;
    while channel <= 233
        invariant
            1 <= channel <= 237,
            channel % 4 == 1,
            channels@.len() == (channel - 1) / 4,
            forall|i: int| 0 <= i < channels@.len() ==> channels@[i] == channel_6ghz(i),
        decreases 237 - channel,
    {
        let frequency: u32 = 5945 + channel as u32 * 5;
        channels.push(
            ChannelInfo {
                number: channel,
                frequency,
                band: WiFiBand::SixGHz,
                width: ChannelWidth::TwentyMHz,
                supported: true,
            },
        );
        channel = channel + 4;
    }
    assert(channels@ =~= band_channels(WiFiBand::SixGHz));
    channels
}

/// The channel plan of a band.
pub fn get_channels_for_band(band: WiFiBand) -> (channels: Vec<ChannelInfo>)
    ensures
        channels@ == band_channels(band),
{
    match band {
        WiFiBand::TwoPointFourGHz => get_2_4ghz_channels(),
        WiFiBand::FiveGHz => get_5ghz_channels(),
        WiFiBand::SixGHz => get_6ghz_channels(),
    }
}

/// Every channel of a plan has the frequency that its number names in its
/// band, and every plan has channels.
pub proof fn lemma_plan_frequencies(band: WiFiBand, i: int)
    requires
        0 <= i < band_channels(band).len(),
    ensures
        band_channels(band).len() > 0,
        band_channels(band)[i].band == band,
        band is TwoPointFourGHz || band is FiveGHz ==> band_channels(band)[i].frequency
            == channel_frequency(band_channels(band)[i].number),
        band is SixGHz ==> band_channels(band)[i].frequency == 5945 + band_channels(
            band,
        )[i].number * 5,
{
}

/// Walks the channels of one band, round and round.
pub struct ChannelHopper {
    channels: Vec<ChannelInfo>,
    current_index: usize,
    dwell_time: Duration,
}

impl ChannelHopper {
    /// The channels that the hopper walks.
    pub closed spec fn spec_channels(&self) -> Seq<ChannelInfo> {
        self.channels@
    }

    /// The place of the channel that comes next.
    pub closed spec fn spec_index(&self) -> nat {
        self.current_index as nat
    }

    /// The time to stay on a channel.
    pub closed spec fn spec_dwell_time(&self) -> Duration {
        self.dwell_time
    }

    /// The place of the next channel is within the plan.
    pub open spec fn wf(&self) -> bool {
        self.spec_channels().len() == 0 || self.spec_index() < self.spec_channels().len()
    }

    /// A hopper at the start of the band's plan.
    pub fn new(band: WiFiBand, dwell_time: Duration) -> (hopper: ChannelHopper)
        ensures
            hopper.wf(),
            hopper.spec_channels() == band_channels(band),
            hopper.spec_index() == 0,
            hopper.spec_dwell_time() == dwell_time,
    {
        ChannelHopper { channels: get_channels_for_band(band), current_index: 0, dwell_time }
    }

    /// The channel to switch to, and moves on by one, from the last channel
    /// to the first. `None` of a hopper without channels.
    pub fn next_channel(&mut self) -> (channel: Option<&ChannelInfo>)
        requires
            old(self).wf(),
        ensures
            final(self).wf(),
            final(self).spec_channels() == old(self).spec_channels(),
            final(self).spec_dwell_time() == old(self).spec_dwell_time(),
            old(self).spec_channels().len() == 0 ==> channel is None && final(self).spec_index()
                == old(self).spec_index(),
            old(self).spec_channels().len() > 0 ==> channel == Some(
                &old(self).spec_channels()[old(self).spec_index() as int],
            ) && final(self).spec_index() == (old(self).spec_index() + 1) % old(self).spec_channels().len(),
    {
        if self.channels.len() == 0 {
            return None;
        }
        let index = self.current_index;
        self.current_index = (self.current_index + 1) % self.channels.len();
        Some(&self.channels[index])
    }

    /// The channel that comes next, without moving on.
    pub fn current_channel(&self) -> (channel: Option<&ChannelInfo>)
        ensures
            self.spec_index() < self.spec_channels().len() ==> channel == Some(
                &self.spec_channels()[self.spec_index() as int],
            ),
            self.spec_index() >= self.spec_channels().len() ==> channel is None,
    {
        if self.current_index < self.channels.len() {
            Some(&self.channels[self.current_index])
        } else {
            None
        }
    }

    /// Sets the time to stay on a channel.
    pub fn set_dwell_time(&mut self, dwell_time: Duration)
        ensures
            final(self).spec_dwell_time() == dwell_time,
            final(self).spec_channels() == old(self).spec_channels(),
            final(self).spec_index() == old(self).spec_index(),
    {
        self.dwell_time = dwell_time;
    }

    /// The time to stay on a channel.
    pub fn dwell_time(&self) -> (dwell_time: Duration)
        ensures
            dwell_time == self.spec_dwell_time(),
    {
        self.dwell_time
    }

    /// The channels that the hopper walks.
    pub fn channels(&self) -> (channels: &[ChannelInfo])
        ensures
            channels@ == self.spec_channels(),
    {
        self.channels.as_slice()
    }
}

} // verus!
