use vstd::prelude::*;

use crate::capability::{ChannelAddressing, PollChannels, PollData, RadioController};
use crate::error::{RadioControlError, RadioError};
use crate::ratio::Ratio;

verus! {

/// The number of channels the simulated backend exposes.
pub const CHANNEL_COUNT: usize = 8;

/// The sample the simulated backend reports on every channel.
pub const SIMULATED_SAMPLE: u16 = 1234;

/// The largest raw sample: a full 16-bit reading.
pub const MAX_RAW: u16 = 65535;

/// A simulated backend around a receive-capable device, which it owns.
///
/// Its readings are fixed synthetic values, not data read from hardware. It is
/// stateless: channel selection is accepted and changes nothing. Its handles are
/// the indices `0..CHANNEL_COUNT`.
pub struct VehicleRadio<R> {
    radio: R,
}

impl<R> VehicleRadio<R> {
    pub closed spec fn device(&self) -> R {
        self.radio
    }

    pub fn new(radio: R) -> (r: Self)
        ensures
            r.device() == radio,
    {
        VehicleRadio { radio }
    }

    pub fn device_ref(&self) -> (r: &R)
        ensures
            *r == self.device(),
    {
        &self.radio
    }

    pub fn into_device(self) -> (r: R)
        ensures
            r == self.device(),
    {
        self.radio
    }
}

/// A raw sample scaled by the largest raw value.
pub fn normalize_raw(raw: u16) -> (r: Ratio)
    ensures
        r == (Ratio { numerator: raw, denominator: MAX_RAW }),
        r.wf(),
{
    Ratio { numerator: raw, denominator: MAX_RAW }
}

impl<R> ChannelAddressing for VehicleRadio<R> {
    type Channel = usize;

    type Error = RadioControlError;

    fn set_channel(&mut self, channel: &usize) -> (r: Result<(), RadioControlError>)
        ensures
            r is Ok,
            *final(self) == *old(self),
    {
        Ok(())
    }
}

impl<R> PollChannels for VehicleRadio<R> {
    type Error = RadioControlError;

    open spec fn channel_count(&self) -> nat {
        CHANNEL_COUNT as nat
    }

    fn number_of_channels(&self) -> (r: Result<usize, RadioControlError>)
        ensures
            r == Ok::<usize, RadioControlError>(CHANNEL_COUNT),
    {
        Ok(CHANNEL_COUNT)
    }
}

impl<R> PollData for VehicleRadio<R> {
    type RawData = u16;

    type NormalizedData = Ratio;

    type Error = RadioControlError;

    open spec fn valid_channel(&self, channel: &usize) -> bool {
        *channel < CHANNEL_COUNT
    }

    open spec fn reading(&self, channel: &usize) -> Result<u16, RadioControlError> {
        if *channel < CHANNEL_COUNT {
            Ok(SIMULATED_SAMPLE)
        } else {
            Err(RadioControlError::DataError)
        }
    }

    open spec fn normalize(raw: u16) -> Ratio {
        Ratio { numerator: raw, denominator: MAX_RAW }
    }

    fn poll_raw_data(&self, channel: &usize) -> (r: Result<u16, RadioControlError>)
        ensures
            r == self.reading(channel),
    {
        if *channel < CHANNEL_COUNT {
            Ok(SIMULATED_SAMPLE)
        } else {
            Err(RadioControlError::DataError)
        }
    }

    fn poll_normalized_data(&self, channel: &usize) -> (r: Result<Ratio, RadioControlError>)
        ensures
            r == (if *channel < CHANNEL_COUNT {
                Ok(Ratio { numerator: SIMULATED_SAMPLE, denominator: MAX_RAW })
            } else {
                Err(RadioControlError::DataError)
            }),
    {
        match self.poll_raw_data(channel) {
            Ok(raw) => Ok(normalize_raw(raw)),
            Err(e) => Err(e),
        }
    }
}

impl<R> RadioController for VehicleRadio<R> {}

/// On the simulated backend, a poll with a handle outside the range that an
/// enumeration reported fails with a data error, and with no other error.
pub proof fn lemma_out_of_range_is_data_error<R>(
    radio: &VehicleRadio<R>,
    count: Result<usize, RadioControlError>,
    channel: &usize,
    raw: Result<u16, RadioControlError>,
)
    requires
        call_ensures(<VehicleRadio<R> as PollChannels>::number_of_channels, (radio,), count),
        count matches Ok(n) && *channel >= n,
        call_ensures(<VehicleRadio<R> as PollData>::poll_raw_data, (radio, channel), raw),
    ensures
        raw == Err::<u16, RadioControlError>(RadioControlError::DataError),
{
}

/// On the simulated backend, a normalized poll is the raw sample of the same
/// channel divided by `MAX_RAW`, a ratio in `[0, 1]`.
pub proof fn lemma_normalized_is_raw_over_max<R>(
    radio: &VehicleRadio<R>,
    channel: &usize,
    raw: Result<u16, RadioControlError>,
    normalized: Result<Ratio, RadioControlError>,
)
    requires
        call_ensures(<VehicleRadio<R> as PollData>::poll_raw_data, (radio, channel), raw),
        call_ensures(<VehicleRadio<R> as PollData>::poll_normalized_data, (radio, channel), normalized),
    ensures
        raw matches Ok(v) ==> normalized == Ok::<Ratio, RadioControlError>(
            Ratio { numerator: v, denominator: MAX_RAW },
        ),
        normalized matches Ok(q) ==> q.wf(),
{
}

/// Normalization keeps order: a larger raw sample never scales to a smaller value.
pub proof fn lemma_normalize_monotonic<R>(a: u16, b: u16)
    requires
        a <= b,
    ensures
        VehicleRadio::<R>::normalize(a).le(VehicleRadio::<R>::normalize(b)),
{
    assert((a as int) * (MAX_RAW as int) <= (b as int) * (MAX_RAW as int)) by (nonlinear_arith)
        requires
            a <= b,
    ;
}

} // verus!
