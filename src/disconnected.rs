use vstd::prelude::*;

use crate::capability::{ChannelAddressing, PollChannels, PollData, RadioController};
use crate::error::RadioControlError;
use crate::ratio::Ratio;
use crate::vehicle::normalize_raw;

verus! {

/// A simulated backend whose link to its device is down.
///
/// Every exchange with the device fails: selection and enumeration report a
/// communication error. No enumeration ever succeeds, so no handle is valid and
/// every poll is a data error.
pub struct DisconnectedRadio<R> {
    radio: R,
}

impl<R> DisconnectedRadio<R> {
    pub closed spec fn device(&self) -> R {
        self.radio
    }

    pub fn new(radio: R) -> (r: Self)
        ensures
            r.device() == radio,
    {
        DisconnectedRadio { radio }
    }
}

impl<R> ChannelAddressing for DisconnectedRadio<R> {
    type Channel = usize;

    type Error = RadioControlError;

    fn set_channel(&mut self, channel: &usize) -> (r: Result<(), RadioControlError>)
        ensures
            r == Err::<(), RadioControlError>(RadioControlError::CommunicationError),
            *final(self) == *old(self),
    {
        Err(RadioControlError::CommunicationError)
    }
}

impl<R> PollChannels for DisconnectedRadio<R> {
    type Error = RadioControlError;

    open spec fn channel_count(&self) -> nat {
        0
    }

    fn number_of_channels(&self) -> (r: Result<usize, RadioControlError>)
        ensures
            r == Err::<usize, RadioControlError>(RadioControlError::CommunicationError),
    {
        Err(RadioControlError::CommunicationError)
    }
}

impl<R> PollData for DisconnectedRadio<R> {
    type RawData = u16;

    type NormalizedData = Ratio;

    type Error = RadioControlError;

    open spec fn valid_channel(&self, channel: &usize) -> bool {
        false
    }

    open spec fn reading(&self, channel: &usize) -> Result<u16, RadioControlError> {
        Err(RadioControlError::DataError)
    }

    open spec fn normalize(raw: u16) -> Ratio {
        Ratio { numerator: raw, denominator: crate::vehicle::MAX_RAW }
    }

    fn poll_raw_data(&self, channel: &usize) -> (r: Result<u16, RadioControlError>)
        ensures
            r == Err::<u16, RadioControlError>(RadioControlError::DataError),
    {
        Err(RadioControlError::DataError)
    }

    fn poll_normalized_data(&self, channel: &usize) -> (r: Result<Ratio, RadioControlError>)
        ensures
            r == Err::<Ratio, RadioControlError>(RadioControlError::DataError),
    {
        match self.poll_raw_data(channel) {
            Ok(raw) => Ok(normalize_raw(raw)),
            Err(e) => Err(e),
        }
    }
}

impl<R> RadioController for DisconnectedRadio<R> {}

} // verus!
