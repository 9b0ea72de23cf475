use vstd::prelude::*;

use crate::error::{RadioControlError, RadioError};

verus! {

/// Channel addressing: names channels by handle and selects the active one.
///
/// A stateless backend accepts the selection and changes nothing; a stateful one
/// applies later polls to the selected channel. Each backend documents which it is.
pub trait ChannelAddressing {
    /// The handle that identifies one channel of this backend.
    type Channel;

    type Error: RadioError + core::fmt::Debug;

    fn set_channel(&mut self, channel: &Self::Channel) -> (r: Result<
        (),
        <Self as ChannelAddressing>::Error,
    >);
}

/// Channel enumeration: how many channels the backend exposes.
pub trait PollChannels: ChannelAddressing {
    type Error: RadioError + core::fmt::Debug;

    /// The number of channels the backend exposes in its present state.
    spec fn channel_count(&self) -> nat;

    /// A read-only query. It fails only on a communication or hardware fault;
    /// no channels at all is a count of zero, not an error.
    fn number_of_channels(&self) -> (r: Result<usize, <Self as PollChannels>::Error>)
        ensures
            r matches Ok(n) ==> n == self.channel_count(),
            r matches Err(e) ==> e.kind_spec() != RadioControlError::DataError,
    ;
}

/// Data polling: the raw and the normalized sample of one channel.
pub trait PollData: ChannelAddressing {
    type RawData;

    type NormalizedData;

    type Error: RadioError + core::fmt::Debug;

    /// Whether `channel` is one of the handles of the present enumeration.
    spec fn valid_channel(&self, channel: &Self::Channel) -> bool;

    /// What a poll of `channel` yields in the present state of the backend.
    spec fn reading(&self, channel: &Self::Channel) -> Result<
        Self::RawData,
        <Self as PollData>::Error,
    >;

    /// The scaling from a raw sample to a normalized one.
    spec fn normalize(raw: Self::RawData) -> Self::NormalizedData;

    /// The present sample of `channel`; a handle outside the enumeration is a data error.
    fn poll_raw_data(&self, channel: &Self::Channel) -> (r: Result<
        Self::RawData,
        <Self as PollData>::Error,
    >)
        ensures
            r == self.reading(channel),
            !self.valid_channel(channel) ==> (r matches Err(e) && e.kind_spec()
                == RadioControlError::DataError),
    ;

    /// The present sample of `channel`, scaled; it fails exactly when the raw poll does.
    fn poll_normalized_data(&self, channel: &Self::Channel) -> (r: Result<
        Self::NormalizedData,
        <Self as PollData>::Error,
    >)
        ensures
            r == match self.reading(channel) {
                Ok(raw) => Ok(Self::normalize(raw)),
                Err(e) => Err(e),
            },
    ;
}

/// A backend usable by vehicle control: it addresses, enumerates and polls channels,
/// all on the one receive-capable device that it owns. It adds no operation of its own.
pub trait RadioController: PollChannels + PollData + ChannelAddressing {}

/// Two successful enumerations of one unchanged backend report the same count.
pub proof fn lemma_channel_count_stable<B: PollChannels>(
    backend: &B,
    first: Result<usize, <B as PollChannels>::Error>,
    second: Result<usize, <B as PollChannels>::Error>,
)
    requires
        call_ensures(B::number_of_channels, (backend,), first),
        call_ensures(B::number_of_channels, (backend,), second),
        first is Ok,
        second is Ok,
    ensures
        first == second,
{
}

/// A raw poll and a normalized poll of one channel in one state of the backend
/// succeed together, or fail together with the same error.
pub proof fn lemma_raw_and_normalized_agree<B: PollData>(
    backend: &B,
    channel: &B::Channel,
    raw: Result<B::RawData, <B as PollData>::Error>,
    normalized: Result<B::NormalizedData, <B as PollData>::Error>,
)
    requires
        call_ensures(B::poll_raw_data, (backend, channel), raw),
        call_ensures(B::poll_normalized_data, (backend, channel), normalized),
    ensures
        raw is Ok <==> normalized is Ok,
        raw matches Ok(v) ==> normalized == Ok::<B::NormalizedData, <B as PollData>::Error>(
            B::normalize(v),
        ),
        raw matches Err(e) ==> normalized == Err::<B::NormalizedData, <B as PollData>::Error>(e),
{
}

} // verus!
