//! How an actor is set up.

use vstd::prelude::*;

verus! {

/// How many messages a worker takes from its mailbox at once, unless told otherwise.
pub const BATCH_SIZE: usize = 16;

/// The size of an actor's mailbox and of the batches its worker takes from it.
#[derive(Debug, Clone, Copy)]
pub struct ActorConfig {
    pub channel_size: usize,
    pub batch_size: usize,
}

impl ActorConfig {
    /// The batch size that a worker goes by: at least one, since a batch of no
    /// messages would read as a closed mailbox.
    pub open spec fn effective_batch_size(self) -> usize {
        if self.batch_size == 0 {
            1
        } else {
            self.batch_size
        }
    }

    /// Whether a mailbox of this size can be made.
    pub open spec fn mailbox_can_be_made(self) -> bool {
        0 < self.channel_size <= usize::MAX / 8
    }

    /// A configuration with a mailbox for `channel_size` messages and the default
    /// batch size.
    pub fn new(channel_size: usize) -> (config: Self)
        ensures
            config.channel_size == channel_size,
            config.batch_size == BATCH_SIZE,
            config.batch_size == 16,
    {
        Self { channel_size, batch_size: BATCH_SIZE }
    }

    /// The same configuration with another batch size, raised to one if it is zero.
    pub fn with_batch_size(self, batch_size: usize) -> (config: Self)
        ensures
            config.channel_size == self.channel_size,
            config.batch_size == if batch_size == 0 {
                1
            } else {
                batch_size
            },
            config.batch_size == config.effective_batch_size(),
    {
        Self { batch_size: batch_size.max(1), ..self }
    }

    /// The batch size that a worker goes by, for any configuration: the fields are
    /// public, so a zero can be written into one.
    pub fn batch_limit(&self) -> (limit: usize)
        ensures
            limit == self.effective_batch_size(),
            limit >= 1,
            self.batch_size >= 1 ==> limit == self.batch_size,
            self.batch_size == 0 ==> limit == 1,
    {
        self.batch_size.max(1)
    }
}

/// Every configuration has a batch size to go by: its own, or one where that is zero. A
/// mailbox can be made for every number of messages that a channel can count, but none.
pub proof fn law_sizes(config: ActorConfig)
    ensures
        config.effective_batch_size() >= 1,
        config.batch_size >= 1 ==> config.effective_batch_size() == config.batch_size,
        config.batch_size == 0 ==> config.effective_batch_size() == 1,
        config.mailbox_can_be_made() <==> 1 <= config.channel_size <= usize::MAX / 8,
        BATCH_SIZE == 16,
{
}

} // verus!
