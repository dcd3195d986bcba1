//! Builder of client settings, holding the configuration rules.
use vstd::prelude::*;

use crate::client::{
    error::ErrorClient, DEFAULT_OUTGOING_SIZE, DEFAULT_POOL_RATE_PER_SECOND, MAXIMUM_OUTGOING_SIZE,
    MAXIMUM_POOL_RATE_PER_SECOND, MINIMUM_OUTGOING_SIZE, MINIMUM_POOL_RATE_PER_SECOND,
};

verus! {

/// Settings of a client, checked by `ClientBuilder::build`.
#[derive(Debug, Clone, Copy, PartialEq, Eq, Structural)]
pub struct ClientSettings {
    /// Pool rate of the worker, per second.
    pub pool_rate: u64,
    /// Maximum size of an outgoing message.
    pub outgoing_max_size: usize,
}

/// Builder helper used to create client.
pub struct ClientBuilder {
    /// Pool rate of the client
    pool_rate: u64,
    /// Maximum size of outgoing message
    outgoing_max_size: usize,
}

impl View for ClientBuilder {
    type V = ClientSettings;

    closed spec fn view(&self) -> ClientSettings {
        ClientSettings { pool_rate: self.pool_rate, outgoing_max_size: self.outgoing_max_size }
    }
}

/// What `ClientBuilder::build` gives for the given settings: the first
/// setting out of its range, checked in declaration order, is reported.
pub open spec fn client_build_result(s: ClientSettings) -> Result<ClientSettings, ErrorClient> {
    if s.pool_rate < MINIMUM_POOL_RATE_PER_SECOND {
        Err(ErrorClient::PoolRateBelowMinimum)
    } else if s.pool_rate > MAXIMUM_POOL_RATE_PER_SECOND {
        Err(ErrorClient::PoolRateAboveMaximum)
    } else if s.outgoing_max_size < MINIMUM_OUTGOING_SIZE {
        Err(ErrorClient::OutgoingMessageSizeBelowMinimum)
    } else if s.outgoing_max_size > MAXIMUM_OUTGOING_SIZE {
        Err(ErrorClient::OutgoingMessageSizeAboveMaximum)
    } else {
        Ok(s)
    }
}

/// Settings within every range of the client.
pub open spec fn client_settings_valid(s: ClientSettings) -> bool {
    &&& MINIMUM_POOL_RATE_PER_SECOND <= s.pool_rate <= MAXIMUM_POOL_RATE_PER_SECOND
    &&& MINIMUM_OUTGOING_SIZE <= s.outgoing_max_size <= MAXIMUM_OUTGOING_SIZE
}

impl ClientBuilder {
    /// Create a new `ClientBuilder` instance with the default settings.
    pub fn new() -> (builder: ClientBuilder)
        ensures
            builder@ == (ClientSettings {
                pool_rate: DEFAULT_POOL_RATE_PER_SECOND,
                outgoing_max_size: DEFAULT_OUTGOING_SIZE,
            }),
    {
        ClientBuilder {
            pool_rate: DEFAULT_POOL_RATE_PER_SECOND,
            outgoing_max_size: DEFAULT_OUTGOING_SIZE,
        }
    }

    /// Pool rate of the client worker per second; each pool looks for incoming
    /// server messages. Value must be between `MINIMUM_POOL_RATE_PER_SECOND`
    /// and `MAXIMUM_POOL_RATE_PER_SECOND`; checked by `build`.
    pub fn pool_rate(self, pool_rate: u64) -> (builder: ClientBuilder)
        ensures
            builder@ == (ClientSettings { pool_rate, ..self@ }),
    {
        ClientBuilder { pool_rate, ..self }
    }

    /// Maximum size accepted to send to server. Value must be between
    /// `MINIMUM_OUTGOING_SIZE` and `MAXIMUM_OUTGOING_SIZE`; checked by `build`.
    pub fn outgoing_max_size(self, outgoing_max_size: usize) -> (builder: ClientBuilder)
        ensures
            builder@ == (ClientSettings { outgoing_max_size, ..self@ }),
    {
        ClientBuilder { outgoing_max_size, ..self }
    }

    /// Check the settings of the builder.
    ///
    /// Returns the settings when every one is within its range, else the error
    /// of the first one out of range (pool rate, then outgoing size).
    pub fn build(&self) -> (settings: Result<ClientSettings, ErrorClient>)
        ensures
            settings == client_build_result(self@),
            settings is Ok <==> client_settings_valid(self@),
    {
        if self.pool_rate < MINIMUM_POOL_RATE_PER_SECOND {
            return Err(ErrorClient::PoolRateBelowMinimum);
        }
        if self.pool_rate > MAXIMUM_POOL_RATE_PER_SECOND {
            return Err(ErrorClient::PoolRateAboveMaximum);
        }
        if self.outgoing_max_size < MINIMUM_OUTGOING_SIZE {
            return Err(ErrorClient::OutgoingMessageSizeBelowMinimum);
        }
        if self.outgoing_max_size > MAXIMUM_OUTGOING_SIZE {
            return Err(ErrorClient::OutgoingMessageSizeAboveMaximum);
        }
        Ok(ClientSettings { pool_rate: self.pool_rate, outgoing_max_size: self.outgoing_max_size })
    }

    /// Pool rate currently set.
    pub fn get_pool_rate(&self) -> (pool_rate: u64)
        ensures
            pool_rate == self@.pool_rate,
    {
        self.pool_rate
    }

    /// Outgoing size limit currently set.
    pub fn get_outgoing_max_size(&self) -> (size: usize)
        ensures
            size == self@.outgoing_max_size,
    {
        self.outgoing_max_size
    }
}

} // verus!
