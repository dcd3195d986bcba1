//! Builder of server settings, holding the configuration rules.
use vstd::prelude::*;

use crate::server::{
    error::ErrorServer, INCOMING_SIZE_DEFAULT, INCOMING_SIZE_MAXIMUM, INCOMING_SIZE_MINIMUM,
    MAXCLIENT_DEFAULT, MAXCLIENT_MAXIMUM, MAXCLIENT_MINIMUM, OUTGOING_SIZE_DEFAULT,
    OUTGOING_SIZE_MAXIMUM, OUTGOING_SIZE_MINIMUM, POOL_RATE_PER_SECOND_DEFAULT,
    POOL_RATE_PER_SECOND_MAXIMUM, POOL_RATE_PER_SECOND_MINIMUM, WORKER_COUNT_DEFAULT,
    WORKER_COUNT_MINIMUM,
};

verus! {

/// Settings of a server, checked by `ServerBuilder::build`.
#[derive(Debug, Clone, Copy, PartialEq, Eq, Structural)]
pub struct ServerSettings {
    /// Maximum client connection allowed
    pub maximum_client: usize,
    /// Count of worker threads
    pub worker_count: usize,
    /// Pool rate of the supervisor, per second
    pub pool_rate: u64,
    /// Maximum size of incoming message
    pub incoming_max_size: usize,
    /// Maximum size of outgoing message
    pub outgoing_max_size: usize,
}

/// Builder helper used to create server.
pub struct ServerBuilder {
    maximum_client: usize,
    worker_count: usize,
    pool_rate: u64,
    incoming_max_size: usize,
    outgoing_max_size: usize,
}

impl View for ServerBuilder {
    type V = ServerSettings;

    closed spec fn view(&self) -> ServerSettings {
        ServerSettings {
            maximum_client: self.maximum_client,
            worker_count: self.worker_count,
            pool_rate: self.pool_rate,
            incoming_max_size: self.incoming_max_size,
            outgoing_max_size: self.outgoing_max_size,
        }
    }
}

/// What `ServerBuilder::build` gives for the given settings: the first
/// setting out of its range, checked in declaration order, is reported.
pub open spec fn server_build_result(s: ServerSettings) -> Result<ServerSettings, ErrorServer> {
    if s.maximum_client < MAXCLIENT_MINIMUM {
        Err(ErrorServer::MaximumClientBelowMinimum)
    } else if s.maximum_client > MAXCLIENT_MAXIMUM {
        Err(ErrorServer::MaximumClientAboveMaximum)
    } else if s.worker_count < WORKER_COUNT_MINIMUM {
        Err(ErrorServer::WorkerCountBelowMinimum)
    } else if s.worker_count > s.maximum_client {
        Err(ErrorServer::WorkerCountAboveMaximum)
    } else if s.pool_rate < POOL_RATE_PER_SECOND_MINIMUM {
        Err(ErrorServer::PoolRateBelowMinimum)
    } else if s.pool_rate > POOL_RATE_PER_SECOND_MAXIMUM {
        Err(ErrorServer::PoolRateAboveMaximum)
    } else if s.incoming_max_size < INCOMING_SIZE_MINIMUM {
        Err(ErrorServer::IncomingMessageSizeBelowMinimum)
    } else if s.incoming_max_size > INCOMING_SIZE_MAXIMUM {
        Err(ErrorServer::IncomingMessageSizeAboveMaximum)
    } else if s.outgoing_max_size < OUTGOING_SIZE_MINIMUM {
        Err(ErrorServer::OutgoingMessageSizeBelowMinimum)
    } else if s.outgoing_max_size > OUTGOING_SIZE_MAXIMUM {
        Err(ErrorServer::OutgoingMessageSizeAboveMaximum)
    } else {
        Ok(s)
    }
}

/// Settings within every range of the server.
pub open spec fn server_settings_valid(s: ServerSettings) -> bool {
    &&& MAXCLIENT_MINIMUM <= s.maximum_client <= MAXCLIENT_MAXIMUM
    &&& WORKER_COUNT_MINIMUM <= s.worker_count <= s.maximum_client
    &&& POOL_RATE_PER_SECOND_MINIMUM <= s.pool_rate <= POOL_RATE_PER_SECOND_MAXIMUM
    &&& INCOMING_SIZE_MINIMUM <= s.incoming_max_size <= INCOMING_SIZE_MAXIMUM
    &&& OUTGOING_SIZE_MINIMUM <= s.outgoing_max_size <= OUTGOING_SIZE_MAXIMUM
}

impl ServerBuilder {
    /// Create a new `ServerBuilder` instance with the default settings.
    pub fn new() -> (builder: ServerBuilder)
        ensures
            builder@ == (ServerSettings {
                maximum_client: MAXCLIENT_DEFAULT,
                worker_count: WORKER_COUNT_DEFAULT,
                pool_rate: POOL_RATE_PER_SECOND_DEFAULT,
                incoming_max_size: INCOMING_SIZE_DEFAULT,
                outgoing_max_size: OUTGOING_SIZE_DEFAULT,
            }),
    {
        ServerBuilder {
            maximum_client: MAXCLIENT_DEFAULT,
            worker_count: WORKER_COUNT_DEFAULT,
            pool_rate: POOL_RATE_PER_SECOND_DEFAULT,
            incoming_max_size: INCOMING_SIZE_DEFAULT,
            outgoing_max_size: OUTGOING_SIZE_DEFAULT,
        }
    }

    /// Maximum client that can connect to server; between `MAXCLIENT_MINIMUM`
    /// and `MAXCLIENT_MAXIMUM`, checked by `build`.
    pub fn maximum_client(self, max_client: usize) -> (builder: ServerBuilder)
        ensures
            builder@ == (ServerSettings { maximum_client: max_client, ..self@ }),
    {
        ServerBuilder { maximum_client: max_client, ..self }
    }

    /// Number of worker threads used by the server; between
    /// `WORKER_COUNT_MINIMUM` and the maximum client, checked by `build`.
    pub fn worker(self, worker_count: usize) -> (builder: ServerBuilder)
        ensures
            builder@ == (ServerSettings { worker_count, ..self@ }),
    {
        ServerBuilder { worker_count, ..self }
    }

    /// Pool rate of the supervisor per second; between
    /// `POOL_RATE_PER_SECOND_MINIMUM` and `POOL_RATE_PER_SECOND_MAXIMUM`,
    /// checked by `build`.
    pub fn pool_rate(self, pool_rate: u64) -> (builder: ServerBuilder)
        ensures
            builder@ == (ServerSettings { pool_rate, ..self@ }),
    {
        ServerBuilder { pool_rate, ..self }
    }

    /// Maximum size accepted from incoming client message; between
    /// `INCOMING_SIZE_MINIMUM` and `INCOMING_SIZE_MAXIMUM`, checked by `build`.
    pub fn incoming_max_size(self, incoming_max_size: usize) -> (builder: ServerBuilder)
        ensures
            builder@ == (ServerSettings { incoming_max_size, ..self@ }),
    {
        ServerBuilder { incoming_max_size, ..self }
    }

    /// Maximum size accepted for outgoing message; between
    /// `OUTGOING_SIZE_MINIMUM` and `OUTGOING_SIZE_MAXIMUM`, checked by `build`.
    pub fn outgoing_max_size(self, outgoing_max_size: usize) -> (builder: ServerBuilder)
        ensures
            builder@ == (ServerSettings { outgoing_max_size, ..self@ }),
    {
        ServerBuilder { outgoing_max_size, ..self }
    }

    /// Check the settings of the builder.
    ///
    /// Returns the settings when every one is within its range, else the error
    /// of the first one out of range, in the order: maximum client, worker
    /// count, pool rate, incoming size, outgoing size.
    pub fn build(&self) -> (settings: Result<ServerSettings, ErrorServer>)
        ensures
            settings == server_build_result(self@),
            settings is Ok <==> server_settings_valid(self@),
    {
        if self.maximum_client < MAXCLIENT_MINIMUM {
            return Err(ErrorServer::MaximumClientBelowMinimum);
        }
        if self.maximum_client > MAXCLIENT_MAXIMUM {
            return Err(ErrorServer::MaximumClientAboveMaximum);
        }
        if self.worker_count < WORKER_COUNT_MINIMUM {
            return Err(ErrorServer::WorkerCountBelowMinimum);
        }
        if self.worker_count > self.maximum_client {
            return Err(ErrorServer::WorkerCountAboveMaximum);
        }
        if self.pool_rate < POOL_RATE_PER_SECOND_MINIMUM {
            return Err(ErrorServer::PoolRateBelowMinimum);
        }
        if self.pool_rate > POOL_RATE_PER_SECOND_MAXIMUM {
            return Err(ErrorServer::PoolRateAboveMaximum);
        }
        if self.incoming_max_size < INCOMING_SIZE_MINIMUM {
            return Err(ErrorServer::IncomingMessageSizeBelowMinimum);
        }
        if self.incoming_max_size > INCOMING_SIZE_MAXIMUM {
            return Err(ErrorServer::IncomingMessageSizeAboveMaximum);
        }
        if self.outgoing_max_size < OUTGOING_SIZE_MINIMUM {
            return Err(ErrorServer::OutgoingMessageSizeBelowMinimum);
        }
        if self.outgoing_max_size > OUTGOING_SIZE_MAXIMUM {
            return Err(ErrorServer::OutgoingMessageSizeAboveMaximum);
        }
        Ok(ServerSettings {
            maximum_client: self.maximum_client,
            worker_count: self.worker_count,
            pool_rate: self.pool_rate,
            incoming_max_size: self.incoming_max_size,
            outgoing_max_size: self.outgoing_max_size,
        })
    }

    /// Settings currently set, unchecked.
    pub fn settings(&self) -> (settings: ServerSettings)
        ensures
            settings == self@,
    {
        ServerSettings {
            maximum_client: self.maximum_client,
            worker_count: self.worker_count,
            pool_rate: self.pool_rate,
            incoming_max_size: self.incoming_max_size,
            outgoing_max_size: self.outgoing_max_size,
        }
    }
}

} // verus!
