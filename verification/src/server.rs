use vstd::prelude::*;

verus! {

/// Values built for tests: a small, valid instance of the type.
pub trait TestDefault: Sized {
    fn test_default() -> Self;
}

/// The server's settings. Durations are in milliseconds.
#[derive(Debug)]
pub struct ServerConfig {
    /// How long a connection may stay silent.
    pub max_timeout_ms: u64,
    /// How many times a player may try to log in.
    pub max_retry: usize,
    /// The longest name or password accepted, in bytes.
    pub max_username_length: usize,
    /// How many events a player's connection may have queued.
    pub player_channel_buffer_size: usize,
    /// How long an empty lobby is kept.
    pub lobby_cleanup_grace_period_ms: u64,
}

impl Default for ServerConfig {
    /// Five minutes of silence and of grace, three login tries, names up to
    /// 32 bytes, 128 queued events.
    fn default() -> (r: Self)
        ensures
            r == (ServerConfig {
                max_timeout_ms: 300_000,
                max_retry: 3,
                max_username_length: 32,
                player_channel_buffer_size: 128,
                lobby_cleanup_grace_period_ms: 300_000,
            }),
    {
        ServerConfig {
            max_timeout_ms: 300_000,
            max_retry: 3,
            max_username_length: 32,
            player_channel_buffer_size: 128,
            lobby_cleanup_grace_period_ms: 300_000,
        }
    }
}

impl TestDefault for ServerConfig {
    /// One second of silence and of grace, three login tries, names up to
    /// 32 bytes, one queued event.
    fn test_default() -> (r: Self)
        ensures
            r == (ServerConfig {
                max_timeout_ms: 1000,
                max_retry: 3,
                max_username_length: 32,
                player_channel_buffer_size: 1,
                lobby_cleanup_grace_period_ms: 1000,
            }),
    {
        ServerConfig {
            max_timeout_ms: 1000,
            max_retry: 3,
            max_username_length: 32,
            player_channel_buffer_size: 1,
            lobby_cleanup_grace_period_ms: 1000,
        }
    }
}

} // verus!
