//! In-process event distribution and deterministic replay for a trading
//! platform: a runtime-keyed broadcast bus, a statically typed
//! competing-consumer bus, a bounded recorder, and a virtual-clock replay
//! engine.

pub mod bus;
pub mod events;
pub mod fast_channel;
pub mod publisher;
pub mod replay;
pub mod replay_mode;
pub mod subscriber;
pub mod typed_bus;

pub use bus::EventBus;
pub use bus::EventStats;
pub use events::EventEnvelope;
pub use events::EventPayload;
pub use fast_channel::FastChannel;
pub use publisher::Publisher;
pub use replay::EventRecorder;
pub use replay_mode::EventReplay;
pub use replay_mode::EventReplayBuilder;
pub use replay_mode::ReplaySpeed;
pub use replay_mode::ReplayStats;
pub use replay_mode::VirtualClock;
pub use subscriber::Subscriber;
pub use typed_bus::TypedEventBus;
