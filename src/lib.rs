//! Coordination core of a networked audio player.
//!
//! One authoritative worker owns the playback state, the media catalog and
//! the set of subscribed clients; every client only sends commands. The items
//! here decide what each command does to that state, which call the media
//! engine has to make, and which message goes to which client. Making those
//! calls and deliveries is left to the caller, which reports back what the
//! engine said.
pub mod catalog;
pub mod config;
pub mod laws;
pub mod messages;
pub mod network;
pub mod playback;
pub mod player;
pub mod registry;

pub use catalog::{MediaCatalog, MediaFile, MediaItem, ParseMediaConfig, parse_media_dir};
pub use config::{directory_verdict, populate_html_template, valid_directory, valid_port};
pub use messages::{IncomingMsg, MediaMetadata, OutgoingMsg, PlayerMsg};
pub use network::{
    host_address, select_network_interface, v4_first, IpAddress, NetworkInterface,
};
pub use playback::{CurrentMedia, EngineStatus, PlaybackState};
pub use player::{broadcast, Delivery, EngineCall, EngineReport, Player};
pub use registry::ConnectionRegistry;
