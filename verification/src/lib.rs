//! Bidirectional codec for the MIDI System Exclusive control protocol of the
//! Fractal Audio multi-effects processors.
//!
//! The crate builds bit-exact outbound command frames (preset selection,
//! preset names, scenes, tempo, tuner and metronome toggles, block queries)
//! and parses inbound frames into typed messages. Every encoder and decoder
//! carries a contract stating the exact bytes produced or the exact message
//! decoded; the frame checksum invariant, the wire round trips and the
//! duality of the effect-id catalogs are proved as lemmas.

use vstd::prelude::*;

mod commands;
mod effects;
mod envelope;
mod models;
mod parse;
mod preset_name;
mod wire;

pub use commands::disconnect_from_controller;
pub use commands::get_block_parameters;
pub use commands::get_current_preset_name;
pub use commands::get_firmware_version;
pub use commands::get_grid_layout_and_routing;
pub use commands::get_midi_channel;
pub use commands::get_preset_blocks_flags;
pub use commands::get_preset_number;
pub use commands::set_current_preset_name;
pub use commands::set_preset_name;
pub use commands::set_preset_number;
pub use commands::set_scene_number;
pub use commands::set_tempo;
pub use commands::store_in_preset;
pub use commands::toggle_metronome;
pub use commands::toggle_tuner;
pub use commands::toggle_tuner_sysex;
pub use commands::MetronomeStatus;
pub use effects::id_for_effect;
pub use effects::Effect;
pub use effects::EffectID;
pub use effects::Parameter;
pub use envelope::checksum;
pub use envelope::with_checksum;
pub use models::guess_model;
pub use models::model_code;
pub use models::FractalModel;
pub use parse::parse_message;
pub use parse::BlockFlags;
pub use parse::BlockGridBlock;
pub use parse::Channel;
pub use parse::EffectStatus;
pub use parse::FractalMessage;
pub use parse::MessageView;
pub use parse::TunerStatus;
pub use parse::XYState;
pub use preset_name::encode_char_iii;
pub use preset_name::encode_preset_name_iii;

verus! {

/// A raw MIDI byte sequence, either a complete SysEx frame or a short
/// Control Change message.
pub type MidiMessage = Vec<u8>;

} // verus!
