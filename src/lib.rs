//! Decoding of Stream Deck input reports into typed events, and edge
//! detection over button snapshots.

mod kind;

pub use kind::{flip_key_index, flip_spec, lemma_flip_key_index_involution, lemma_kind_geometry, Kind};
mod input;

pub use input::{
    button_offset, button_report_len, button_states_spec, encoder_pressed_spec,
    encoder_twist_spec, le16, physical_key, read_button_states, read_encoder_input,
    read_lcd_input, signed_byte, StreamDeckError, StreamDeckInput,
};
mod diff;

pub use diff::{
    diff_events, lemma_state_diff_idempotent, state_diff, updated_set, updated_upto, StateChange,
};
mod util;

pub use util::{extract_str, feature_report_request, feature_report_request_spec, strip_nul_spec};
