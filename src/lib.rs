//! Host-side protocol library for a latency-measurement device that talks
//! over a serial line in fixed 16-byte frames.
//!
//! The library holds the wire model (commands, settings, reports), the frame
//! codec with its checksum, and the decision logic of a device session: which
//! frame to write for a setting, what to do with the bytes that arrived, and
//! the drainable queue of decoded reports. Opening ports and moving bytes is
//! left to the caller, which feeds what it observed to [`Session::poll_step`]
//! and does what that returns.
//!
//! Beside the protocol it holds the small models of a user interface around a
//! session (offered poll rates, action families, messages) and the
//! moving-average threshold of a log analyzer.

pub mod analyzer;
pub mod codec;
pub mod controls;
pub mod error;
pub mod protocol;
pub mod report;
pub mod session;

pub use analyzer::{append_const_size, calc_threshold, SAMPLES, THRESHOLD_MARGIN};
pub use codec::{
    decode, encode, interpret, parse_frame, set_action_frame, set_poll_rate_frame,
    set_report_mode_frame, set_threshold_frame, sum_slice, FRAME_LEN,
};
pub use controls::{
    is_trigger_start, push_raw_sample, tick_hertz, ActionKey, ActionType, Message, PollRate,
};
pub use error::{Error, Result};
pub use protocol::{ActionMode, Command, KeyboardKey, MouseButton, ReportMode};
pub use report::{RawReport, Report, SummaryReport};
pub use session::{PollAction, PollEvent, Session};

