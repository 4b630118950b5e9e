//! Desktop notifications: the marshaling and decision logic behind a
//! single `send_notification(text, title)` call, for the Windows shell
//! balloon and for a Linux notification daemon.

pub mod balloon;
pub mod cstr;
pub mod dispatch;
pub mod error;
pub mod wide;

pub use balloon::{BalloonRequest, Guid, TEXT_LEN, TITLE_LEN};
pub use cstr::{c_text, NotifyRequest, APP_NAME, ICON_NAME};
pub use dispatch::{balloon_outcome, command_args, spawn_outcome, NOTIFY_COMMAND};
pub use error::NotifyError;
pub use wide::{convert_to_wchar_t, fixed_buffer};
