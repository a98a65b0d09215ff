//! Verified core of the ZeusIX desktop backend.
//!
//! Screen capture is the main part: `source` lists what can be captured,
//! `capture` holds the registry of the one running session and the
//! operations of the boundary, `handler` is the per-frame callback,
//! `pipeline` turns a raw frame into a JPEG image, `mailbox` hands the
//! latest image to the poller, and `session` states what holds of every run.
//! Around it stand push-to-talk key handling (`ptt`), the tray (`tray`), the
//! keystore (`keystore`), local message records (`storage`) and the
//! end-to-end encryption helpers (`crypto`, with `codec` for base64 text).
//!
//! Nothing here touches the operating system: the functions take what the
//! capture driver, the keyboard or the database reported and say what is to
//! be done next.

pub mod capture;
pub mod codec;
pub mod crypto;
pub mod handler;
pub mod keystore;
pub mod mailbox;
pub mod pipeline;
pub mod ptt;
pub mod session;
pub mod source;
pub mod storage;
pub mod text;
pub mod tray;
