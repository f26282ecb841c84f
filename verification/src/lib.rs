//! Decision logic for intercepting a foreign process's event dispatcher.
//!
//! The crate holds everything that can be computed from plain values: the
//! bytes of the redirecting jump and of the trampoline, the steps of their
//! installation, the identity string of an intercepted call, the text codec
//! of the foreign string type, the layout of the notification's argument
//! block, and the policy that decides whether a call passes through or is
//! replaced. Touching the foreign process itself is left to the embedding
//! program: it reads and writes memory, makes the calls, and reports back.

pub mod abi;
pub mod dispatch;
pub mod hook;
pub mod notification;
pub mod patch;
pub mod sdk;
pub mod text;
pub mod utf16;
