//! What each call does, in terms of what goes in and what comes out.
//!
//! A law here speaks of a call itself: it supposes that the function, called with these
//! arguments, came back with this result (`call_ensures`), and says how the result and the
//! state after relate to the arguments and the state before. Behind `&mut`, `old(..)` is the
//! state before the call and `final(..)` the state after.
//!
//! - [`storage`]: requesting, cancelling and taking in snapshots;
//! - [`install`]: applying a received snapshot, and switching to it;
//! - [`worker`]: handing a task to the read worker;
//! - [`dispatch`]: receiving messages and turning them into steps;
//! - [`timers`]: scheduling timers and handling them;
//! - [`data`]: copying and comparing plain data, and the shared cells.
pub mod data;
pub mod dispatch;
pub mod install;
pub mod storage;
pub mod timers;
pub mod worker;
