//! A request relay: the host-side half of a bridge through which a user
//! interface issues outbound HTTP requests.
//!
//! The relay validates a [`HttpRequest`], turns it into an [`Outbound`] plan
//! for the transport, and turns whatever the transport reports, an
//! [`Exchange`], into a [`HttpResponse`] or a [`RelayError`]. The exchange
//! itself is not part of this library: a caller either hands [`relay`] a
//! transport function, or takes a [`Phase`] through its steps and performs
//! what each step asks for: [`try_assemble`] makes the request that an HTTP
//! client then sends, and [`sent_event`] and [`read_event`] read what the
//! client hands back.

pub mod text;
pub mod method;
pub mod request;
pub mod response;
pub mod error;
pub mod relay;
pub mod dispatch;
pub mod machine;
pub mod report;
pub mod laws;

pub use crate::dispatch::{assemble, try_assemble, MAX_HEADERS};
pub use crate::error::RelayError;
pub use crate::machine::{Action, Event, Phase};
pub use crate::method::Method;
pub use crate::relay::{conclude, prepare, relay, render, Exchange};
pub use crate::report::{read_event, refused_event, sent_event};
pub use crate::request::{HttpRequest, Outbound};
pub use crate::response::HttpResponse;
