//! Content-addressed retrieval of blobs from a remote store, without the I/O.
//!
//! The crate decides and checks; the caller transports. A [`Client`] turns a
//! blob name and a digest string into a request to send, and the value that it
//! hands back is then told what the transport saw: the status, the body or its
//! chunks, a failure. Each answer says what to do next, and the last one is the
//! blob, checked against its digest, or the reason why there is none.
//!
//! ```text
//! let fetch = client.get_blob(name, digest)?;       // nothing is sent yet
//! let request = fetch.request();
//! let read = fetch.on_response(send(request))?;     // the body is wanted
//! let blob = read.on_body(read_body())?;            // checked against the digest
//! ```
//!
//! What the functions promise is stated over plain mathematical values, the
//! views of the types, and the modules [`digest`], [`fetch`] and [`stream`]
//! prove what follows from it for whole operations: that a digest reads back
//! as it was written, that only bytes with the claimed hash come out, that an
//! observer hears once of each chunk and is released once.

pub mod client;
pub mod digest;
pub mod error;
pub mod fetch;
pub mod hash;
pub mod hex;
pub mod probe;
pub mod request;
pub mod status;
pub mod stream;

pub use client::Client;
pub use digest::Digest;
pub use error::{Error, TransportFailure};
pub use fetch::{BodyRead, Fetch};
pub use hash::Algorithm;
pub use probe::Probe;
pub use request::{Method, Request};
pub use status::StatusClass;
pub use stream::{Aborted, Assembled, Receiving, StreamFetch};
