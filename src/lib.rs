//! A dynamic TLS-termination proxy: picks the server identity for each
//! handshake by the hostname the client names, caches what it loaded, and
//! routes each decrypted request to a tunnel or to a backend.

pub mod cache;
pub mod identity;
pub mod resolver;
pub mod router;

pub use cache::CertCache;
pub use identity::{bundle_path, load_certified_key, parse_bundle, Bundle, Identity, LoadError};
pub use resolver::{ResolveSSL, Resolution};
pub use router::{forward_addr, host_addr, route, Method, RequestTarget, Route};
