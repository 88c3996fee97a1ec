//! Domain data: identities, protected resources, and the validated request
//! types through which they are created, queried and removed.

pub mod posts;
pub mod users;
