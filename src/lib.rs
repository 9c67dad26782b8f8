//! Session-based access control, OpenID Connect sign-in bookkeeping and
//! pagination for a small server-rendered administration site.

pub mod session;
pub mod gate;
pub mod signin;
pub mod pagination;
pub mod report;
