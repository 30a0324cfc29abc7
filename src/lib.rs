//! A setuid launcher for a DNS-filtering proxy: the argument grammar that
//! gates what an unprivileged caller may hand to the root-owned proxy, and
//! the drop / validate / escalate / spawn sequence that surrounds it.

pub mod args;
pub mod launch;
pub mod laws;
