//! The use cases, each as a decision procedure: from where it stands and
//! what its collaborators answered to where it stands next and what is to be
//! done. The caller talks to the repository, the cache and the password
//! hasher; nothing here waits on them.

pub mod create;
pub mod delete;
pub mod update;
pub mod get;
