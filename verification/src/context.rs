//! The shared context: the bundle of resources that every lifecycle
//! callback receives.

use crate::environment::Environment;
use crate::serve::ServeParams;
use vstd::prelude::*;

verus! {

/// A shared resource that the host has opened: a connection, a pool, a
/// sender, a store. The library never looks inside one; it carries the
/// handle to whoever needs the resource. Two equal handles stand for the
/// same resource, so copying a handle opens nothing.
#[derive(Clone, Copy, Debug, PartialEq, Eq, Hash)]
pub struct Handle {
    pub id: u64,
}

/// The resources that a context may hold.
#[derive(Clone, Copy, Debug, PartialEq, Eq)]
pub enum Capability {
    Persistence,
    TaskQueue,
    Mailer,
    Storage,
}

/// A resource was asked for that the context does not hold.
#[derive(Clone, Copy, Debug, PartialEq, Eq)]
pub struct CapabilityMissing {
    pub capability: Capability,
}

/// The configuration snapshot, as far as the bootstrap reads it.
#[derive(Debug, PartialEq, Eq)]
pub struct Config {
    /// Where the application listens.
    pub server: ServeParams,
}

impl Clone for Config {
    fn clone(&self) -> (c: Self)
        ensures
            c == *self,
    {
        Config { server: self.server.clone() }
    }
}

/// The application context: what the application shares with every
/// lifecycle callback and every request. No field is replaced once the
/// context is built; whatever changes lives behind a handle.
#[derive(Debug, PartialEq, Eq)]
pub struct AppContext {
    /// The environment in which the application is running.
    pub environment: Environment,
    /// The persistence connection; absent where persistence is disabled.
    pub db: Option<Handle>,
    /// The connection pool of the task queue, for background work.
    pub redis: Option<Handle>,
    /// Configuration settings for the application.
    pub config: Config,
    /// The component that sends mail.
    pub mailer: Option<Handle>,
    /// The blob storage of the application.
    pub storage: Option<Handle>,
}

impl AppContext {
    /// The context right after the configuration was loaded: it holds no
    /// resource yet.
    pub open spec fn bare(environment: Environment, config: Config) -> AppContext {
        AppContext { environment, db: None, redis: None, config, mailer: None, storage: None }
    }

    /// The handle that the context holds for `capability`, if any.
    pub open spec fn slot(self, capability: Capability) -> Option<Handle> {
        match capability {
            Capability::Persistence => self.db,
            Capability::TaskQueue => self.redis,
            Capability::Mailer => self.mailer,
            Capability::Storage => self.storage,
        }
    }

    /// The handle for `capability`, or the report that it is missing. A
    /// consumer branches on the answer; nothing here assumes that a
    /// resource is present.
    pub fn require(&self, capability: Capability) -> (r: Result<Handle, CapabilityMissing>)
        ensures
            r == match self.slot(capability) {
                Some(h) => Ok::<Handle, CapabilityMissing>(h),
                None => Err(CapabilityMissing { capability }),
            },
    {
        let held = match capability {
            Capability::Persistence => self.db,
            Capability::TaskQueue => self.redis,
            Capability::Mailer => self.mailer,
            Capability::Storage => self.storage,
        };
        match held {
            Some(h) => Ok(h),
            None => Err(CapabilityMissing { capability }),
        }
    }
}

impl Clone for AppContext {
    /// A copy holds the very handles of the context it was taken from:
    /// copying a context opens no resource.
    fn clone(&self) -> (c: Self)
        ensures
            c == *self,
    {
        AppContext {
            environment: self.environment.clone(),
            db: self.db,
            redis: self.redis,
            config: self.config.clone(),
            mailer: self.mailer,
            storage: self.storage,
        }
    }
}

} // verus!
