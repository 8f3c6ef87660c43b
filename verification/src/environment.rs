//! The environment an application runs in.

use vstd::prelude::*;

verus! {

/// The environment of the process. It is chosen once and stays the same for
/// the lifetime of the process.
#[derive(Debug, PartialEq, Eq)]
pub enum Environment {
    Development,
    Test,
    Production,
    /// An environment that the application names itself.
    Custom(String),
}

impl Clone for Environment {
    fn clone(&self) -> (c: Self)
        ensures
            c == *self,
    {
        match self {
            Environment::Development => Environment::Development,
            Environment::Test => Environment::Test,
            Environment::Production => Environment::Production,
            Environment::Custom(name) => Environment::Custom(name.clone()),
        }
    }
}

} // verus!
