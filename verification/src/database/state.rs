//! The state of a compilation: the database, the diagnostics reported so
//! far and the configuration.

use vstd::prelude::*;

use super::store::{Database, PackageView};
use super::Config;
use crate::diagnostics::Diagnostics;

verus! {

/// Contains database and diagnostics.
#[derive(Debug)]
pub struct State {
    db: Database,
    diagnostics: Diagnostics,
    config: Config,
}

impl State {
    /// The database of the state.
    pub closed spec fn db_value(&self) -> Database {
        self.db
    }

    /// The diagnostics of the state.
    pub closed spec fn diagnostics_value(&self) -> Diagnostics {
        self.diagnostics
    }

    /// The configuration of the state.
    pub closed spec fn config_value(&self) -> Config {
        self.config
    }

    /// Creates a new empty state: an empty database, no diagnostics and the
    /// default configuration.
    pub fn new() -> (r: Self)
        ensures
            r.db_value()@ == Seq::<PackageView>::empty(),
            r.diagnostics_value().wf(),
            r.diagnostics_value().files_involved@.len() == 0,
            r.diagnostics_value().diagnostics@.len() == 0,
            r.config_value() == (Config {}),
    {
        State { db: Database::new(), diagnostics: Diagnostics::new(), config: Config::new() }
    }

    /// Builds a new state with given configuration.
    pub fn with_config(self, config: Config) -> (r: Self)
        ensures
            r.db_value() == self.db_value(),
            r.diagnostics_value() == self.diagnostics_value(),
            r.config_value() == config,
    {
        let mut state = self;
        state.config = config;
        state
    }

    /// Returns a reference to config.
    pub fn config(&self) -> (r: &Config)
        ensures
            *r == self.config_value(),
    {
        &self.config
    }

    /// Returns an immutable reference to a database object.
    pub fn db(&self) -> (r: &Database)
        ensures
            *r == self.db_value(),
    {
        &self.db
    }

    /// Returns a mutable reference to a database object.
    pub fn db_mut(&mut self) -> (r: &mut Database)
        ensures
            *r == old(self).db_value(),
            final(self).db_value() == *final(r),
            final(self).diagnostics_value() == old(self).diagnostics_value(),
            final(self).config_value() == old(self).config_value(),
    {
        &mut self.db
    }

    /// Gives an ownership over database object inside the state.
    pub fn into_db(self) -> (r: Database)
        ensures
            r == self.db_value(),
    {
        self.db
    }

    /// Returns an immutable reference to diagnostics.
    pub fn diagnostics(&self) -> (r: &Diagnostics)
        ensures
            *r == self.diagnostics_value(),
    {
        &self.diagnostics
    }

    /// Returns a mutable reference to diagnostics.
    pub fn diagnostics_mut(&mut self) -> (r: &mut Diagnostics)
        ensures
            *r == old(self).diagnostics_value(),
            final(self).diagnostics_value() == *final(r),
            final(self).db_value() == old(self).db_value(),
            final(self).config_value() == old(self).config_value(),
    {
        &mut self.diagnostics
    }

    /// Gives an ownership over diagnostics object inside the state.
    pub fn into_diagnostics(self) -> (r: Diagnostics)
        ensures
            r == self.diagnostics_value(),
    {
        self.diagnostics
    }
}

} // verus!
