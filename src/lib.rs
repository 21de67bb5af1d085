//! The schema-migration catalog of the desktop library application: an
//! ordered list of versioned SQL migrations, with the rules that keep it
//! ordered as it grows.

pub mod migrations;
