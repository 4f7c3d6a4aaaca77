//! bead_forge: verified core of a repo-local issue tracker.

pub mod schema;
pub mod text;
pub mod validation;
pub mod binary64;
pub mod clock;
pub mod entropy;
pub mod timing;
pub mod paths;
pub mod sorting;
pub mod trace;
pub mod subprocess;
pub mod module_list;
pub mod dates;
pub mod velocity;
pub mod sync;
pub mod update;
pub mod secrets;
pub mod queries;
pub mod query_laws;
pub mod changes;
pub mod children;
pub mod readback;
pub mod dep_tree;
pub mod retry;
pub mod rules;
pub mod rows;
