//! A verified mutation engine for the cluster-access configuration file that
//! cluster command-line tools keep under the user's home directory: locating
//! the file, reading its document in either of two serialization formats,
//! switching the selected context or the selected context's namespace under
//! the document's validity rules, and serializing the document back in the
//! format it came in without losing any field.

pub mod codec;
pub mod complete;
pub mod engine;
pub mod locate;
pub mod model;
