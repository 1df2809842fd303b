//! Write-once / read-once accessor synthesis for optionally-populated record
//! fields.
//!
//! Given the declared field schema of a record type, this library derives the
//! subset of fields that are wrapped in the `Option` marker, and builds an
//! accessor plan for them: a consuming getter, a guarded setter and a final
//! emptiness check per field, together with the conventional name of the
//! record's error-carrier type. The runtime side models each eligible field as
//! a slot that is either unset or occupied, and enforces that every slot is
//! written at most once and read at most once.

pub mod extract;
pub mod record;
pub mod schema;
pub mod synthesize;
