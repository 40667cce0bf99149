//! Safe construction of self-referential records.
//!
//! A [`record::SelfRefRecord`] carries a back-reference that must name the
//! address of the record's own `value` field.  That address is not known
//! until the record's storage is fixed, so a record is built in two phases:
//! its storage is allocated and its payload fields are written first, and the
//! back-reference is assigned in a second step, once the storage can no
//! longer move.  Addresses are slot indices handed out by a
//! [`store::RecordStore`], which keeps every finalized record at a fixed
//! address and refuses to treat storage as initialized unless every field was
//! explicitly written.
//!
//! [`container::ContainerCell`] applies the same discipline to a
//! dynamically-sized container: no usable handle to its contents exists
//! before its real constructor has run.

pub mod container;
pub mod record;
pub mod store;
