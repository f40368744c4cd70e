//! Ownership-transferring value conversion across a binary boundary.
//!
//! A logical value is moved into a layout-stable raw form (an
//! [`Envelope`]) by Transfer-Out, carried across the boundary, and
//! reconstructed with full ownership by Transfer-In. No payload bytes are
//! copied on the way out: owned buffers travel as owning-buffer
//! descriptors. The aggregate generation mechanism extends the scheme to
//! plain named-field aggregates, and rejects every other declaration shape
//! at generation time.

mod value;
mod types;
mod envelope;
mod transfer;
mod generate;
mod convert;

pub use value::Value;
pub use value::ValueV;
pub use value::value_view;
pub use types::IntWidth;
pub use types::TypeDesc;
pub use types::TypeDescV;
pub use types::type_desc_view;
pub use types::conforms;
pub use types::value_conforms;
pub use types::uint_max;
pub use types::uint_max_exec;
pub use types::int_min;
pub use types::int_min_exec;
pub use types::int_max;
pub use types::int_max_exec;
pub use envelope::RawVec;
pub use envelope::RawInline;
pub use envelope::Envelope;
pub use envelope::RawInlineV;
pub use envelope::EnvelopeV;
pub use envelope::envelope_view;
pub use transfer::TransferError;
pub use transfer::transfer_out;
pub use transfer::transfer_in;
pub use transfer::transfer_out_spec;
pub use transfer::transfer_in_spec;
pub use transfer::out_elems;
pub use transfer::decode_elems;
pub use transfer::decode_fields;
pub use transfer::lemma_out_elems;
pub use transfer::lemma_decode_elems_some;
pub use transfer::lemma_decode_elems_none;
pub use transfer::lemma_decode_fields_some;
pub use transfer::lemma_decode_fields_none;
pub use transfer::lemma_round_trip;
pub use transfer::lemma_field_update_fidelity;
pub use transfer::lemma_nested_containers;
pub use generate::RawType;
pub use generate::RawTypeV;
pub use generate::raw_type_view;
pub use generate::raw_desc;
pub use generate::raw_type_of;
pub use generate::FieldDecl;
pub use generate::DeclKind;
pub use generate::TypeDecl;
pub use generate::GenError;
pub use generate::RawField;
pub use generate::RawStructDef;
pub use generate::FromRawDef;
pub use generate::derive_into_raw;
pub use generate::derive_from_raw;
pub use convert::RawRepr;
pub use convert::IntoRaw;
pub use convert::FromRaw;
pub use convert::lemma_typed_round_trip;
