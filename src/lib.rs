//! Offline syntax validation of European Union VAT identification numbers.
//!
//! A VAT ID is a two-letter state code followed by a state-specific local
//! part. [`parse`] splits and checks an ID, [`check`] and [`check_by_state`]
//! answer yes or no. Only the form is checked: no registry is consulted and
//! no check digit is computed.
pub mod chars;
pub mod registry;
pub mod vat_id;

pub use vat_id::{check, check_by_state, parse, VATID, VatIdError};
