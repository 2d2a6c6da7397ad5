//! SMS notifications for booking guests: phone-number normalisation,
//! gateway configuration, localised message bodies and the per-gateway
//! request and response rules.
use vstd::prelude::*;

pub mod text;
pub mod email;
pub mod i18n;
pub mod sms;

verus! {
}
