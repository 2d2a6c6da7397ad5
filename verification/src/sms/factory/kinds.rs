//! Values stored in `sms_config.provider`.
use vstd::prelude::*;

verus! {

pub const TWILIO: &'static str = "twilio";

pub const GATEWAYAPI: &'static str = "gatewayapi";

pub const SEVENIO: &'static str = "sevenio";

pub const WEBHOOK: &'static str = "webhook";

} // verus!
