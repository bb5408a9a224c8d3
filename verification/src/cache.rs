//! The session cache.
//!
//! The temporary AWS credentials last about an hour; caching the whole
//! [`Session`] plus the selected [`Device`] lets one-shot CLI commands run
//! without repeating the multi-second login chain on every invocation. Validity
//! is gated on the AWS credential expiry.

use crate::auth;
use crate::clock;
use crate::rest;
use auth::Session;
use rest::Device;
use vstd::prelude::*;

verus! {

/// Whether credentials that expire at a time have more than a minute left.
pub open spec fn fresh(expiration: Option<u64>, now: int) -> bool {
    match expiration {
        Some(t) => t > now + 60,
        None => false,
    }
}

/// Return a cached (session, device) if the AWS creds have >60s left at a time.
pub fn load_valid_at(session: Session, device: Device, now: u64) -> (r: Option<(Session, Device)>)
    ensures
        r == (if fresh(session@.aws.expiration, now as int) {
            Some((session, device))
        } else {
            None
        }),
{
    match session.aws.expiration {
        Some(t) => if t as u128 > now as u128 + 60 {
            Some((session, device))
        } else {
            None
        },
        None => None,
    }
}

/// Return a cached (session, device) if the AWS creds have >60s left now.
pub fn load_valid(session: Session, device: Device) -> (r: Option<(Session, Device)>)
    ensures
        r == None::<(Session, Device)> || (r == Some((session, device)) && fresh(
            session@.aws.expiration,
            0,
        )),
{
    load_valid_at(session, device, clock::unix_seconds())
}

} // verus!
