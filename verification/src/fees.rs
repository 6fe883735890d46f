//! Process-wide fee configuration and the market-id counter.
//!
//! A `FeeSchedule` is created once by [`initialize_fee_schedule`] and mutated
//! only through the admin-gated operations.  It is the sole source of market
//! identity: `next_market_id` strictly increases and an id is never reused.

use vstd::prelude::*;

use crate::errors::Error;
use crate::Identity;
use crate::MAX_BPS;

verus! {

/// Process-wide configuration: the admin and fee-sink identities, the flat
/// creation fee, the three basis-point rates, and the market-id counter.
#[derive(Clone, Copy, Debug, PartialEq, Eq, Structural)]
pub struct FeeSchedule {
    /// The protocol admin; the only identity that may update the schedule,
    /// cancel markets, or resolve disputes.
    pub admin: Identity,
    /// The party credited with every protocol fee.
    pub fee_sink: Identity,
    /// Flat fee charged to the creator when a market is created.
    pub create_fee: u64,
    /// Fee rate on every stake, in basis points.
    pub join_fee_bps: u16,
    /// Fee rate on a winner's computed share at claim time, in basis points.
    pub clearing_fee_bps: u16,
    /// Fee rate on the whole pool at settlement time, in basis points.
    pub settle_fee_bps: u16,
    /// The id the next created market will receive; strictly increasing.
    pub next_market_id: u64,
}

impl FeeSchedule {
    /// Well-formedness: the admin is a real identity, every rate is at most
    /// the whole, and the counter starts at one.
    pub open spec fn wf(self) -> bool {
        &&& self.admin != 0
        &&& self.join_fee_bps <= MAX_BPS
        &&& self.clearing_fee_bps <= MAX_BPS
        &&& self.settle_fee_bps <= MAX_BPS
        &&& self.next_market_id >= 1
    }
}

/// The first failing check of [`initialize_fee_schedule`], or `None` when the
/// call succeeds.
pub open spec fn initialize_fee_schedule_err(
    admin: Identity,
    join_fee_bps: u16,
    clearing_fee_bps: u16,
    settle_fee_bps: u16,
) -> Option<Error> {
    if admin == 0 {
        Some(Error::InvalidIdentity)
    } else if join_fee_bps > MAX_BPS {
        Some(Error::InvalidFeeRate)
    } else if clearing_fee_bps > MAX_BPS {
        Some(Error::InvalidFeeRate)
    } else if settle_fee_bps > MAX_BPS {
        Some(Error::InvalidFeeRate)
    } else {
        None
    }
}

/// Creates the fee schedule.  Rejects the zero admin identity and any rate
/// above the whole; the market-id counter starts at one.
pub fn initialize_fee_schedule(
    admin: Identity,
    fee_sink: Identity,
    create_fee: u64,
    join_fee_bps: u16,
    clearing_fee_bps: u16,
    settle_fee_bps: u16,
) -> (r: Result<FeeSchedule, Error>)
    ensures
        r matches Ok(fs) ==> {
            &&& initialize_fee_schedule_err(admin, join_fee_bps, clearing_fee_bps, settle_fee_bps)
                is None
            &&& fs == (FeeSchedule {
                admin,
                fee_sink,
                create_fee,
                join_fee_bps,
                clearing_fee_bps,
                settle_fee_bps,
                next_market_id: 1u64,
            })
            &&& fs.wf()
        },
        r matches Err(e) ==> Some(e) == initialize_fee_schedule_err(
            admin,
            join_fee_bps,
            clearing_fee_bps,
            settle_fee_bps,
        ),
{
    if admin == 0 {
        return Err(Error::InvalidIdentity);
    }
    if join_fee_bps > MAX_BPS {
        return Err(Error::InvalidFeeRate);
    }
    if clearing_fee_bps > MAX_BPS {
        return Err(Error::InvalidFeeRate);
    }
    if settle_fee_bps > MAX_BPS {
        return Err(Error::InvalidFeeRate);
    }
    Ok(FeeSchedule {
        admin,
        fee_sink,
        create_fee,
        join_fee_bps,
        clearing_fee_bps,
        settle_fee_bps,
        next_market_id: 1,
    })
}

/// The first failing check of [`update_fee_schedule`], or `None` when the
/// call succeeds.
pub open spec fn update_fee_schedule_err(
    fs: FeeSchedule,
    caller: Identity,
    join_fee_bps: u16,
    clearing_fee_bps: u16,
    settle_fee_bps: u16,
) -> Option<Error> {
    if caller != fs.admin {
        Some(Error::NotAdmin)
    } else if join_fee_bps > MAX_BPS {
        Some(Error::InvalidFeeRate)
    } else if clearing_fee_bps > MAX_BPS {
        Some(Error::InvalidFeeRate)
    } else if settle_fee_bps > MAX_BPS {
        Some(Error::InvalidFeeRate)
    } else {
        None
    }
}

/// Replaces the fee sink, the flat creation fee and the three rates.
/// Admin-gated; the admin identity and the market-id counter are untouched.
pub fn update_fee_schedule(
    fs: &mut FeeSchedule,
    caller: Identity,
    fee_sink: Identity,
    create_fee: u64,
    join_fee_bps: u16,
    clearing_fee_bps: u16,
    settle_fee_bps: u16,
) -> (r: Result<(), Error>)
    requires
        old(fs).wf(),
    ensures
        final(fs).wf(),
        r matches Ok(()) ==> {
            &&& update_fee_schedule_err(*old(fs), caller, join_fee_bps, clearing_fee_bps,
                settle_fee_bps) is None
            &&& *final(fs) == (FeeSchedule {
                fee_sink,
                create_fee,
                join_fee_bps,
                clearing_fee_bps,
                settle_fee_bps,
                ..*old(fs)
            })
        },
        r matches Err(e) ==> {
            &&& Some(e) == update_fee_schedule_err(*old(fs), caller, join_fee_bps,
                clearing_fee_bps, settle_fee_bps)
            &&& *final(fs) == *old(fs)
        },
{
    if caller != fs.admin {
        return Err(Error::NotAdmin);
    }
    if join_fee_bps > MAX_BPS {
        return Err(Error::InvalidFeeRate);
    }
    if clearing_fee_bps > MAX_BPS {
        return Err(Error::InvalidFeeRate);
    }
    if settle_fee_bps > MAX_BPS {
        return Err(Error::InvalidFeeRate);
    }
    fs.fee_sink = fee_sink;
    fs.create_fee = create_fee;
    fs.join_fee_bps = join_fee_bps;
    fs.clearing_fee_bps = clearing_fee_bps;
    fs.settle_fee_bps = settle_fee_bps;
    Ok(())
}

/// The first failing check of [`set_admin`], or `None` when the call
/// succeeds.
pub open spec fn set_admin_err(fs: FeeSchedule, caller: Identity, new_admin: Identity) -> Option<
    Error,
> {
    if caller != fs.admin {
        Some(Error::NotAdmin)
    } else if new_admin == 0 {
        Some(Error::InvalidIdentity)
    } else {
        None
    }
}

/// Hands the admin role to `new_admin`.  Admin-gated; the zero identity is
/// rejected, so the admin is never the null identity.
pub fn set_admin(fs: &mut FeeSchedule, caller: Identity, new_admin: Identity) -> (r: Result<
    (),
    Error,
>)
    requires
        old(fs).wf(),
    ensures
        final(fs).wf(),
        r matches Ok(()) ==> {
            &&& set_admin_err(*old(fs), caller, new_admin) is None
            &&& *final(fs) == (FeeSchedule { admin: new_admin, ..*old(fs) })
        },
        r matches Err(e) ==> {
            &&& Some(e) == set_admin_err(*old(fs), caller, new_admin)
            &&& *final(fs) == *old(fs)
        },
{
    if caller != fs.admin {
        return Err(Error::NotAdmin);
    }
    if new_admin == 0 {
        return Err(Error::InvalidIdentity);
    }
    fs.admin = new_admin;
    Ok(())
}

} // verus!
