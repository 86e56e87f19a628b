//! The program-wide pause switch and the per-caller rate limit.

use vstd::prelude::*;
use crate::address::Address;
use crate::identity_registry::stake::saturating_inc_u32;
use crate::identity_registry::state::{ProgramConfig, UserRateLimit};
use crate::text::{byte_len, stored_len};

verus! {

/// Why an administrative operation was refused.
#[derive(Clone, Copy, Debug, PartialEq, Eq, Structural)]
pub enum AdminError {
    ProgramPaused,
    UnauthorizedAdmin,
    RateLimitExceeded,
    InvalidRateLimit,
    PauseReasonTooLong,
}

/// Longest pause reason that is taken, in bytes.
pub const MAX_PAUSE_REASON_LEN: usize = 128;

/// Length of a rate-limit window in seconds.
pub const RATE_LIMIT_WINDOW_SECONDS: i64 = 60;

/// What setting up the configuration touches: the fresh record and who signed.
#[derive(Clone, Debug)]
pub struct InitializeProgramConfig {
    pub config: ProgramConfig,
    /// The signer, who becomes the admin.
    pub admin: Address,
}

/// Sets up a running program with the given rate limit, administered by the
/// signer.
pub fn initialize_program_config(
    ctx: &mut InitializeProgramConfig,
    rate_limit_per_minute: u32,
    bump: u8,
)
    ensures
        final(ctx).admin == old(ctx).admin,
        final(ctx).config.admin == old(ctx).admin,
        !final(ctx).config.is_paused,
        final(ctx).config.paused_at == 0,
        final(ctx).config.pause_reason@ == Seq::<char>::empty(),
        final(ctx).config.rate_limit_per_minute == rate_limit_per_minute,
        final(ctx).config.bump == bump,
{
    ctx.config.admin = ctx.admin;
    ctx.config.is_paused = false;
    ctx.config.paused_at = 0;
    ctx.config.pause_reason = String::new();
    ctx.config.rate_limit_per_minute = rate_limit_per_minute;
    ctx.config.bump = bump;
}

/// What pausing touches: the configuration and who signed.
#[derive(Clone, Debug)]
pub struct PauseProgram {
    pub config: ProgramConfig,
    /// The signer.
    pub admin: Address,
}

/// The first reason, if any, for which the program is not paused.
pub open spec fn pause_rejection(ctx: PauseProgram, reason: Seq<char>) -> Option<AdminError> {
    if ctx.config.admin != ctx.admin {
        Some(AdminError::UnauthorizedAdmin)
    } else if byte_len(reason) > MAX_PAUSE_REASON_LEN {
        Some(AdminError::PauseReasonTooLong)
    } else {
        None
    }
}

/// Pauses every operation of the program, with a reason. Only the admin may.
pub fn pause_program(ctx: &mut PauseProgram, reason: String, now: i64) -> (r: Result<
    (),
    AdminError,
>)
    ensures
        match r {
            Ok(()) => {
                &&& pause_rejection(*old(ctx), reason@) is None
                &&& *final(ctx) == (PauseProgram {
                    config: ProgramConfig {
                        is_paused: true,
                        paused_at: now,
                        pause_reason: reason,
                        ..old(ctx).config
                    },
                    ..*old(ctx)
                })
            },
            Err(e) => {
                &&& pause_rejection(*old(ctx), reason@) == Some(e)
                &&& *final(ctx) == *old(ctx)
            },
        },
{
    if !ctx.config.admin.equals(&ctx.admin) {
        return Err(AdminError::UnauthorizedAdmin);
    }
    if stored_len(&reason) > MAX_PAUSE_REASON_LEN {
        return Err(AdminError::PauseReasonTooLong);
    }
    ctx.config.is_paused = true;
    ctx.config.paused_at = now;
    ctx.config.pause_reason = reason;
    Ok(())
}

/// Lets the program run again and clears the pause record. Only the admin may.
pub fn unpause_program(ctx: &mut PauseProgram) -> (r: Result<(), AdminError>)
    ensures
        r is Ok <==> old(ctx).config.admin == old(ctx).admin,
        r is Err ==> r == Err::<(), AdminError>(AdminError::UnauthorizedAdmin) && *final(ctx)
            == *old(ctx),
        r is Ok ==> {
            &&& final(ctx).admin == old(ctx).admin
            &&& !final(ctx).config.is_paused
            &&& final(ctx).config.paused_at == 0
            &&& final(ctx).config.pause_reason@ == Seq::<char>::empty()
            &&& final(ctx).config == (ProgramConfig {
                is_paused: false,
                paused_at: 0,
                pause_reason: final(ctx).config.pause_reason,
                ..old(ctx).config
            })
        },
{
    if !ctx.config.admin.equals(&ctx.admin) {
        return Err(AdminError::UnauthorizedAdmin);
    }
    ctx.config.is_paused = false;
    ctx.config.paused_at = 0;
    ctx.config.pause_reason = String::new();
    Ok(())
}

/// What changing the rate limit touches: the configuration and who signed.
#[derive(Clone, Debug)]
pub struct UpdateRateLimit {
    pub config: ProgramConfig,
    /// The signer.
    pub admin: Address,
}

/// Sets the number of calls allowed per caller and window; it must not be
/// zero. Only the admin may.
pub fn update_rate_limit(ctx: &mut UpdateRateLimit, rate_limit_per_minute: u32) -> (r: Result<
    (),
    AdminError,
>)
    ensures
        match r {
            Ok(()) => {
                &&& old(ctx).config.admin == old(ctx).admin
                &&& rate_limit_per_minute > 0
                &&& *final(ctx) == (UpdateRateLimit {
                    config: ProgramConfig { rate_limit_per_minute, ..old(ctx).config },
                    ..*old(ctx)
                })
            },
            Err(e) => {
                &&& e == if old(ctx).config.admin != old(ctx).admin {
                    AdminError::UnauthorizedAdmin
                } else {
                    AdminError::InvalidRateLimit
                }
                &&& old(ctx).config.admin != old(ctx).admin || rate_limit_per_minute == 0
                &&& *final(ctx) == *old(ctx)
            },
        },
{
    if !ctx.config.admin.equals(&ctx.admin) {
        return Err(AdminError::UnauthorizedAdmin);
    }
    if rate_limit_per_minute == 0 {
        return Err(AdminError::InvalidRateLimit);
    }
    ctx.config.rate_limit_per_minute = rate_limit_per_minute;
    Ok(())
}

/// What opening a caller's window touches: the fresh record and who signed.
#[derive(Clone, Copy, Debug)]
pub struct InitializeUserRateLimit {
    pub rate_limit: UserRateLimit,
    /// The signer, whose calls the record counts.
    pub user: Address,
}

/// Opens the signer's first window at `now`, with no call counted.
pub fn initialize_user_rate_limit(ctx: &mut InitializeUserRateLimit, now: i64, bump: u8)
    ensures
        *final(ctx) == (InitializeUserRateLimit {
            rate_limit: UserRateLimit {
                user: old(ctx).user,
                window_start: now,
                instruction_count: 0,
                last_instruction: now,
                bump,
            },
            ..*old(ctx)
        }),
{
    ctx.rate_limit.user = ctx.user;
    ctx.rate_limit.window_start = now;
    ctx.rate_limit.instruction_count = 0;
    ctx.rate_limit.last_instruction = now;
    ctx.rate_limit.bump = bump;
}

/// What a rate check touches: the configuration and the caller's window.
#[derive(Clone, Debug)]
pub struct CheckRateLimit {
    pub config: ProgramConfig,
    pub rate_limit: UserRateLimit,
}

/// Whether the window that began at `window_start` is over at `now`.
pub open spec fn window_expired(window_start: i64, now: i64) -> bool {
    now - window_start >= RATE_LIMIT_WINDOW_SECONDS
}

/// The first reason, if any, for which a call is not let through.
pub open spec fn rate_check_rejection(ctx: CheckRateLimit, now: i64) -> Option<AdminError> {
    if ctx.config.is_paused {
        Some(AdminError::ProgramPaused)
    } else if !window_expired(ctx.rate_limit.window_start, now) && ctx.rate_limit.instruction_count
        >= ctx.config.rate_limit_per_minute {
        Some(AdminError::RateLimitExceeded)
    } else {
        None
    }
}

/// The caller's window after a call was let through at `now`: a window that
/// was over starts anew with this call as its first; otherwise the call is
/// counted in the running window.
pub open spec fn rate_check_effect(window: UserRateLimit, now: i64) -> UserRateLimit {
    if window_expired(window.window_start, now) {
        UserRateLimit { window_start: now, instruction_count: 1, last_instruction: now, ..window }
    } else {
        UserRateLimit {
            instruction_count: saturating_inc_u32(window.instruction_count),
            last_instruction: now,
            ..window
        }
    }
}

/// Lets a call through if the program runs and the caller's window has room,
/// and counts it.
pub fn check_rate_limit(ctx: &mut CheckRateLimit, now: i64) -> (r: Result<(), AdminError>)
    ensures
        match r {
            Ok(()) => {
                &&& rate_check_rejection(*old(ctx), now) is None
                &&& *final(ctx) == (CheckRateLimit {
                    rate_limit: rate_check_effect(old(ctx).rate_limit, now),
                    ..*old(ctx)
                })
            },
            Err(e) => {
                &&& rate_check_rejection(*old(ctx), now) == Some(e)
                &&& *final(ctx) == *old(ctx)
            },
        },
{
    if ctx.config.is_paused {
        return Err(AdminError::ProgramPaused);
    }
    let window_elapsed: i128 = now as i128 - ctx.rate_limit.window_start as i128;
    if window_elapsed >= RATE_LIMIT_WINDOW_SECONDS as i128 {
        ctx.rate_limit.window_start = now;
        ctx.rate_limit.instruction_count = 1;
    } else {
        if ctx.rate_limit.instruction_count >= ctx.config.rate_limit_per_minute {
            return Err(AdminError::RateLimitExceeded);
        }
        ctx.rate_limit.instruction_count = ctx.rate_limit.instruction_count.saturating_add(1);
    }
    ctx.rate_limit.last_instruction = now;
    Ok(())
}

/// Within one window, no more calls are let through than the limit allows:
/// a window that has room has counted fewer calls than the limit, and a call
/// let through into a running window leaves the count within the limit.
pub proof fn lemma_window_never_passes_limit(ctx: CheckRateLimit, now: i64)
    requires
        rate_check_rejection(ctx, now) is None,
        !window_expired(ctx.rate_limit.window_start, now),
    ensures
        rate_check_effect(ctx.rate_limit, now).instruction_count
            <= ctx.config.rate_limit_per_minute,
        rate_check_effect(ctx.rate_limit, now).window_start == ctx.rate_limit.window_start,
{
}

/// What handing over the administration touches: the configuration, who
/// signed, and who is to follow.
#[derive(Clone, Debug)]
pub struct TransferAdmin {
    pub config: ProgramConfig,
    /// The signer.
    pub current_admin: Address,
    pub new_admin: Address,
}

/// Makes `new_admin` the admin. Only the current admin may.
pub fn transfer_admin(ctx: &mut TransferAdmin) -> (r: Result<(), AdminError>)
    ensures
        r is Ok <==> old(ctx).config.admin == old(ctx).current_admin,
        r is Err ==> r == Err::<(), AdminError>(AdminError::UnauthorizedAdmin) && *final(ctx)
            == *old(ctx),
        r is Ok ==> *final(ctx) == (TransferAdmin {
            config: ProgramConfig { admin: old(ctx).new_admin, ..old(ctx).config },
            ..*old(ctx)
        }),
{
    if !ctx.config.admin.equals(&ctx.current_admin) {
        return Err(AdminError::UnauthorizedAdmin);
    }
    ctx.config.admin = ctx.new_admin;
    Ok(())
}

/// Refuses while the program is paused.
pub fn require_not_paused(config: &ProgramConfig) -> (r: Result<(), AdminError>)
    ensures
        r is Ok <==> !config.is_paused,
        r is Err ==> r == Err::<(), AdminError>(AdminError::ProgramPaused),
{
    if config.is_paused {
        return Err(AdminError::ProgramPaused);
    }
    Ok(())
}

} // verus!
