//! Console-mode toggle planning.
//!
//! A console's behaviour is controlled by a mode bitmask; one well-known bit
//! enables virtual-terminal (ANSI escape) processing.  Toggling that bit
//! takes three platform calls — acquire the output handle, read the mode,
//! write the mode — and only the platform can make them.  Everything decided
//! between those calls is verified here: which mode value to write, whether a
//! write is needed at all, and how the outcome is reported.

use vstd::prelude::*;

verus! {

/// The console-mode bit that enables virtual-terminal (ANSI escape)
/// processing on the platform's standard-output console.
pub const ENABLE_VIRTUAL_TERMINAL_PROCESSING: u32 = 0x0004;

/// The mode a console should be in after a toggle: the virtual-terminal bit
/// set when enabling, cleared when disabling, every other bit untouched.
pub open spec fn spec_new_mode(old_mode: u32, enable: bool) -> u32 {
    if enable {
        old_mode | ENABLE_VIRTUAL_TERMINAL_PROCESSING
    } else {
        old_mode & !ENABLE_VIRTUAL_TERMINAL_PROCESSING
    }
}

/// Computes the mode to put the console in.
pub fn compute_new_mode(old_mode: u32, enable: bool) -> (new_mode: u32)
    ensures
        new_mode == spec_new_mode(old_mode, enable),
{
    if enable {
        old_mode | ENABLE_VIRTUAL_TERMINAL_PROCESSING
    } else {
        old_mode & !ENABLE_VIRTUAL_TERMINAL_PROCESSING
    }
}

/// Why a toggle failed.
#[derive(Clone, Copy, Debug, PartialEq, Eq, Structural)]
pub enum ConsoleError {
    /// No console mode could be read: the process has no console on its
    /// standard output, or the mode query was rejected.
    NoConsole,
    /// The console rejected the mode write.
    SetModeFailed,
}

/// What a toggle has to do, given the mode the console is currently in
/// (`None` when no mode could be read) and the requested direction.
#[derive(Clone, Copy, Debug, PartialEq, Eq, Structural)]
pub enum TogglePlan {
    /// No console mode is available; report failure and write nothing.
    Unavailable,
    /// The console is already in the requested mode; succeed without a write.
    AlreadySet,
    /// Issue exactly one write of the carried mode value.
    Write(u32),
}

/// The plan a toggle follows: nothing without a readable mode, nothing when
/// the console already is in the requested mode, otherwise one write of the
/// recomputed mode.
pub open spec fn spec_plan_toggle(current_mode: Option<u32>, enable: bool) -> TogglePlan {
    match current_mode {
        None => TogglePlan::Unavailable,
        Some(old_mode) => {
            if spec_new_mode(old_mode, enable) == old_mode {
                TogglePlan::AlreadySet
            } else {
                TogglePlan::Write(spec_new_mode(old_mode, enable))
            }
        },
    }
}

/// Decides what a toggle has to do.  `current_mode` is what the platform's
/// mode query returned, `None` when the handle or the query failed.
pub fn plan_toggle(current_mode: Option<u32>, enable: bool) -> (plan: TogglePlan)
    ensures
        plan == spec_plan_toggle(current_mode, enable),
{
    match current_mode {
        None => TogglePlan::Unavailable,
        Some(old_mode) => {
            let new_mode: u32 = compute_new_mode(old_mode, enable);
            if new_mode == old_mode {
                TogglePlan::AlreadySet
            } else {
                TogglePlan::Write(new_mode)
            }
        },
    }
}

/// The result a toggle reports: failure without a console, success without a
/// write when nothing had to change, and otherwise whatever the one write
/// came to.
pub open spec fn spec_toggle_outcome(plan: TogglePlan, write_succeeded: bool) -> Result<
    (),
    ConsoleError,
> {
    match plan {
        TogglePlan::Unavailable => Err(ConsoleError::NoConsole),
        TogglePlan::AlreadySet => Ok(()),
        TogglePlan::Write(_) => if write_succeeded {
            Ok(())
        } else {
            Err(ConsoleError::SetModeFailed)
        },
    }
}

/// Reports the outcome of a toggle.  `write_succeeded` is what the one mode
/// write returned; it is ignored for a plan that writes nothing.
pub fn toggle_outcome(plan: TogglePlan, write_succeeded: bool) -> (r: Result<(), ConsoleError>)
    ensures
        r == spec_toggle_outcome(plan, write_succeeded),
{
    match plan {
        TogglePlan::Unavailable => Err(ConsoleError::NoConsole),
        TogglePlan::AlreadySet => Ok(()),
        TogglePlan::Write(_) => if write_succeeded {
            Ok(())
        } else {
            Err(ConsoleError::SetModeFailed)
        },
    }
}

/// A console already in the requested mode needs no write: the plan keeps
/// the console untouched and the reported outcome is success, whatever a
/// write would have returned.
pub proof fn lemma_toggle_already_in_target_mode(old_mode: u32, enable: bool, write_succeeded: bool)
    requires
        old_mode & ENABLE_VIRTUAL_TERMINAL_PROCESSING == (if enable {
            ENABLE_VIRTUAL_TERMINAL_PROCESSING
        } else {
            0u32
        }),
    ensures
        spec_plan_toggle(Some(old_mode), enable) == TogglePlan::AlreadySet,
        spec_toggle_outcome(spec_plan_toggle(Some(old_mode), enable), write_succeeded) == Ok::<
            (),
            ConsoleError,
        >(()),
{
    if enable {
        assert(old_mode | 0x0004u32 == old_mode) by (bit_vector)
            requires
                old_mode & 0x0004u32 == 0x0004u32,
        ;
    } else {
        assert(old_mode & !0x0004u32 == old_mode) by (bit_vector)
            requires
                old_mode & 0x0004u32 == 0u32,
        ;
    }
}

/// Enabling on a console whose mode lacks the virtual-terminal bit plans
/// exactly one write, of the old mode with that one bit set.
pub proof fn lemma_toggle_enables_bit(old_mode: u32)
    requires
        old_mode & ENABLE_VIRTUAL_TERMINAL_PROCESSING == 0,
    ensures
        spec_plan_toggle(Some(old_mode), true) == TogglePlan::Write(
            old_mode | ENABLE_VIRTUAL_TERMINAL_PROCESSING,
        ),
{
    assert(old_mode | 0x0004u32 != old_mode) by (bit_vector)
        requires
            old_mode & 0x0004u32 == 0u32,
    ;
}

/// Without a readable console mode a toggle writes nothing and reports
/// failure, whatever direction was requested.
pub proof fn lemma_no_console_means_failure(enable: bool, write_succeeded: bool)
    ensures
        spec_plan_toggle(None, enable) == TogglePlan::Unavailable,
        spec_toggle_outcome(spec_plan_toggle(None, enable), write_succeeded) == Err::<
            (),
            ConsoleError,
        >(ConsoleError::NoConsole),
{
}

} // verus!
