use vstd::prelude::*;

verus! {

/// Model of the one OS configuration value that globally enables the
/// overlay-directory redirection mechanism. `accessible` records whether the
/// configuration key could be opened at all (opening needs elevated access);
/// `redirection_enabled` records the flag's value when it could.
#[derive(Clone, Copy, PartialEq, Eq, Structural, Debug)]
pub struct RegState {
    pub accessible: bool,
    pub redirection_enabled: bool,
}

/// What the redirection gate did after the overlay files were placed.
#[derive(Clone, Copy, PartialEq, Eq, Structural, Debug)]
pub enum GateOutcome {
    /// The direct topology does not use the redirection mechanism.
    NotNeeded,
    /// The configuration key could not be opened; the flag is untouched and
    /// the install is still file-complete. Surfaced as a warning only.
    AccessDenied,
    /// The flag was already set; nothing to do.
    AlreadyEnabled,
    /// The operator confirmed and the flag was set; a restart is required
    /// before the change takes effect.
    Enabled,
    /// The operator declined; the flag is untouched and the install is
    /// file-complete but inert until enabled manually.
    Declined,
}

/// The full decision table of the redirection gate: how the flag state and
/// the outcome after it relate to the state before it and to the
/// operator's answer.
pub open spec fn gate_spec(before: RegState, confirm: bool, outcome: GateOutcome, after: RegState) -> bool {
    if !before.accessible {
        outcome is AccessDenied && after == before
    } else if before.redirection_enabled {
        outcome is AlreadyEnabled && after == before
    } else if confirm {
        outcome is Enabled && after == (RegState { accessible: true, redirection_enabled: true })
    } else {
        outcome is Declined && after == before
    }
}

/// Runs the redirection gate on the configuration model: reads the enable
/// flag and writes it only when it is unset and the operator explicitly
/// confirmed. `confirm` is the answer the operator gives when asked; the
/// question is only ever put when the flag is readable and unset.
pub fn apply_gate(reg: &mut RegState, confirm: bool) -> (r: GateOutcome)
    ensures
        gate_spec(*old(reg), confirm, r, *final(reg)),
{
    if !reg.accessible {
        GateOutcome::AccessDenied
    } else if reg.redirection_enabled {
        GateOutcome::AlreadyEnabled
    } else if confirm {
        reg.redirection_enabled = true;
        GateOutcome::Enabled
    } else {
        GateOutcome::Declined
    }
}

/// Whether the redirection gate still needs the operator's confirmation: true iff the
/// flag is readable and currently unset. The outer shell uses this to
/// decide whether to show the confirmation dialog at all.
pub fn gate_prompt_needed(reg: &RegState) -> (r: bool)
    ensures
        r == (reg.accessible && !reg.redirection_enabled),
{
    reg.accessible && !reg.redirection_enabled
}

/// The path, under the system hive, of the configuration key that holds the
/// redirection enable flag.
pub fn redirection_key_path() -> (r: &'static str)
    ensures
        r@ == ("SYSTEM\\CurrentControlSet\\Control\\Session Manager")@,
{
    "SYSTEM\\CurrentControlSet\\Control\\Session Manager"
}

/// The name of the redirection enable value under that key.
pub fn redirection_value_name() -> (r: &'static str)
    ensures
        r@ == ("DevOverrideEnable")@,
{
    "DevOverrideEnable"
}

/// Declining or being denied access never clears an already-set flag, and the
/// gate never touches the flag without explicit confirmation: the flag ends
/// set exactly when it was set before or the outcome is `Enabled`.
pub proof fn lemma_gate_flag_monotone(before: RegState, confirm: bool, outcome: GateOutcome, after: RegState)
    requires
        gate_spec(before, confirm, outcome, after),
    ensures
        after.redirection_enabled == (before.redirection_enabled || outcome is Enabled),
        after.accessible == before.accessible,
{
}

} // verus!
