use vstd::prelude::*;

use crate::contract::{
    add_temperature_step, complete_step, relay_1_step, relay_2_step, submit_step, ContractError,
    ContractModel, Relay, StepMotor, TemperatureHistory,
};

verus! {

/// A caller other than the owner is refused with `Unauthorized` by every
/// changing operation, and the state stays exactly as it was.
pub proof fn lemma_owner_only(
    m: ContractModel,
    caller: Seq<char>,
    time: u64,
    value_bits: u32,
    task: i8,
)
    requires
        caller != m.owner,
    ensures
        add_temperature_step(m, caller, time, value_bits) == (m, Err::<(), ContractError>(
            ContractError::Unauthorized,
        )),
        relay_1_step(m, caller) == (m, Err::<(), ContractError>(ContractError::Unauthorized)),
        relay_2_step(m, caller) == (m, Err::<(), ContractError>(ContractError::Unauthorized)),
        submit_step(m, caller, task) == (m, Err::<(), ContractError>(ContractError::Unauthorized)),
        complete_step(m, caller) == (m, Err::<(), ContractError>(ContractError::Unauthorized)),
{
}

/// Toggling a relay changes it, and toggling it twice gives it back.
pub proof fn lemma_toggle_involution(s: Relay)
    ensures
        s.toggled().toggled() == s,
        s.toggled() != s,
{
}

/// Two switches of the same relay by the owner leave the state as it was.
pub proof fn lemma_relay_switch_twice(m: ContractModel, caller: Seq<char>)
    requires
        m.is_owner(caller),
    ensures
        relay_1_step(m, caller).0.relay_1 != m.relay_1,
        relay_1_step(relay_1_step(m, caller).0, caller).0 == m,
        relay_2_step(m, caller).0.relay_2 != m.relay_2,
        relay_2_step(relay_2_step(m, caller).0, caller).0 == m,
{
}

/// Once a task is accepted, the owner's next submission is refused with
/// `MotorBusy` and the motor still holds the first task; the operations that
/// do not concern the motor keep it busy in between.
pub proof fn lemma_motor_single_slot(
    m: ContractModel,
    caller: Seq<char>,
    t1: i8,
    t2: i8,
    time: u64,
    value_bits: u32,
)
    requires
        submit_step(m, caller, t1).1 is Ok,
    ensures
        submit_step(m, caller, t1).0.step_motor == StepMotor::ON(t1),
        submit_step(submit_step(m, caller, t1).0, caller, t2) == (
            submit_step(m, caller, t1).0,
            Err::<(), ContractError>(ContractError::MotorBusy),
        ),
        add_temperature_step(m, caller, time, value_bits).0.step_motor == m.step_motor,
        relay_1_step(m, caller).0.step_motor == m.step_motor,
        relay_2_step(m, caller).0.step_motor == m.step_motor,
{
}

/// Completing the motor task twice in a row succeeds both times and leaves
/// the motor idle after each.
pub proof fn lemma_complete_idempotent(m: ContractModel, caller: Seq<char>)
    requires
        m.is_owner(caller),
    ensures
        complete_step(m, caller).1 is Ok,
        complete_step(m, caller).0.step_motor == StepMotor::OFF,
        complete_step(complete_step(m, caller).0, caller) == (
            complete_step(m, caller).0,
            Ok::<(), ContractError>(()),
        ),
{
}

/// No operation removes or changes a recorded reading; a reading accepted
/// from the owner is appended last, as given.
pub proof fn lemma_log_append_only(
    m: ContractModel,
    caller: Seq<char>,
    time: u64,
    value_bits: u32,
    task: i8,
)
    ensures
        m.temperature.is_prefix_of(add_temperature_step(m, caller, time, value_bits).0.temperature),
        m.temperature.is_prefix_of(relay_1_step(m, caller).0.temperature),
        m.temperature.is_prefix_of(relay_2_step(m, caller).0.temperature),
        m.temperature.is_prefix_of(submit_step(m, caller, task).0.temperature),
        m.temperature.is_prefix_of(complete_step(m, caller).0.temperature),
        m.is_owner(caller) ==> add_temperature_step(m, caller, time, value_bits).0.temperature
            == m.temperature.push(TemperatureHistory { time, value_bits }),
{
}

} // verus!
