use vstd::prelude::*;

use crate::account::{is_valid_account_id, parse_account_id};

verus! {

/// One temperature sample, stamped with the environment's clock.
#[derive(Clone, Copy, Debug, PartialEq, Eq, Structural)]
pub struct TemperatureHistory {
    /// Milliseconds since the epoch, as the environment reported them.
    pub time: u64,
    /// The reading as the bit pattern of an IEEE 754 single-precision float.
    pub value_bits: u32,
}

/// A two-state relay output.
#[derive(Clone, Copy, Debug, PartialEq, Eq, Structural)]
pub enum Relay {
    ON,
    OFF,
}

/// The step-motor slot: busy with one task, or idle.
#[derive(Clone, Copy, Debug, PartialEq, Eq, Structural)]
pub enum StepMotor {
    ON(i8),
    OFF,
}

/// Why an operation was refused.
#[derive(Clone, Copy, Debug, PartialEq, Eq, Structural)]
pub enum ContractError {
    /// The caller is not the owner.
    Unauthorized,
    /// The owner name is not a valid account id.
    InvalidIdentity,
    /// A step-motor task is already in flight.
    MotorBusy,
}

impl Relay {
    pub open spec fn spec_toggled(self) -> Relay {
        match self {
            Relay::ON => Relay::OFF,
            Relay::OFF => Relay::ON,
        }
    }

    /// The relay's other state.
    #[verifier::when_used_as_spec(spec_toggled)]
    pub fn toggled(self) -> (r: Relay)
        ensures
            r == self.spec_toggled(),
    {
        match self {
            Relay::ON => Relay::OFF,
            Relay::OFF => Relay::ON,
        }
    }
}

/// The whole device state.
pub struct Contract {
    owner: String,
    temperature: Vec<TemperatureHistory>,
    relay_1: Relay,
    relay_2: Relay,
    step_motor: StepMotor,
}

/// Mathematical model of a `Contract`.
pub struct ContractModel {
    pub owner: Seq<char>,
    pub temperature: Seq<TemperatureHistory>,
    pub relay_1: Relay,
    pub relay_2: Relay,
    pub step_motor: StepMotor,
}

/// What any caller may read of the state: everything but the owner.
pub struct ContractState {
    pub relay_1: Relay,
    pub relay_2: Relay,
    pub step_motor: StepMotor,
    pub temperature: Vec<TemperatureHistory>,
}

impl View for Contract {
    type V = ContractModel;

    closed spec fn view(&self) -> ContractModel {
        ContractModel {
            owner: self.owner@,
            temperature: self.temperature@,
            relay_1: self.relay_1,
            relay_2: self.relay_2,
            step_motor: self.step_motor,
        }
    }
}

impl ContractModel {
    /// The owner is a valid account id.
    pub open spec fn wf(self) -> bool {
        is_valid_account_id(self.owner)
    }

    /// The caller may change the state.
    pub open spec fn is_owner(self, caller: Seq<char>) -> bool {
        caller == self.owner
    }
}

/// The state right after initialisation with `owner`.
pub open spec fn initial_model(owner: Seq<char>) -> ContractModel {
    ContractModel {
        owner,
        temperature: Seq::empty(),
        relay_1: Relay::OFF,
        relay_2: Relay::OFF,
        step_motor: StepMotor::OFF,
    }
}

/// Outcome of recording `value_bits` at `time` as `caller`.
pub open spec fn add_temperature_step(
    m: ContractModel,
    caller: Seq<char>,
    time: u64,
    value_bits: u32,
) -> (ContractModel, Result<(), ContractError>) {
    if !m.is_owner(caller) {
        (m, Err(ContractError::Unauthorized))
    } else {
        (
            ContractModel {
                temperature: m.temperature.push(TemperatureHistory { time, value_bits }),
                ..m
            },
            Ok(()),
        )
    }
}

/// Outcome of flipping the first relay as `caller`.
pub open spec fn relay_1_step(m: ContractModel, caller: Seq<char>) -> (
    ContractModel,
    Result<(), ContractError>,
) {
    if !m.is_owner(caller) {
        (m, Err(ContractError::Unauthorized))
    } else {
        (ContractModel { relay_1: m.relay_1.spec_toggled(), ..m }, Ok(()))
    }
}

/// Outcome of flipping the second relay as `caller`.
pub open spec fn relay_2_step(m: ContractModel, caller: Seq<char>) -> (
    ContractModel,
    Result<(), ContractError>,
) {
    if !m.is_owner(caller) {
        (m, Err(ContractError::Unauthorized))
    } else {
        (ContractModel { relay_2: m.relay_2.spec_toggled(), ..m }, Ok(()))
    }
}

/// Outcome of submitting `task` as `caller`: only an idle motor takes it.
pub open spec fn submit_step(m: ContractModel, caller: Seq<char>, task: i8) -> (
    ContractModel,
    Result<(), ContractError>,
) {
    if !m.is_owner(caller) {
        (m, Err(ContractError::Unauthorized))
    } else if m.step_motor is ON {
        (m, Err(ContractError::MotorBusy))
    } else {
        (ContractModel { step_motor: StepMotor::ON(task), ..m }, Ok(()))
    }
}

/// Outcome of completing the motor task as `caller`: the motor is idle after.
pub open spec fn complete_step(m: ContractModel, caller: Seq<char>) -> (
    ContractModel,
    Result<(), ContractError>,
) {
    if !m.is_owner(caller) {
        (m, Err(ContractError::Unauthorized))
    } else {
        (ContractModel { step_motor: StepMotor::OFF, ..m }, Ok(()))
    }
}

impl Contract {
    pub open spec fn wf(&self) -> bool {
        self@.wf()
    }

    /// A fresh state owned by `owner_name`: empty log, relays off, motor idle.
    pub fn new(owner_name: String) -> (r: Result<Contract, ContractError>)
        ensures
            r is Ok <==> is_valid_account_id(owner_name@),
            r is Err ==> r == Err::<Contract, ContractError>(ContractError::InvalidIdentity),
            r matches Ok(c) ==> c.wf() && c@ == initial_model(owner_name@),
    {
        match parse_account_id(owner_name.as_str()) {
            Some(owner) => Ok(
                Contract {
                    owner,
                    temperature: Vec::new(),
                    relay_1: Relay::OFF,
                    relay_2: Relay::OFF,
                    step_motor: StepMotor::OFF,
                },
            ),
            None => Err(ContractError::InvalidIdentity),
        }
    }

    /// Rebuilds a state from its stored fields, checking the owner again.
    pub fn from_parts(
        owner_name: String,
        temperature: Vec<TemperatureHistory>,
        relay_1: Relay,
        relay_2: Relay,
        step_motor: StepMotor,
    ) -> (r: Result<Contract, ContractError>)
        ensures
            r is Ok <==> is_valid_account_id(owner_name@),
            r is Err ==> r == Err::<Contract, ContractError>(ContractError::InvalidIdentity),
            r matches Ok(c) ==> c.wf() && c@ == (ContractModel {
                owner: owner_name@,
                temperature: temperature@,
                relay_1,
                relay_2,
                step_motor,
            }),
    {
        match parse_account_id(owner_name.as_str()) {
            Some(owner) => Ok(Contract { owner, temperature, relay_1, relay_2, step_motor }),
            None => Err(ContractError::InvalidIdentity),
        }
    }

    /// Splits the state into its stored fields: owner, readings, relays, motor.
    pub fn into_parts(self) -> (r: (String, Vec<TemperatureHistory>, Relay, Relay, StepMotor))
        ensures
            r.0@ == self@.owner,
            r.1@ == self@.temperature,
            r.2 == self@.relay_1,
            r.3 == self@.relay_2,
            r.4 == self@.step_motor,
    {
        (self.owner, self.temperature, self.relay_1, self.relay_2, self.step_motor)
    }

    fn check_owner(&self, caller: &String) -> (r: Result<(), ContractError>)
        ensures
            r is Ok <==> self@.is_owner(caller@),
            r is Err ==> r == Err::<(), ContractError>(ContractError::Unauthorized),
    {
        if *caller == self.owner {
            Ok(())
        } else {
            Err(ContractError::Unauthorized)
        }
    }

    /// Appends a reading stamped with `time`, the environment's clock in
    /// milliseconds; only the owner may do so.
    pub fn add_temperature(&mut self, caller: &String, time: u64, value_bits: u32) -> (r: Result<
        (),
        ContractError,
    >)
        ensures
            (final(self)@, r) == add_temperature_step(old(self)@, caller@, time, value_bits),
            r is Err ==> *final(self) == *old(self),
            old(self).wf() ==> final(self).wf(),
    {
        self.check_owner(caller)?;
        self.temperature.push(TemperatureHistory { time, value_bits });
        Ok(())
    }

    /// Flips the first relay; only the owner may do so.
    pub fn change_relay_1_status(&mut self, caller: &String) -> (r: Result<(), ContractError>)
        ensures
            (final(self)@, r) == relay_1_step(old(self)@, caller@),
            r is Err ==> *final(self) == *old(self),
            old(self).wf() ==> final(self).wf(),
    {
        self.check_owner(caller)?;
        self.relay_1 = self.relay_1.toggled();
        Ok(())
    }

    /// Flips the second relay; only the owner may do so.
    pub fn change_relay_2_status(&mut self, caller: &String) -> (r: Result<(), ContractError>)
        ensures
            (final(self)@, r) == relay_2_step(old(self)@, caller@),
            r is Err ==> *final(self) == *old(self),
            old(self).wf() ==> final(self).wf(),
    {
        self.check_owner(caller)?;
        self.relay_2 = self.relay_2.toggled();
        Ok(())
    }

    /// Gives the idle motor `task`; a busy motor refuses it and keeps its task.
    pub fn add_step_motor_task(&mut self, caller: &String, task: i8) -> (r: Result<
        (),
        ContractError,
    >)
        ensures
            (final(self)@, r) == submit_step(old(self)@, caller@, task),
            r is Err ==> *final(self) == *old(self),
            old(self).wf() ==> final(self).wf(),
    {
        self.check_owner(caller)?;
        match self.step_motor {
            StepMotor::ON(_) => Err(ContractError::MotorBusy),
            StepMotor::OFF => {
                self.step_motor = StepMotor::ON(task);
                Ok(())
            },
        }
    }

    /// Marks the motor idle, whether or not it was busy; only the owner may do so.
    pub fn execute_step_motor_task(&mut self, caller: &String) -> (r: Result<(), ContractError>)
        ensures
            (final(self)@, r) == complete_step(old(self)@, caller@),
            r is Err ==> *final(self) == *old(self),
            old(self).wf() ==> final(self).wf(),
    {
        self.check_owner(caller)?;
        self.step_motor = StepMotor::OFF;
        Ok(())
    }

    /// The readable part of the state, for any caller.
    pub fn get_state(&self) -> (r: ContractState)
        ensures
            r.relay_1 == self@.relay_1,
            r.relay_2 == self@.relay_2,
            r.step_motor == self@.step_motor,
            r.temperature@ == self@.temperature,
    {
        ContractState {
            relay_1: self.relay_1,
            relay_2: self.relay_2,
            step_motor: self.step_motor,
            temperature: self.temperature.clone(),
        }
    }
}

} // verus!
