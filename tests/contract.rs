use iot_contract::contract::{Contract, ContractError, Relay, StepMotor, TemperatureHistory};

fn name(s: &str) -> String {
    s.to_string()
}

fn alice_contract() -> Contract {
    Contract::new(name("alice.test")).unwrap()
}

#[test]
fn end_to_end_scenario() {
    let alice = name("alice.test");
    let bob = name("bob.test");
    let mut c = Contract::new(name("alice.test")).unwrap();

    assert_eq!(c.add_temperature(&alice, 1000, 21.5f32.to_bits()), Ok(()));
    let s = c.get_state();
    assert_eq!(s.temperature, vec![TemperatureHistory { time: 1000, value_bits: 21.5f32.to_bits() }]);

    assert_eq!(c.change_relay_1_status(&alice), Ok(()));
    assert_eq!(c.get_state().relay_1, Relay::ON);

    assert_eq!(c.add_step_motor_task(&alice, 5), Ok(()));
    assert_eq!(c.get_state().step_motor, StepMotor::ON(5));

    assert_eq!(c.add_step_motor_task(&bob, 9), Err(ContractError::Unauthorized));
    assert_eq!(c.get_state().step_motor, StepMotor::ON(5));

    assert_eq!(c.execute_step_motor_task(&alice), Ok(()));
    assert_eq!(c.get_state().step_motor, StepMotor::OFF);

    let s = c.get_state();
    assert_eq!(s.relay_1, Relay::ON);
    assert_eq!(s.relay_2, Relay::OFF);
    assert_eq!(s.step_motor, StepMotor::OFF);
    assert_eq!(s.temperature.len(), 1);
    assert_eq!(s.temperature[0].time, 1000);
    assert_eq!(f32::from_bits(s.temperature[0].value_bits), 21.5f32);
}

#[test]
fn new_state_is_empty_and_off() {
    let s = alice_contract().get_state();
    assert_eq!(s.relay_1, Relay::OFF);
    assert_eq!(s.relay_2, Relay::OFF);
    assert_eq!(s.step_motor, StepMotor::OFF);
    assert!(s.temperature.is_empty());
}

#[test]
fn non_owner_is_refused_everywhere() {
    let alice = name("alice.test");
    let mallory = name("mallory.test");
    let mut c = alice_contract();
    c.add_temperature(&alice, 5, 7).unwrap();
    c.add_step_motor_task(&alice, 3).unwrap();
    let (o0, t0, r10, r20, m0) = c.into_parts();
    let mut c = Contract::from_parts(o0.clone(), t0.clone(), r10, r20, m0).unwrap();

    assert_eq!(c.add_temperature(&mallory, 6, 8), Err(ContractError::Unauthorized));
    assert_eq!(c.change_relay_1_status(&mallory), Err(ContractError::Unauthorized));
    assert_eq!(c.change_relay_2_status(&mallory), Err(ContractError::Unauthorized));
    assert_eq!(c.add_step_motor_task(&mallory, 1), Err(ContractError::Unauthorized));
    assert_eq!(c.execute_step_motor_task(&mallory), Err(ContractError::Unauthorized));

    let (o1, t1, r11, r21, m1) = c.into_parts();
    assert_eq!(o1, o0);
    assert_eq!(t1, t0);
    assert_eq!(r11, r10);
    assert_eq!(r21, r20);
    assert_eq!(m1, m0);
}

#[test]
fn caller_must_match_owner_exactly() {
    let mut c = alice_contract();
    assert_eq!(c.change_relay_1_status(&name("alice.tes")), Err(ContractError::Unauthorized));
    assert_eq!(c.change_relay_1_status(&name("alice.test2")), Err(ContractError::Unauthorized));
    assert_eq!(c.change_relay_1_status(&name("")), Err(ContractError::Unauthorized));
    assert_eq!(c.get_state().relay_1, Relay::OFF);
}

#[test]
fn relay_toggle_twice_restores() {
    assert_eq!(Relay::ON.toggled(), Relay::OFF);
    assert_eq!(Relay::OFF.toggled(), Relay::ON);
    assert_eq!(Relay::ON.toggled().toggled(), Relay::ON);
    assert_eq!(Relay::OFF.toggled().toggled(), Relay::OFF);

    let alice = name("alice.test");
    let mut c = alice_contract();
    c.change_relay_2_status(&alice).unwrap();
    assert_eq!(c.get_state().relay_2, Relay::ON);
    assert_eq!(c.get_state().relay_1, Relay::OFF);
    c.change_relay_2_status(&alice).unwrap();
    assert_eq!(c.get_state().relay_2, Relay::OFF);
}

#[test]
fn motor_holds_one_task() {
    let alice = name("alice.test");
    let mut c = alice_contract();
    assert_eq!(c.add_step_motor_task(&alice, -128), Ok(()));
    assert_eq!(c.add_step_motor_task(&alice, 127), Err(ContractError::MotorBusy));
    c.add_temperature(&alice, 1, 2).unwrap();
    c.change_relay_1_status(&alice).unwrap();
    assert_eq!(c.add_step_motor_task(&alice, 4), Err(ContractError::MotorBusy));
    assert_eq!(c.get_state().step_motor, StepMotor::ON(-128));
    c.execute_step_motor_task(&alice).unwrap();
    assert_eq!(c.add_step_motor_task(&alice, 127), Ok(()));
    assert_eq!(c.get_state().step_motor, StepMotor::ON(127));
}

#[test]
fn completing_twice_is_fine() {
    let alice = name("alice.test");
    let mut c = alice_contract();
    c.add_step_motor_task(&alice, 2).unwrap();
    assert_eq!(c.execute_step_motor_task(&alice), Ok(()));
    assert_eq!(c.get_state().step_motor, StepMotor::OFF);
    assert_eq!(c.execute_step_motor_task(&alice), Ok(()));
    assert_eq!(c.get_state().step_motor, StepMotor::OFF);
}

#[test]
fn log_only_grows_at_the_end() {
    let alice = name("alice.test");
    let mut c = alice_contract();
    let nan = f32::NAN.to_bits();
    let inf = f32::INFINITY.to_bits();
    c.add_temperature(&alice, 10, 1.0f32.to_bits()).unwrap();
    c.add_temperature(&alice, 20, nan).unwrap();
    c.change_relay_1_status(&alice).unwrap();
    c.add_step_motor_task(&alice, 1).unwrap();
    assert_eq!(c.get_state().temperature.len(), 2);
    c.add_temperature(&alice, 20, inf).unwrap();
    let log = c.get_state().temperature;
    assert_eq!(
        log,
        vec![
            TemperatureHistory { time: 10, value_bits: 1.0f32.to_bits() },
            TemperatureHistory { time: 20, value_bits: nan },
            TemperatureHistory { time: 20, value_bits: inf },
        ]
    );
}

#[test]
fn invalid_owner_names_are_refused() {
    for bad in ["", "a", "Alice.test", "-alice", "alice-", "alice..test", "a_-b", "al ice", "alicé", "a@b"] {
        assert_eq!(Contract::new(name(bad)).err(), Some(ContractError::InvalidIdentity), "{}", bad);
    }
    let too_long = "a".repeat(65);
    assert_eq!(Contract::new(too_long).err(), Some(ContractError::InvalidIdentity));
}

#[test]
fn valid_owner_names_are_accepted() {
    for good in ["aa", "a-a", "a_b.c-d", "100", "near", "alice.test"] {
        assert!(Contract::new(name(good)).is_ok(), "{}", good);
    }
    assert!(Contract::new("a".repeat(64)).is_ok());
}

#[test]
fn parts_round_trip() {
    let log = vec![TemperatureHistory { time: 3, value_bits: 4 }];
    let c = Contract::from_parts(name("bob.near"), log.clone(), Relay::ON, Relay::OFF, StepMotor::ON(7))
        .unwrap();
    let (o, t, r1, r2, m) = c.into_parts();
    assert_eq!(o, "bob.near");
    assert_eq!(t, log);
    assert_eq!((r1, r2, m), (Relay::ON, Relay::OFF, StepMotor::ON(7)));
    assert_eq!(
        Contract::from_parts(name("Bob"), vec![], Relay::OFF, Relay::OFF, StepMotor::OFF).err(),
        Some(ContractError::InvalidIdentity)
    );
}
