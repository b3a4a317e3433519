use leyline::setup::{circuit_type, CircuitType};
use leyline::ks::{STATUS_INSUFFICIENT_RESOURCES, STATUS_SUCCESS};
use leyline::format::{make_float_data_range, make_pcm_data_range};
use leyline::setup::{
    circuit_host_pin, create_capture_circuit_plan, create_control_device_plan,
    create_render_circuit_plan, driver_entry_plan, setup_advance, PinFlow, SetupState, StepKind,
    StepOutcome, CIRCUIT_STEP_ADD_FLOAT_FORMAT, CIRCUIT_STEP_ADD_PCM_FORMAT, CIRCUIT_STEP_ADD_PIN,
    CIRCUIT_STEP_ADD_TO_DEVICE, CIRCUIT_STEP_CREATE_CIRCUIT, CIRCUIT_STEP_CREATE_FLOAT_FORMAT,
    CIRCUIT_STEP_CREATE_PCM_FORMAT, CIRCUIT_STEP_CREATE_PIN,
};

fn run(plan: &Vec<StepKind>, outcomes: &[StepOutcome]) -> i32 {
    let mut step = 0;
    loop {
        match setup_advance(plan, step, outcomes[step]) {
            SetupState::Next(n) => step = n,
            SetupState::Finished(s) => return s,
        }
    }
}

#[test]
fn driver_entry_survives_control_device_failure() {
    let plan = driver_entry_plan();
    let status = run(
        &plan,
        &[StepOutcome::Nothing, StepOutcome::Status(0), StepOutcome::Status(0), StepOutcome::Status(-5)],
    );
    assert_eq!(status, STATUS_SUCCESS);
}

#[test]
fn driver_entry_stops_at_failing_framework_call() {
    let plan = driver_entry_plan();
    let status = run(
        &plan,
        &[StepOutcome::Nothing, StepOutcome::Status(-7), StepOutcome::Status(0), StepOutcome::Status(0)],
    );
    assert_eq!(status, -7);
    assert_eq!(setup_advance(&plan, 2, StepOutcome::Status(-9)), SetupState::Finished(-9));
}

#[test]
fn control_device_allocation_failure_is_insufficient_resources() {
    let plan = create_control_device_plan();
    assert_eq!(plan.len(), 6);
    assert_eq!(setup_advance(&plan, 0, StepOutcome::Created(false)), SetupState::Finished(STATUS_INSUFFICIENT_RESOURCES));
    assert_eq!(setup_advance(&plan, 0, StepOutcome::Created(true)), SetupState::Next(1));
    assert_eq!(setup_advance(&plan, 5, StepOutcome::Nothing), SetupState::Finished(STATUS_SUCCESS));
}

#[test]
fn circuits_share_one_plan() {
    let render = create_render_circuit_plan();
    let capture = create_capture_circuit_plan();
    assert_eq!(render, capture);
    assert_eq!(render.len(), 11);
    let mut ok = vec![StepOutcome::Created(true), StepOutcome::Nothing];
    ok.extend(std::iter::repeat(StepOutcome::Status(0)).take(9));
    assert_eq!(run(&render, &ok), STATUS_SUCCESS);
    let mut bad = ok.clone();
    bad[CIRCUIT_STEP_CREATE_CIRCUIT] = StepOutcome::Status(-3);
    assert_eq!(run(&render, &bad), -3);
}

#[test]
fn circuit_fails_without_its_pin_or_ranges() {
    let plan = create_render_circuit_plan();
    let mut ok = vec![StepOutcome::Created(true), StepOutcome::Nothing];
    ok.extend(std::iter::repeat(StepOutcome::Status(0)).take(9));
    for step in [
        CIRCUIT_STEP_CREATE_PIN,
        CIRCUIT_STEP_CREATE_PCM_FORMAT,
        CIRCUIT_STEP_ADD_PCM_FORMAT,
        CIRCUIT_STEP_CREATE_FLOAT_FORMAT,
        CIRCUIT_STEP_ADD_FLOAT_FORMAT,
        CIRCUIT_STEP_ADD_PIN,
        CIRCUIT_STEP_ADD_TO_DEVICE,
    ] {
        let mut bad = ok.clone();
        bad[step] = StepOutcome::Status(-11);
        assert_eq!(run(&plan, &bad), -11);
    }
}

#[test]
fn circuit_host_pins_carry_pcm_and_float() {
    let render = circuit_host_pin(false);
    assert_eq!(render.flow, PinFlow::Sink);
    assert_eq!(render.data_ranges, vec![make_pcm_data_range(), make_float_data_range()]);
    let capture = circuit_host_pin(true);
    assert_eq!(capture.flow, PinFlow::Source);
    assert_eq!(capture.data_ranges, vec![make_pcm_data_range(), make_float_data_range()]);
}

#[test]
fn circuits_are_created_with_their_type() {
    assert_eq!(circuit_type(false), CircuitType::Render);
    assert_eq!(circuit_type(true), CircuitType::Capture);
}
