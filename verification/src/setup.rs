//! The driver's setup sequences (driver entry, control device creation,
//! circuit creation) as plans of framework calls, and the rule that runs
//! them: which outcome of a call ends the sequence, with which status.
//!
//! The caller performs each call in turn and hands its outcome to
//! [`setup_advance`], which says whether to go on or what to return.
use crate::format::{
    float_data_range_spec,
    make_float_data_range,
    make_pcm_data_range,
    pcm_data_range_spec,
    KSDATAFORMAT,
};
use crate::ks::{nt_success, STATUS_INSUFFICIENT_RESOURCES, STATUS_SUCCESS};
use vstd::prelude::*;

verus! {

/// How the outcome of a setup call is treated.
#[derive(Clone, Copy, Debug, PartialEq, Eq, Structural)]
pub enum StepKind {
    /// The call creates an object; without one the sequence ends with
    /// STATUS_INSUFFICIENT_RESOURCES.
    Allocation,
    /// The call returns a status; a failure ends the sequence with it.
    Required,
    /// The call returns a status; a failure is noted and the sequence goes
    /// on.
    Optional,
    /// The call's outcome is not looked at.
    Unchecked,
}

/// The outcome of a setup call.
#[derive(Clone, Copy, Debug, PartialEq, Eq)]
pub enum StepOutcome {
    /// Whether the call created its object.
    Created(bool),
    /// The status the call returned.
    Status(i32),
    /// The call returns nothing.
    Nothing,
}

/// Where a setup sequence stands after a call.
#[derive(Clone, Copy, Debug, PartialEq, Eq)]
pub enum SetupState {
    /// Perform the call with this index next.
    Next(usize),
    /// The sequence is over; return this status.
    Finished(i32),
}

/// Whether a call's outcome counts as a failure.
pub open spec fn outcome_failed(outcome: StepOutcome) -> bool {
    match outcome {
        StepOutcome::Created(made) => !made,
        StepOutcome::Status(s) => s < 0,
        StepOutcome::Nothing => false,
    }
}

/// The status with which a call of the given kind and outcome ends the
/// sequence, if it does.
pub open spec fn step_ends_with(kind: StepKind, outcome: StepOutcome) -> Option<i32> {
    match kind {
        StepKind::Allocation => if outcome_failed(outcome) {
            Some(STATUS_INSUFFICIENT_RESOURCES)
        } else {
            None
        },
        StepKind::Required => if outcome_failed(outcome) {
            Some(
                match outcome {
                    StepOutcome::Status(s) => s,
                    _ => STATUS_INSUFFICIENT_RESOURCES,
                },
            )
        } else {
            None
        },
        StepKind::Optional | StepKind::Unchecked => None,
    }
}

/// The state after call `step` of `plan` had outcome `outcome`.
pub open spec fn advance_spec(plan: Seq<StepKind>, step: int, outcome: StepOutcome) -> SetupState {
    match step_ends_with(plan[step], outcome) {
        Some(status) => SetupState::Finished(status),
        None => if step + 1 == plan.len() {
            SetupState::Finished(STATUS_SUCCESS)
        } else {
            SetupState::Next((step + 1) as usize)
        },
    }
}

/// Moves a setup sequence on after call `step` of `plan` had outcome
/// `outcome`.
pub fn setup_advance(plan: &Vec<StepKind>, step: usize, outcome: StepOutcome) -> (state:
    SetupState)
    requires
        step < plan@.len(),
    ensures
        state == advance_spec(plan@, step as int, outcome),
{
    let failed = match outcome {
        StepOutcome::Created(made) => !made,
        StepOutcome::Status(s) => !nt_success(s),
        StepOutcome::Nothing => false,
    };
    match plan[step] {
        StepKind::Allocation => {
            if failed {
                return SetupState::Finished(STATUS_INSUFFICIENT_RESOURCES);
            }
        },
        StepKind::Required => {
            if failed {
                let status = match outcome {
                    StepOutcome::Status(s) => s,
                    _ => STATUS_INSUFFICIENT_RESOURCES,
                };
                return SetupState::Finished(status);
            }
        },
        StepKind::Optional | StepKind::Unchecked => {},
    }
    if step == plan.len() - 1 {
        SetupState::Finished(STATUS_SUCCESS)
    } else {
        SetupState::Next(step + 1)
    }
}

/// The status a whole run of `plan` from call `from` returns, given the
/// outcome of every call: the status of the first call that ends it, or
/// success.
pub open spec fn run_status(plan: Seq<StepKind>, outcomes: Seq<StepOutcome>, from: int) -> i32
    decreases plan.len() - from,
{
    if from >= plan.len() || from < 0 {
        STATUS_SUCCESS
    } else {
        match step_ends_with(plan[from], outcomes[from]) {
            Some(status) => status,
            None => run_status(plan, outcomes, from + 1),
        }
    }
}

/// The driver entry: register the trace provider (unchecked), create the
/// framework driver, initialize the audio class extension, create the
/// control device (its failure is not fatal).
pub open spec fn driver_entry_plan_spec() -> Seq<StepKind> {
    seq![StepKind::Unchecked, StepKind::Required, StepKind::Required, StepKind::Optional]
}

/// Returns the driver entry's plan.
pub fn driver_entry_plan() -> (plan: Vec<StepKind>)
    ensures
        plan@ == driver_entry_plan_spec(),
{
    let plan = vec![StepKind::Unchecked, StepKind::Required, StepKind::Required, StepKind::Optional];
    assert(plan@ =~= driver_entry_plan_spec());
    plan
}

/// The control device's creation: allocate its init structure, assign its
/// name, create the device, create its queue, create its symbolic link,
/// finish its initialization (unchecked).
pub open spec fn create_control_device_plan_spec() -> Seq<StepKind> {
    seq![
        StepKind::Allocation,
        StepKind::Required,
        StepKind::Required,
        StepKind::Required,
        StepKind::Required,
        StepKind::Unchecked,
    ]
}

/// Returns the control device creation's plan.
pub fn create_control_device_plan() -> (plan: Vec<StepKind>)
    ensures
        plan@ == create_control_device_plan_spec(),
{
    let plan = vec![
        StepKind::Allocation,
        StepKind::Required,
        StepKind::Required,
        StepKind::Required,
        StepKind::Required,
        StepKind::Unchecked,
    ];
    assert(plan@ =~= create_control_device_plan_spec());
    plan
}

/// Circuit step: allocate the circuit's init structure.
pub const CIRCUIT_STEP_ALLOCATE_INIT: usize = 0;

/// Circuit step: set the circuit's type (render or capture).
pub const CIRCUIT_STEP_SET_TYPE: usize = 1;

/// Circuit step: assign the circuit's stream creation callback.
pub const CIRCUIT_STEP_ASSIGN_CREATE_STREAM: usize = 2;

/// Circuit step: create the circuit.
pub const CIRCUIT_STEP_CREATE_CIRCUIT: usize = 3;

/// Circuit step: create the circuit's host pin (see [`circuit_host_pin`]).
pub const CIRCUIT_STEP_CREATE_PIN: usize = 4;

/// Circuit step: create the data format of the PCM range.
pub const CIRCUIT_STEP_CREATE_PCM_FORMAT: usize = 5;

/// Circuit step: add the PCM format to the host pin's format list.
pub const CIRCUIT_STEP_ADD_PCM_FORMAT: usize = 6;

/// Circuit step: create the data format of the float range.
pub const CIRCUIT_STEP_CREATE_FLOAT_FORMAT: usize = 7;

/// Circuit step: add the float format to the host pin's format list.
pub const CIRCUIT_STEP_ADD_FLOAT_FORMAT: usize = 8;

/// Circuit step: add the host pin to the circuit.
pub const CIRCUIT_STEP_ADD_PIN: usize = 9;

/// Circuit step: add the circuit to the device.
pub const CIRCUIT_STEP_ADD_TO_DEVICE: usize = 10;

/// A circuit's creation (render or capture alike): allocate its init
/// structure, set its type (unchecked), assign its stream creation
/// callback, create it, create its host pin, create the PCM and the float
/// formats and add each to the pin's format list, add the pin to the
/// circuit, add the circuit to the device. Every call after the type is
/// required.
pub open spec fn create_circuit_plan_spec() -> Seq<StepKind> {
    seq![
        StepKind::Allocation,
        StepKind::Unchecked,
        StepKind::Required,
        StepKind::Required,
        StepKind::Required,
        StepKind::Required,
        StepKind::Required,
        StepKind::Required,
        StepKind::Required,
        StepKind::Required,
        StepKind::Required,
    ]
}

/// Returns the render circuit creation's plan.
pub fn create_render_circuit_plan() -> (plan: Vec<StepKind>)
    ensures
        plan@ == create_circuit_plan_spec(),
{
    let plan = vec![
        StepKind::Allocation,
        StepKind::Unchecked,
        StepKind::Required,
        StepKind::Required,
        StepKind::Required,
        StepKind::Required,
        StepKind::Required,
        StepKind::Required,
        StepKind::Required,
        StepKind::Required,
        StepKind::Required,
    ];
    assert(plan@ =~= create_circuit_plan_spec());
    plan
}

/// Returns the capture circuit creation's plan.
pub fn create_capture_circuit_plan() -> (plan: Vec<StepKind>)
    ensures
        plan@ == create_circuit_plan_spec(),
{
    create_render_circuit_plan()
}

/// The kind of an audio circuit.
#[derive(Clone, Copy, Debug, PartialEq, Eq, Structural)]
pub enum CircuitType {
    Render,
    Capture,
}

/// Returns the type the render or the capture circuit is created with.
pub fn circuit_type(is_capture: bool) -> (kind: CircuitType)
    ensures
        kind == (if is_capture {
            CircuitType::Capture
        } else {
            CircuitType::Render
        }),
{
    if is_capture {
        CircuitType::Capture
    } else {
        CircuitType::Render
    }
}

/// The direction of a circuit's host pin: the render circuit's pin takes
/// audio in from the host (a sink), the capture circuit's hands it out (a
/// source).
#[derive(Clone, Copy, Debug, PartialEq, Eq, Structural)]
pub enum PinFlow {
    Sink,
    Source,
}

/// The host pin a circuit is created with.
#[derive(Debug)]
pub struct HostPin {
    pub flow: PinFlow,
    /// The data ranges the pin accepts, in the order they are added.
    pub data_ranges: Vec<KSDATAFORMAT>,
}

/// The host pin of the render or the capture circuit: a sink or a source
/// accepting the PCM range and then the float range.
pub fn circuit_host_pin(is_capture: bool) -> (pin: HostPin)
    ensures
        pin.flow == (if is_capture {
            PinFlow::Source
        } else {
            PinFlow::Sink
        }),
        pin.data_ranges@ == seq![pcm_data_range_spec(), float_data_range_spec()],
{
    let mut data_ranges: Vec<KSDATAFORMAT> = Vec::new();
    data_ranges.push(make_pcm_data_range());
    data_ranges.push(make_float_data_range());
    assert(data_ranges@ =~= seq![pcm_data_range_spec(), float_data_range_spec()]);
    HostPin {
        flow: if is_capture {
            PinFlow::Source
        } else {
            PinFlow::Sink
        },
        data_ranges,
    }
}

// ---------------------------------------------------------------------------
// Laws of the setup sequences
// ---------------------------------------------------------------------------

/// Stepping through a plan with `setup_advance` returns what a whole run
/// returns: going on from call `step` to the next, or finishing with the
/// run's status.
pub proof fn law_advance_follows_run(plan: Seq<StepKind>, outcomes: Seq<StepOutcome>, step: int)
    requires
        0 <= step < plan.len(),
        plan.len() <= usize::MAX,
        outcomes.len() == plan.len(),
    ensures
        advance_spec(plan, step, outcomes[step]) matches SetupState::Finished(s) ==> s
            == run_status(plan, outcomes, step),
        advance_spec(plan, step, outcomes[step]) matches SetupState::Next(n) ==> n == step + 1
            && run_status(plan, outcomes, step) == run_status(plan, outcomes, step + 1),
{
    if step + 1 == plan.len() {
        assert(run_status(plan, outcomes, step + 1) == STATUS_SUCCESS);
    }
}

/// A run succeeds exactly when no call ends it: every allocation creates
/// its object and every required call succeeds.
pub proof fn law_run_succeeds_iff_no_step_fails(
    plan: Seq<StepKind>,
    outcomes: Seq<StepOutcome>,
    from: int,
)
    requires
        0 <= from <= plan.len(),
        outcomes.len() == plan.len(),
    ensures
        (run_status(plan, outcomes, from) == STATUS_SUCCESS) == (forall|i: int|
            from <= i < plan.len() ==> step_ends_with(plan[i], #[trigger] outcomes[i]) is None),
    decreases plan.len() - from,
{
    if from < plan.len() {
        law_run_succeeds_iff_no_step_fails(plan, outcomes, from + 1);
        if step_ends_with(plan[from], outcomes[from]) is Some {
            assert(run_status(plan, outcomes, from) < 0);
        }
    }
}

/// The driver entry always succeeds once the framework driver and the
/// audio class extension are set up: a failing control device does not
/// stop it.
pub proof fn law_driver_entry_tolerates_control_device(
    trace: StepOutcome,
    driver: i32,
    acx: i32,
    control_device: i32,
)
    requires
        driver >= 0,
        acx >= 0,
    ensures
        run_status(
            driver_entry_plan_spec(),
            seq![
                trace,
                StepOutcome::Status(driver),
                StepOutcome::Status(acx),
                StepOutcome::Status(control_device),
            ],
            0,
        ) == STATUS_SUCCESS,
{
    let plan = driver_entry_plan_spec();
    let o = seq![
        trace,
        StepOutcome::Status(driver),
        StepOutcome::Status(acx),
        StepOutcome::Status(control_device),
    ];
    assert(run_status(plan, o, 4) == STATUS_SUCCESS);
    assert(run_status(plan, o, 3) == STATUS_SUCCESS);
    assert(run_status(plan, o, 2) == STATUS_SUCCESS);
    assert(run_status(plan, o, 1) == STATUS_SUCCESS);
}

/// A circuit is created only with its host pin and both data ranges: a run
/// of the circuit plan succeeds only if the pin was created, the PCM and
/// float formats were created and added, and the pin was added to the
/// circuit (and the circuit to the device).
pub proof fn law_circuit_success_includes_pin(outcomes: Seq<StepOutcome>)
    requires
        outcomes.len() == create_circuit_plan_spec().len(),
        run_status(create_circuit_plan_spec(), outcomes, 0) == STATUS_SUCCESS,
    ensures
        forall|i: int|
            CIRCUIT_STEP_ASSIGN_CREATE_STREAM <= i <= CIRCUIT_STEP_ADD_TO_DEVICE ==> !outcome_failed(
                #[trigger] outcomes[i],
            ),
        !outcome_failed(outcomes[CIRCUIT_STEP_ALLOCATE_INIT as int]),
{
    let plan = create_circuit_plan_spec();
    law_run_succeeds_iff_no_step_fails(plan, outcomes, 0);
    assert forall|i: int|
        CIRCUIT_STEP_ASSIGN_CREATE_STREAM <= i <= CIRCUIT_STEP_ADD_TO_DEVICE implies !outcome_failed(
            #[trigger] outcomes[i],
        ) by {
        assert(plan[i] == StepKind::Required);
        assert(step_ends_with(plan[i], outcomes[i]) is None);
    }
    assert(step_ends_with(plan[0], outcomes[0]) is None);
}

} // verus!
