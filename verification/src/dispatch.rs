//! The control device's I/O control dispatch: which control codes are
//! served and how each request is completed.
use crate::ks::{
    STATUS_BUFFER_TOO_SMALL,
    STATUS_INVALID_DEVICE_REQUEST,
    STATUS_NOT_IMPLEMENTED,
    STATUS_SUCCESS,
};
use crate::shared::{IOCTL_LEYLINE_GET_STATUS, IOCTL_LEYLINE_MAP_BUFFER, IOCTL_LEYLINE_MAP_PARAMS};
use vstd::prelude::*;
use vstd::string::StringSliceAdditionalSpecFns;

verus! {

/// The status word the driver reports while active.
pub const ACTIVE_STATUS_CODE: u32 = 0x1337BEEF;

/// The size of the status word in bytes.
pub const STATUS_WORD_SIZE: usize = 4;

/// The control device's NT name.
pub open spec fn control_device_name_spec() -> Seq<char> {
    "\\Device\\LeylineCDO"@
}

/// The symbolic link through which user mode opens the control device.
pub open spec fn control_device_link_spec() -> Seq<char> {
    "\\DosDevices\\LeylineCDO"@
}

/// The control device's security descriptor: all users get all access.
pub open spec fn control_device_sddl_spec() -> Seq<char> {
    "D:P(A;;GA;;;WD)"@
}

/// Returns the control device's NT name, `\Device\LeylineCDO`.
pub fn control_device_name() -> (name: &'static str)
    ensures
        name@ == control_device_name_spec(),
{
    "\\Device\\LeylineCDO"
}

/// Returns the control device's symbolic link, `\DosDevices\LeylineCDO`.
pub fn control_device_link() -> (link: &'static str)
    ensures
        link@ == control_device_link_spec(),
{
    "\\DosDevices\\LeylineCDO"
}

/// Returns the control device's security descriptor, `D:P(A;;GA;;;WD)`.
pub fn control_device_sddl() -> (sddl: &'static str)
    ensures
        sddl@ == control_device_sddl_spec(),
{
    "D:P(A;;GA;;;WD)"
}

/// The NUL-terminated 16-bit code units of a text's bytes: for an ASCII
/// text, its UTF-16 form as a counted Windows string points at it.
pub open spec fn wide_nul_spec(bytes: Seq<u8>) -> Seq<u16> {
    Seq::new(
        bytes.len() + 1,
        |i: int|
            if i < bytes.len() {
                bytes[i] as u16
            } else {
                0u16
            },
    )
}

/// Returns the NUL-terminated 16-bit code units of a text's bytes (for an
/// ASCII text, its UTF-16 form).
pub fn wide_nul(text: &str) -> (units: Vec<u16>)
    requires
        text.spec_bytes().len() < usize::MAX,
    ensures
        units@ == wide_nul_spec(text.spec_bytes()),
{
    let bytes = text.as_bytes();
    let mut units: Vec<u16> = Vec::new();
    let mut i: usize = 0;
    while i < bytes.len()
        invariant
            i <= bytes@.len(),
            bytes@ == text.spec_bytes(),
            units@ =~= Seq::new(i as nat, |k: int| bytes@[k] as u16),
        decreases bytes@.len() - i,
    {
        units.push(bytes[i] as u16);
        i = i + 1;
    }
    units.push(0);
    assert(units@ =~= wide_nul_spec(text.spec_bytes()));
    units
}

/// The control device's name, link and security descriptor are ASCII
/// (so their bytes are their UTF-16 code units) and short enough for a
/// counted Windows string.
pub proof fn law_control_device_texts_ascii()
    ensures
        forall|i: int|
            0 <= i < control_device_name_spec().len() ==> (control_device_name_spec()[i] as u32)
                < 128,
        forall|i: int|
            0 <= i < control_device_link_spec().len() ==> (control_device_link_spec()[i] as u32)
                < 128,
        forall|i: int|
            0 <= i < control_device_sddl_spec().len() ==> (control_device_sddl_spec()[i] as u32)
                < 128,
        0 < control_device_name_spec().len() < 0x7fff,
        0 < control_device_link_spec().len() < 0x7fff,
        0 < control_device_sddl_spec().len() < 0x7fff,
{
    reveal_strlit("\\Device\\LeylineCDO");
    reveal_strlit("\\DosDevices\\LeylineCDO");
    reveal_strlit("D:P(A;;GA;;;WD)");
}

/// How the control device's request queue is set up.
#[derive(Clone, Copy, Debug, PartialEq, Eq, Structural)]
pub struct ControlQueueConfig {
    /// Requests are handed over one at a time.
    pub sequential: bool,
    /// The queue follows the device's power state.
    pub power_managed: bool,
}

/// Returns the control queue's setup: sequential dispatch, not power
/// managed (the control device has no power states).
pub fn control_queue_config() -> (config: ControlQueueConfig)
    ensures
        config == (ControlQueueConfig { sequential: true, power_managed: false }),
{
    ControlQueueConfig { sequential: true, power_managed: false }
}

/// How a control request is completed.
#[derive(Clone, Copy, Debug, PartialEq, Eq)]
pub struct IoctlCompletion {
    pub status: i32,
    /// The number of output bytes written.
    pub information: usize,
    /// The word written at the start of the output buffer, if any.
    pub output_word: Option<u32>,
}

/// What the dispatcher needs next for a control request.
#[derive(Clone, Copy, Debug, PartialEq, Eq)]
pub enum IoctlStep {
    /// Retrieve the request's output buffer of at least this many bytes,
    /// then complete it with [`complete_get_status`].
    RetrieveOutputBuffer { min_length: usize },
    /// Complete the request now.
    Complete(IoctlCompletion),
}

/// A completion that writes nothing.
pub open spec fn bare_completion(status: i32) -> IoctlCompletion {
    IoctlCompletion { status, information: 0, output_word: None }
}

/// The first step for control code `code`: the status query needs the
/// output buffer; buffer and parameter mapping are not implemented; every
/// other code (the configuration code among them) is an invalid device
/// request.
pub open spec fn ioctl_step_spec(code: u32) -> IoctlStep {
    if code == IOCTL_LEYLINE_GET_STATUS {
        IoctlStep::RetrieveOutputBuffer { min_length: STATUS_WORD_SIZE }
    } else if code == IOCTL_LEYLINE_MAP_BUFFER || code == IOCTL_LEYLINE_MAP_PARAMS {
        IoctlStep::Complete(bare_completion(STATUS_NOT_IMPLEMENTED))
    } else {
        IoctlStep::Complete(bare_completion(STATUS_INVALID_DEVICE_REQUEST))
    }
}

/// Dispatches a control request with control code `io_control_code`
/// (EvtIoDeviceControl): it says whether the output buffer is needed or how
/// the request completes.
pub fn evt_io_device_control(io_control_code: u32) -> (step: IoctlStep)
    ensures
        step == ioctl_step_spec(io_control_code),
{
    if io_control_code == IOCTL_LEYLINE_GET_STATUS {
        IoctlStep::RetrieveOutputBuffer { min_length: STATUS_WORD_SIZE }
    } else if io_control_code == IOCTL_LEYLINE_MAP_BUFFER || io_control_code
        == IOCTL_LEYLINE_MAP_PARAMS {
        IoctlStep::Complete(IoctlCompletion { status: STATUS_NOT_IMPLEMENTED, information: 0, output_word: None })
    } else {
        IoctlStep::Complete(
            IoctlCompletion { status: STATUS_INVALID_DEVICE_REQUEST, information: 0, output_word: None },
        )
    }
}

/// The completion of a status query, given the status of retrieving the
/// output buffer and its length: a retrieved buffer that holds the status
/// word receives it; otherwise the buffer is too small.
pub open spec fn get_status_spec(retrieve_status: i32, out_length: usize) -> IoctlCompletion {
    if retrieve_status >= 0 && out_length >= STATUS_WORD_SIZE {
        IoctlCompletion {
            status: STATUS_SUCCESS,
            information: STATUS_WORD_SIZE,
            output_word: Some(ACTIVE_STATUS_CODE),
        }
    } else {
        bare_completion(STATUS_BUFFER_TOO_SMALL)
    }
}

/// Completes a status query once its output buffer was retrieved.
pub fn complete_get_status(retrieve_status: i32, out_length: usize) -> (completion:
    IoctlCompletion)
    ensures
        completion == get_status_spec(retrieve_status, out_length),
{
    if crate::ks::nt_success(retrieve_status) && out_length >= STATUS_WORD_SIZE {
        IoctlCompletion {
            status: STATUS_SUCCESS,
            information: STATUS_WORD_SIZE,
            output_word: Some(ACTIVE_STATUS_CODE),
        }
    } else {
        IoctlCompletion { status: STATUS_BUFFER_TOO_SMALL, information: 0, output_word: None }
    }
}

/// A completion reports as written only what fits in the output buffer,
/// and writes only when it succeeds.
pub proof fn law_ioctl_never_overruns(code: u32, retrieve_status: i32, out_length: usize)
    ensures
        ioctl_step_spec(code) matches IoctlStep::Complete(c) ==> c.information == 0
            && c.output_word is None && c.status != STATUS_SUCCESS,
        get_status_spec(retrieve_status, out_length).information <= out_length,
        (get_status_spec(retrieve_status, out_length).output_word is Some) == (get_status_spec(
            retrieve_status,
            out_length,
        ).status == STATUS_SUCCESS),
{
}

/// Only the status query can succeed, and it does whenever its output
/// buffer is retrieved and holds the status word.
pub proof fn law_only_status_query_succeeds(code: u32)
    ensures
        code != IOCTL_LEYLINE_GET_STATUS ==> ioctl_step_spec(code) is Complete,
        code == IOCTL_LEYLINE_GET_STATUS ==> ioctl_step_spec(code)
            == (IoctlStep::RetrieveOutputBuffer { min_length: STATUS_WORD_SIZE }),
        get_status_spec(STATUS_SUCCESS, STATUS_WORD_SIZE).status == STATUS_SUCCESS,
{
}

} // verus!
