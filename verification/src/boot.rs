//! The boot loader's decisions: what to ask the firmware for next, given what the last
//! request returned. The firmware calls themselves are made by the caller.

use vstd::prelude::*;
use crate::wide::{w, wide};
use crate::status::{Status, SUCCESS, description_text};
use crate::tables::{
    BootServices, Signature, SpecificationRevision, SystemTable, BOOT_SERVICES, revision_text,
};
use crate::protocols::{FileMode, READ};
use crate::kernel::{
    HDRS_MAGIC, SETUP_HEADER_LEN, SETUP_HEADER_OFFSET, header_field, kernel_path, kernel_path_text,
    setup_header_magic,
};

verus! {

/// A request to the firmware.
#[derive(Debug, PartialEq, Eq)]
pub enum Action {
    /// Clear the console.
    ClearScreen,
    /// Write a UEFI string to the console.
    OutputString(Vec<u16>),
    /// Open the loaded image protocol on the image's own handle.
    OpenLoadedImage,
    /// Open the simple file system protocol on the device the image was loaded from.
    OpenFileSystem,
    /// Open the root directory of that file system.
    OpenVolume,
    /// Open a file of the volume by path.
    OpenFile(Vec<u16>, FileMode),
    /// Read this many bytes from the open file.
    Read(usize),
    /// Hand the machine over: nothing further is asked.
    Halt,
    /// Return from the image's entry point with this status.
    Exit(Status),
}

/// The abstract value of an [`Action`].
pub enum ActionView {
    ClearScreen,
    OutputString(Seq<u16>),
    OpenLoadedImage,
    OpenFileSystem,
    OpenVolume,
    OpenFile(Seq<u16>, FileMode),
    Read(usize),
    Halt,
    Exit(Status),
}

impl View for Action {
    type V = ActionView;

    open spec fn view(&self) -> ActionView {
        match self {
            Action::ClearScreen => ActionView::ClearScreen,
            Action::OutputString(s) => ActionView::OutputString(s@),
            Action::OpenLoadedImage => ActionView::OpenLoadedImage,
            Action::OpenFileSystem => ActionView::OpenFileSystem,
            Action::OpenVolume => ActionView::OpenVolume,
            Action::OpenFile(p, m) => ActionView::OpenFile(p@, *m),
            Action::Read(n) => ActionView::Read(*n),
            Action::Halt => ActionView::Halt,
            Action::Exit(s) => ActionView::Exit(*s),
        }
    }
}

/// What the firmware answered to the last request.
#[derive(Debug, PartialEq, Eq)]
pub enum Event {
    /// The request finished with this status.
    Completed(Status),
    /// A read succeeded and returned these bytes.
    ReadDone(Vec<u8>),
}

/// The abstract value of an [`Event`].
pub enum EventView {
    Completed(Status),
    ReadDone(Seq<u8>),
}

impl View for Event {
    type V = EventView;

    open spec fn view(&self) -> EventView {
        match self {
            Event::Completed(s) => EventView::Completed(*s),
            Event::ReadDone(b) => EventView::ReadDone(b@),
        }
    }
}

/// The status an answer carries; a successful read carries success.
pub open spec fn event_status(e: EventView) -> Status {
    match e {
        EventView::Completed(s) => s,
        EventView::ReadDone(_) => Status(SUCCESS),
    }
}

/// The bytes an answer carries; none unless it is a successful read.
pub open spec fn event_bytes(e: EventView) -> Seq<u8> {
    match e {
        EventView::Completed(_) => Seq::empty(),
        EventView::ReadDone(b) => b,
    }
}

/// Where the boot loader stands.
#[derive(Clone, Copy, Debug, PartialEq, Eq, Structural)]
pub enum Phase {
    /// Step `n` of the boot sequence has been requested.
    Running(usize),
    /// A request failed with this status; its description is being written.
    Reporting(Status),
    /// The description has been written; the line break follows.
    ReportingNewline(Status),
    /// The entry point returns this status.
    Exited(Status),
    /// The kernel is loaded and the loader holds the machine.
    Halted,
}

/// The number of the last step of the boot sequence.
pub const LAST_STEP: usize = 19;

/// The console requests that print the firmware vendor and the specification revision.
pub open spec fn info_actions(firmware_vendor: Seq<u16>, revision: SpecificationRevision) -> Seq<
    ActionView,
> {
    seq![
        ActionView::ClearScreen,
        ActionView::OutputString(wide("Firmware vendor: "@)),
        ActionView::OutputString(firmware_vendor),
        ActionView::OutputString(wide("\r\n"@)),
        ActionView::OutputString(wide("UEFI version: "@)),
        ActionView::OutputString(wide(revision_text(revision.0))),
        ActionView::OutputString(wide("\r\n"@)),
    ]
}

/// The start-up lines: clear the screen, then "Firmware vendor: " and the vendor string
/// exactly as the firmware gives it, a line break, then "UEFI version: " and the name of
/// the revision, a line break.
pub proof fn lemma_info_lines(firmware_vendor: Seq<u16>, revision: SpecificationRevision)
    ensures
        info_actions(firmware_vendor, revision).len() == 7,
        info_actions(firmware_vendor, revision)[0] == ActionView::ClearScreen,
        info_actions(firmware_vendor, revision)[1] == ActionView::OutputString(
            wide("Firmware vendor: "@),
        ),
        info_actions(firmware_vendor, revision)[2] == ActionView::OutputString(firmware_vendor),
        info_actions(firmware_vendor, revision)[3] == ActionView::OutputString(wide("\r\n"@)),
        info_actions(firmware_vendor, revision)[4] == ActionView::OutputString(
            wide("UEFI version: "@),
        ),
        info_actions(firmware_vendor, revision)[5] == ActionView::OutputString(
            wide(revision_text(revision.0)),
        ),
        info_actions(firmware_vendor, revision)[6] == ActionView::OutputString(wide("\r\n"@)),
{
}

fn info_action(firmware_vendor: &[u16], revision: SpecificationRevision, i: usize) -> (r: Action)
    requires
        i < 7,
    ensures
        r@ == info_actions(firmware_vendor@, revision)[i as int],
{
    if i == 0 {
        Action::ClearScreen
    } else if i == 1 {
        Action::OutputString(w("Firmware vendor: "))
    } else if i == 2 {
        Action::OutputString(copy_units(firmware_vendor))
    } else if i == 3 {
        Action::OutputString(w("\r\n"))
    } else if i == 4 {
        Action::OutputString(w("UEFI version: "))
    } else if i == 5 {
        Action::OutputString(revision.as_str())
    } else {
        Action::OutputString(w("\r\n"))
    }
}

fn copy_units(units: &[u16]) -> (r: Vec<u16>)
    ensures
        r@ == units@,
{
    let mut r: Vec<u16> = Vec::new();
    for i in 0..units.len()
        invariant
            r@ == units@.take(i as int),
    {
        proof {
            assert(units@.take(i + 1) =~= units@.take(i as int).push(units@[i as int]));
        }
        r.push(units[i]);
    }
    proof {
        assert(units@.take(units@.len() as int) =~= units@);
    }
    r
}

/// The console requests that show the firmware vendor and the specification revision of
/// the system table: clear the screen, then one line for each.
pub fn print_info(system_table: &SystemTable) -> (r: Vec<Action>)
    ensures
        r@.len() == 7,
        forall|i: int|
            0 <= i < 7 ==> #[trigger] r@[i]@ == info_actions(
                system_table.firmware_vendor@,
                system_table.hdr.revision,
            )[i],
        r@[0]@ == ActionView::ClearScreen,
        r@[1]@ == ActionView::OutputString(wide("Firmware vendor: "@)),
        r@[2]@ == ActionView::OutputString(system_table.firmware_vendor@),
        r@[3]@ == ActionView::OutputString(wide("\r\n"@)),
        r@[4]@ == ActionView::OutputString(wide("UEFI version: "@)),
        r@[5]@ == ActionView::OutputString(wide(revision_text(system_table.hdr.revision.0))),
        r@[6]@ == ActionView::OutputString(wide("\r\n"@)),
{
    proof {
        lemma_info_lines(system_table.firmware_vendor@, system_table.hdr.revision);
    }
    let firmware_vendor = system_table.firmware_vendor();
    let revision = system_table.revision();
    let mut r: Vec<Action> = Vec::new();
    for i in 0..7
        invariant
            firmware_vendor@ == system_table.firmware_vendor@,
            revision == system_table.hdr.revision,
            r@.len() == i,
            forall|j: int| 0 <= j < i ==> #[trigger] r@[j]@ == info_actions(firmware_vendor@, revision)[j],
    {
        r.push(info_action(firmware_vendor, revision, i));
    }
    r
}

/// The abstract state of the boot loader.
pub struct BootFlowView {
    pub phase: Phase,
    pub firmware_vendor: Seq<u16>,
    pub revision: SpecificationRevision,
    pub boot_services_signature: Signature,
    pub kernel_signature_ok: bool,
}

/// The boot loader: prints what it runs on, loads the kernel's setup header, and reports
/// the first failure with its status.
pub struct BootFlow {
    phase: Phase,
    firmware_vendor: Vec<u16>,
    revision: SpecificationRevision,
    boot_services_signature: Signature,
    kernel_signature_ok: bool,
}

impl View for BootFlow {
    type V = BootFlowView;

    closed spec fn view(&self) -> BootFlowView {
        BootFlowView {
            phase: self.phase,
            firmware_vendor: self.firmware_vendor@,
            revision: self.revision,
            boot_services_signature: self.boot_services_signature,
            kernel_signature_ok: self.kernel_signature_ok,
        }
    }
}

/// The message that follows the check of the kernel's setup header.
pub open spec fn kernel_message(ok: bool) -> Seq<char> {
    if ok {
        "Kernel signatures matches\r\n"@
    } else {
        "Kernel signatures doesn't match\r\n"@
    }
}

/// The request made at each step of the boot sequence.
pub open spec fn step_action(v: BootFlowView, step: usize) -> ActionView {
    if step < 7 {
        info_actions(v.firmware_vendor, v.revision)[step as int]
    } else if step == 7 {
        ActionView::OutputString(wide("Loading kernel\r\n"@))
    } else if step == 8 {
        ActionView::OutputString(wide("Signature matches\r\n"@))
    } else if step == 9 {
        ActionView::OutputString(wide("Boot services\r\n"@))
    } else if step == 10 {
        ActionView::OpenLoadedImage
    } else if step == 11 {
        ActionView::OutputString(wide("Loaded image\r\n"@))
    } else if step == 12 {
        ActionView::OpenFileSystem
    } else if step == 13 {
        ActionView::OutputString(wide("Loaded system\r\n"@))
    } else if step == 14 {
        ActionView::OpenVolume
    } else if step == 15 {
        ActionView::OpenFile(wide(kernel_path_text()), FileMode(READ))
    } else if step == 16 {
        ActionView::OutputString(wide("Wit\r\n"@))
    } else if step == 17 {
        ActionView::Read(SETUP_HEADER_OFFSET)
    } else if step == 18 {
        ActionView::Read(SETUP_HEADER_LEN)
    } else if step == LAST_STEP {
        ActionView::OutputString(wide(kernel_message(v.kernel_signature_ok)))
    } else {
        ActionView::Halt
    }
}

/// The request the boot loader makes in a state.
pub open spec fn action_of(v: BootFlowView) -> ActionView {
    match v.phase {
        Phase::Running(step) => step_action(v, step),
        Phase::Reporting(s) => ActionView::OutputString(wide(description_text(s.0))),
        Phase::ReportingNewline(_) => ActionView::OutputString(wide("\r\n"@)),
        Phase::Exited(s) => ActionView::Exit(s),
        Phase::Halted => ActionView::Halt,
    }
}

/// The state after the firmware answers the current request.
pub open spec fn advance_spec(v: BootFlowView, e: EventView) -> BootFlowView {
    match v.phase {
        Phase::Running(step) => {
            let s = event_status(e);
            if s.0 != SUCCESS {
                BootFlowView { phase: Phase::Reporting(s), ..v }
            } else if step == 7 {
                let next: usize = if v.boot_services_signature.0 == BOOT_SERVICES {
                    8
                } else {
                    9
                };
                BootFlowView { phase: Phase::Running(next), ..v }
            } else if step == 18 {
                BootFlowView {
                    phase: Phase::Running(LAST_STEP),
                    kernel_signature_ok: header_field(event_bytes(e)) == HDRS_MAGIC,
                    ..v
                }
            } else if step >= LAST_STEP {
                BootFlowView { phase: Phase::Halted, ..v }
            } else {
                BootFlowView { phase: Phase::Running((step + 1) as usize), ..v }
            }
        },
        Phase::Reporting(s) => {
            if event_status(e).0 == SUCCESS {
                BootFlowView { phase: Phase::ReportingNewline(s), ..v }
            } else {
                BootFlowView { phase: Phase::Exited(s), ..v }
            }
        },
        Phase::ReportingNewline(s) => BootFlowView { phase: Phase::Exited(s), ..v },
        Phase::Exited(_) => v,
        Phase::Halted => v,
    }
}

/// The states the boot loader can be in: a step of the sequence, or the report of a
/// status that is not success.
pub open spec fn wf(v: BootFlowView) -> bool {
    match v.phase {
        Phase::Running(step) => step <= LAST_STEP,
        Phase::Reporting(s) => s.0 != SUCCESS,
        Phase::ReportingNewline(s) => s.0 != SUCCESS,
        Phase::Exited(s) => s.0 != SUCCESS,
        Phase::Halted => true,
    }
}

impl BootFlow {
    /// A boot loader at its first step, on a firmware with these system and boot services
    /// tables.
    pub fn new(system_table: &SystemTable, boot_services: &BootServices) -> (r: BootFlow)
        ensures
            r@ == (BootFlowView {
                phase: Phase::Running(0),
                firmware_vendor: system_table.firmware_vendor@,
                revision: system_table.hdr.revision,
                boot_services_signature: boot_services.hdr.signature,
                kernel_signature_ok: false,
            }),
            wf(r@),
    {
        BootFlow {
            phase: Phase::Running(0),
            firmware_vendor: copy_units(system_table.firmware_vendor()),
            revision: system_table.revision(),
            boot_services_signature: boot_services.signature(),
            kernel_signature_ok: false,
        }
    }

    /// The request the boot loader makes now.
    pub fn action(&self) -> (r: Action)
        ensures
            r@ == action_of(self@),
    {
        match self.phase {
            Phase::Running(step) => self.step_action(step),
            Phase::Reporting(s) => Action::OutputString(s.description()),
            Phase::ReportingNewline(_) => Action::OutputString(w("\r\n")),
            Phase::Exited(s) => Action::Exit(s),
            Phase::Halted => Action::Halt,
        }
    }

    fn step_action(&self, step: usize) -> (r: Action)
        ensures
            r@ == step_action(self@, step),
    {
        if step < 7 {
            info_action(self.firmware_vendor.as_slice(), self.revision, step)
        } else if step == 7 {
            Action::OutputString(w("Loading kernel\r\n"))
        } else if step == 8 {
            Action::OutputString(w("Signature matches\r\n"))
        } else if step == 9 {
            Action::OutputString(w("Boot services\r\n"))
        } else if step == 10 {
            Action::OpenLoadedImage
        } else if step == 11 {
            Action::OutputString(w("Loaded image\r\n"))
        } else if step == 12 {
            Action::OpenFileSystem
        } else if step == 13 {
            Action::OutputString(w("Loaded system\r\n"))
        } else if step == 14 {
            Action::OpenVolume
        } else if step == 15 {
            Action::OpenFile(kernel_path(), FileMode(READ))
        } else if step == 16 {
            Action::OutputString(w("Wit\r\n"))
        } else if step == 17 {
            Action::Read(SETUP_HEADER_OFFSET)
        } else if step == 18 {
            Action::Read(SETUP_HEADER_LEN)
        } else if step == LAST_STEP {
            if self.kernel_signature_ok {
                Action::OutputString(w("Kernel signatures matches\r\n"))
            } else {
                Action::OutputString(w("Kernel signatures doesn't match\r\n"))
            }
        } else {
            Action::Halt
        }
    }

    /// Takes the firmware's answer to the current request.
    pub fn advance(&mut self, event: Event)
        ensures
            final(self)@ == advance_spec(old(self)@, event@),
    {
        let status = match &event {
            Event::Completed(s) => *s,
            Event::ReadDone(_) => Status(SUCCESS),
        };
        match self.phase {
            Phase::Running(step) => {
                if status.0 != SUCCESS {
                    self.phase = Phase::Reporting(status);
                } else if step == 7 {
                    if self.boot_services_signature.0 == BOOT_SERVICES {
                        self.phase = Phase::Running(8);
                    } else {
                        self.phase = Phase::Running(9);
                    }
                } else if step == 18 {
                    let magic = match &event {
                        Event::ReadDone(bytes) => setup_header_magic(bytes.as_slice()),
                        Event::Completed(_) => setup_header_magic(&[]),
                    };
                    self.kernel_signature_ok = magic == HDRS_MAGIC;
                    self.phase = Phase::Running(LAST_STEP);
                } else if step >= LAST_STEP {
                    self.phase = Phase::Halted;
                } else {
                    self.phase = Phase::Running(step + 1);
                }
            },
            Phase::Reporting(s) => {
                if status.0 == SUCCESS {
                    self.phase = Phase::ReportingNewline(s);
                } else {
                    self.phase = Phase::Exited(s);
                }
            },
            Phase::ReportingNewline(s) => {
                self.phase = Phase::Exited(s);
            },
            Phase::Exited(_) => {},
            Phase::Halted => {},
        }
    }
}

/// The state after the firmware answers each request in turn with `events`.
pub open spec fn run(v: BootFlowView, events: Seq<EventView>) -> BootFlowView
    decreases events.len(),
{
    if events.len() == 0 {
        v
    } else {
        run(advance_spec(v, events[0]), events.drop_first())
    }
}

/// Every answer in `events` is a success.
pub open spec fn all_succeed(events: Seq<EventView>) -> bool {
    forall|i: int| 0 <= i < events.len() ==> (#[trigger] event_status(events[i])).0 == SUCCESS
}

/// How many more answers the loader can take before it holds the machine or exits.
pub open spec fn answers_left(v: BootFlowView) -> nat {
    match v.phase {
        Phase::Running(step) => (LAST_STEP + 4 - step) as nat,
        Phase::Reporting(_) => 2,
        Phase::ReportingNewline(_) => 1,
        Phase::Exited(_) => 0,
        Phase::Halted => 0,
    }
}

/// How many more successful answers the loader needs before it holds the machine.
pub open spec fn steps_left(v: BootFlowView) -> nat {
    match v.phase {
        Phase::Running(step) => (LAST_STEP + 1 - step) as nat,
        _ => 0,
    }
}

/// Every answer leaves the loader in one of its states.
pub proof fn lemma_advance_wf(v: BootFlowView, e: EventView)
    requires
        wf(v),
    ensures
        wf(advance_spec(v, e)),
{
}

/// A failed request, a warning included, is answered by writing the description of its
/// status.
pub proof fn lemma_failure_reported(v: BootFlowView, e: EventView)
    requires
        v.phase is Running,
        event_status(e).0 != SUCCESS,
    ensures
        action_of(advance_spec(v, e)) == ActionView::OutputString(
            wide(description_text(event_status(e).0)),
        ),
{
}

/// After a failed request, whatever the console answers while the failure is reported,
/// the entry point returns the status of the failed request.
pub proof fn lemma_failure_exits(v: BootFlowView, e: EventView, e1: EventView, e2: EventView)
    requires
        v.phase is Running,
        event_status(e).0 != SUCCESS,
    ensures
        action_of(advance_spec(advance_spec(advance_spec(v, e), e1), e2)) == ActionView::Exit(
            event_status(e),
        ),
{
}

/// Once the loader has exited or holds the machine, no answer changes it.
pub proof fn lemma_terminal_stable(v: BootFlowView, e: EventView)
    requires
        v.phase is Exited || v.phase is Halted,
    ensures
        advance_spec(v, e) == v,
{
}

/// The entry point never returns success: the loader either holds the machine or exits
/// with the status of a failed request.
pub proof fn lemma_exit_is_failure(v: BootFlowView)
    requires
        wf(v),
    ensures
        action_of(v) matches ActionView::Exit(s) ==> s.0 != SUCCESS,
{
}

/// Every answer brings the loader closer to its end, so it holds the machine or exits
/// after at most `LAST_STEP + 4` answers.
pub proof fn lemma_progress(v: BootFlowView, e: EventView)
    requires
        wf(v),
        !(v.phase is Exited || v.phase is Halted),
    ensures
        answers_left(advance_spec(v, e)) < answers_left(v),
{
}

/// When every request succeeds the loader never reports a failure nor exits, and after
/// `steps_left` answers it holds the machine.
pub proof fn lemma_successful_run_halts(v: BootFlowView, events: Seq<EventView>)
    requires
        wf(v),
        v.phase is Running || v.phase is Halted,
        all_succeed(events),
    ensures
        run(v, events).phase is Running || run(v, events).phase is Halted,
        events.len() >= steps_left(v) ==> run(v, events).phase is Halted,
    decreases events.len(),
{
    if events.len() > 0 {
        let next = advance_spec(v, events[0]);
        assert(event_status(events[0]).0 == SUCCESS);
        assert forall|i: int| 0 <= i < events.drop_first().len() implies (#[trigger] event_status(
            events.drop_first()[i],
        )).0 == SUCCESS by {
            assert(events.drop_first()[i] == events[i + 1]);
        }
        lemma_successful_run_halts(next, events.drop_first());
    }
}

/// After the setup header is read, the loader announces a kernel exactly when the
/// `header` field it read is "HdrS".
pub proof fn lemma_kernel_check(v: BootFlowView, bytes: Seq<u8>)
    requires
        v.phase == Phase::Running(18),
    ensures
        action_of(advance_spec(v, EventView::ReadDone(bytes))) == ActionView::OutputString(
            wide(kernel_message(header_field(bytes) == HDRS_MAGIC)),
        ),
{
}

/// "Signature matches" is written exactly when the boot services table carries the boot
/// services signature.
pub proof fn lemma_signature_check(v: BootFlowView, e: EventView)
    requires
        v.phase == Phase::Running(7),
        event_status(e).0 == SUCCESS,
    ensures
        action_of(advance_spec(v, e)) == (if v.boot_services_signature.0 == BOOT_SERVICES {
            ActionView::OutputString(wide("Signature matches\r\n"@))
        } else {
            ActionView::OutputString(wide("Boot services\r\n"@))
        }),
{
}

/// Answering the requests one more answer at a time: the run of `events` followed by `e`
/// is the run of `events`, then `e`.
proof fn lemma_run_push(v: BootFlowView, events: Seq<EventView>, e: EventView)
    ensures
        run(v, events.push(e)) == advance_spec(run(v, events), e),
    decreases events.len(),
{
    if events.len() == 0 {
        assert(events.push(e).drop_first() =~= Seq::<EventView>::empty());
        assert(events.push(e)[0] == e);
        assert(run(advance_spec(v, e), Seq::<EventView>::empty()) == advance_spec(v, e));
        assert(run(v, events) == v);
    } else {
        let next = advance_spec(v, events[0]);
        assert(events.push(e).drop_first() =~= events.drop_first().push(e));
        assert(events.push(e)[0] == events[0]);
        lemma_run_push(next, events.drop_first(), e);
        assert(run(v, events.push(e)) == run(next, events.drop_first().push(e)));
        assert(run(v, events) == run(next, events.drop_first()));
    }
}

/// From the first step, `j` successful answers (at most 7) lead to step `j`, with
/// nothing else changed.
proof fn lemma_info_prefix(v: BootFlowView, events: Seq<EventView>, j: int)
    requires
        v.phase == Phase::Running(0),
        0 <= j <= 7,
        j <= events.len(),
        all_succeed(events.take(j)),
    ensures
        run(v, events.take(j)) == (BootFlowView { phase: Phase::Running(j as usize), ..v }),
    decreases j,
{
    if j == 0 {
        assert(events.take(0) =~= Seq::<EventView>::empty());
        assert(v == (BootFlowView { phase: Phase::Running(0), ..v }));
    } else {
        assert(events.take(j) =~= events.take(j - 1).push(events[j - 1]));
        assert(events.take(j)[j - 1] == events[j - 1]);
        assert(event_status(events.take(j)[j - 1]).0 == SUCCESS);
        assert forall|i: int| 0 <= i < events.take(j - 1).len() implies (#[trigger] event_status(
            events.take(j - 1)[i],
        )).0 == SUCCESS by {
            assert(events.take(j - 1)[i] == events.take(j)[i]);
        }
        lemma_info_prefix(v, events, j - 1);
        lemma_run_push(v, events.take(j - 1), events[j - 1]);
    }
}

/// The first seven steps of the boot flow make the requests of `print_info`, in order,
/// and pass to loading the kernel when all of them succeed; the first one that fails
/// stops them: no later request of the list is made, that failure's description is
/// written, and whatever the console answers, the entry point returns its status.
pub proof fn lemma_info_steps(v: BootFlowView, events: Seq<EventView>, k: int)
    requires
        v.phase == Phase::Running(0),
        0 <= k <= 7,
        k <= events.len(),
        all_succeed(events.take(k)),
    ensures
        forall|j: int|
            0 <= j <= k && j < 7 ==> action_of(#[trigger] run(v, events.take(j))) == info_actions(
                v.firmware_vendor,
                v.revision,
            )[j],
        k == 7 ==> run(v, events.take(7)).phase == Phase::Running(7),
        k < 7 && k < events.len() && event_status(events[k]).0 != SUCCESS ==> {
            &&& run(v, events.take(k + 1)).phase == Phase::Reporting(event_status(events[k]))
            &&& action_of(run(v, events.take(k + 1))) == ActionView::OutputString(
                wide(description_text(event_status(events[k]).0)),
            )
            &&& forall|e1: EventView, e2: EventView|
                action_of(#[trigger] advance_spec(advance_spec(run(v, events.take(k + 1)), e1), e2))
                    == ActionView::Exit(event_status(events[k]))
        },
{
    assert forall|j: int|
        0 <= j <= k && j < 7 implies action_of(#[trigger] run(v, events.take(j))) == info_actions(
            v.firmware_vendor,
            v.revision,
        )[j] by {
        assert forall|i: int| 0 <= i < events.take(j).len() implies (#[trigger] event_status(
            events.take(j)[i],
        )).0 == SUCCESS by {
            assert(events.take(j)[i] == events.take(k)[i]);
        }
        lemma_info_prefix(v, events, j);
    }
    lemma_info_prefix(v, events, k);
    if k < 7 && k < events.len() && event_status(events[k]).0 != SUCCESS {
        let at_k = run(v, events.take(k));
        assert(events.take(k + 1) =~= events.take(k).push(events[k]));
        lemma_run_push(v, events.take(k), events[k]);
        assert forall|e1: EventView, e2: EventView|
            action_of(#[trigger] advance_spec(advance_spec(run(v, events.take(k + 1)), e1), e2))
                == ActionView::Exit(event_status(events[k])) by {
            lemma_failure_exits(at_k, events[k], e1, e2);
        }
    }
}

/// The requests that load the kernel, step by step: the progress lines, the loaded image,
/// its file system, the volume, the kernel file opened for reading, the 0x1f1 bytes before
/// the setup header, the 123 bytes of the setup header, and the verdict on its "HdrS"
/// field.
pub proof fn lemma_load_steps(v: BootFlowView)
    ensures
        step_action(v, 7) == ActionView::OutputString(wide("Loading kernel\r\n"@)),
        step_action(v, 8) == ActionView::OutputString(wide("Signature matches\r\n"@)),
        step_action(v, 9) == ActionView::OutputString(wide("Boot services\r\n"@)),
        step_action(v, 10) == ActionView::OpenLoadedImage,
        step_action(v, 11) == ActionView::OutputString(wide("Loaded image\r\n"@)),
        step_action(v, 12) == ActionView::OpenFileSystem,
        step_action(v, 13) == ActionView::OutputString(wide("Loaded system\r\n"@)),
        step_action(v, 14) == ActionView::OpenVolume,
        step_action(v, 15) == ActionView::OpenFile(wide("\\efi\\boot\\vmlinuz"@), FileMode(1)),
        step_action(v, 16) == ActionView::OutputString(wide("Wit\r\n"@)),
        step_action(v, 17) == ActionView::Read(0x1f1),
        step_action(v, 18) == ActionView::Read(123),
        step_action(v, LAST_STEP) == ActionView::OutputString(
            wide(
                if v.kernel_signature_ok {
                    "Kernel signatures matches\r\n"@
                } else {
                    "Kernel signatures doesn't match\r\n"@
                },
            ),
        ),
{
}

/// With every request succeeding, the steps follow one another in order: step 7 goes to
/// step 8 when the boot services signature matches and to step 9 otherwise, the last
/// step hands the machine over, and every other step goes to the next.
pub proof fn lemma_step_order(v: BootFlowView, e: EventView)
    requires
        v.phase matches Phase::Running(step) && step <= LAST_STEP,
        event_status(e).0 == SUCCESS,
    ensures
        v.phase matches Phase::Running(step) && advance_spec(v, e).phase == (if step == 7 {
            if v.boot_services_signature.0 == 0x56524553544f4f42 {
                Phase::Running(8)
            } else {
                Phase::Running(9)
            }
        } else if step == 19 {
            Phase::Halted
        } else {
            Phase::Running((step + 1) as usize)
        }),
        advance_spec(v, e).firmware_vendor == v.firmware_vendor,
        advance_spec(v, e).revision == v.revision,
        advance_spec(v, e).boot_services_signature == v.boot_services_signature,
        v.phase != Phase::Running(18) ==> advance_spec(v, e).kernel_signature_ok
            == v.kernel_signature_ok,
{
}

} // verus!
