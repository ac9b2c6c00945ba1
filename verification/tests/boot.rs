use effie::boot::{print_info, Action, BootFlow, Event};
use effie::kernel::{SETUP_HEADER_LEN, SETUP_HEADER_OFFSET};
use effie::protocols::{FileMode, READ};
use effie::status::{Status, NOT_FOUND, SUCCESS, WARN_UNKNOWN_GLYPH, DEVICE_ERROR};
use effie::tables::{
    BootServices, Signature, SpecificationRevision, SystemTable, TableHeader, BOOT_SERVICES, EFI_2_70,
    SYSTEM_TABLE,
};

fn wide(s: &str) -> Vec<u16> {
    s.encode_utf16().chain(Some(0)).collect()
}

fn out(s: &str) -> Action {
    Action::OutputString(wide(s))
}

fn system_table() -> SystemTable {
    SystemTable {
        hdr: TableHeader::new(Signature(SYSTEM_TABLE), SpecificationRevision(EFI_2_70), 120, 0),
        firmware_vendor: wide("EDK II"),
    }
}

fn flow(boot_services_signature: u64) -> BootFlow {
    let boot_services = BootServices {
        hdr: TableHeader::new(Signature(boot_services_signature), SpecificationRevision(EFI_2_70), 376, 0),
    };
    BootFlow::new(&system_table(), &boot_services)
}

fn header_bytes(magic: &[u8; 4]) -> Vec<u8> {
    let mut bytes = vec![0u8; SETUP_HEADER_LEN];
    bytes[0x11..0x15].copy_from_slice(magic);
    bytes
}

/// Runs the flow against a firmware that answers every request with `answer`, recording
/// the requests until the flow halts or exits.
fn drive(mut f: BootFlow, mut answer: impl FnMut(usize, &Action) -> Event) -> Vec<Action> {
    let mut actions = Vec::new();
    for i in 0..100 {
        let a = f.action();
        let done = matches!(a, Action::Halt | Action::Exit(_));
        let e = answer(i, &a);
        actions.push(a);
        if done {
            return actions;
        }
        f.advance(e);
    }
    panic!("the flow did not end");
}

fn succeed(magic: &'static [u8; 4]) -> impl FnMut(usize, &Action) -> Event {
    move |_, a| match a {
        Action::Read(n) if *n == SETUP_HEADER_LEN => Event::ReadDone(header_bytes(magic)),
        Action::Read(n) => Event::ReadDone(vec![0; *n]),
        _ => Event::Completed(Status(SUCCESS)),
    }
}

fn full_run(signature_line: bool, kernel_line: &str) -> Vec<Action> {
    let mut v = vec![
        Action::ClearScreen,
        out("Firmware vendor: "),
        Action::OutputString(wide("EDK II")),
        out("\r\n"),
        out("UEFI version: "),
        out("2.7"),
        out("\r\n"),
        out("Loading kernel\r\n"),
    ];
    if signature_line {
        v.push(out("Signature matches\r\n"));
    }
    v.extend([
        out("Boot services\r\n"),
        Action::OpenLoadedImage,
        out("Loaded image\r\n"),
        Action::OpenFileSystem,
        out("Loaded system\r\n"),
        Action::OpenVolume,
        Action::OpenFile(wide("\\efi\\boot\\vmlinuz"), FileMode(READ)),
        out("Wit\r\n"),
        Action::Read(SETUP_HEADER_OFFSET),
        Action::Read(SETUP_HEADER_LEN),
        out(kernel_line),
        Action::Halt,
    ]);
    v
}

#[test]
fn print_info_lines() {
    assert_eq!(
        print_info(&system_table()),
        vec![
            Action::ClearScreen,
            out("Firmware vendor: "),
            Action::OutputString(wide("EDK II")),
            out("\r\n"),
            out("UEFI version: "),
            out("2.7"),
            out("\r\n"),
        ]
    );
}

#[test]
fn successful_boot_halts() {
    let actions = drive(flow(BOOT_SERVICES), succeed(b"HdrS"));
    assert_eq!(actions, full_run(true, "Kernel signatures matches\r\n"));
}

#[test]
fn boot_services_signature_mismatch_skips_line() {
    let actions = drive(flow(0x1234), succeed(b"HdrS"));
    assert_eq!(actions, full_run(false, "Kernel signatures matches\r\n"));
}

#[test]
fn kernel_signature_mismatch() {
    let actions = drive(flow(BOOT_SERVICES), succeed(b"MZ\0\0"));
    assert_eq!(actions, full_run(true, "Kernel signatures doesn't match\r\n"));
}

#[test]
fn failure_is_reported_and_returned() {
    let mut ok = succeed(b"HdrS");
    let actions = drive(flow(BOOT_SERVICES), move |i, a| match a {
        Action::OpenVolume => Event::Completed(Status(NOT_FOUND)),
        _ => ok(i, a),
    });
    let n = actions.len();
    assert_eq!(actions[n - 4], Action::OpenVolume);
    assert_eq!(actions[n - 3], Action::OutputString(Status(NOT_FOUND).description()));
    assert_eq!(actions[n - 2], out("\r\n"));
    assert_eq!(actions[n - 1], Action::Exit(Status(NOT_FOUND)));
}

#[test]
fn warning_counts_as_failure() {
    let actions = drive(flow(BOOT_SERVICES), |i, _| {
        if i == 0 { Event::Completed(Status(WARN_UNKNOWN_GLYPH)) } else { Event::Completed(Status(SUCCESS)) }
    });
    assert_eq!(
        actions,
        vec![
            Action::ClearScreen,
            Action::OutputString(Status(WARN_UNKNOWN_GLYPH).description()),
            out("\r\n"),
            Action::Exit(Status(WARN_UNKNOWN_GLYPH)),
        ]
    );
}

#[test]
fn failed_report_skips_line_break() {
    let actions = drive(flow(BOOT_SERVICES), |_, _| Event::Completed(Status(DEVICE_ERROR)));
    assert_eq!(
        actions,
        vec![
            Action::ClearScreen,
            Action::OutputString(Status(DEVICE_ERROR).description()),
            Action::Exit(Status(DEVICE_ERROR)),
        ]
    );
}

#[test]
fn failure_exit_ignores_report_outcome() {
    for report_answer in [SUCCESS, DEVICE_ERROR] {
        let mut f = flow(BOOT_SERVICES);
        f.advance(Event::Completed(Status(NOT_FOUND)));
        f.advance(Event::Completed(Status(report_answer)));
        f.advance(Event::Completed(Status(report_answer)));
        assert_eq!(f.action(), Action::Exit(Status(NOT_FOUND)));
    }
}

#[test]
fn ended_flow_stays_ended() {
    let mut f = flow(BOOT_SERVICES);
    f.advance(Event::Completed(Status(NOT_FOUND)));
    f.advance(Event::Completed(Status(SUCCESS)));
    f.advance(Event::Completed(Status(SUCCESS)));
    assert_eq!(f.action(), Action::Exit(Status(NOT_FOUND)));
    f.advance(Event::Completed(Status(SUCCESS)));
    f.advance(Event::ReadDone(vec![1, 2, 3]));
    assert_eq!(f.action(), Action::Exit(Status(NOT_FOUND)));
}

#[test]
fn halted_flow_stays_halted() {
    let mut f = flow(BOOT_SERVICES);
    let mut answer = succeed(b"HdrS");
    for i in 0..40 {
        let a = f.action();
        let e = answer(i, &a);
        f.advance(e);
    }
    assert_eq!(f.action(), Action::Halt);
}

#[test]
fn successful_boot_takes_at_most_twenty_answers() {
    let actions = drive(flow(BOOT_SERVICES), succeed(b"HdrS"));
    assert!(actions.len() - 1 <= 20);
}

#[test]
fn info_failure_stops_the_list() {
    let actions = drive(flow(BOOT_SERVICES), |i, _| {
        if i == 3 { Event::Completed(Status(NOT_FOUND)) } else { Event::Completed(Status(SUCCESS)) }
    });
    assert_eq!(
        actions,
        vec![
            Action::ClearScreen,
            out("Firmware vendor: "),
            Action::OutputString(wide("EDK II")),
            out("\r\n"),
            Action::OutputString(Status(NOT_FOUND).description()),
            out("\r\n"),
            Action::Exit(Status(NOT_FOUND)),
        ]
    );
}
