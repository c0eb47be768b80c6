use host_flash::flasher::{HostLoadedRegion, HostSideFlasher, RawFlashAlgorithm};
use host_flash::layout::{FlashData, FlashLayout, FlashPage, FlashSector, NvmRegion};
use host_flash::run::{FlashError, FlashOp, Outcome, ProgramRun, VerifyRun};

fn region(name: &str, start: u64, end: u64) -> NvmRegion {
    NvmRegion { name: Some(name.to_string()), start, end }
}

fn page(address: u64, data: &[u8]) -> FlashPage {
    FlashPage { address, data: data.to_vec() }
}

/// Two regions: two sectors and two pages, then one sector and one page.
fn flasher() -> HostSideFlasher {
    let mut flasher = HostSideFlasher::new(1, RawFlashAlgorithm { name: "cc27xx".to_string() });
    let main = FlashLayout {
        sectors: vec![
            FlashSector { address: 0x0, size: 0x800 },
            FlashSector { address: 0x800, size: 0x800 },
        ],
        pages: vec![page(0x0, &[1, 2, 3, 4]), page(0x800, &[5, 6])],
    };
    let ccfg = FlashLayout {
        sectors: vec![FlashSector { address: 0x4E02_0000, size: 0x800 }],
        pages: vec![page(0x4E02_0000, &[7])],
    };
    assert_eq!(flasher.add_region::<&str>(region("MAIN", 0, 0x1000), Ok(main)), Ok(()));
    assert_eq!(
        flasher.add_region::<&str>(region("CCFG", 0x4E02_0000, 0x4E02_0800), Ok(ccfg)),
        Ok(())
    );
    flasher
}

fn describe(op: FlashOp<'_>) -> String {
    match op {
        FlashOp::AcquireInterface => "interface".to_string(),
        FlashOp::EraseAll => "erase all".to_string(),
        FlashOp::EraseSector(sector) => format!("erase {:x}", sector.address()),
        FlashOp::FinishedErasing => "erased".to_string(),
        FlashOp::ProgramPage(page) => format!("program {:x} {:?}", page.address(), page.data()),
        FlashOp::PageProgrammed { size } => format!("programmed {}", size),
        FlashOp::FinishedProgramming => "finished".to_string(),
        FlashOp::VerifyPage(page) => format!("verify {:x} {:?}", page.address(), page.data()),
    }
}

/// Carries a run out; operation number `at` has another outcome than completion.
fn drive(
    mut run: ProgramRun<'_, &'static str>,
    at: usize,
    mut other: Option<Outcome<&'static str>>,
) -> (Vec<String>, Result<(), FlashError<&'static str>>) {
    let mut done = Vec::new();
    while let Some(op) = run.next_op() {
        let outcome = if done.len() == at { other.take() } else { None };
        done.push(describe(op));
        run.advance(outcome.unwrap_or(Outcome::Completed));
    }
    (done, run.into_result().unwrap())
}

fn drive_verify(
    mut run: VerifyRun<'_, &'static str>,
    at: usize,
    mut other: Option<Outcome<&'static str>>,
) -> (Vec<String>, Result<bool, FlashError<&'static str>>) {
    let mut done = Vec::new();
    while let Some(op) = run.next_op() {
        let outcome = if done.len() == at { other.take() } else { None };
        done.push(describe(op));
        run.advance(outcome.unwrap_or(Outcome::Completed));
    }
    (done, run.into_result().unwrap())
}

#[test]
fn new_flasher_is_empty() {
    let flasher = HostSideFlasher::new(3, RawFlashAlgorithm { name: "algo".to_string() });
    assert_eq!(flasher.core_index, 3);
    assert_eq!(flasher.algorithm_name(), "algo");
    assert!(flasher.regions.is_empty());
    assert!(!flasher.double_buffering_supported());
    assert!(flasher.is_chip_erase_supported());
}

#[test]
fn add_region_keeps_order_and_layout() {
    let flasher = flasher();
    assert_eq!(flasher.regions.len(), 2);
    assert_eq!(flasher.regions[0].region, region("MAIN", 0, 0x1000));
    assert_eq!(flasher.regions[0].flash_layout().pages().len(), 2);
    assert_eq!(flasher.regions[0].flash_layout().sectors()[1].size(), 0x800);
    assert_eq!(
        flasher.regions[1],
        HostLoadedRegion {
            region: region("CCFG", 0x4E02_0000, 0x4E02_0800),
            data: FlashData::Raw(FlashLayout {
                sectors: vec![FlashSector { address: 0x4E02_0000, size: 0x800 }],
                pages: vec![page(0x4E02_0000, &[7])],
            }),
        }
    );
}

#[test]
fn add_region_returns_layout_error() {
    let mut flasher = flasher();
    let result = flasher.add_region(region("BAD", 0, 1), Err("out of bounds"));
    assert_eq!(result, Err("out of bounds"));
    assert_eq!(flasher.regions.len(), 2);
}

#[test]
fn erase_all_run() {
    let flasher = flasher();
    let (ops, result) = drive(flasher.run_erase_all(), 99, None);
    assert_eq!(ops, ["interface", "erase all", "erased"]);
    assert_eq!(result, Ok(()));

    let (ops, result) = drive(flasher.run_erase_all(), 1, Some(Outcome::Failed("stuck")));
    assert_eq!(ops, ["interface", "erase all"]);
    assert_eq!(result, Err(FlashError::ChipEraseFailed { source: "stuck" }));

    let (ops, result) = drive(flasher.run_erase_all(), 0, Some(Outcome::Failed("no arm")));
    assert_eq!(ops, ["interface"]);
    assert_eq!(result, Err(FlashError::Core("no arm")));
}

#[test]
fn program_erases_programs_and_verifies_region_by_region() {
    let flasher = flasher();
    let (ops, result) = drive(flasher.program(true, true, false, true), 99, None);
    assert_eq!(
        ops,
        [
            "interface",
            "erase 0",
            "erase 800",
            "erased",
            "program 0 [1, 2, 3, 4]",
            "programmed 4",
            "program 800 [5, 6]",
            "programmed 2",
            "finished",
            "verify 0 [1, 2, 3, 4]",
            "verify 800 [5, 6]",
            "erase 4e020000",
            "erased",
            "program 4e020000 [7]",
            "programmed 1",
            "finished",
            "verify 4e020000 [7]",
        ]
    );
    assert_eq!(result, Ok(()));
}

#[test]
fn program_without_erasing_and_verifying() {
    let flasher = flasher();
    let (ops, result) = drive(flasher.program(false, false, true, false), 99, None);
    assert_eq!(
        ops,
        [
            "interface",
            "program 0 [1, 2, 3, 4]",
            "programmed 4",
            "program 800 [5, 6]",
            "programmed 2",
            "finished",
            "program 4e020000 [7]",
            "programmed 1",
            "finished",
        ]
    );
    assert_eq!(result, Ok(()));
}

#[test]
fn program_without_regions_only_acquires_the_interface() {
    let flasher = HostSideFlasher::new(0, RawFlashAlgorithm { name: String::new() });
    let (ops, result) = drive(flasher.program(false, false, false, true), 99, None);
    assert_eq!(ops, ["interface"]);
    assert_eq!(result, Ok(()));
}

#[test]
fn program_stops_at_first_failure() {
    let flasher = flasher();
    let (ops, result) =
        drive(flasher.program(false, false, false, true), 0, Some(Outcome::Failed("no arm")));
    assert_eq!(ops.len(), 1);
    assert_eq!(result, Err(FlashError::Core("no arm")));

    let (ops, result) =
        drive(flasher.program(false, false, false, true), 2, Some(Outcome::Failed("erase")));
    assert_eq!(ops.len(), 3);
    assert_eq!(result, Err(FlashError::EraseFailed { sector_address: 0x800, source: "erase" }));

    let (ops, result) =
        drive(flasher.program(false, false, false, true), 6, Some(Outcome::Failed("write")));
    assert_eq!(ops.len(), 7);
    assert_eq!(result, Err(FlashError::PageWrite { page_address: 0x800, source: "write" }));

    let (ops, result) =
        drive(flasher.program(false, false, false, true), 10, Some(Outcome::Mismatch));
    assert_eq!(ops.len(), 11);
    assert_eq!(result, Err(FlashError::Verify));

    let (ops, result) =
        drive(flasher.program(false, false, false, true), 10, Some(Outcome::Failed("read")));
    assert_eq!(ops.len(), 11);
    assert_eq!(result, Err(FlashError::Core("read")));
}

#[test]
fn reports_cannot_fail() {
    let flasher = flasher();
    let (ops, result) =
        drive(flasher.program(false, false, false, false), 3, Some(Outcome::Failed("report")));
    assert_eq!(ops.len(), 14);
    assert_eq!(result, Ok(()));
}

#[test]
fn ended_run_does_not_change() {
    let flasher = flasher();
    let mut run = flasher.run_erase_all();
    run.advance(Outcome::Failed("first"));
    run.advance(Outcome::Failed("second"));
    run.advance(Outcome::Completed);
    assert_eq!(run.next_op(), None);
    assert_eq!(run.into_result(), Some(Err(FlashError::Core("first"))));
}

#[test]
fn run_that_has_not_ended_has_no_result() {
    let flasher = flasher();
    let mut run: ProgramRun<'_, &str> = flasher.run_erase_all();
    run.advance(Outcome::Completed);
    assert_eq!(run.into_result(), None);
}

#[test]
fn verify_answers_for_all_pages() {
    let flasher = flasher();
    for ignore_filled in [false, true] {
        let (ops, result) = drive_verify(flasher.verify(ignore_filled), 99, None);
        assert_eq!(
            ops,
            ["interface", "verify 0 [1, 2, 3, 4]", "verify 800 [5, 6]", "verify 4e020000 [7]"]
        );
        assert_eq!(result, Ok(true));
    }

    let (ops, result) = drive_verify(flasher.verify(false), 2, Some(Outcome::Mismatch));
    assert_eq!(ops.len(), 3);
    assert_eq!(result, Ok(false));

    let (ops, result) = drive_verify(flasher.verify(false), 1, Some(Outcome::Failed("read")));
    assert_eq!(ops.len(), 2);
    assert_eq!(result, Err(FlashError::Core("read")));

    let (ops, result) = drive_verify(flasher.verify(false), 0, Some(Outcome::Failed("no arm")));
    assert_eq!(ops.len(), 1);
    assert_eq!(result, Err(FlashError::Core("no arm")));
}

#[test]
fn added_region_is_programmed_behind_the_others() {
    let mut flasher = flasher();
    let (before, _) = drive(flasher.program(false, false, false, true), 99, None);
    let (compared, _) = drive_verify(flasher.verify(false), 99, None);
    let layout = FlashLayout { sectors: vec![], pages: vec![page(0x9000, &[9])] };
    assert_eq!(flasher.add_region::<&str>(region("MORE", 0x9000, 0x9800), Ok(layout)), Ok(()));
    let (after, _) = drive(flasher.program(false, false, false, true), 99, None);
    assert_eq!(after[..before.len()], before[..]);
    assert_eq!(
        after[before.len()..],
        ["erased", "program 9000 [9]", "programmed 1", "finished", "verify 9000 [9]"]
    );
    let (more, _) = drive_verify(flasher.verify(false), 99, None);
    assert_eq!(more[..compared.len()], compared[..]);
    assert_eq!(more[compared.len()..], ["verify 9000 [9]"]);
}
