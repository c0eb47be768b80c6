//! What holds of every run of the flasher.

use vstd::prelude::*;

use crate::flasher::{
    all_pages, erase_all_plan, erase_ops, program_ops, program_plan, region_ops, regions_ops, verify_ops,
    verify_plan, HostLoadedRegion,
};
use crate::layout::{FlashData, FlashLayout, FlashPage, FlashSector};
use crate::run::{
    program_step, program_verdict, verify_step, verify_verdict, FlashError, FlashOp, Outcome,
    RunState,
};

verus! {

/// The state of a run of erasing or programming after these outcomes.
pub open spec fn program_after<'a, E>(ops: Seq<FlashOp<'a>>, outcomes: Seq<Outcome<E>>) -> RunState<
    'a,
    Result<(), FlashError<E>>,
>
    decreases outcomes.len(),
{
    if outcomes.len() == 0 {
        RunState::start(ops)
    } else {
        program_step(program_after(ops, outcomes.drop_last()), outcomes.last())
    }
}

/// The state of a run of comparing after these outcomes.
pub open spec fn verify_after<'a, E>(ops: Seq<FlashOp<'a>>, outcomes: Seq<Outcome<E>>) -> RunState<
    'a,
    Result<bool, FlashError<E>>,
>
    decreases outcomes.len(),
{
    if outcomes.len() == 0 {
        RunState::start(ops)
    } else {
        verify_step(verify_after(ops, outcomes.drop_last()), outcomes.last())
    }
}

/// As long as no outcome ends the run, the operations are carried out in the order of the
/// plan, and when all have been, the run has succeeded.
pub proof fn law_program_follows_plan<'a, E>(ops: Seq<FlashOp<'a>>, outcomes: Seq<Outcome<E>>)
    requires
        ops.len() > 0,
        forall|i: int|
            #![trigger outcomes[i]]
            0 <= i < outcomes.len() && i < ops.len() ==> program_verdict(
                ops[i],
                outcomes[i],
            ) is None,
    ensures
        outcomes.len() < ops.len() ==> program_after(ops, outcomes) == RunState::<
            'a,
            Result<(), FlashError<E>>,
        >::start(ops.skip(outcomes.len() as int)),
        outcomes.len() >= ops.len() ==> program_after(ops, outcomes) == RunState::<
            'a,
            Result<(), FlashError<E>>,
        >::ended(Ok(())),
    decreases outcomes.len(),
{
    if outcomes.len() == 0 {
        assert(ops.skip(0) =~= ops);
    } else {
        let before = outcomes.drop_last();
        assert forall|i: int| #![trigger before[i]]
            0 <= i < before.len() && i < ops.len() implies program_verdict(
            ops[i],
            before[i],
        ) is None by {
            assert(before[i] == outcomes[i]);
        }
        law_program_follows_plan(ops, before);
        if before.len() < ops.len() {
            assert(outcomes[before.len() as int] == outcomes.last());
            assert(ops.skip(before.len() as int).drop_first() =~= ops.skip(outcomes.len() as int));
        }
    }
}

/// The first operation whose outcome ends the run decides the result, and no operation
/// is carried out behind it.
pub proof fn law_program_stops_at_first_failure<'a, E>(
    ops: Seq<FlashOp<'a>>,
    outcomes: Seq<Outcome<E>>,
    k: int,
)
    requires
        0 <= k < ops.len(),
        k < outcomes.len(),
        forall|i: int|
            #![trigger outcomes[i]]
            0 <= i < k ==> program_verdict(ops[i], outcomes[i]) is None,
        program_verdict(ops[k], outcomes[k]) is Some,
    ensures
        program_after(ops, outcomes) == RunState::<'a, Result<(), FlashError<E>>>::ended(
            program_verdict(ops[k], outcomes[k])->0,
        ),
    decreases outcomes.len(),
{
    let before = outcomes.drop_last();
    if before.len() == k {
        assert forall|i: int| #![trigger before[i]]
            0 <= i < before.len() && i < ops.len() implies program_verdict(
            ops[i],
            before[i],
        ) is None by {
            assert(before[i] == outcomes[i]);
        }
        law_program_follows_plan(ops, before);
    } else {
        assert forall|i: int| #![trigger before[i]] 0 <= i < k implies program_verdict(
            ops[i],
            before[i],
        ) is None by {
            assert(before[i] == outcomes[i]);
        }
        assert(before[k] == outcomes[k]);
        law_program_stops_at_first_failure(ops, before, k);
    }
}

/// The first of the operations whose outcome ends the run.
proof fn first_program_failure<'a, E>(ops: Seq<FlashOp<'a>>, outcomes: Seq<Outcome<E>>, n: int) -> (k:
    int)
    requires
        0 <= n < ops.len(),
        n < outcomes.len(),
        program_verdict(ops[n], outcomes[n]) is Some,
    ensures
        0 <= k <= n,
        program_verdict(ops[k], outcomes[k]) is Some,
        forall|i: int|
            #![trigger outcomes[i]]
            0 <= i < k ==> program_verdict(ops[i], outcomes[i]) is None,
    decreases n,
{
    if exists|m: int| #![trigger outcomes[m]] 0 <= m < n && program_verdict(ops[m], outcomes[m]) is Some {
        let m = choose|m: int| #![trigger outcomes[m]]
            0 <= m < n && program_verdict(ops[m], outcomes[m]) is Some;
        first_program_failure(ops, outcomes, m)
    } else {
        n
    }
}

/// A run that was told the outcome of every operation has succeeded exactly if none of
/// them ended it.
pub proof fn law_program_succeeds_iff_nothing_fails<'a, E>(
    ops: Seq<FlashOp<'a>>,
    outcomes: Seq<Outcome<E>>,
)
    requires
        0 < ops.len() <= outcomes.len(),
    ensures
        program_after(ops, outcomes).result == Some(Ok::<(), FlashError<E>>(())) <==> (forall|
            i: int,
        |
            #![trigger outcomes[i]]
            0 <= i < ops.len() ==> program_verdict(ops[i], outcomes[i]) is None),
{
    if forall|i: int|
        #![trigger outcomes[i]]
        0 <= i < ops.len() ==> program_verdict(ops[i], outcomes[i]) is None {
        law_program_follows_plan(ops, outcomes);
    } else {
        let n = choose|i: int| #![trigger outcomes[i]]
            0 <= i < ops.len() && program_verdict(ops[i], outcomes[i]) is Some;
        let k = first_program_failure(ops, outcomes, n);
        law_program_stops_at_first_failure(ops, outcomes, k);
    }
}

/// As long as no outcome ends a run of comparing, the operations are carried out in the
/// order of the plan, and when all have been, the answer is `true`.
pub proof fn law_verify_follows_plan<'a, E>(ops: Seq<FlashOp<'a>>, outcomes: Seq<Outcome<E>>)
    requires
        ops.len() > 0,
        forall|i: int|
            #![trigger outcomes[i]]
            0 <= i < outcomes.len() && i < ops.len() ==> verify_verdict(
                ops[i],
                outcomes[i],
            ) is None,
    ensures
        outcomes.len() < ops.len() ==> verify_after(ops, outcomes) == RunState::<
            'a,
            Result<bool, FlashError<E>>,
        >::start(ops.skip(outcomes.len() as int)),
        outcomes.len() >= ops.len() ==> verify_after(ops, outcomes) == RunState::<
            'a,
            Result<bool, FlashError<E>>,
        >::ended(Ok(true)),
    decreases outcomes.len(),
{
    if outcomes.len() == 0 {
        assert(ops.skip(0) =~= ops);
    } else {
        let before = outcomes.drop_last();
        assert forall|i: int| #![trigger before[i]]
            0 <= i < before.len() && i < ops.len() implies verify_verdict(
            ops[i],
            before[i],
        ) is None by {
            assert(before[i] == outcomes[i]);
        }
        law_verify_follows_plan(ops, before);
        if before.len() < ops.len() {
            assert(outcomes[before.len() as int] == outcomes.last());
            assert(ops.skip(before.len() as int).drop_first() =~= ops.skip(outcomes.len() as int));
        }
    }
}

/// The first operation whose outcome ends a run of comparing decides the result, and no
/// operation is carried out behind it.
pub proof fn law_verify_stops_at_first_difference<'a, E>(
    ops: Seq<FlashOp<'a>>,
    outcomes: Seq<Outcome<E>>,
    k: int,
)
    requires
        0 <= k < ops.len(),
        k < outcomes.len(),
        forall|i: int|
            #![trigger outcomes[i]]
            0 <= i < k ==> verify_verdict(ops[i], outcomes[i]) is None,
        verify_verdict(ops[k], outcomes[k]) is Some,
    ensures
        verify_after(ops, outcomes) == RunState::<'a, Result<bool, FlashError<E>>>::ended(
            verify_verdict(ops[k], outcomes[k])->0,
        ),
    decreases outcomes.len(),
{
    let before = outcomes.drop_last();
    if before.len() == k {
        assert forall|i: int| #![trigger before[i]]
            0 <= i < before.len() && i < ops.len() implies verify_verdict(
            ops[i],
            before[i],
        ) is None by {
            assert(before[i] == outcomes[i]);
        }
        law_verify_follows_plan(ops, before);
    } else {
        assert forall|i: int| #![trigger before[i]] 0 <= i < k implies verify_verdict(
            ops[i],
            before[i],
        ) is None by {
            assert(before[i] == outcomes[i]);
        }
        assert(before[k] == outcomes[k]);
        law_verify_stops_at_first_difference(ops, before, k);
    }
}

/// The first of the operations whose outcome ends the run.
proof fn first_verify_end<'a, E>(ops: Seq<FlashOp<'a>>, outcomes: Seq<Outcome<E>>, n: int) -> (k:
    int)
    requires
        0 <= n < ops.len(),
        n < outcomes.len(),
        verify_verdict(ops[n], outcomes[n]) is Some,
    ensures
        0 <= k <= n,
        verify_verdict(ops[k], outcomes[k]) is Some,
        forall|i: int|
            #![trigger outcomes[i]]
            0 <= i < k ==> verify_verdict(ops[i], outcomes[i]) is None,
    decreases n,
{
    if exists|m: int| #![trigger outcomes[m]] 0 <= m < n && verify_verdict(ops[m], outcomes[m]) is Some {
        let m = choose|m: int| #![trigger outcomes[m]]
            0 <= m < n && verify_verdict(ops[m], outcomes[m]) is Some;
        first_verify_end(ops, outcomes, m)
    } else {
        n
    }
}

/// A run that was told the outcome of every comparison answers `true` exactly if all pages
/// agree, and `false` exactly if the first page that does not agree differs. It fails
/// exactly if the interface could not be obtained, or if the first page that does not agree
/// could not be compared, and then with the error `e` of that.
pub proof fn law_verify_answer<E>(regions: Seq<HostLoadedRegion>, outcomes: Seq<Outcome<E>>, e: E)
    requires
        outcomes.len() >= 1 + all_pages(regions).len(),
    ensures
        ({
            let n = all_pages(regions).len();
            let result = verify_after(verify_plan(regions), outcomes).result;
            &&& result == Some(Ok::<bool, FlashError<E>>(true)) <==> {
                &&& !(outcomes[0] is Failed)
                &&& forall|i: int| 1 <= i <= n ==> #[trigger] outcomes[i] is Completed
            }
            &&& result == Some(Ok::<bool, FlashError<E>>(false)) <==> {
                &&& !(outcomes[0] is Failed)
                &&& exists|k: int|
                    1 <= k <= n && #[trigger] outcomes[k] is Mismatch && agree_between(outcomes, 1, k)
            }
            &&& result == Some(Err::<bool, FlashError<E>>(FlashError::Core(e))) <==> {
                ||| outcomes[0] == Outcome::Failed(e)
                ||| {
                    &&& !(outcomes[0] is Failed)
                    &&& exists|k: int|
                        1 <= k <= n && #[trigger] outcomes[k] == Outcome::Failed(e)
                            && agree_between(outcomes, 1, k)
                }
            }
        }),
{
    let n = all_pages(regions).len();
    let ops = verify_plan(regions);
    assert(ops.len() == n + 1);
    assert(ops[0] == FlashOp::AcquireInterface);
    assert forall|i: int| 1 <= i <= n implies #[trigger] ops[i] is VerifyPage by {}
    if exists|i: int| #![trigger outcomes[i]]
        0 <= i < ops.len() && verify_verdict(ops[i], outcomes[i]) is Some {
        let m = choose|i: int| #![trigger outcomes[i]]
            0 <= i < ops.len() && verify_verdict(ops[i], outcomes[i]) is Some;
        let k = first_verify_end(ops, outcomes, m);
        law_verify_stops_at_first_difference(ops, outcomes, k);
        assert(forall|i: int| 1 <= i < k ==> #[trigger] outcomes[i] is Completed) by {
            assert forall|i: int| 1 <= i < k implies #[trigger] outcomes[i] is Completed by {
                assert(ops[i] is VerifyPage);
            }
        }
        assert(k == 0 || ops[k] is VerifyPage);
        assert(k > 0 ==> verify_verdict(ops[0], outcomes[0]) is None);
        assert(agree_between(outcomes, 1, k));
    } else {
        law_verify_follows_plan(ops, outcomes);
        assert forall|i: int| 1 <= i <= n implies #[trigger] outcomes[i] is Completed by {
            assert(ops[i] is VerifyPage);
        }
        assert(verify_verdict(ops[0], outcomes[0]) is None);
    }
}

/// The comparisons from `from` up to but not including `to` all found the content equal.
pub open spec fn agree_between<E>(outcomes: Seq<Outcome<E>>, from: int, to: int) -> bool {
    forall|i: int| from <= i < to ==> #[trigger] outcomes[i] is Completed
}

/// The pages that the operations program, in order.
pub open spec fn programmed_pages(ops: Seq<FlashOp<'_>>) -> Seq<FlashPage>
    decreases ops.len(),
{
    if ops.len() == 0 {
        Seq::empty()
    } else {
        let rest = programmed_pages(ops.drop_last());
        match ops.last() {
            FlashOp::ProgramPage(page) => rest.push(*page),
            _ => rest,
        }
    }
}

/// The pages that the operations compare, in order.
pub open spec fn verified_pages(ops: Seq<FlashOp<'_>>) -> Seq<FlashPage>
    decreases ops.len(),
{
    if ops.len() == 0 {
        Seq::empty()
    } else {
        let rest = verified_pages(ops.drop_last());
        match ops.last() {
            FlashOp::VerifyPage(page) => rest.push(*page),
            _ => rest,
        }
    }
}

/// The sectors that the operations erase, in order.
pub open spec fn erased_sectors(ops: Seq<FlashOp<'_>>) -> Seq<FlashSector>
    decreases ops.len(),
{
    if ops.len() == 0 {
        Seq::empty()
    } else {
        let rest = erased_sectors(ops.drop_last());
        match ops.last() {
            FlashOp::EraseSector(sector) => rest.push(*sector),
            _ => rest,
        }
    }
}

/// The sectors of the regions, in order.
pub open spec fn all_sectors(regions: Seq<HostLoadedRegion>) -> Seq<FlashSector>
    decreases regions.len(),
{
    if regions.len() == 0 {
        Seq::empty()
    } else {
        all_sectors(regions.drop_last()) + regions.last().spec_flash_layout().sectors@
    }
}

/// The three selections distribute over concatenation.
proof fn lemma_selections_add(a: Seq<FlashOp<'_>>, b: Seq<FlashOp<'_>>)
    ensures
        programmed_pages(a + b) == programmed_pages(a) + programmed_pages(b),
        verified_pages(a + b) == verified_pages(a) + verified_pages(b),
        erased_sectors(a + b) == erased_sectors(a) + erased_sectors(b),
    decreases b.len(),
{
    if b.len() == 0 {
        assert(a + b =~= a);
    } else {
        assert((a + b).drop_last() =~= a + b.drop_last());
        lemma_selections_add(a, b.drop_last());
        assert(programmed_pages(a + b) =~= programmed_pages(a) + programmed_pages(b));
        assert(verified_pages(a + b) =~= verified_pages(a) + verified_pages(b));
        assert(erased_sectors(a + b) =~= erased_sectors(a) + erased_sectors(b));
    }
}

proof fn lemma_erase_ops(sectors: Seq<FlashSector>)
    ensures
        erased_sectors(erase_ops(sectors)) == sectors,
        programmed_pages(erase_ops(sectors)) == Seq::<FlashPage>::empty(),
        verified_pages(erase_ops(sectors)) == Seq::<FlashPage>::empty(),
    decreases sectors.len(),
{
    reveal_with_fuel(programmed_pages, 3);
    reveal_with_fuel(verified_pages, 3);
    reveal_with_fuel(erased_sectors, 3);
    let ops = erase_ops(sectors).drop_last();
    assert(erase_ops(sectors).last() == FlashOp::FinishedErasing);
    if sectors.len() == 0 {
        assert(ops =~= Seq::empty());
    } else {
        lemma_erase_ops(sectors.drop_last());
        let before = erase_ops(sectors.drop_last());
        assert(before.last() == FlashOp::FinishedErasing);
        assert(ops.drop_last() =~= before.drop_last());
    }
    assert(erased_sectors(ops) =~= sectors);
}

proof fn lemma_program_ops(pages: Seq<FlashPage>)
    ensures
        erased_sectors(program_ops(pages)) == Seq::<FlashSector>::empty(),
        programmed_pages(program_ops(pages)) == pages,
        verified_pages(program_ops(pages)) == Seq::<FlashPage>::empty(),
    decreases pages.len(),
{
    reveal_with_fuel(programmed_pages, 4);
    reveal_with_fuel(verified_pages, 4);
    reveal_with_fuel(erased_sectors, 4);
    let ops = program_ops(pages).drop_last();
    assert(program_ops(pages).last() == FlashOp::FinishedProgramming);
    if pages.len() == 0 {
        assert(ops =~= Seq::empty());
    } else {
        lemma_program_ops(pages.drop_last());
        let before = program_ops(pages.drop_last());
        assert(before.last() == FlashOp::FinishedProgramming);
        assert(ops.last() is PageProgrammed);
        assert(ops.drop_last().last() == FlashOp::ProgramPage(&pages.last()));
        assert(ops.drop_last().drop_last() =~= before.drop_last());
    }
    assert(programmed_pages(ops) =~= pages);
}

proof fn lemma_verify_ops(pages: Seq<FlashPage>)
    ensures
        erased_sectors(verify_ops(pages)) == Seq::<FlashSector>::empty(),
        programmed_pages(verify_ops(pages)) == Seq::<FlashPage>::empty(),
        verified_pages(verify_ops(pages)) == pages,
    decreases pages.len(),
{
    let ops = verify_ops(pages);
    if pages.len() > 0 {
        lemma_verify_ops(pages.drop_last());
        assert(ops.drop_last() =~= verify_ops(pages.drop_last()));
    }
    assert(verified_pages(ops) =~= pages);
}

proof fn lemma_regions_ops(regions: Seq<HostLoadedRegion>, skip_erasing: bool, verify: bool)
    ensures
        programmed_pages(regions_ops(regions, skip_erasing, verify)) == all_pages(regions),
        verified_pages(regions_ops(regions, skip_erasing, verify)) == if verify {
            all_pages(regions)
        } else {
            Seq::empty()
        },
        erased_sectors(regions_ops(regions, skip_erasing, verify)) == if skip_erasing {
            Seq::empty()
        } else {
            all_sectors(regions)
        },
    decreases regions.len(),
{
    if regions.len() > 0 {
        lemma_regions_ops(regions.drop_last(), skip_erasing, verify);
        let layout = regions.last().spec_flash_layout();
        let erasing: Seq<FlashOp<'_>> = if skip_erasing {
            Seq::empty()
        } else {
            erase_ops(layout.sectors@)
        };
        let verifying: Seq<FlashOp<'_>> = if verify {
            verify_ops(layout.pages@)
        } else {
            Seq::empty()
        };
        let programming = program_ops(layout.pages@);
        lemma_erase_ops(layout.sectors@);
        lemma_program_ops(layout.pages@);
        lemma_verify_ops(layout.pages@);
        lemma_selections_add(erasing, programming);
        lemma_selections_add(erasing + programming, verifying);
        lemma_selections_add(
            regions_ops(regions.drop_last(), skip_erasing, verify),
            region_ops(layout, skip_erasing, verify),
        );
    }
    let ops = regions_ops(regions, skip_erasing, verify);
    assert(programmed_pages(ops) =~= all_pages(regions));
    assert(verified_pages(ops) =~= if verify {
        all_pages(regions)
    } else {
        Seq::empty()
    });
    assert(erased_sectors(ops) =~= if skip_erasing {
        Seq::empty()
    } else {
        all_sectors(regions)
    });
}

/// Programming writes every page of every region exactly once and in order, with the bytes
/// it is to hold. It erases every sector exactly once, or none if erasing is skipped, and
/// compares every page exactly once if that is asked for, else none.
pub proof fn law_plan_covers_regions(
    regions: Seq<HostLoadedRegion>,
    skip_erasing: bool,
    verify: bool,
)
    ensures
        ({
            let ops = program_plan(regions, skip_erasing, verify);
            &&& programmed_pages(ops) == all_pages(regions)
            &&& verified_pages(ops) == if verify {
                all_pages(regions)
            } else {
                Seq::empty()
            }
            &&& erased_sectors(ops) == if skip_erasing {
                Seq::empty()
            } else {
                all_sectors(regions)
            }
        }),
{
    lemma_regions_ops(regions, skip_erasing, verify);
    let first: Seq<FlashOp<'_>> = seq![FlashOp::AcquireInterface];
    lemma_selections_add(first, regions_ops(regions, skip_erasing, verify));
    assert(first.drop_last() =~= Seq::empty());
    reveal_with_fuel(programmed_pages, 2);
    reveal_with_fuel(verified_pages, 2);
    reveal_with_fuel(erased_sectors, 2);
    let ops = program_plan(regions, skip_erasing, verify);
    assert(programmed_pages(ops) =~= all_pages(regions));
    assert(verified_pages(ops) =~= if verify {
        all_pages(regions)
    } else {
        Seq::empty()
    });
    assert(erased_sectors(ops) =~= if skip_erasing {
        Seq::empty()
    } else {
        all_sectors(regions)
    });
}

/// Within a region every sector is erased, and the end of erasing reported, before the
/// first page is programmed, and every page is programmed, and the end of programming
/// reported, before the first page is compared.
pub proof fn law_region_erases_then_programs_then_verifies(
    layout: FlashLayout,
    skip_erasing: bool,
    verify: bool,
    i: int,
    j: int,
)
    requires
        0 <= i < region_ops(layout, skip_erasing, verify).len(),
        0 <= j < region_ops(layout, skip_erasing, verify).len(),
    ensures
        ({
            let ops = region_ops(layout, skip_erasing, verify);
            &&& ops[i] is EraseSector && ops[j] is FinishedErasing ==> i < j
            &&& ops[i] is FinishedErasing && ops[j] is ProgramPage ==> i < j
            &&& ops[i] is ProgramPage && ops[j] is FinishedProgramming ==> i < j
            &&& ops[i] is FinishedProgramming && ops[j] is VerifyPage ==> i < j
            &&& ops[i] is EraseSector && ops[j] is ProgramPage ==> i < j
            &&& ops[i] is ProgramPage && ops[j] is VerifyPage ==> i < j
        }),
{
}

/// Every page that is programmed is reported with its size at once, and nothing else is
/// reported as programmed.
pub proof fn law_pages_are_reported(layout: FlashLayout, skip_erasing: bool, verify: bool, i: int)
    requires
        0 <= i < region_ops(layout, skip_erasing, verify).len(),
    ensures
        ({
            let ops = region_ops(layout, skip_erasing, verify);
            &&& ops[i] matches FlashOp::ProgramPage(page) ==> i + 1 < ops.len() && ops[i + 1]
                == (FlashOp::PageProgrammed { size: page.data@.len() as u64 })
            &&& ops[i] matches FlashOp::PageProgrammed { size } ==> i > 0
                && ops[i - 1] is ProgramPage && size == ops[i - 1]->ProgramPage_0.data@.len() as u64
        }),
{
}

/// A region that is added leaves the operations on the earlier regions as they are: its own
/// operations come behind them.
pub proof fn law_added_region_is_programmed_last(
    regions: Seq<HostLoadedRegion>,
    region: HostLoadedRegion,
    skip_erasing: bool,
    verify: bool,
)
    ensures
        program_plan(regions.push(region), skip_erasing, verify) == program_plan(
            regions,
            skip_erasing,
            verify,
        ) + region_ops(region.spec_flash_layout(), skip_erasing, verify),
        verify_plan(regions.push(region)) == verify_plan(regions) + verify_ops(
            region.spec_flash_layout().pages@,
        ),
{
    assert(regions.push(region).drop_last() =~= regions);
    assert(program_plan(regions.push(region), skip_erasing, verify) =~= program_plan(
        regions,
        skip_erasing,
        verify,
    ) + region_ops(region.spec_flash_layout(), skip_erasing, verify));
    assert(verify_plan(regions.push(region)) =~= verify_plan(regions) + verify_ops(
        region.spec_flash_layout().pages@,
    ));
}

/// When programming with verification has succeeded, every page of every region was
/// programmed without a failure and then found in the flash.
pub proof fn law_verified_programming<E>(
    regions: Seq<HostLoadedRegion>,
    skip_erasing: bool,
    outcomes: Seq<Outcome<E>>,
    i: int,
)
    requires
        program_after(program_plan(regions, skip_erasing, true), outcomes).result == Some(
            Ok::<(), FlashError<E>>(()),
        ),
        0 <= i < program_plan(regions, skip_erasing, true).len(),
    ensures
        ({
            let ops = program_plan(regions, skip_erasing, true);
            &&& verified_pages(ops) == all_pages(regions)
            &&& programmed_pages(ops) == all_pages(regions)
            &&& ops.len() <= outcomes.len()
            &&& ops[i] is VerifyPage ==> outcomes[i] is Completed
            &&& ops[i] is ProgramPage ==> !(outcomes[i] is Failed)
        }),
{
    let ops = program_plan(regions, skip_erasing, true);
    law_plan_covers_regions(regions, skip_erasing, true);
    if exists|m: int| #![trigger outcomes[m]]
        0 <= m < outcomes.len() && m < ops.len() && program_verdict(ops[m], outcomes[m]) is Some {
        let m = choose|m: int| #![trigger outcomes[m]]
            0 <= m < outcomes.len() && m < ops.len() && program_verdict(ops[m], outcomes[m]) is Some;
        let k = first_program_failure(ops, outcomes, m);
        law_program_stops_at_first_failure(ops, outcomes, k);
    } else {
        law_program_follows_plan(ops, outcomes);
        assert(program_verdict(ops[i], outcomes[i]) is None);
    }
}

/// Erasing the chip succeeds exactly if the interface was obtained and the chip erased. It
/// fails with the error of the one that failed first.
pub proof fn law_erase_all<E>(outcomes: Seq<Outcome<E>>)
    requires
        outcomes.len() >= 3,
    ensures
        program_after(erase_all_plan(), outcomes).result == match (outcomes[0], outcomes[1]) {
            (Outcome::Failed(e), _) => Some(Err(FlashError::Core(e))),
            (_, Outcome::Failed(e)) => Some(Err(FlashError::ChipEraseFailed { source: e })),
            _ => Some(Ok(())),
        },
{
    let ops = erase_all_plan();
    if outcomes[0] is Failed {
        law_program_stops_at_first_failure(ops, outcomes, 0);
    } else if outcomes[1] is Failed {
        assert(program_verdict(ops[0], outcomes[0]) is None);
        law_program_stops_at_first_failure(ops, outcomes, 1);
    } else {
        assert(program_verdict(ops[0], outcomes[0]) is None);
        assert(program_verdict(ops[1], outcomes[1]) is None);
        assert(program_verdict(ops[2], outcomes[2]) is None);
        law_program_follows_plan(ops, outcomes);
    }
}

/// The layout of a region.
pub open spec fn layout_of(region: HostLoadedRegion) -> FlashLayout {
    match region.data {
        FlashData::Raw(layout) => layout,
    }
}

/// All pages and all sectors are those of the layouts of the regions, one region after the
/// other, none left out.
pub proof fn law_nothing_is_left_out(regions: Seq<HostLoadedRegion>)
    ensures
        all_pages(regions) == regions.map_values(
            |region: HostLoadedRegion| layout_of(region).pages@,
        ).flatten(),
        all_sectors(regions) == regions.map_values(
            |region: HostLoadedRegion| layout_of(region).sectors@,
        ).flatten(),
{
    let pages = regions.map_values(|region: HostLoadedRegion| layout_of(region).pages@);
    let sectors = regions.map_values(|region: HostLoadedRegion| layout_of(region).sectors@);
    lemma_nothing_is_left_out(regions);
    pages.lemma_flatten_and_flatten_alt_are_equivalent();
    sectors.lemma_flatten_and_flatten_alt_are_equivalent();
}

proof fn lemma_nothing_is_left_out(regions: Seq<HostLoadedRegion>)
    ensures
        all_pages(regions) == regions.map_values(
            |region: HostLoadedRegion| layout_of(region).pages@,
        ).flatten_alt(),
        all_sectors(regions) == regions.map_values(
            |region: HostLoadedRegion| layout_of(region).sectors@,
        ).flatten_alt(),
    decreases regions.len(),
{
    if regions.len() > 0 {
        let before = regions.drop_last();
        lemma_nothing_is_left_out(before);
        let pages = regions.map_values(|region: HostLoadedRegion| layout_of(region).pages@);
        let sectors = regions.map_values(|region: HostLoadedRegion| layout_of(region).sectors@);
        assert(pages.drop_last() =~= before.map_values(
            |region: HostLoadedRegion| layout_of(region).pages@,
        ));
        assert(sectors.drop_last() =~= before.map_values(
            |region: HostLoadedRegion| layout_of(region).sectors@,
        ));
    }
}

/// Comparing obtains the interface and compares every page of every region, in order, and
/// does nothing else.
pub proof fn law_verify_compares_all_pages(regions: Seq<HostLoadedRegion>)
    ensures
        ({
            let pages = regions.map_values(
                |region: HostLoadedRegion| layout_of(region).pages@,
            ).flatten();
            let ops = verify_plan(regions);
            &&& ops.len() == 1 + pages.len()
            &&& ops[0] == FlashOp::AcquireInterface
            &&& forall|i: int|
                0 <= i < pages.len() ==> ops[1 + i] == FlashOp::VerifyPage(&#[trigger] pages[i])
        }),
{
    law_nothing_is_left_out(regions);
}

/// What programming does to one region, operation by operation. With `s` sectors and `p`
/// pages: unless erasing is skipped, the sectors are erased and that is reported; the pages
/// are programmed, each with a report of its size, and the end is reported; if it is asked
/// for, the pages are compared.
pub proof fn law_region_ops(layout: FlashLayout, skip_erasing: bool, verify: bool, i: int)
    ensures
        ({
            let ops = region_ops(layout, skip_erasing, verify);
            let s = layout.sectors@.len();
            let p = layout.pages@.len();
            let programming = if skip_erasing {
                0
            } else {
                s + 1
            };
            let comparing = programming + 2 * p + 1;
            &&& ops.len() == comparing + if verify {
                p
            } else {
                0
            }
            &&& !skip_erasing ==> ops[s as int] == FlashOp::FinishedErasing
            &&& !skip_erasing && 0 <= i < s ==> ops[i] == FlashOp::EraseSector(&layout.sectors@[i])
            &&& ops[comparing - 1] == FlashOp::FinishedProgramming
            &&& 0 <= i < p ==> {
                let page = layout.pages@[i];
                &&& ops[programming + 2 * i] == FlashOp::ProgramPage(&page)
                &&& ops[programming + 2 * i + 1] == (FlashOp::PageProgrammed {
                    size: page.data@.len() as u64,
                })
                &&& verify ==> ops[comparing + i] == FlashOp::VerifyPage(&page)
            }
        }),
{
    if 0 <= i < layout.pages@.len() {
        let ops = program_ops(layout.pages@);
        assert(2 * i / 2 == i && (2 * i + 1) / 2 == i);
        assert(ops[2 * i] == FlashOp::ProgramPage(&layout.pages@[i]));
        assert(ops[2 * i + 1] == (FlashOp::PageProgrammed {
            size: layout.pages@[i].data@.len() as u64,
        }));
    }
}

/// Programming obtains the interface first and only once, and does to each region, in order,
/// what is to be done to it. For no regions there is nothing else to do.
pub proof fn law_program_plan(regions: Seq<HostLoadedRegion>, skip_erasing: bool, verify: bool)
    ensures
        program_plan(regions, skip_erasing, verify) == seq![FlashOp::AcquireInterface]
            + regions.map_values(
            |region: HostLoadedRegion| region_ops(layout_of(region), skip_erasing, verify),
        ).flatten(),
{
    lemma_regions_in_order(regions, skip_erasing, verify);
    regions.map_values(
        |region: HostLoadedRegion| region_ops(layout_of(region), skip_erasing, verify),
    ).lemma_flatten_and_flatten_alt_are_equivalent();
}

proof fn lemma_regions_in_order(
    regions: Seq<HostLoadedRegion>,
    skip_erasing: bool,
    verify: bool,
)
    ensures
        regions_ops(regions, skip_erasing, verify) == regions.map_values(
            |region: HostLoadedRegion| region_ops(layout_of(region), skip_erasing, verify),
        ).flatten_alt(),
    decreases regions.len(),
{
    if regions.len() > 0 {
        let before = regions.drop_last();
        lemma_regions_in_order(before, skip_erasing, verify);
        let parts = regions.map_values(
            |region: HostLoadedRegion| region_ops(layout_of(region), skip_erasing, verify),
        );
        assert(parts.drop_last() =~= before.map_values(
            |region: HostLoadedRegion| region_ops(layout_of(region), skip_erasing, verify),
        ));
    }
}

/// Erasing the chip obtains the interface, erases, and reports that.
pub proof fn law_erase_all_ops()
    ensures
        erase_all_plan() == seq![
            FlashOp::AcquireInterface,
            FlashOp::EraseAll,
            FlashOp::FinishedErasing,
        ],
{
}

/// Whether a run goes on behind an operation: unless it has failed, where a report cannot
/// fail, or was a comparison that found a difference.
pub open spec fn goes_on<E>(op: FlashOp<'_>, outcome: Outcome<E>) -> bool {
    match outcome {
        Outcome::Completed => true,
        Outcome::Mismatch => !(op is VerifyPage),
        Outcome::Failed(_) => op is FinishedErasing || op is PageProgrammed
            || op is FinishedProgramming,
    }
}

/// A run of programming has each operation before it, in order, as long as it goes on, and
/// has succeeded when it went on behind the last.
pub proof fn law_program_goes_on<'a, E>(ops: Seq<FlashOp<'a>>, outcomes: Seq<Outcome<E>>)
    requires
        ops.len() > 0,
        forall|i: int|
            #![trigger outcomes[i]]
            0 <= i < outcomes.len() && i < ops.len() ==> goes_on(ops[i], outcomes[i]),
    ensures
        ({
            let state = program_after(ops, outcomes);
            if outcomes.len() < ops.len() {
                &&& state.remaining == ops.skip(outcomes.len() as int)
                &&& state.result is None
            } else {
                &&& state.remaining.len() == 0
                &&& state.result == Some(Ok::<(), FlashError<E>>(()))
            }
        }),
{
    assert forall|i: int| #![trigger outcomes[i]]
        0 <= i < outcomes.len() && i < ops.len() implies program_verdict(
        ops[i],
        outcomes[i],
    ) is None by {}
    law_program_follows_plan(ops, outcomes);
}

/// A run of programming ends where it does not go on. The error tells what failed, with the
/// address of the sector or page, and why; nothing is done behind it.
pub proof fn law_program_error<'a, E>(ops: Seq<FlashOp<'a>>, outcomes: Seq<Outcome<E>>, k: int)
    requires
        0 <= k < ops.len(),
        k < outcomes.len(),
        forall|i: int|
            #![trigger outcomes[i]]
            0 <= i < k ==> goes_on(ops[i], outcomes[i]),
        !goes_on(ops[k], outcomes[k]),
    ensures
        ({
            let state = program_after(ops, outcomes);
            &&& state.remaining.len() == 0
            &&& state.result matches Some(Err(error)) && match outcomes[k] {
                Outcome::Failed(e) => match ops[k] {
                    FlashOp::EraseAll => error == (FlashError::ChipEraseFailed { source: e }),
                    FlashOp::EraseSector(sector) => error == (FlashError::EraseFailed {
                        sector_address: sector.address,
                        source: e,
                    }),
                    FlashOp::ProgramPage(page) => error == (FlashError::PageWrite {
                        page_address: page.address,
                        source: e,
                    }),
                    _ => error == FlashError::Core(e),
                },
                _ => error == FlashError::<E>::Verify,
            }
        }),
{
    assert forall|i: int| #![trigger outcomes[i]] 0 <= i < k implies program_verdict(
        ops[i],
        outcomes[i],
    ) is None by {}
    law_program_stops_at_first_failure(ops, outcomes, k);
}

/// A run of comparing has each operation before it, in order, as long as it goes on.
pub proof fn law_verify_goes_on<E>(regions: Seq<HostLoadedRegion>, outcomes: Seq<Outcome<E>>)
    requires
        outcomes.len() < verify_plan(regions).len(),
        forall|i: int|
            #![trigger outcomes[i]]
            0 <= i < outcomes.len() ==> goes_on(verify_plan(regions)[i], outcomes[i]),
    ensures
        ({
            let state = verify_after(verify_plan(regions), outcomes);
            &&& state.remaining == verify_plan(regions).skip(outcomes.len() as int)
            &&& state.result is None
        }),
{
    let ops = verify_plan(regions);
    assert forall|i: int| #![trigger outcomes[i]]
        0 <= i < outcomes.len() && i < ops.len() implies verify_verdict(
        ops[i],
        outcomes[i],
    ) is None by {
        assert(ops[i] is AcquireInterface || ops[i] is VerifyPage);
    }
    law_verify_follows_plan(ops, outcomes);
}

} // verus!
