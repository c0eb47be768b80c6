//! The host-side flasher: which operations erase, program and verify the loaded regions.

use vstd::prelude::*;

use crate::layout::{FlashData, FlashLayout, FlashPage, FlashSector, NvmRegion};
use crate::run::{FlashOp, FlashRun, ProgramRun, VerifyRun};

verus! {

/// A region loaded for host-side flash programming.
#[derive(Debug, PartialEq, Eq)]
pub struct HostLoadedRegion {
    /// The memory region being programmed.
    pub region: NvmRegion,
    /// The flash data to program.
    pub data: FlashData,
}

impl HostLoadedRegion {
    /// The flash layout of this region.
    pub open spec fn spec_flash_layout(&self) -> FlashLayout {
        self.data.spec_layout()
    }

    /// Returns the flash layout for this region.
    pub fn flash_layout(&self) -> (layout: &FlashLayout)
        ensures
            *layout == self.spec_flash_layout(),
    {
        self.data.layout()
    }
}

/// What a flasher keeps of the flash algorithm that it stands for.
#[derive(Debug, PartialEq, Eq)]
pub struct RawFlashAlgorithm {
    /// The name of the algorithm.
    pub name: String,
}

/// Erases the sectors in order, then reports it.
pub open spec fn erase_ops<'a>(sectors: Seq<FlashSector>) -> Seq<FlashOp<'a>> {
    Seq::new(sectors.len(), |i: int| FlashOp::EraseSector(&sectors[i])).push(
        FlashOp::FinishedErasing,
    )
}

/// Programs the pages in order, each followed by a report of its size, then reports the end.
pub open spec fn program_ops<'a>(pages: Seq<FlashPage>) -> Seq<FlashOp<'a>> {
    Seq::new(
        2 * pages.len(),
        |i: int|
            if i % 2 == 0 {
                FlashOp::ProgramPage(&pages[i / 2])
            } else {
                FlashOp::PageProgrammed { size: pages[i / 2].data@.len() as u64 }
            },
    ).push(FlashOp::FinishedProgramming)
}

/// Compares the pages in order.
pub open spec fn verify_ops<'a>(pages: Seq<FlashPage>) -> Seq<FlashOp<'a>> {
    Seq::new(pages.len(), |i: int| FlashOp::VerifyPage(&pages[i]))
}

/// What programming does to one region: erase unless told not to, program, and compare if
/// told to.
pub open spec fn region_ops<'a>(layout: FlashLayout, skip_erasing: bool, verify: bool) -> Seq<
    FlashOp<'a>,
> {
    let erasing = if skip_erasing {
        Seq::empty()
    } else {
        erase_ops(layout.sectors@)
    };
    let verifying = if verify {
        verify_ops(layout.pages@)
    } else {
        Seq::empty()
    };
    erasing + program_ops(layout.pages@) + verifying
}

/// What programming does to the regions, one region after the other.
pub open spec fn regions_ops<'a>(
    regions: Seq<HostLoadedRegion>,
    skip_erasing: bool,
    verify: bool,
) -> Seq<FlashOp<'a>>
    decreases regions.len(),
{
    if regions.len() == 0 {
        Seq::empty()
    } else {
        regions_ops(regions.drop_last(), skip_erasing, verify) + region_ops(
            regions.last().spec_flash_layout(),
            skip_erasing,
            verify,
        )
    }
}

/// The operations that program the regions.
pub open spec fn program_plan<'a>(
    regions: Seq<HostLoadedRegion>,
    skip_erasing: bool,
    verify: bool,
) -> Seq<FlashOp<'a>> {
    seq![FlashOp::AcquireInterface] + regions_ops(regions, skip_erasing, verify)
}

/// The pages of the regions, in order.
pub open spec fn all_pages(regions: Seq<HostLoadedRegion>) -> Seq<FlashPage>
    decreases regions.len(),
{
    if regions.len() == 0 {
        Seq::empty()
    } else {
        all_pages(regions.drop_last()) + regions.last().spec_flash_layout().pages@
    }
}

/// The operations that compare the regions with the content of the flash.
pub open spec fn verify_plan<'a>(regions: Seq<HostLoadedRegion>) -> Seq<FlashOp<'a>> {
    seq![FlashOp::AcquireInterface] + verify_ops(all_pages(regions))
}

/// The operations that erase the whole chip.
pub open spec fn erase_all_plan<'a>() -> Seq<FlashOp<'a>> {
    seq![FlashOp::AcquireInterface, FlashOp::EraseAll, FlashOp::FinishedErasing]
}

fn push_erase_ops<'a>(ops: &mut Vec<FlashOp<'a>>, sectors: &'a Vec<FlashSector>)
    ensures
        final(ops)@ == old(ops)@ + erase_ops(sectors@),
{
    let mut i: usize = 0;
    while i < sectors.len()
        invariant
            i <= sectors@.len(),
            ops@ =~= old(ops)@ + erase_ops(sectors@).take(i as int),
        decreases sectors@.len() - i,
    {
        ops.push(FlashOp::EraseSector(&sectors[i]));
        i = i + 1;
    }
    ops.push(FlashOp::FinishedErasing);
}

fn push_program_ops<'a>(ops: &mut Vec<FlashOp<'a>>, pages: &'a Vec<FlashPage>)
    ensures
        final(ops)@ == old(ops)@ + program_ops(pages@),
{
    let mut i: usize = 0;
    while i < pages.len()
        invariant
            i <= pages@.len(),
            ops@ =~= old(ops)@ + program_ops(pages@).take(2 * i),
        decreases pages@.len() - i,
    {
        let page = &pages[i];
        ops.push(FlashOp::ProgramPage(page));
        ops.push(FlashOp::PageProgrammed { size: page.size() });
        i = i + 1;
    }
    ops.push(FlashOp::FinishedProgramming);
}

fn push_verify_ops<'a>(ops: &mut Vec<FlashOp<'a>>, pages: &'a Vec<FlashPage>)
    ensures
        final(ops)@ == old(ops)@ + verify_ops(pages@),
{
    let mut i: usize = 0;
    while i < pages.len()
        invariant
            i <= pages@.len(),
            ops@ =~= old(ops)@ + verify_ops(pages@).take(i as int),
        decreases pages@.len() - i,
    {
        ops.push(FlashOp::VerifyPage(&pages[i]));
        i = i + 1;
    }
}

/// A flasher that uses host-side programming via debug interface commands.
///
/// Instead of loading a flash algorithm into target RAM and executing it, this flasher
/// sends commands directly to the device via the debug interface.
#[derive(Debug, PartialEq, Eq)]
pub struct HostSideFlasher {
    /// The core index to use.
    pub core_index: usize,
    /// The flash algorithm (for metadata like its name).
    pub flash_algorithm: RawFlashAlgorithm,
    /// Regions to program.
    pub regions: Vec<HostLoadedRegion>,
}

impl HostSideFlasher {
    /// Creates a new host-side flasher, which has no regions yet.
    pub fn new(core_index: usize, raw_flash_algorithm: RawFlashAlgorithm) -> (flasher: Self)
        ensures
            flasher.core_index == core_index,
            flasher.flash_algorithm == raw_flash_algorithm,
            flasher.regions@ == Seq::<HostLoadedRegion>::empty(),
    {
        HostSideFlasher {
            core_index,
            flash_algorithm: raw_flash_algorithm,
            regions: Vec::new(),
        }
    }

    /// Adds a region to be programmed behind those that were added before.
    ///
    /// `layout` is what became of laying out the region. An error in it is returned, and
    /// nothing is added.
    pub fn add_region<B>(&mut self, region: NvmRegion, layout: Result<FlashLayout, B>) -> (result:
        Result<(), B>)
        ensures
            final(self).core_index == old(self).core_index,
            final(self).flash_algorithm == old(self).flash_algorithm,
            match layout {
                Ok(layout) => {
                    &&& result == Ok::<(), B>(())
                    &&& final(self).regions@ == old(self).regions@.push(
                        HostLoadedRegion { region, data: FlashData::Raw(layout) },
                    )
                },
                Err(e) => {
                    &&& result == Err::<(), B>(e)
                    &&& final(self).regions@ == old(self).regions@
                },
            },
    {
        match layout {
            Ok(layout) => {
                self.regions.push(HostLoadedRegion { region, data: FlashData::Raw(layout) });
                Ok(())
            },
            Err(e) => Err(e),
        }
    }

    /// Returns the name of the flash algorithm.
    pub fn algorithm_name(&self) -> (name: &str)
        ensures
            name@ == self.flash_algorithm.name@,
    {
        self.flash_algorithm.name.as_str()
    }

    /// Host-side flashers don't support double buffering.
    pub fn double_buffering_supported(&self) -> (supported: bool)
        ensures
            !supported,
    {
        false
    }

    /// Checks if chip erase is supported, which it always is.
    pub fn is_chip_erase_supported(&self) -> (supported: bool)
        ensures
            supported,
    {
        true
    }

    /// Starts a run that erases the whole chip.
    pub fn run_erase_all<E>(&self) -> (run: ProgramRun<'_, E>)
        ensures
            run@.remaining == erase_all_plan(),
            run@.result is None,
    {
        let mut ops: Vec<FlashOp<'_>> = Vec::new();
        ops.push(FlashOp::AcquireInterface);
        ops.push(FlashOp::EraseAll);
        ops.push(FlashOp::FinishedErasing);
        assert(ops@ =~= erase_all_plan());
        FlashRun::start(ops)
    }

    /// Starts a run that programs the regions.
    ///
    /// Region by region, in the order in which they were added: the sectors are erased,
    /// unless `skip_erasing` is set; the pages are programmed; and if `verify` is set, the
    /// pages are compared with the content of the flash.
    pub fn program<E>(
        &self,
        _restore_unwritten_bytes: bool,
        _enable_double_buffering: bool,
        skip_erasing: bool,
        verify: bool,
    ) -> (run: ProgramRun<'_, E>)
        ensures
            run@.remaining == program_plan(self.regions@, skip_erasing, verify),
            run@.result is None,
    {
        let mut ops: Vec<FlashOp<'_>> = Vec::new();
        ops.push(FlashOp::AcquireInterface);
        let mut i: usize = 0;
        while i < self.regions.len()
            invariant
                i <= self.regions@.len(),
                ops@ =~= program_plan(self.regions@.take(i as int), skip_erasing, verify),
            decreases self.regions@.len() - i,
        {
            let layout = self.regions[i].flash_layout();
            if !skip_erasing {
                push_erase_ops(&mut ops, &layout.sectors);
            }
            push_program_ops(&mut ops, &layout.pages);
            if verify {
                push_verify_ops(&mut ops, &layout.pages);
            }
            assert(self.regions@.take(i + 1).drop_last() =~= self.regions@.take(i as int));
            i = i + 1;
        }
        assert(self.regions@.take(i as int) =~= self.regions@);
        FlashRun::start(ops)
    }

    /// Starts a run that compares the regions with the content of the flash.
    ///
    /// The run ends with `true` if all pages verify successfully, with `false` otherwise.
    pub fn verify<E>(&self, _ignore_filled: bool) -> (run: VerifyRun<'_, E>)
        ensures
            run@.remaining == verify_plan(self.regions@),
            run@.result is None,
    {
        let mut ops: Vec<FlashOp<'_>> = Vec::new();
        ops.push(FlashOp::AcquireInterface);
        let mut i: usize = 0;
        while i < self.regions.len()
            invariant
                i <= self.regions@.len(),
                ops@ =~= verify_plan(self.regions@.take(i as int)),
            decreases self.regions@.len() - i,
        {
            let layout = self.regions[i].flash_layout();
            push_verify_ops(&mut ops, &layout.pages);
            assert(self.regions@.take(i + 1).drop_last() =~= self.regions@.take(i as int));
            i = i + 1;
        }
        assert(self.regions@.take(i as int) =~= self.regions@);
        FlashRun::start(ops)
    }
}

} // verus!
