//! What is to be written to flash: memory regions, their sectors and their pages.

use vstd::prelude::*;

verus! {

/// A region of non-volatile memory.
#[derive(Debug, PartialEq, Eq)]
pub struct NvmRegion {
    /// A name to tell the region by.
    pub name: Option<String>,
    /// The first address of the region.
    pub start: u64,
    /// The first address behind the region.
    pub end: u64,
}

/// A sector of flash, the unit in which flash is erased.
#[derive(Debug, PartialEq, Eq)]
pub struct FlashSector {
    /// The address of the first byte.
    pub address: u64,
    /// The number of bytes.
    pub size: u64,
}

impl FlashSector {
    /// Returns the address of the first byte.
    pub fn address(&self) -> (address: u64)
        ensures
            address == self.address,
    {
        self.address
    }

    /// Returns the number of bytes.
    pub fn size(&self) -> (size: u64)
        ensures
            size == self.size,
    {
        self.size
    }
}

/// A page of flash with the bytes it is to hold, the unit in which flash is programmed.
#[derive(Debug, PartialEq, Eq)]
pub struct FlashPage {
    /// The address of the first byte.
    pub address: u64,
    /// The bytes of the page.
    pub data: Vec<u8>,
}

impl FlashPage {
    /// Returns the address of the first byte.
    pub fn address(&self) -> (address: u64)
        ensures
            address == self.address,
    {
        self.address
    }

    /// Returns the bytes of the page.
    pub fn data(&self) -> (data: &[u8])
        ensures
            data@ == self.data@,
    {
        self.data.as_slice()
    }

    /// Returns the number of bytes.
    pub fn size(&self) -> (size: u64)
        ensures
            size == self.data@.len(),
    {
        self.data.len() as u64
    }
}

/// The sectors to erase and the pages to program, each in the order in which that is done.
#[derive(Debug, PartialEq, Eq)]
pub struct FlashLayout {
    /// The sectors that are erased.
    pub sectors: Vec<FlashSector>,
    /// The pages that are programmed.
    pub pages: Vec<FlashPage>,
}

impl FlashLayout {
    /// Returns the sectors that are erased.
    pub fn sectors(&self) -> (sectors: &[FlashSector])
        ensures
            sectors@ == self.sectors@,
    {
        self.sectors.as_slice()
    }

    /// Returns the pages that are programmed.
    pub fn pages(&self) -> (pages: &[FlashPage])
        ensures
            pages@ == self.pages@,
    {
        self.pages.as_slice()
    }
}

/// The content of a region in the form in which it is sent to the device.
#[derive(Debug, PartialEq, Eq)]
pub enum FlashData {
    /// The bytes as they are.
    Raw(FlashLayout),
}

impl FlashData {
    /// The layout of the content.
    pub open spec fn spec_layout(&self) -> FlashLayout {
        match self {
            FlashData::Raw(layout) => *layout,
        }
    }

    /// Returns the layout of the content.
    pub fn layout(&self) -> (layout: &FlashLayout)
        ensures
            *layout == self.spec_layout(),
    {
        match self {
            FlashData::Raw(layout) => layout,
        }
    }
}

} // verus!
