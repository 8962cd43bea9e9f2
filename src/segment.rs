//! Segment descriptors of the global descriptor table.
use vstd::prelude::*;

verus! {

/// Intel x86 segment descriptor.
#[derive(Default, Debug, Clone, Copy, PartialEq, Eq, Structural)]
pub struct Seg {
    /// Is the segment present?
    pub present: bool,
    /// Segment selector.
    pub selector: u16,
    /// Base address.
    pub base: u64,
    /// Limit.
    pub limit: u32,
    /// Segment attributes.
    pub attr: u16,
}

/// The limit of a descriptor: bits 0..=15, then bits 48..=51 above them.
pub open spec fn descriptor_limit(v: u128) -> u32 {
    ((v & 0xffff) | (((v >> 48u128) & 0xf) << 16u128)) as u32
}

/// Whether a descriptor describes a system segment (its S bit, bit 44, is clear).
pub open spec fn descriptor_is_system(v: u128) -> bool {
    (v >> 44u128) & 1 == 0
}

/// The base of a descriptor: bits 16..=39, then bits 56..=63; a system
/// descriptor, 16 bytes long, adds bits 64..=95 as the upper half.
pub open spec fn descriptor_base(v: u128) -> u64 {
    let low = ((v >> 16u128) & 0xff_ffff) | (((v >> 56u128) & 0xff) << 24u128);
    if descriptor_is_system(v) {
        (low | (((v >> 64u128) & 0xffff_ffff) << 32u128)) as u64
    } else {
        low as u64
    }
}

/// The present flag of a descriptor: bit 47.
pub open spec fn descriptor_present(v: u128) -> bool {
    (v >> 47u128) & 1 == 1
}

/// The attributes of a descriptor: bits 40..=55.
pub open spec fn descriptor_attr(v: u128) -> u16 {
    ((v >> 40u128) & 0xffff) as u16
}

impl Seg {
    /// Build a [`Seg`] from a `selector` and its raw value as read in the GDT.
    pub fn from_descriptor(selector: u64, value: u128) -> (r: Self)
        ensures
            r.limit == descriptor_limit(value),
            r.base == descriptor_base(value),
            r.present == descriptor_present(value),
            r.attr == descriptor_attr(value),
            r.selector == selector as u16,
    {
        let limit = ((value & 0xffff) | (((value >> 48u128) & 0xf) << 16u128)) as u32;
        let mut base = ((value >> 16u128) & 0xff_ffff) | (((value >> 56u128) & 0xff) << 24u128);
        let present = (value >> 47u128) & 1 == 1;
        let attr = ((value >> 40u128) & 0xffff) as u16;
        let non_system = (value >> 44u128) & 1;
        if non_system == 0 {
            base = base | (((value >> 64u128) & 0xffff_ffff) << 32u128);
        }
        Seg { present, selector: selector as u16, base: base as u64, limit, attr }
    }
}

/// Why a selector's descriptor cannot be read off the GDT.
#[derive(Clone, Copy, Debug, PartialEq, Eq, Structural)]
pub enum GdtError {
    /// The selector's table indicator names the LDT.
    LocalTableSelector,
    /// The selector's index lies past the table's limit.
    IndexOutOfRange { index: u64, max_index: u64 },
    /// The entry's address does not fit in 64 bits.
    AddressOverflow,
}

/// The table indicator of a selector: bit 2 (0 for the GDT, 1 for the LDT).
pub open spec fn selector_table(selector: u64) -> u64 {
    (selector >> 2u64) & 1
}

/// The descriptor index of a selector: bits 3..=15.
pub open spec fn selector_index(selector: u64) -> u64 {
    (selector >> 3u64) & 0x1fff
}

/// Where the descriptor of `selector` lies in a GDT at `gdt_base` whose
/// limit is `gdt_limit`: eight bytes per entry, the limit being the offset
/// of the table's last byte.
pub open spec fn gdt_entry_address_spec(gdt_base: u64, gdt_limit: u16, selector: u64) -> Result<u64, GdtError> {
    let index = selector_index(selector);
    let max_index = ((gdt_limit as int + 1) / 8) as u64;
    if selector_table(selector) != 0 {
        Err(GdtError::LocalTableSelector)
    } else if index >= max_index {
        Err(GdtError::IndexOutOfRange { index, max_index })
    } else if gdt_base as int + index as int * 8 > u64::MAX as int {
        Err(GdtError::AddressOverflow)
    } else {
        Ok((gdt_base as int + index as int * 8) as u64)
    }
}

/// The address of the GDT entry of `selector`, to read the descriptor from.
/// A GDT limit is always one less than a multiple of eight.
pub fn gdt_entry_address(gdt_base: u64, gdt_limit: u16, selector: u64) -> (r: Result<u64, GdtError>)
    requires
        (gdt_limit as int + 1) % 8 == 0,
    ensures
        r == gdt_entry_address_spec(gdt_base, gdt_limit, selector),
{
    let ti = (selector >> 2u64) & 1;
    if ti != 0 {
        return Err(GdtError::LocalTableSelector);
    }
    let index = (selector >> 3u64) & 0x1fff;
    assert((selector >> 3u64) & 0x1fff <= 0x1fff) by (bit_vector);
    let max_index = (gdt_limit as u64 + 1) / 8;
    if index >= max_index {
        return Err(GdtError::IndexOutOfRange { index, max_index });
    }
    let offset = index * 8;
    if gdt_base > u64::MAX - offset {
        return Err(GdtError::AddressOverflow);
    }
    Ok(gdt_base + offset)
}

} // verus!
