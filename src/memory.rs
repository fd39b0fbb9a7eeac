use vstd::prelude::*;

verus! {

/// Number of bytes of the address space backed by memory.
pub const MEM_SIZE: usize = 0x1FFF;

/// Where an image is placed in memory, and where execution starts.
pub const LOAD_ADDR: usize = 0x1000;

/// Address lines wired on the processor bus.
pub const BUS_MASK: u16 = 0x1FFF;

/// Address lines that the peripheral chip decodes.
pub const PERIPHERAL_MASK: u16 = 0x10BF;

/// Bus translation: a 16-bit address masked down to the physical bus.
pub fn translate_addr(addr: u16) -> (r: u16)
    ensures
        r == addr & BUS_MASK,
        r <= BUS_MASK,
{
    assert(addr & 0x1FFFu16 <= 0x1FFFu16) by (bit_vector);
    addr & BUS_MASK
}

/// Peripheral translation: the register of the peripheral chip that an
/// address reaches, which only a subset of the address lines selects.
pub fn translate_for_tia(addr: u16) -> (r: u16)
    ensures
        r == addr & PERIPHERAL_MASK,
        r <= PERIPHERAL_MASK,
{
    assert(addr & 0x10BFu16 <= 0x10BFu16) by (bit_vector);
    addr & PERIPHERAL_MASK
}

/// The memory image of a cartridge: `rom` placed at `LOAD_ADDR`, cut off at
/// the end of memory, and zero everywhere else.
pub open spec fn image_mem(rom: Seq<u8>) -> Seq<u8> {
    Seq::new(
        MEM_SIZE as nat,
        |i: int|
            if LOAD_ADDR <= i < LOAD_ADDR + rom.len() {
                rom[i - LOAD_ADDR]
            } else {
                0u8
            },
    )
}

/// Places a cartridge image in a fresh memory at `LOAD_ADDR`. Bytes past the
/// end of the image stay zero; bytes of the image past the end of memory
/// are dropped.
pub fn write_rom_to_mem(rom: Vec<u8>) -> (mem: [u8; MEM_SIZE])
    ensures
        mem@ == image_mem(rom@),
{
    let mut mem: [u8; MEM_SIZE] = [0u8; MEM_SIZE];
    let mut mi: usize = LOAD_ADDR;
    let mut ri: usize = 0;
    while mi < MEM_SIZE && ri < rom.len()
        invariant
            LOAD_ADDR <= mi <= MEM_SIZE,
            ri == mi - LOAD_ADDR,
            ri <= rom@.len(),
            mem@.len() == MEM_SIZE,
            forall|i: int|
                0 <= i < MEM_SIZE ==> #[trigger] mem@[i] == if LOAD_ADDR <= i < mi {
                    rom@[i - LOAD_ADDR]
                } else {
                    0u8
                },
        decreases MEM_SIZE - mi,
    {
        mem[mi] = rom[ri];
        mi += 1;
        ri += 1;
    }
    assert(mem@ =~= image_mem(rom@));
    mem
}

} // verus!
