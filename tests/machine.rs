use gbcore::cartridge::{RomOnlyCartridge, ROM_SIZE};
use gbcore::memory::{ReadOnlyMemory, ReadWriteMemory};
use gbcore::processor::Processor;

#[test]
fn cartridge_reads_and_writes() {
    let mut rom = [0u8; ROM_SIZE];
    rom[0x0100] = 0x34;
    rom[0x0101] = 0x12;
    let mut cartridge = RomOnlyCartridge::new(rom);
    assert_eq!(cartridge.read(0x0100), 0x34);
    assert_eq!(cartridge.read_wide(0x0100), 0x1234);
    cartridge.write_wide(0x2000, 0xBEEF);
    assert_eq!(cartridge.read(0x2000), 0xEF);
    assert_eq!(cartridge.read(0x2001), 0xBE);
    cartridge.write(0x2001, 0x01);
    assert_eq!(cartridge.read_wide(0x2000), 0x01EF);
}

#[test]
fn processor_starts_after_boot() {
    let mut processor = Processor::new();
    assert_eq!(processor.af, 0x01B0);
    assert_eq!(processor.bc, 0x0013);
    assert_eq!(processor.de, 0x00D8);
    assert_eq!(processor.hl, 0x014D);
    assert_eq!(processor.program_counter, 0x0100);
    assert_eq!(processor.stack_pointer, 0xFFFE);
    processor.tick();
    assert_eq!(processor.program_counter, 0x0100);
}
