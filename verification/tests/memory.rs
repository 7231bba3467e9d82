use minicpu::isa::Instr;
use minicpu::memory::{AddressError, LoadError, Memory};

#[test]
fn new_memory_is_zeroed() {
    let m = Memory::new(32);
    assert_eq!(m.len(), 32);
    for a in 0..32 {
        assert_eq!(m.read(a), Ok(0));
    }
}

#[test]
fn read_and_write_in_bounds() {
    let mut m = Memory::new(8);
    assert_eq!(m.write(5, 99), Ok(()));
    assert_eq!(m.read(5), Ok(99));
    assert_eq!(m.read(4), Ok(0));
}

#[test]
fn read_and_write_out_of_bounds_fail() {
    let mut m = Memory::new(8);
    assert_eq!(m.read(8), Err(AddressError));
    assert_eq!(m.read(1000), Err(AddressError));
    assert_eq!(m.write(8, 1), Err(AddressError));
    assert_eq!(m.read(7), Ok(0));
}

#[test]
fn load_program_writes_little_endian_slots() {
    let mut m = Memory::new(16);
    let prog = vec![Instr::Mov(0, 3), Instr::Str(3, 10)];
    assert_eq!(m.load_program(&prog), Ok(()));
    // Mov(0, 3) encodes as 0x2003, Str(3, 10) as 0x630A, low byte first.
    assert_eq!(m.read(0), Ok(0x03));
    assert_eq!(m.read(1), Ok(0x20));
    assert_eq!(m.read(2), Ok(0x0A));
    assert_eq!(m.read(3), Ok(0x63));
    for a in 4..16 {
        assert_eq!(m.read(a), Ok(0));
    }
}

#[test]
fn load_program_preserves_cells_past_the_program() {
    let mut m = Memory::new(8);
    assert_eq!(m.write(6, 55), Ok(()));
    let prog = vec![Instr::Mov(1, 1)];
    assert_eq!(m.load_program(&prog), Ok(()));
    assert_eq!(m.read(6), Ok(55));
}

#[test]
fn load_program_that_exactly_fits_succeeds() {
    let mut m = Memory::new(4);
    let prog = vec![Instr::Mov(0, 1), Instr::Mov(1, 2)];
    assert_eq!(m.load_program(&prog), Ok(()));
}

#[test]
fn load_program_too_large_fails_and_writes_nothing() {
    let mut m = Memory::new(3);
    let prog = vec![Instr::Mov(0, 1), Instr::Mov(1, 2)];
    assert_eq!(m.load_program(&prog), Err(LoadError));
    for a in 0..3 {
        assert_eq!(m.read(a), Ok(0));
    }
}
