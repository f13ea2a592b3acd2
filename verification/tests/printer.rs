use regmach::code_map::CompiledFunc;
use regmach::const_pool::ConstRef;
use regmach::engine::EngineInner;
use regmach::instr::{Instr, Instruction};
use regmach::printer::{
    DisplayConstRef, DisplayExecProvider, DisplayExecRegister, DisplayExecRegisterSlice, DisplayGlobal, DisplayTarget,
};
use regmach::register::{RegSpan, Register};

#[test]
fn registers_are_shown_by_their_index() {
    assert_eq!(DisplayExecRegister::from_index(0).to_string(), "v0");
    assert_eq!(DisplayExecRegister::from_index(32767).to_string(), "v32767");
    assert_eq!(DisplayExecRegister::from(Register(105)).to_string(), "v105");
    assert_eq!(DisplayExecRegister::from(Register(-3)).to_string(), "v-3");
}

#[test]
fn constants_are_shown_in_hexadecimal() {
    let mut engine = EngineInner::new(16);
    engine.alloc_func(CompiledFunc {
        len_params: 0,
        len_registers: 0,
        instrs: vec![Instruction::Return],
        consts: vec![255, 0xDEAD_BEEF_0000_0001],
    });
    assert_eq!(DisplayConstRef::new(&engine, ConstRef(0)).to_string(), "0xFF");
    assert_eq!(DisplayConstRef::new(&engine, ConstRef(1)).to_string(), "0xDEADBEEF00000001");
    assert_eq!(DisplayExecProvider::new(&engine, Register(7)).to_string(), "v7");
    assert_eq!(DisplayExecProvider::new(&engine, Register(-1)).to_string(), "0xFF");
    assert_eq!(DisplayExecProvider::new(&engine, Register(-2)).to_string(), "0xDEADBEEF00000001");
}

#[test]
fn targets_globals_and_slices_are_shown() {
    assert_eq!(DisplayTarget::from(Instr(12)).to_string(), "#12");
    assert_eq!(DisplayGlobal::from(3u32).to_string(), "global(3)");
    assert_eq!(DisplayExecRegisterSlice::from(RegSpan::new(Register(2)).iter_u16(3)).to_string(), "[v2, v3, v4]");
    assert_eq!(DisplayExecRegisterSlice::from(RegSpan::new(Register(2)).iter_u16(1)).to_string(), "[v2]");
    assert_eq!(DisplayExecRegisterSlice::from(RegSpan::new(Register(2)).iter_u16(0)).to_string(), "[]");
}
