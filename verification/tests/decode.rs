use chip8::errors::DecodeError;
use chip8::instructions::Instruction;

#[test]
fn try_into_test_1nnn() {
    let opcode = 0x1FA3;
    let instr = Instruction::try_from(opcode).unwrap();
    if let Instruction::FlowJump(addr) = instr {
        assert_eq!(addr, 0xFA3);
    } else {
        panic!(
            "Opcode: {:?} failed to parse into correct instruction. Got {:?}",
            opcode, instr
        );
    }
}

#[test]
fn try_into_test_2nnn() {
    let opcode = 0x2A02;
    let instr = Instruction::try_from(opcode).unwrap();
    if let Instruction::FlowCall(addr) = instr {
        assert_eq!(addr, 0xA02);
    } else {
        panic!(
            "Opcode: {:?} failed to parse into correct instruction. Got {:?}",
            opcode, instr
        );
    }
}

#[test]
fn try_into_test_3xnn() {
    let opcode = 0x3B22;
    let instr = Instruction::try_from(opcode).unwrap();
    if let Instruction::CondVxNNEq(reg, byte) = instr {
        assert_eq!(reg, 0xB);
        assert_eq!(byte, 0x22);
    } else {
        panic!(
            "Opcode: {:?} failed to parse into correct instruction. Got {:?}",
            opcode, instr
        );
    }
}

#[test]
fn try_into_test_4xnn() {
    let opcode = 0x4C37;
    let instr = Instruction::try_from(opcode).unwrap();
    if let Instruction::CondVxNNNeq(reg, byte) = instr {
        assert_eq!(reg, 0xC);
        assert_eq!(byte, 0x37);
    } else {
        panic!(
            "Opcode: {:?} failed to parse into correct instruction. Got {:?}",
            opcode, instr
        );
    }
}

#[test]
fn try_into_test_5xy0() {
    let opcode = 0x5CA0;
    let instr = Instruction::try_from(opcode).unwrap();
    if let Instruction::CondVxVyEq(x, y) = instr {
        assert_eq!(x, 0xC);
        assert_eq!(y, 0xA);
    } else {
        panic!(
            "Opcode: {:?} failed to parse into correct instruction. Got {:?}",
            opcode, instr
        );
    }
}

#[test]
fn try_into_test_6xnn() {
    let opcode = 0x65D7;
    let instr = Instruction::try_from(opcode).unwrap();
    if let Instruction::ConstVxNN(reg, byte) = instr {
        assert_eq!(reg, 0x5);
        assert_eq!(byte, 0xD7);
    } else {
        panic!(
            "Opcode: {:?} failed to parse into correct instruction. Got {:?}",
            opcode, instr
        );
    }
}

#[test]
fn try_into_test_7xnn() {
    let opcode = 0x7E15;
    let instr = Instruction::try_from(opcode).unwrap();
    if let Instruction::ConstVxAddNN(reg, byte) = instr {
        assert_eq!(reg, 0xE);
        assert_eq!(byte, 0x15);
    } else {
        panic!(
            "Opcode: {:?} failed to parse into correct instruction. Got {:?}",
            opcode, instr
        );
    }
}

#[test]
fn try_into_test_8xyn() {
    // 8xy0
    let opcode = 0x8420;
    let instr = Instruction::try_from(opcode).unwrap();
    if let Instruction::AssignVxVy(x, y) = instr {
        assert_eq!(x, 0x4);
        assert_eq!(y, 0x2);
    } else {
        panic!(
            "Opcode: {:?} failed to parse into correct instruction. Got {:?}",
            opcode, instr
        );
    }

    // 8xy1
    let opcode = 0x8611;
    let instr = Instruction::try_from(opcode).unwrap();
    if let Instruction::BitOpOR(x, y) = instr {
        assert_eq!(x, 0x6);
        assert_eq!(y, 0x1);
    } else {
        panic!(
            "Opcode: {:?} failed to parse into correct instruction. Got {:?}",
            opcode, instr
        );
    }

    // 8xy2
    let opcode = 0x8DA2;
    let instr = Instruction::try_from(opcode).unwrap();
    if let Instruction::BitOpAND(x, y) = instr {
        assert_eq!(x, 0xD);
        assert_eq!(y, 0xA);
    } else {
        panic!(
            "Opcode: {:?} failed to parse into correct instruction. Got {:?}",
            opcode, instr
        );
    }

    // 8xy3
    let opcode = 0x8543;
    let instr = Instruction::try_from(opcode).unwrap();
    if let Instruction::BitOpXOR(x, y) = instr {
        assert_eq!(x, 0x5);
        assert_eq!(y, 0x4);
    } else {
        panic!(
            "Opcode: {:?} failed to parse into correct instruction. Got {:?}",
            opcode, instr
        );
    }

    // 8xy4
    let opcode = 0x8AE4;
    let instr = Instruction::try_from(opcode).unwrap();
    if let Instruction::MathVxVyAdd(x, y) = instr {
        assert_eq!(x, 0xA);
        assert_eq!(y, 0xE);
    } else {
        panic!(
            "Opcode: {:?} failed to parse into correct instruction. Got {:?}",
            opcode, instr
        );
    }

    // 8xy5
    let opcode = 0x8715;
    let instr = Instruction::try_from(opcode).unwrap();
    if let Instruction::MathVxVySub(x, y) = instr {
        assert_eq!(x, 0x7);
        assert_eq!(y, 0x1);
    } else {
        panic!(
            "Opcode: {:?} failed to parse into correct instruction. Got {:?}",
            opcode, instr
        );
    }

    // 8xy6
    let opcode = 0x8166;
    let instr = Instruction::try_from(opcode).unwrap();
    if let Instruction::BitOpShiftRight(x, y) = instr {
        assert_eq!(x, 0x1);
        assert_eq!(y, 0x6);
    } else {
        panic!(
            "Opcode: {:?} failed to parse into correct instruction. Got {:?}",
            opcode, instr
        );
    }

    // 8xy7
    let opcode = 0x8297;
    let instr = Instruction::try_from(opcode).unwrap();
    if let Instruction::MathVyVxSub(x, y) = instr {
        assert_eq!(x, 0x2);
        assert_eq!(y, 0x9);
    } else {
        panic!(
            "Opcode: {:?} failed to parse into correct instruction. Got {:?}",
            opcode, instr
        );
    }

    // 8xyE
    let opcode = 0x893E;
    let instr = Instruction::try_from(opcode).unwrap();
    if let Instruction::BitOpShiftLeft(x, y) = instr {
        assert_eq!(x, 0x9);
        assert_eq!(y, 0x3);
    } else {
        panic!(
            "Opcode: {:?} failed to parse into correct instruction. Got {:?}",
            opcode, instr
        );
    }
}

#[test]
fn decode_zero_family_literals() {
    assert_eq!(
        Instruction::try_from(0x00E0).unwrap(),
        Instruction::DisplayClear
    );
    assert_eq!(
        Instruction::try_from(0x00EE).unwrap(),
        Instruction::FlowReturn
    );
}

#[test]
fn decode_9xy0() {
    assert_eq!(
        Instruction::try_from(0x9AB0).unwrap(),
        Instruction::CondVxVyNeq(0xA, 0xB)
    );
}

#[test]
fn decode_annn() {
    assert_eq!(
        Instruction::try_from(0xA123).unwrap(),
        Instruction::MemSetIAddress(0x123)
    );
}

#[test]
fn decode_bnnn() {
    assert_eq!(
        Instruction::try_from(0xBF00).unwrap(),
        Instruction::FlowJumpOffsetV0(0xF00)
    );
}

#[test]
fn decode_cxnn() {
    assert_eq!(
        Instruction::try_from(0xC733).unwrap(),
        Instruction::RandomANDVxNN(0x7, 0x33)
    );
}

#[test]
fn decode_dxyn() {
    assert_eq!(
        Instruction::try_from(0xD125).unwrap(),
        Instruction::DrawSprite(0x1, 0x2, 0x5)
    );
}

#[test]
fn decode_ex_family() {
    assert_eq!(
        Instruction::try_from(0xE39E).unwrap(),
        Instruction::KeyOpKeyPressed(0x3)
    );
    assert_eq!(
        Instruction::try_from(0xE5A1).unwrap(),
        Instruction::KeyOpKeyNotPressed(0x5)
    );
}

#[test]
fn decode_fx_family() {
    assert_eq!(
        Instruction::try_from(0xF107).unwrap(),
        Instruction::DelayTimerSaveVx(0x1)
    );
    assert_eq!(
        Instruction::try_from(0xF20A).unwrap(),
        Instruction::KeyOpGetKey(0x2)
    );
    assert_eq!(
        Instruction::try_from(0xF315).unwrap(),
        Instruction::DelayTimerSetVx(0x3)
    );
    assert_eq!(
        Instruction::try_from(0xF418).unwrap(),
        Instruction::SoundTimerSetVx(0x4)
    );
    assert_eq!(
        Instruction::try_from(0xF51E).unwrap(),
        Instruction::MemAddIVx(0x5)
    );
    assert_eq!(
        Instruction::try_from(0xF629).unwrap(),
        Instruction::MemSetISprite(0x6)
    );
    assert_eq!(
        Instruction::try_from(0xF733).unwrap(),
        Instruction::BCDSave(0x7)
    );
    assert_eq!(
        Instruction::try_from(0xF855).unwrap(),
        Instruction::MemRegisterDump(0x8)
    );
    assert_eq!(
        Instruction::try_from(0xF265).unwrap(),
        Instruction::MemRegisterLoad(0x2)
    );
}

#[test]
fn decode_shift_right_example() {
    assert_eq!(
        Instruction::try_from(0x8BC6).unwrap(),
        Instruction::BitOpShiftRight(0xB, 0xC)
    );
}

#[test]
fn decode_errors_keep_the_word() {
    // one bad word from every family that can reject
    for opcode in [
        0x0123u16, 0x00E1, 0x00EF, 0x5CA1, 0x8AB8, 0x8009, 0x9121, 0xE000, 0xE09F, 0xEFFF,
        0xF000, 0xF0FF, 0xF108, 0xF066,
    ] {
        let r = Instruction::try_from(opcode);
        assert_eq!(r, Err(DecodeError { code: opcode }));
    }
}
