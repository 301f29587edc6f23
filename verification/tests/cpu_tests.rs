use mos6502::cpu::{RunError, CPU};
use mos6502::flags::{
    FLAG_CARRY, FLAG_DECIMAL, FLAG_INTERRUPT, FLAG_NEGATIVE, FLAG_OVERFLOW, FLAG_ZERO,
};

fn run<F>(program: Vec<u8>, f: F) -> CPU
where
    F: Fn(&mut CPU),
{
    let mut cpu = CPU::new();
    cpu.load(program);
    cpu.reset();
    f(&mut cpu);
    let _ = cpu.run();
    cpu
}

fn assert_status(cpu: &CPU, flags: u8) {
    assert_eq!(cpu.status, flags)
}

#[test]
fn test_0xa9_lda_immediate_load_data() {
    let mut cpu = CPU::new();
    let _ = cpu.load_and_run(vec![0xa9, 0x05, 0x00]);

    assert_eq!(cpu.register_a, 0x05);
    assert!(cpu.status & 0b0000_0010 == 0b0000_0000);
    assert!(cpu.status & 0b1000_0000 == 0b0000_0000);
}

#[test]
fn test_0xa9_lda_zero_flag() {
    let mut cpu = CPU::new();
    let _ = cpu.load_and_run(vec![0xa9, 0x00, 0x00]);

    assert!(cpu.status & 0b0000_0010 == 0b10);
}

#[test]
fn test_0xa9_lda_negative_flag() {
    let mut cpu = CPU::new();
    let _ = cpu.load_and_run(vec![0xa9, 0x80, 0x00]);

    assert!(cpu.status & 0b1000_0010 != 0);
}

#[test]
fn test_0xaa_tax_move_a_to_x() {
    let cpu = run(vec![0xaa, 0x00], |cpu| {
        cpu.register_a = 10;
    });
    assert_eq!(cpu.register_x, 10);
}

#[test]
fn test_5_ops_working_together() {
    let cpu = run(vec![0xa9, 0xc0, 0xaa, 0xe8, 0x00], |_| {});
    assert_eq!(cpu.register_x, 0xc1);
}

#[test]
fn test_inx_overflow() {
    let mut cpu = CPU::new();

    cpu.load(vec![0xe8, 0xe8, 0x00]);
    cpu.reset();

    cpu.register_x = 0xff;
    let _ = cpu.run();

    assert_eq!(cpu.register_x, 1);
}

#[test]
fn test_lda_from_memory_zero_page() {
    let mut cpu = CPU::new();
    cpu.mem_write(0x10, 0x55);

    let _ = cpu.load_and_run(vec![0xa5, 0x10, 0x00]);

    assert_eq!(cpu.register_a, 0x55);
}

#[test]
fn test_lda_from_memory_zero_page_x() {
    let mut cpu = CPU::new();
    cpu.load(vec![0xb5, 0x10, 0x00]);
    cpu.reset();
    cpu.mem_write(0x11, 0x56);
    cpu.register_x = 1;
    let _ = cpu.run();

    assert_eq!(cpu.register_a, 0x56);
}

#[test]
fn test_lda_from_memory_absolute() {
    let mut cpu = CPU::new();
    cpu.load(vec![0xAD, 0x10, 0xAA, 0x00]);
    cpu.reset();
    cpu.mem_write(0xAA10, 0x57);
    let _ = cpu.run();

    assert_eq!(cpu.register_a, 0x57);
}

#[test]
fn test_lda_from_memory_absolute_x() {
    let mut cpu = CPU::new();
    cpu.load(vec![0xBD, 0x10, 0xAA, 0x00]);
    cpu.reset();
    cpu.mem_write(0xAA15, 0x58);
    cpu.register_x = 0x05;
    let _ = cpu.run();

    assert_eq!(cpu.register_a, 0x58);
}

#[test]
fn test_lda_from_memory_absolute_y() {
    let mut cpu = CPU::new();
    cpu.load(vec![0xB9, 0x10, 0xAA, 0x00]);
    cpu.reset();
    cpu.mem_write(0xAA18, 0x59);
    cpu.register_y = 0x08;
    let _ = cpu.run();

    assert_eq!(cpu.register_a, 0x59);
}

#[test]
fn test_lda_from_memory_indirect_x() {
    let mut cpu = CPU::new();
    cpu.load(vec![0xA1, 0x10, 0x00]);
    cpu.reset();
    cpu.mem_write(0x18, 0x05);
    cpu.mem_write(0x19, 0xFF);
    cpu.mem_write(0xFF05, 0x5A);
    cpu.register_x = 0x08;
    let _ = cpu.run();

    assert_eq!(cpu.register_a, 0x5A);
}

#[test]
fn test_lda_from_memory_indirect_y() {
    let mut cpu = CPU::new();
    cpu.load(vec![0xB1, 0x10, 0x00]);
    cpu.reset();
    cpu.mem_write(0x10, 0x06);
    cpu.mem_write(0x11, 0xFF);
    cpu.mem_write(0xFF09, 0x5B);
    cpu.register_y = 0x03;
    let _ = cpu.run();

    assert_eq!(cpu.register_a, 0x5B);
}

#[test]
fn test_memory() {
    let mut cpu = CPU::new();
    cpu.mem_write(0x007, 0x06);
    assert_eq!(cpu.mem_read(0x007), 0x06);
}

#[test]
fn test_sta_from_memory() {
    let mut cpu = CPU::new();
    cpu.load(vec![0x85, 0x10, 0x00]);
    cpu.reset();
    cpu.register_a = 0xBA;
    let _ = cpu.run();

    assert_eq!(cpu.mem_read(0x10), 0xBA);
}

#[test]
fn test_adc_no_carry() {
    let mut cpu = CPU::new();
    cpu.load(vec![0x69, 0x10, 0x00]);
    cpu.reset();
    cpu.register_a = 0x20;
    let _ = cpu.run();

    assert_eq!(cpu.register_a, 0x30);
    assert_eq!(cpu.status, 0x00);
}

#[test]
fn test_adc_has_carry() {
    let mut cpu = CPU::new();
    cpu.load(vec![0x69, 0x10, 0x00]);
    cpu.reset();
    cpu.register_a = 0x20;
    cpu.status = 0b0000_0001;
    let _ = cpu.run();

    assert_eq!(cpu.register_a, 0x31);
    assert_eq!(cpu.status, 0x00);
}

#[test]
fn test_adc_occur_carry() {
    let mut cpu = CPU::new();
    cpu.load(vec![0x69, 0x01, 0x00]);
    cpu.reset();
    cpu.register_a = 0xFF;
    let _ = cpu.run();

    assert_eq!(cpu.register_a, 0x00);
    assert_status(&cpu, FLAG_CARRY | FLAG_ZERO);
}

#[test]
fn test_adc_occur_overflow_plus() {
    let mut cpu = CPU::new();
    cpu.load(vec![0x69, 0x10, 0x00]);
    cpu.reset();
    cpu.register_a = 0x7F;
    let _ = cpu.run();

    assert_eq!(cpu.register_a, 0x8F);
    assert_status(&cpu, FLAG_NEGATIVE | FLAG_OVERFLOW);
}

#[test]
fn test_adc_occur_overflow_plus_with_carry() {
    let mut cpu = CPU::new();
    cpu.load(vec![0x69, 0x6F, 0x00]);
    cpu.reset();
    cpu.register_a = 0x10;
    cpu.status = 0x01;
    let _ = cpu.run();

    assert_eq!(cpu.register_a, 0x80);
    assert_eq!(cpu.status, 0xC0);
}

#[test]
fn test_adc_occur_overflow_minus() {
    let mut cpu = CPU::new();
    cpu.load(vec![0x69, 0x81, 0x00]);
    cpu.reset();
    cpu.register_a = 0x81;
    let _ = cpu.run();

    assert_eq!(cpu.register_a, 0x02);
    assert_eq!(cpu.status, 0x41);
}

#[test]
fn test_adc_occur_overflow_minus_with_carry() {
    let mut cpu = CPU::new();
    cpu.load(vec![0x69, 0x80, 0x00]);
    cpu.reset();
    cpu.register_a = 0x80;
    cpu.status = 0x01;
    let _ = cpu.run();

    assert_eq!(cpu.register_a, 0x01);
    assert_eq!(cpu.status, 0x41);
}

#[test]
fn test_adc_no_overflow() {
    let mut cpu = CPU::new();
    cpu.load(vec![0x69, 0x7F, 0x00]);
    cpu.reset();
    cpu.register_a = 0x82;
    let _ = cpu.run();

    assert_eq!(cpu.register_a, 0x01);
    assert_eq!(cpu.status, 0x01);
}

#[test]
fn test_sbc_no_carry() {
    let mut cpu = CPU::new();
    cpu.load(vec![0xE9, 0x10, 0x00]);
    cpu.reset();
    cpu.register_a = 0x20;
    let _ = cpu.run();

    assert_eq!(cpu.register_a, 0x0F);
    assert_eq!(cpu.status, 0x01);
}

#[test]
fn test_sbc_has_carry() {
    let mut cpu = CPU::new();
    cpu.load(vec![0xE9, 0x10, 0x00]);
    cpu.reset();
    cpu.register_a = 0x20;
    cpu.status = 0b0000_0001;
    let _ = cpu.run();

    assert_eq!(cpu.register_a, 0x10);
    assert_eq!(cpu.status, 0x01);
}

#[test]
fn test_sbc_occur_carry() {
    let mut cpu = CPU::new();
    cpu.load(vec![0xE9, 0x02, 0x00]);
    cpu.reset();
    cpu.register_a = 0x01;
    let _ = cpu.run();

    assert_eq!(cpu.register_a, 0xFE);
    assert_eq!(cpu.status, 0x80);
}

#[test]
fn test_sbc_occur_overflow() {
    let mut cpu = CPU::new();
    cpu.load(vec![0xE9, 0x81, 0x00]);
    cpu.reset();
    cpu.register_a = 0x7F;
    let _ = cpu.run();

    assert_eq!(cpu.register_a, 0xFD);
    assert_eq!(cpu.status, 0xC0);
}

#[test]
fn test_sbc_occur_overflow_with_carry() {
    let mut cpu = CPU::new();
    cpu.load(vec![0xE9, 0x81, 0x00]);
    cpu.reset();
    cpu.register_a = 0x7F;
    cpu.status = 0x01;
    let _ = cpu.run();

    assert_eq!(cpu.register_a, 0xFE);
    assert_eq!(cpu.status, 0xC0);
}

#[test]
fn test_sbc_no_overflow() {
    let mut cpu = CPU::new();
    cpu.load(vec![0xE9, 0x7F, 0x00]);
    cpu.reset();
    cpu.register_a = 0x7E;
    cpu.status = 0x01;
    let _ = cpu.run();

    assert_eq!(cpu.register_a, 0xFF);
    assert_eq!(cpu.status, 0x80);
}

#[test]
fn test_and() {
    let cpu = run(vec![0x29, 0x0C, 0x00], |cpu| {
        cpu.register_a = 0x0A;
    });
    assert_eq!(cpu.register_a, 0x08);
    assert_status(&cpu, 0);
}

#[test]
fn test_eor() {
    let cpu = run(vec![0x49, 0x0C, 0x00], |cpu| {
        cpu.register_a = 0x0A;
    });
    assert_eq!(cpu.register_a, 0x06);
    assert_status(&cpu, 0);
}

#[test]
fn test_ora() {
    let cpu = run(vec![0x09, 0x0C, 0x00], |cpu| {
        cpu.register_a = 0x0A;
    });
    assert_eq!(cpu.register_a, 0x0E);
    assert_status(&cpu, 0);
}

#[test]
fn test_asl_a() {
    let cpu = run(vec![0x0A, 0x00], |cpu| {
        cpu.register_a = 0x03;
    });
    assert_eq!(cpu.register_a, 0x03 * 2);
    assert_status(&cpu, 0);
}

#[test]
fn test_asl_zero_page() {
    let cpu = run(vec![0x06, 0x01, 0x00], |cpu| {
        cpu.mem_write(0x0001, 0x03);
    });
    assert_eq!(cpu.mem_read(0x0001), 0x03 * 2);
    assert_status(&cpu, 0);
}

#[test]
fn test_asl_a_carry() {
    let cpu = run(vec![0x0A, 0x00], |cpu| {
        cpu.register_a = 0x81;
    });
    assert_eq!(cpu.register_a, 0x02);
    assert_status(&cpu, FLAG_CARRY);
}

#[test]
fn test_asl_zero_page_occur_carry() {
    let cpu = run(vec![0x06, 0x01, 0x00], |cpu| {
        cpu.mem_write(0x0001, 0x81);
    });
    assert_eq!(cpu.mem_read(0x0001), 0x02);
    assert_status(&cpu, FLAG_CARRY);
}

#[test]
fn test_lsr_a() {
    let cpu = run(vec![0x4A, 0x00], |cpu| {
        cpu.register_a = 0x02;
    });
    assert_eq!(cpu.register_a, 0x01);
    assert_status(&cpu, 0);
}

#[test]
fn test_lsr_zero_page() {
    let cpu = run(vec![0x46, 0x01, 0x00], |cpu| {
        cpu.mem_write(0x0001, 0x02);
    });
    assert_eq!(cpu.mem_read(0x0001), 0x01);
    assert_status(&cpu, 0);
}

#[test]
fn test_lsr_zero_page_zero_flag() {
    let cpu = run(vec![0x46, 0x01, 0x00], |cpu| {
        cpu.mem_write(0x0001, 0x01);
    });
    assert_eq!(cpu.mem_read(0x0001), 0x00);
    assert_status(&cpu, FLAG_ZERO | FLAG_CARRY);
}

#[test]
fn test_lsr_a_occur_carry() {
    let cpu = run(vec![0x4A, 0x00], |cpu| {
        cpu.register_a = 0x03;
    });
    assert_eq!(cpu.register_a, 0x01);
    assert_status(&cpu, FLAG_CARRY);
}

#[test]
fn test_lsr_zero_page_occur_carry() {
    let cpu = run(vec![0x46, 0x01, 0x00], |cpu| {
        cpu.mem_write(0x0001, 0x03);
    });
    assert_eq!(cpu.mem_read(0x0001), 0x01);
    assert_status(&cpu, FLAG_CARRY);
}

#[test]
fn test_rol_a() {
    let cpu = run(vec![0x2A, 0x00], |cpu| {
        cpu.register_a = 0x03;
    });
    assert_eq!(cpu.register_a, 0x03 * 2);
    assert_status(&cpu, 0);
}

#[test]
fn test_rol_zero_page() {
    let cpu = run(vec![0x26, 0x01, 0x00], |cpu| {
        cpu.mem_write(0x0001, 0x03);
    });
    assert_eq!(cpu.mem_read(0x0001), 0x03 * 2);
    assert_status(&cpu, 0);
}

#[test]
fn test_rol_a_with_carry() {
    let cpu = run(vec![0x2A, 0x00], |cpu| {
        cpu.register_a = 0x03;
        cpu.status = FLAG_CARRY;
    });
    assert_eq!(cpu.register_a, 0x03 * 2 + 1);
    assert_status(&cpu, 0);
}

#[test]
fn test_rol_zero_page_with_carry() {
    let cpu = run(vec![0x26, 0x01, 0x00], |cpu| {
        cpu.mem_write(0x0001, 0x03);
        cpu.status = FLAG_CARRY;
    });
    assert_eq!(cpu.mem_read(0x0001), 0x03 * 2 + 1);
    assert_status(&cpu, 0);
}

#[test]
fn test_rol_a_zero_with_carry() {
    let cpu = run(vec![0x2A, 0x00], |cpu| {
        cpu.register_a = 0x00;
        cpu.status = FLAG_CARRY;
    });
    assert_eq!(cpu.register_a, 0x01);
    assert_status(&cpu, 0);
}

#[test]
fn test_rol_zero_page_zero_with_carry() {
    let cpu = run(vec![0x26, 0x01, 0x00], |cpu| {
        cpu.mem_write(0x0001, 0x00);
        cpu.status = FLAG_CARRY;
    });
    assert_eq!(cpu.mem_read(0x0001), 0x01);
    assert_status(&cpu, 0);
}

#[test]
fn test_ror_a() {
    let cpu = run(vec![0x6A, 0x00], |cpu| {
        cpu.register_a = 0x02;
    });
    assert_eq!(cpu.register_a, 0x01);
    assert_status(&cpu, 0);
}

#[test]
fn test_ror_zero_page() {
    let cpu = run(vec![0x66, 0x01, 0x00], |cpu| {
        cpu.mem_write(0x0001, 0x02);
    });
    assert_eq!(cpu.mem_read(0x0001), 0x01);
    assert_status(&cpu, 0);
}

#[test]
fn test_ror_a_occur_carry() {
    let cpu = run(vec![0x6A, 0x00], |cpu| {
        cpu.register_a = 0x03;
    });
    assert_eq!(cpu.register_a, 0x01);
    assert_status(&cpu, FLAG_CARRY);
}

#[test]
fn test_ror_zero_page_occur_carry() {
    let cpu = run(vec![0x66, 0x01, 0x00], |cpu| {
        cpu.mem_write(0x0001, 0x03);
    });
    assert_eq!(cpu.mem_read(0x0001), 0x01);
    assert_status(&cpu, FLAG_CARRY);
}

#[test]
fn test_ror_a_with_carry() {
    let cpu = run(vec![0x6A, 0x00], |cpu| {
        cpu.register_a = 0x03;
        cpu.status = FLAG_CARRY;
    });
    assert_eq!(cpu.register_a, 0x81);
    assert_status(&cpu, FLAG_CARRY | FLAG_NEGATIVE);
}

#[test]
fn test_ror_zero_page_with_carry() {
    let cpu = run(vec![0x66, 0x01, 0x00], |cpu| {
        cpu.mem_write(0x0001, 0x03);
        cpu.status = FLAG_CARRY;
    });
    assert_eq!(cpu.mem_read(0x0001), 0x81);
    assert_status(&cpu, FLAG_CARRY | FLAG_NEGATIVE);
}

#[test]
fn test_ror_a_zero_with_carry() {
    let cpu = run(vec![0x6A, 0x00], |cpu| {
        cpu.register_a = 0x00;
        cpu.status = FLAG_CARRY;
    });
    assert_eq!(cpu.register_a, 0x80);
    assert_status(&cpu, FLAG_NEGATIVE);
}

#[test]
fn test_ror_zero_page_zero_with_carry() {
    let cpu = run(vec![0x66, 0x01, 0x00], |cpu| {
        cpu.mem_write(0x0001, 0x00);
        cpu.status = FLAG_CARRY;
    });
    assert_eq!(cpu.mem_read(0x0001), 0x80);
    assert_status(&cpu, FLAG_NEGATIVE);
}

#[test]
fn test_bcc() {
    let cpu = run(vec![0x90, 0x02, 0x00, 0x00, 0xE8, 0x00], |_| {});

    assert_eq!(cpu.register_x, 0x01);
    assert_eq!(cpu.program_counter, 0x8006);
    assert_status(&cpu, 0);
}

#[test]
fn test_bcc_with_carry() {
    let cpu = run(vec![0x90, 0x02, 0x00, 0x00, 0xE8, 0x00], |cpu| {
        cpu.status = FLAG_CARRY;
    });

    assert_eq!(cpu.register_x, 0x00);
    assert_eq!(cpu.program_counter, 0x8003);

    assert_status(&cpu, FLAG_CARRY);
}

#[test]
fn test_bcc_negative() {
    let cpu = run(vec![0x90, 0xFC, 0x00], |cpu| {
        cpu.mem_write(0x7FFE, 0xE8);
        cpu.mem_write(0x7FFF, 0x00);
    });

    assert_eq!(cpu.register_x, 0x01);
    assert_eq!(cpu.program_counter, 0x8000);
    assert_status(&cpu, 0);
}

#[test]
fn test_bcs() {
    let cpu = run(vec![0xB0, 0x02, 0x00, 0x00, 0xE8, 0x00], |_| {});

    assert_eq!(cpu.register_x, 0x00);
    assert_eq!(cpu.program_counter, 0x8003);

    assert_status(&cpu, 0);
}

#[test]
fn test_bcs_with_carry() {
    let cpu = run(vec![0xB0, 0x02, 0x00, 0x00, 0xE8, 0x00], |cpu| {
        cpu.status = FLAG_CARRY;
    });

    assert_eq!(cpu.register_x, 0x01);
    assert_eq!(cpu.program_counter, 0x8006);
    assert_status(&cpu, FLAG_CARRY);
}

#[test]
fn test_bcs_negative() {
    let cpu = run(vec![0xB0, 0xFC, 0x00], |cpu| {
        cpu.mem_write(0x7FFE, 0xE8);
        cpu.mem_write(0x7FFF, 0x00);
        cpu.status = FLAG_CARRY;
    });

    assert_eq!(cpu.register_x, 0x01);
    assert_eq!(cpu.program_counter, 0x8000);
    assert_status(&cpu, FLAG_CARRY);
}

#[test]
fn test_beq() {
    let cpu = run(vec![0xF0, 0x02, 0x00, 0x00, 0xE8, 0x00], |_| {});

    assert_eq!(cpu.register_x, 0x00);
    assert_eq!(cpu.program_counter, 0x8003);

    assert_status(&cpu, 0);
}

#[test]
fn test_beq_with_zero_flag() {
    let cpu = run(vec![0xF0, 0x02, 0x00, 0x00, 0xE8, 0x00], |cpu| {
        cpu.status = FLAG_ZERO;
    });

    assert_eq!(cpu.register_x, 0x01);
    assert_eq!(cpu.program_counter, 0x8006);
    assert_status(&cpu, 0);
}

#[test]
fn test_bne() {
    let cpu = run(vec![0xD0, 0x02, 0x00, 0x00, 0xE8, 0x00], |_| {});

    assert_eq!(cpu.register_x, 0x01);
    assert_eq!(cpu.program_counter, 0x8006);
    assert_status(&cpu, 0);
}

#[test]
fn test_bne_with_zero_flag() {
    let cpu = run(vec![0xD0, 0x02, 0x00, 0x00, 0xE8, 0x00], |cpu| {
        cpu.status = FLAG_ZERO;
    });

    assert_eq!(cpu.register_x, 0x00);
    assert_eq!(cpu.program_counter, 0x8003);

    assert_status(&cpu, FLAG_ZERO);
}

#[test]
fn test_bit() {
    let cpu = run(vec![0x24, 0x00, 0x00], |cpu| {
        cpu.register_a = 0x00;
        cpu.mem_write(0x000, 0x00);
    });

    assert_status(&cpu, FLAG_ZERO);
}

#[test]
fn test_bit_negative_flag() {
    let cpu = run(vec![0x24, 0x00, 0x00], |cpu| {
        cpu.register_a = 0x00;
        cpu.mem_write(0x000, 0x80);
    });

    assert_status(&cpu, FLAG_NEGATIVE | FLAG_ZERO);
}

#[test]
fn test_bit_overflow_flag() {
    let cpu = run(vec![0x24, 0x00, 0x00], |cpu| {
        cpu.register_a = 0x40;
        cpu.mem_write(0x000, 0x40);
    });

    assert_status(&cpu, FLAG_OVERFLOW);
}

#[test]
fn test_bmi() {
    let cpu = run(vec![0x30, 0x02, 0x00, 0x00, 0xE8, 0x00], |_| {});

    assert_eq!(cpu.register_x, 0x00);
    assert_eq!(cpu.program_counter, 0x8003);
    assert_status(&cpu, 0);
}

#[test]
fn test_bmi_with_negative_flag() {
    let cpu = run(vec![0x30, 0x02, 0x00, 0x00, 0xE8, 0x00], |cpu| {
        cpu.status = FLAG_NEGATIVE;
    });

    assert_eq!(cpu.register_x, 0x01);
    assert_eq!(cpu.program_counter, 0x8006);
    assert_status(&cpu, 0);
}

#[test]
fn test_bpl() {
    let cpu = run(vec![0x10, 0x02, 0x00, 0x00, 0xE8, 0x00], |_| {});

    assert_eq!(cpu.register_x, 0x01);
    assert_eq!(cpu.program_counter, 0x8006);
    assert_status(&cpu, 0);
}

#[test]
fn test_bpl_with_negative_flag() {
    let cpu = run(vec![0x10, 0x02, 0x00, 0x00, 0xE8, 0x00], |cpu| {
        cpu.status = FLAG_NEGATIVE;
    });

    assert_eq!(cpu.register_x, 0x00);
    assert_eq!(cpu.program_counter, 0x8003);
    assert_status(&cpu, FLAG_NEGATIVE);
}

#[test]
fn test_bvc() {
    let cpu = run(vec![0x50, 0x02, 0x00, 0x00, 0xE8, 0x00], |_| {});

    assert_eq!(cpu.register_x, 0x01);
    assert_eq!(cpu.program_counter, 0x8006);
    assert_status(&cpu, 0);
}

#[test]
fn test_bvc_with_overflow_flag() {
    let cpu = run(vec![0x50, 0x02, 0x00, 0x00, 0xE8, 0x00], |cpu| {
        cpu.status = FLAG_OVERFLOW;
    });
    assert_eq!(cpu.register_x, 0x00);
    assert_eq!(cpu.program_counter, 0x8003);
    assert_status(&cpu, FLAG_OVERFLOW);
}

#[test]
fn test_bvs() {
    let cpu = run(vec![0x70, 0x02, 0x00, 0x00, 0xE8, 0x00], |_| {});

    assert_eq!(cpu.register_x, 0x00);
    assert_eq!(cpu.program_counter, 0x8003);
    assert_status(&cpu, 0);
}

#[test]
fn test_bvs_with_overflow_flag() {
    let cpu = run(vec![0x70, 0x02, 0x00, 0x00, 0xE8, 0x00], |cpu| {
        cpu.status = FLAG_OVERFLOW;
    });
    assert_eq!(cpu.register_x, 0x01);
    assert_eq!(cpu.program_counter, 0x8006);
    assert_status(&cpu, FLAG_OVERFLOW);
}

#[test]
fn test_clc() {
    let cpu = run(vec![0x18, 0x00], |cpu| {
        cpu.status = FLAG_CARRY | FLAG_NEGATIVE;
    });

    assert_status(&cpu, FLAG_NEGATIVE);
}

#[test]
fn test_sec() {
    let cpu = run(vec![0x38, 0x00], |cpu| {
        cpu.status = FLAG_NEGATIVE;
    });

    assert_status(&cpu, FLAG_NEGATIVE | FLAG_CARRY);
}

#[test]
fn test_cld() {
    let cpu = run(vec![0xD8, 0x00], |cpu| {
        cpu.status = FLAG_CARRY | FLAG_NEGATIVE | FLAG_DECIMAL;
    });

    assert_status(&cpu, FLAG_CARRY | FLAG_NEGATIVE);
}

#[test]
fn test_sed() {
    let cpu = run(vec![0xF8, 0x00], |cpu| {
        cpu.status = FLAG_NEGATIVE;
    });

    assert_status(&cpu, FLAG_NEGATIVE | FLAG_DECIMAL);
}

#[test]
fn test_cli() {
    let cpu = run(vec![0x58, 0x00], |cpu| {
        cpu.status = FLAG_NEGATIVE | FLAG_DECIMAL | FLAG_INTERRUPT;
    });

    assert_status(&cpu, FLAG_NEGATIVE | FLAG_DECIMAL);
}

#[test]
fn test_sei() {
    let cpu = run(vec![0x78, 0x00], |cpu| {
        cpu.status = FLAG_NEGATIVE;
    });

    assert_status(&cpu, FLAG_NEGATIVE | FLAG_INTERRUPT);
}

#[test]
fn test_clv() {
    let cpu = run(vec![0xB8, 0x00], |cpu| {
        cpu.status = FLAG_NEGATIVE | FLAG_DECIMAL | FLAG_INTERRUPT | FLAG_OVERFLOW;
    });

    assert_status(&cpu, FLAG_NEGATIVE | FLAG_DECIMAL | FLAG_INTERRUPT);
}

#[test]
fn test_cmp() {
    let cpu = run(vec![0xC9, 0x01], |cpu| {
        cpu.register_a = 0x02;
    });

    assert_status(&cpu, FLAG_CARRY);
}

#[test]
fn test_cmp_eq() {
    let cpu = run(vec![0xC9, 0x02], |cpu| {
        cpu.register_a = 0x02;
    });

    assert_status(&cpu, FLAG_CARRY | FLAG_ZERO);
}

#[test]
fn test_cmp_negative() {
    let cpu = run(vec![0xC9, 0x03], |cpu| {
        cpu.register_a = 0x02;
    });

    assert_status(&cpu, FLAG_NEGATIVE);
}

#[test]
fn test_cpx() {
    let cpu = run(vec![0xE0, 0x01], |cpu| {
        cpu.register_x = 0x02;
    });

    assert_status(&cpu, FLAG_CARRY);
}

#[test]
fn test_cpy() {
    let cpu = run(vec![0xC0, 0x01], |cpu| {
        cpu.register_y = 0x02;
    });

    assert_status(&cpu, FLAG_CARRY);
}

#[test]
fn test_lda_tax_inx_chain_full_state() {
    let mut cpu = CPU::new();
    let _ = cpu.load_and_run(vec![0xa9, 0xc0, 0xaa, 0xe8, 0x00]);
    assert_eq!(cpu.register_a, 0xC0);
    assert_eq!(cpu.register_x, 0xC1);
    assert_eq!(cpu.status & FLAG_NEGATIVE, FLAG_NEGATIVE);
}

#[test]
fn test_inx_twice_from_max_wraps_to_one() {
    let mut cpu = CPU::new();
    cpu.load(vec![0xe8, 0xe8, 0x00]);
    cpu.reset();
    cpu.register_x = 0xFF;
    let _ = cpu.run();
    assert_eq!(cpu.register_x, 0x01);
    assert_eq!(cpu.status & FLAG_ZERO, 0);
}

#[test]
fn test_unrecognized_opcode_is_surfaced() {
    let mut cpu = CPU::new();
    let r = cpu.load_and_run(vec![0xFF]);
    assert_eq!(r, Err(RunError::UnrecognizedOpcode(0xFF)));
}

#[test]
fn test_brk_reports_clean_halt() {
    let mut cpu = CPU::new();
    let r = cpu.load_and_run(vec![0x00]);
    assert_eq!(r, Ok(()));
    assert_eq!(cpu.program_counter, 0x8001);
}

#[test]
fn test_memory_word_round_trip() {
    let mut cpu = CPU::new();
    cpu.mem_write_u16(0x10, 0xBEEF);
    assert_eq!(cpu.mem_read_u16(0x10), 0xBEEF);
    assert_eq!(cpu.mem_read(0x10), 0xEF);
    assert_eq!(cpu.mem_read(0x11), 0xBE);
}

#[test]
fn test_reset_loads_vector_and_clears_registers() {
    let mut cpu = CPU::new();
    cpu.load(vec![0xA9, 0x01, 0x00]);
    cpu.register_a = 7;
    cpu.register_x = 8;
    cpu.register_y = 9;
    cpu.status = 0xFF;
    cpu.reset();
    assert_eq!(cpu.register_a, 0);
    assert_eq!(cpu.register_x, 0);
    assert_eq!(cpu.register_y, 0);
    assert_eq!(cpu.status, 0);
    assert_eq!(cpu.program_counter, 0x8000);
}

#[test]
fn test_flag_updater_keeps_unrelated_bits() {
    // SEC; LDA #$00: the load's flag update must keep Carry.
    let cpu = run(vec![0x38, 0xA9, 0x00, 0x00], |_| {});
    assert_status(&cpu, FLAG_CARRY | FLAG_ZERO);
}

#[test]
fn test_lda_zero_page_x_wraps_pointer() {
    let mut cpu = CPU::new();
    cpu.load(vec![0xB5, 0xFF, 0x00]);
    cpu.reset();
    cpu.mem_write(0x0001, 0x77);
    cpu.register_x = 0x02;
    let _ = cpu.run();
    assert_eq!(cpu.register_a, 0x77);
}

#[test]
fn test_lda_indirect_x_wraps_pointer_on_zero_page() {
    let mut cpu = CPU::new();
    cpu.load(vec![0xA1, 0xFE, 0x00]);
    cpu.reset();
    cpu.mem_write(0x00FF, 0x34);
    cpu.mem_write(0x0000, 0x12);
    cpu.mem_write(0x1234, 0x99);
    cpu.register_x = 0x01;
    let _ = cpu.run();
    assert_eq!(cpu.register_a, 0x99);
}

#[test]
fn test_lda_absolute_x_wraps_sum() {
    let mut cpu = CPU::new();
    cpu.load(vec![0xBD, 0xFF, 0xFF, 0x00]);
    cpu.reset();
    cpu.mem_write(0x0001, 0x42);
    cpu.register_x = 0x02;
    let _ = cpu.run();
    assert_eq!(cpu.register_a, 0x42);
}

#[test]
fn test_inx_wraps_to_zero() {
    let mut cpu = CPU::new();
    cpu.load(vec![0xE8, 0x00]);
    cpu.reset();
    cpu.register_x = 0xFF;
    let _ = cpu.run();
    assert_eq!(cpu.register_x, 0x00);
    assert_status(&cpu, FLAG_ZERO);
}

#[test]
fn test_decimal_flag_does_not_change_adc() {
    // SED; ADC stays binary on this core.
    let mut cpu = CPU::new();
    cpu.load(vec![0xF8, 0x69, 0x19, 0x00]);
    cpu.reset();
    cpu.register_a = 0x19;
    let _ = cpu.run();
    assert_eq!(cpu.register_a, 0x32);
    assert_status(&cpu, FLAG_DECIMAL);
}

#[test]
fn test_sta_indirect_y() {
    let mut cpu = CPU::new();
    cpu.load(vec![0x91, 0x10, 0x00]);
    cpu.reset();
    cpu.mem_write(0x10, 0x00);
    cpu.mem_write(0x11, 0x20);
    cpu.register_y = 0x05;
    cpu.register_a = 0xAB;
    let _ = cpu.run();
    assert_eq!(cpu.mem_read(0x2005), 0xAB);
}

#[test]
fn test_cpx_less_than_operand() {
    let cpu = run(vec![0xE0, 0x03], |cpu| {
        cpu.register_x = 0x02;
    });
    assert_status(&cpu, FLAG_NEGATIVE);
}

#[test]
fn test_cpy_equal_operand() {
    let cpu = run(vec![0xC0, 0x02], |cpu| {
        cpu.register_y = 0x02;
    });
    assert_status(&cpu, FLAG_CARRY | FLAG_ZERO);
}
