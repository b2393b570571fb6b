use librustdbg::bit::{from_bytes_byte128, from_bytes_byte64};
use librustdbg::register_info::{
    register_info_by_id, RegisterFormat, RegisterId, RegisterType, USER_AREA_SIZE,
};
use librustdbg::types::to_byte128;
use librustdbg::{Registers, UserAreaWrite, Variant};

/// The 80-bit x87 extended encoding of a double, in the low ten of sixteen bytes.
fn double_to_bytes(value: f64) -> [u8; 16] {
    let bits = value.to_bits();
    let sign = (bits >> 63) as u16;
    let exponent = ((bits >> 52) & 0x7ff) as u16;
    let fraction = bits & ((1u64 << 52) - 1);
    let mut out = [0u8; 16];
    if exponent == 0 && fraction == 0 {
        out[9] = (sign << 7) as u8;
        return out;
    }
    let ext_exponent = exponent - 1023 + 16383;
    let mantissa = (1u64 << 63) | (fraction << 11);
    out[..8].copy_from_slice(&mantissa.to_le_bytes());
    out[8..10].copy_from_slice(&((sign << 15) | ext_exponent).to_le_bytes());
    out
}

fn fprs_of(write: UserAreaWrite) -> Vec<u8> {
    match write {
        UserAreaWrite::Fprs(bytes) => bytes,
        other => panic!("expected a floating point area, got {:?}", other),
    }
}

#[test]
fn table_entries() {
    let rsi = register_info_by_id(RegisterId::rsi).unwrap();
    assert_eq!(rsi.name, "rsi");
    assert_eq!((rsi.dwarf_id, rsi.size, rsi.offset), (4, 8, 104));
    assert_eq!(rsi.r_type, RegisterType::GPR);
    assert_eq!(rsi.format, RegisterFormat::UINT);

    let eax = register_info_by_id(RegisterId::eax).unwrap();
    assert_eq!((eax.dwarf_id, eax.size, eax.offset), (-1, 4, 80));
    assert_eq!(eax.r_type, RegisterType::SUBGPR);

    let ah = register_info_by_id(RegisterId::ah).unwrap();
    assert_eq!((ah.size, ah.offset), (1, 81));

    let fsw = register_info_by_id(RegisterId::fsw).unwrap();
    assert_eq!((fsw.dwarf_id, fsw.size, fsw.offset), (66, 2, 226));
    assert_eq!(fsw.r_type, RegisterType::FPR);

    let mxcsr = register_info_by_id(RegisterId::mxcsr).unwrap();
    assert_eq!((mxcsr.dwarf_id, mxcsr.size, mxcsr.offset), (64, 4, 248));

    let st0 = register_info_by_id(RegisterId::st0).unwrap();
    assert_eq!((st0.dwarf_id, st0.size, st0.offset), (33, 16, 256));
    assert_eq!(st0.format, RegisterFormat::VECTOR);

    let mm0 = register_info_by_id(RegisterId::mm0).unwrap();
    assert_eq!((mm0.dwarf_id, mm0.size, mm0.offset), (41, 8, 256));

    let xmm15 = register_info_by_id(RegisterId::xmm15).unwrap();
    assert_eq!((xmm15.dwarf_id, xmm15.size, xmm15.offset), (32, 16, 624));

    let dr7 = register_info_by_id(RegisterId::dr7).unwrap();
    assert_eq!((dr7.dwarf_id, dr7.size, dr7.offset), (-1, 8, 904));
    assert_eq!(dr7.r_type, RegisterType::DR);
    assert!(dr7.offset + dr7.size <= USER_AREA_SIZE);
}

#[test]
fn fresh_register_file_is_zero() {
    let regs = Registers::new();
    assert_eq!(regs.data().len(), USER_AREA_SIZE);
    assert!(regs.data().iter().all(|b| *b == 0));
    assert_eq!(regs.read_by_id(RegisterId::rax).unwrap(), Variant::U64(0));
}

#[test]
fn write_register_works() {
    let mut regs = Registers::new();

    let poke = regs.write_by_id(RegisterId::rsi, Variant::U64(0xcafecafe)).unwrap();
    assert_eq!(poke, UserAreaWrite::Word { offset: 104, data: 0xcafecafe });
    assert_eq!(regs.read_by_id(RegisterId::rsi).unwrap(), Variant::U64(0xcafecafe));

    let fprs = fprs_of(regs.write_by_id(RegisterId::mm0, Variant::U64(0x12345678)).unwrap());
    assert_eq!(fprs.len(), 512);
    assert_eq!(&fprs[32..40], &0x12345678u64.to_le_bytes());
    assert_eq!(
        regs.read_by_id(RegisterId::mm0).unwrap(),
        Variant::Byte64(0x12345678u64.to_le_bytes())
    );

    let fprs = fprs_of(regs.write_by_id(RegisterId::xmm0, Variant::F64(42.42f64.to_bits())).unwrap());
    assert_eq!(&fprs[160..168], &42.42f64.to_bits().to_le_bytes());
    match regs.read_by_id(RegisterId::xmm0).unwrap() {
        Variant::Byte128(bytes) => {
            assert_eq!(f64::from_le_bytes(bytes[..8].try_into().unwrap()), 42.42);
            assert_eq!(&bytes[8..], &[0u8; 8]);
        }
        other => panic!("unexpected {:?}", other),
    }

    let st0 = double_to_bytes(42.24);
    regs.write_by_id(RegisterId::st0, Variant::Byte128(st0)).unwrap();
    regs.write_by_id(RegisterId::fsw, Variant::U16(0b0011100000000000)).unwrap();
    let fprs = fprs_of(regs.write_by_id(RegisterId::ftw, Variant::U16(0b0011111111111111)).unwrap());
    assert_eq!(&fprs[2..4], &0b0011100000000000u16.to_le_bytes());
    assert_eq!(&fprs[4..6], &0b0011111111111111u16.to_le_bytes());
    assert_eq!(&fprs[32..48], &st0);
    assert_eq!(regs.read_by_id(RegisterId::st0).unwrap(), Variant::Byte128(st0));
    // the x87 value of st0 is 42.24
    let mantissa = u64::from_le_bytes(st0[..8].try_into().unwrap());
    let exponent = u16::from_le_bytes(st0[8..10].try_into().unwrap()) as i32 - 16383;
    assert!(((mantissa as f64) * 2f64.powi(exponent - 63) - 42.24).abs() < 1e-12);
}

#[test]
fn subregister_write_pokes_its_parent_word() {
    let mut regs = Registers::new();
    regs.write_by_id(RegisterId::rax, Variant::U64(0x1122334455667788)).unwrap();
    let poke = regs.write_by_id(RegisterId::ah, Variant::U8(0xab)).unwrap();
    assert_eq!(poke, UserAreaWrite::Word { offset: 80, data: 0x112233445566ab88 });
    assert_eq!(regs.read_by_id(RegisterId::ah).unwrap(), Variant::U8(0xab));
    assert_eq!(regs.read_by_id(RegisterId::al).unwrap(), Variant::U8(0x88));
    assert_eq!(regs.read_by_id(RegisterId::eax).unwrap(), Variant::U32(0x5566ab88));
    assert_eq!(regs.read_by_id(RegisterId::ax).unwrap(), Variant::U16(0xab88));
}

#[test]
fn narrow_value_is_zero_extended() {
    let mut regs = Registers::new();
    regs.write_by_id(RegisterId::rbx, Variant::U64(u64::MAX)).unwrap();
    regs.write_by_id(RegisterId::rbx, Variant::U8(7)).unwrap();
    assert_eq!(regs.read_by_id(RegisterId::rbx).unwrap(), Variant::U64(7));
    regs.write_by_id(RegisterId::ecx, Variant::I32(-1)).unwrap();
    assert_eq!(regs.read_by_id(RegisterId::ecx).unwrap(), Variant::U32(0xffff_ffff));
    assert_eq!(regs.read_by_id(RegisterId::rcx).unwrap(), Variant::U64(0xffff_ffff));
    regs.write_by_id(RegisterId::dx, Variant::I8(-2)).unwrap();
    assert_eq!(regs.read_by_id(RegisterId::dx).unwrap(), Variant::U16(0x00fe));
}

#[test]
fn too_wide_value_is_refused() {
    let mut regs = Registers::new();
    regs.write_by_id(RegisterId::eax, Variant::U32(5)).unwrap();
    let err = regs.write_by_id(RegisterId::eax, Variant::U64(1)).unwrap_err();
    assert_eq!(
        err.message(),
        "registers::write called with mismatched register and value sizes"
    );
    assert_eq!(regs.read_by_id(RegisterId::eax).unwrap(), Variant::U32(5));
    let err = regs.write_by_id(RegisterId::mm1, Variant::Byte128([1u8; 16])).unwrap_err();
    assert_eq!(
        err.message(),
        "registers::write called with mismatched register and value sizes"
    );
}

#[test]
fn debug_register_write_pokes_its_word() {
    let mut regs = Registers::new();
    let poke = regs.write_by_id(RegisterId::dr7, Variant::U64(0x401)).unwrap();
    assert_eq!(poke, UserAreaWrite::Word { offset: 904, data: 0x401 });
}

#[test]
fn loaded_registers_are_read_back() {
    let mut regs = Registers::new();
    let mut gprs = vec![0u8; 216];
    gprs[104..112].copy_from_slice(&0xdeadbeefu64.to_le_bytes());
    regs.store_gprs(&gprs);
    let mut fprs = vec![0u8; 512];
    fprs[24..28].copy_from_slice(&0x1f80u32.to_le_bytes());
    regs.store_fprs(&fprs);
    regs.store_debug_register(6, 0xffff0ff0);
    assert_eq!(regs.read_by_id(RegisterId::rsi).unwrap(), Variant::U64(0xdeadbeef));
    assert_eq!(regs.read_by_id(RegisterId::mxcsr).unwrap(), Variant::U32(0x1f80));
    assert_eq!(regs.read_by_id(RegisterId::dr6).unwrap(), Variant::U64(0xffff0ff0));
    assert_eq!(regs.fprs(), fprs);
}

#[test]
fn to_byte128_zero_extends() {
    let wide = to_byte128(&[1, 2, 3]);
    let mut expected = [0u8; 16];
    expected[..3].copy_from_slice(&[1, 2, 3]);
    assert_eq!(wide, expected);
}

#[test]
fn byte128_round_trip() {
    let raw = [9u8, 8, 7, 6, 5, 4, 3, 2];
    let wide = to_byte128(&raw);
    assert_eq!(from_bytes_byte64(&wide, 0), raw);
    let full = [0xa5u8; 16];
    assert_eq!(from_bytes_byte128(&to_byte128(&full), 0), full);
    let x: i32 = -123456;
    let wide = to_byte128(&x.to_le_bytes());
    assert_eq!(i32::from_le_bytes(wide[..4].try_into().unwrap()), x);
}
