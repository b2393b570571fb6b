//! The x86-64 register table: for each register, where it lives in the
//! kernel's `struct user` and how it is encoded.
use vstd::prelude::*;
use crate::error::Error;
use crate::text::spec_decimal;

verus! {

/// Size in bytes of the kernel's `struct user` on x86-64 Linux.
pub const USER_AREA_SIZE: usize = 912;

/// Size in bytes of `struct user_regs_struct`, which opens the user area.
pub const USER_REGS_SIZE: usize = 216;

/// Offset of `struct user_fpregs_struct` (field `i387`) in the user area.
pub const USER_FPREGS_OFFSET: usize = 224;

/// Size in bytes of `struct user_fpregs_struct`.
pub const USER_FPREGS_SIZE: usize = 512;

/// Offset of `st_space` inside `struct user_fpregs_struct`.
pub const ST_SPACE_OFFSET: usize = 32;

/// Offset of `xmm_space` inside `struct user_fpregs_struct`.
pub const XMM_SPACE_OFFSET: usize = 160;

/// Offset of the debug registers (field `u_debugreg`) in the user area.
pub const USER_DEBUGREG_OFFSET: usize = 848;

/// What part of the machine state a register belongs to.
#[derive(Clone, Copy, Debug, PartialEq, Eq, Structural)]
pub enum RegisterType {
    GPR,
    SUBGPR,
    FPR,
    DR,
}

/// How the bytes of a register are interpreted.
#[derive(Clone, Copy, Debug, PartialEq, Eq, Structural)]
pub enum RegisterFormat {
    UINT,
    DOUBLEFLOAT,
    LONGDOUBLE,
    VECTOR,
}

/// The 64-bit slots of `struct user_regs_struct`, in their order there.
#[derive(Clone, Copy, Debug, PartialEq, Eq, Structural)]
pub enum UserRegsField {
    r15,
    r14,
    r13,
    r12,
    rbp,
    rbx,
    r11,
    r10,
    r9,
    r8,
    rax,
    rcx,
    rdx,
    rsi,
    rdi,
    orig_rax,
    rip,
    cs,
    eflags,
    rsp,
    ss,
    fs_base,
    gs_base,
    ds,
    es,
    fs,
    gs,
}

/// Position of a slot in `struct user_regs_struct`.
pub open spec fn spec_user_regs_index(f: UserRegsField) -> int {
    match f {
            UserRegsField::r15 => 0,
            UserRegsField::r14 => 1,
            UserRegsField::r13 => 2,
            UserRegsField::r12 => 3,
            UserRegsField::rbp => 4,
            UserRegsField::rbx => 5,
            UserRegsField::r11 => 6,
            UserRegsField::r10 => 7,
            UserRegsField::r9 => 8,
            UserRegsField::r8 => 9,
            UserRegsField::rax => 10,
            UserRegsField::rcx => 11,
            UserRegsField::rdx => 12,
            UserRegsField::rsi => 13,
            UserRegsField::rdi => 14,
            UserRegsField::orig_rax => 15,
            UserRegsField::rip => 16,
            UserRegsField::cs => 17,
            UserRegsField::eflags => 18,
            UserRegsField::rsp => 19,
            UserRegsField::ss => 20,
            UserRegsField::fs_base => 21,
            UserRegsField::gs_base => 22,
            UserRegsField::ds => 23,
            UserRegsField::es => 24,
            UserRegsField::fs => 25,
            UserRegsField::gs => 26,
    }
}

impl UserRegsField {
    /// Byte offset of the slot in the user area.
    pub fn offset(&self) -> (o: usize)
        ensures
            o == 8 * spec_user_regs_index(*self),
    {
        match self {
            UserRegsField::r15 => 0,
            UserRegsField::r14 => 8,
            UserRegsField::r13 => 16,
            UserRegsField::r12 => 24,
            UserRegsField::rbp => 32,
            UserRegsField::rbx => 40,
            UserRegsField::r11 => 48,
            UserRegsField::r10 => 56,
            UserRegsField::r9 => 64,
            UserRegsField::r8 => 72,
            UserRegsField::rax => 80,
            UserRegsField::rcx => 88,
            UserRegsField::rdx => 96,
            UserRegsField::rsi => 104,
            UserRegsField::rdi => 112,
            UserRegsField::orig_rax => 120,
            UserRegsField::rip => 128,
            UserRegsField::cs => 136,
            UserRegsField::eflags => 144,
            UserRegsField::rsp => 152,
            UserRegsField::ss => 160,
            UserRegsField::fs_base => 168,
            UserRegsField::gs_base => 176,
            UserRegsField::ds => 184,
            UserRegsField::es => 192,
            UserRegsField::fs => 200,
            UserRegsField::gs => 208,
        }
    }
}

/// The fields of `struct user_fpregs_struct` that hold scalar registers.
#[derive(Clone, Copy, Debug, PartialEq, Eq, Structural)]
pub enum FprField {
    cwd,
    swd,
    ftw,
    fop,
    rip,
    rdp,
    mxcsr,
    mxcr_mask,
}

/// Offset of a field inside `struct user_fpregs_struct`.
pub open spec fn spec_fpr_field_offset(f: FprField) -> int {
    match f {
        FprField::cwd => 0,
        FprField::swd => 2,
        FprField::ftw => 4,
        FprField::fop => 6,
        FprField::rip => 8,
        FprField::rdp => 16,
        FprField::mxcsr => 24,
        FprField::mxcr_mask => 28,
    }
}

/// Size in bytes of a field of `struct user_fpregs_struct`.
pub open spec fn spec_fpr_field_size(f: FprField) -> int {
    match f {
        FprField::cwd | FprField::swd | FprField::ftw | FprField::fop => 2,
        FprField::rip | FprField::rdp => 8,
        FprField::mxcsr | FprField::mxcr_mask => 4,
    }
}

impl FprField {
    /// Offset and size of the field inside `struct user_fpregs_struct`.
    pub fn layout(&self) -> (r: (usize, usize))
        ensures
            r.0 == spec_fpr_field_offset(*self),
            r.1 == spec_fpr_field_size(*self),
    {
        match self {
            FprField::cwd => (0, 2),
            FprField::swd => (2, 2),
            FprField::ftw => (4, 2),
            FprField::fop => (6, 2),
            FprField::rip => (8, 8),
            FprField::rdp => (16, 8),
            FprField::mxcsr => (24, 4),
            FprField::mxcr_mask => (28, 4),
        }
    }
}

/// The family a register belongs to, with what places it in the user area.
#[derive(Clone, Copy, Debug, PartialEq, Eq, Structural)]
pub enum RegisterClass {
    /// A full 64-bit general purpose register.
    Gpr64 { slot: UserRegsField, dwarf_id: i32 },
    /// The low 32 bits of a general purpose register.
    Gpr32 { slot: UserRegsField },
    /// The low 16 bits of a general purpose register.
    Gpr16 { slot: UserRegsField },
    /// Bits 8..16 of a general purpose register.
    Gpr8High { slot: UserRegsField },
    /// The low 8 bits of a general purpose register.
    Gpr8Low { slot: UserRegsField },
    /// A scalar register of the floating point unit.
    Fpr { field: FprField, dwarf_id: i32 },
    /// An x87 stack register.
    St { number: usize },
    /// An MMX register, aliasing the low bytes of an x87 stack register.
    Mm { number: usize },
    /// An SSE register.
    Xmm { number: usize },
    /// A debug register.
    Dr { number: usize },
}

/// Every register the debugger knows.
#[derive(Clone, Copy, Debug, PartialEq, Eq, Structural)]
pub enum RegisterId {
    rax,
    rdx,
    rcx,
    rbx,
    rsi,
    rsp,
    r8,
    r9,
    r10,
    r11,
    r12,
    r13,
    r14,
    rip,
    eflags,
    cs,
    fs,
    gs,
    ss,
    ds,
    es,
    orig_rax,
    eax,
    edx,
    ecx,
    ebx,
    esi,
    edi,
    ebp,
    esp,
    r8d,
    r9d,
    r10d,
    r11d,
    r12d,
    r13d,
    r14d,
    r15d,
    ax,
    dx,
    cx,
    bx,
    si,
    di,
    bp,
    sp,
    r8w,
    r9w,
    r10w,
    r11w,
    r12w,
    r13w,
    r14w,
    r15w,
    ah,
    dh,
    ch,
    bh,
    al,
    dl,
    cl,
    bl,
    sil,
    dil,
    bpl,
    spl,
    r8b,
    r9b,
    r10b,
    r11b,
    r12b,
    r13b,
    r14b,
    r15b,
    fcw,
    fsw,
    ftw,
    fop,
    frip,
    frdp,
    mxcsr,
    mxcsrmask,
    st0,
    st1,
    st2,
    st3,
    st4,
    st5,
    st6,
    st7,
    mm0,
    mm1,
    mm2,
    mm3,
    mm4,
    mm5,
    mm6,
    mm7,
    xmm0,
    xmm1,
    xmm2,
    xmm3,
    xmm4,
    xmm5,
    xmm6,
    xmm7,
    xmm8,
    xmm9,
    xmm10,
    xmm11,
    xmm12,
    xmm13,
    xmm14,
    xmm15,
    dr0,
    dr1,
    dr2,
    dr3,
    dr4,
    dr5,
    dr6,
    dr7,
}

/// The table of registers: the family of each register and its name.
pub open spec fn spec_register_entry(id: RegisterId) -> (RegisterClass, Seq<char>) {
    match id {
        RegisterId::rax => (RegisterClass::Gpr64 { slot: UserRegsField::rax, dwarf_id: 0 }, "rax"@),
        RegisterId::rdx => (RegisterClass::Gpr64 { slot: UserRegsField::rdx, dwarf_id: 1 }, "rdx"@),
        RegisterId::rcx => (RegisterClass::Gpr64 { slot: UserRegsField::rcx, dwarf_id: 2 }, "rcx"@),
        RegisterId::rbx => (RegisterClass::Gpr64 { slot: UserRegsField::rbx, dwarf_id: 3 }, "rbx"@),
        RegisterId::rsi => (RegisterClass::Gpr64 { slot: UserRegsField::rsi, dwarf_id: 4 }, "rsi"@),
        RegisterId::rsp => (RegisterClass::Gpr64 { slot: UserRegsField::rsp, dwarf_id: 7 }, "rsp"@),
        RegisterId::r8 => (RegisterClass::Gpr64 { slot: UserRegsField::r8, dwarf_id: 8 }, "r8"@),
        RegisterId::r9 => (RegisterClass::Gpr64 { slot: UserRegsField::r9, dwarf_id: 9 }, "r9"@),
        RegisterId::r10 => (RegisterClass::Gpr64 { slot: UserRegsField::r10, dwarf_id: 10 }, "r10"@),
        RegisterId::r11 => (RegisterClass::Gpr64 { slot: UserRegsField::r11, dwarf_id: 11 }, "r11"@),
        RegisterId::r12 => (RegisterClass::Gpr64 { slot: UserRegsField::r12, dwarf_id: 12 }, "r12"@),
        RegisterId::r13 => (RegisterClass::Gpr64 { slot: UserRegsField::r13, dwarf_id: 13 }, "r13"@),
        RegisterId::r14 => (RegisterClass::Gpr64 { slot: UserRegsField::r14, dwarf_id: 14 }, "r14"@),
        RegisterId::rip => (RegisterClass::Gpr64 { slot: UserRegsField::rip, dwarf_id: 16 }, "rip"@),
        RegisterId::eflags => (RegisterClass::Gpr64 { slot: UserRegsField::eflags, dwarf_id: 49 }, "eflags"@),
        RegisterId::cs => (RegisterClass::Gpr64 { slot: UserRegsField::cs, dwarf_id: 51 }, "cs"@),
        RegisterId::fs => (RegisterClass::Gpr64 { slot: UserRegsField::fs, dwarf_id: 54 }, "fs"@),
        RegisterId::gs => (RegisterClass::Gpr64 { slot: UserRegsField::gs, dwarf_id: 55 }, "gs"@),
        RegisterId::ss => (RegisterClass::Gpr64 { slot: UserRegsField::ss, dwarf_id: 52 }, "ss"@),
        RegisterId::ds => (RegisterClass::Gpr64 { slot: UserRegsField::ds, dwarf_id: 53 }, "ds"@),
        RegisterId::es => (RegisterClass::Gpr64 { slot: UserRegsField::es, dwarf_id: 50 }, "es"@),
        RegisterId::orig_rax => (RegisterClass::Gpr64 { slot: UserRegsField::orig_rax, dwarf_id: -1i32 }, "orig_rax"@),
        RegisterId::eax => (RegisterClass::Gpr32 { slot: UserRegsField::rax }, "eax"@),
        RegisterId::edx => (RegisterClass::Gpr32 { slot: UserRegsField::rdx }, "edx"@),
        RegisterId::ecx => (RegisterClass::Gpr32 { slot: UserRegsField::rcx }, "ecx"@),
        RegisterId::ebx => (RegisterClass::Gpr32 { slot: UserRegsField::rbx }, "ebx"@),
        RegisterId::esi => (RegisterClass::Gpr32 { slot: UserRegsField::rsi }, "esi"@),
        RegisterId::edi => (RegisterClass::Gpr32 { slot: UserRegsField::rdi }, "edi"@),
        RegisterId::ebp => (RegisterClass::Gpr32 { slot: UserRegsField::rbp }, "ebp"@),
        RegisterId::esp => (RegisterClass::Gpr32 { slot: UserRegsField::rsp }, "esp"@),
        RegisterId::r8d => (RegisterClass::Gpr32 { slot: UserRegsField::r8 }, "r8d"@),
        RegisterId::r9d => (RegisterClass::Gpr32 { slot: UserRegsField::r9 }, "r9d"@),
        RegisterId::r10d => (RegisterClass::Gpr32 { slot: UserRegsField::r10 }, "r10d"@),
        RegisterId::r11d => (RegisterClass::Gpr32 { slot: UserRegsField::r11 }, "r11d"@),
        RegisterId::r12d => (RegisterClass::Gpr32 { slot: UserRegsField::r12 }, "r12d"@),
        RegisterId::r13d => (RegisterClass::Gpr32 { slot: UserRegsField::r13 }, "r13d"@),
        RegisterId::r14d => (RegisterClass::Gpr32 { slot: UserRegsField::r14 }, "r14d"@),
        RegisterId::r15d => (RegisterClass::Gpr32 { slot: UserRegsField::r15 }, "r15d"@),
        RegisterId::ax => (RegisterClass::Gpr16 { slot: UserRegsField::rax }, "ax"@),
        RegisterId::dx => (RegisterClass::Gpr16 { slot: UserRegsField::rdx }, "dx"@),
        RegisterId::cx => (RegisterClass::Gpr16 { slot: UserRegsField::rcx }, "cx"@),
        RegisterId::bx => (RegisterClass::Gpr16 { slot: UserRegsField::rbx }, "bx"@),
        RegisterId::si => (RegisterClass::Gpr16 { slot: UserRegsField::rsi }, "si"@),
        RegisterId::di => (RegisterClass::Gpr16 { slot: UserRegsField::rdi }, "di"@),
        RegisterId::bp => (RegisterClass::Gpr16 { slot: UserRegsField::rbp }, "bp"@),
        RegisterId::sp => (RegisterClass::Gpr16 { slot: UserRegsField::rsp }, "sp"@),
        RegisterId::r8w => (RegisterClass::Gpr16 { slot: UserRegsField::r8 }, "r8w"@),
        RegisterId::r9w => (RegisterClass::Gpr16 { slot: UserRegsField::r9 }, "r9w"@),
        RegisterId::r10w => (RegisterClass::Gpr16 { slot: UserRegsField::r10 }, "r10w"@),
        RegisterId::r11w => (RegisterClass::Gpr16 { slot: UserRegsField::r11 }, "r11w"@),
        RegisterId::r12w => (RegisterClass::Gpr16 { slot: UserRegsField::r12 }, "r12w"@),
        RegisterId::r13w => (RegisterClass::Gpr16 { slot: UserRegsField::r13 }, "r13w"@),
        RegisterId::r14w => (RegisterClass::Gpr16 { slot: UserRegsField::r14 }, "r14w"@),
        RegisterId::r15w => (RegisterClass::Gpr16 { slot: UserRegsField::r15 }, "r15w"@),
        RegisterId::ah => (RegisterClass::Gpr8High { slot: UserRegsField::rax }, "ah"@),
        RegisterId::dh => (RegisterClass::Gpr8High { slot: UserRegsField::rdx }, "dh"@),
        RegisterId::ch => (RegisterClass::Gpr8High { slot: UserRegsField::rcx }, "ch"@),
        RegisterId::bh => (RegisterClass::Gpr8High { slot: UserRegsField::rbx }, "bh"@),
        RegisterId::al => (RegisterClass::Gpr8Low { slot: UserRegsField::rax }, "al"@),
        RegisterId::dl => (RegisterClass::Gpr8Low { slot: UserRegsField::rdx }, "dl"@),
        RegisterId::cl => (RegisterClass::Gpr8Low { slot: UserRegsField::rcx }, "cl"@),
        RegisterId::bl => (RegisterClass::Gpr8Low { slot: UserRegsField::rbx }, "bl"@),
        RegisterId::sil => (RegisterClass::Gpr8Low { slot: UserRegsField::rsi }, "sil"@),
        RegisterId::dil => (RegisterClass::Gpr8Low { slot: UserRegsField::rdi }, "dil"@),
        RegisterId::bpl => (RegisterClass::Gpr8Low { slot: UserRegsField::rbp }, "bpl"@),
        RegisterId::spl => (RegisterClass::Gpr8Low { slot: UserRegsField::rsp }, "spl"@),
        RegisterId::r8b => (RegisterClass::Gpr8Low { slot: UserRegsField::r8 }, "r8b"@),
        RegisterId::r9b => (RegisterClass::Gpr8Low { slot: UserRegsField::r9 }, "r9b"@),
        RegisterId::r10b => (RegisterClass::Gpr8Low { slot: UserRegsField::r10 }, "r10b"@),
        RegisterId::r11b => (RegisterClass::Gpr8Low { slot: UserRegsField::r11 }, "r11b"@),
        RegisterId::r12b => (RegisterClass::Gpr8Low { slot: UserRegsField::r12 }, "r12b"@),
        RegisterId::r13b => (RegisterClass::Gpr8Low { slot: UserRegsField::r13 }, "r13b"@),
        RegisterId::r14b => (RegisterClass::Gpr8Low { slot: UserRegsField::r14 }, "r14b"@),
        RegisterId::r15b => (RegisterClass::Gpr8Low { slot: UserRegsField::r15 }, "r15b"@),
        RegisterId::fcw => (RegisterClass::Fpr { field: FprField::cwd, dwarf_id: 65 }, "fcw"@),
        RegisterId::fsw => (RegisterClass::Fpr { field: FprField::swd, dwarf_id: 66 }, "fsw"@),
        RegisterId::ftw => (RegisterClass::Fpr { field: FprField::ftw, dwarf_id: -1i32 }, "ftw"@),
        RegisterId::fop => (RegisterClass::Fpr { field: FprField::fop, dwarf_id: -1i32 }, "fop"@),
        RegisterId::frip => (RegisterClass::Fpr { field: FprField::rip, dwarf_id: -1i32 }, "frip"@),
        RegisterId::frdp => (RegisterClass::Fpr { field: FprField::rdp, dwarf_id: -1i32 }, "frdp"@),
        RegisterId::mxcsr => (RegisterClass::Fpr { field: FprField::mxcsr, dwarf_id: 64 }, "mxcsr"@),
        RegisterId::mxcsrmask => (RegisterClass::Fpr { field: FprField::mxcr_mask, dwarf_id: -1i32 }, "mxcsrmask"@),
        RegisterId::st0 => (RegisterClass::St { number: 0 }, "st0"@),
        RegisterId::st1 => (RegisterClass::St { number: 1 }, "st1"@),
        RegisterId::st2 => (RegisterClass::St { number: 2 }, "st2"@),
        RegisterId::st3 => (RegisterClass::St { number: 3 }, "st3"@),
        RegisterId::st4 => (RegisterClass::St { number: 4 }, "st4"@),
        RegisterId::st5 => (RegisterClass::St { number: 5 }, "st5"@),
        RegisterId::st6 => (RegisterClass::St { number: 6 }, "st6"@),
        RegisterId::st7 => (RegisterClass::St { number: 7 }, "st7"@),
        RegisterId::mm0 => (RegisterClass::Mm { number: 0 }, "mm0"@),
        RegisterId::mm1 => (RegisterClass::Mm { number: 1 }, "mm1"@),
        RegisterId::mm2 => (RegisterClass::Mm { number: 2 }, "mm2"@),
        RegisterId::mm3 => (RegisterClass::Mm { number: 3 }, "mm3"@),
        RegisterId::mm4 => (RegisterClass::Mm { number: 4 }, "mm4"@),
        RegisterId::mm5 => (RegisterClass::Mm { number: 5 }, "mm5"@),
        RegisterId::mm6 => (RegisterClass::Mm { number: 6 }, "mm6"@),
        RegisterId::mm7 => (RegisterClass::Mm { number: 7 }, "mm7"@),
        RegisterId::xmm0 => (RegisterClass::Xmm { number: 0 }, "xmm0"@),
        RegisterId::xmm1 => (RegisterClass::Xmm { number: 1 }, "xmm1"@),
        RegisterId::xmm2 => (RegisterClass::Xmm { number: 2 }, "xmm2"@),
        RegisterId::xmm3 => (RegisterClass::Xmm { number: 3 }, "xmm3"@),
        RegisterId::xmm4 => (RegisterClass::Xmm { number: 4 }, "xmm4"@),
        RegisterId::xmm5 => (RegisterClass::Xmm { number: 5 }, "xmm5"@),
        RegisterId::xmm6 => (RegisterClass::Xmm { number: 6 }, "xmm6"@),
        RegisterId::xmm7 => (RegisterClass::Xmm { number: 7 }, "xmm7"@),
        RegisterId::xmm8 => (RegisterClass::Xmm { number: 8 }, "xmm8"@),
        RegisterId::xmm9 => (RegisterClass::Xmm { number: 9 }, "xmm9"@),
        RegisterId::xmm10 => (RegisterClass::Xmm { number: 10 }, "xmm10"@),
        RegisterId::xmm11 => (RegisterClass::Xmm { number: 11 }, "xmm11"@),
        RegisterId::xmm12 => (RegisterClass::Xmm { number: 12 }, "xmm12"@),
        RegisterId::xmm13 => (RegisterClass::Xmm { number: 13 }, "xmm13"@),
        RegisterId::xmm14 => (RegisterClass::Xmm { number: 14 }, "xmm14"@),
        RegisterId::xmm15 => (RegisterClass::Xmm { number: 15 }, "xmm15"@),
        RegisterId::dr0 => (RegisterClass::Dr { number: 0 }, "dr0"@),
        RegisterId::dr1 => (RegisterClass::Dr { number: 1 }, "dr1"@),
        RegisterId::dr2 => (RegisterClass::Dr { number: 2 }, "dr2"@),
        RegisterId::dr3 => (RegisterClass::Dr { number: 3 }, "dr3"@),
        RegisterId::dr4 => (RegisterClass::Dr { number: 4 }, "dr4"@),
        RegisterId::dr5 => (RegisterClass::Dr { number: 5 }, "dr5"@),
        RegisterId::dr6 => (RegisterClass::Dr { number: 6 }, "dr6"@),
        RegisterId::dr7 => (RegisterClass::Dr { number: 7 }, "dr7"@),
    }
}

/// The family of a register.
pub open spec fn spec_register_class(id: RegisterId) -> RegisterClass {
    spec_register_entry(id).0
}

/// Bounds that the numbers inside a register family obey.
pub open spec fn spec_class_wf(c: RegisterClass) -> bool {
    match c {
        RegisterClass::St { number } => number < 8,
        RegisterClass::Mm { number } => number < 8,
        RegisterClass::Xmm { number } => number < 16,
        RegisterClass::Dr { number } => number < 8,
        _ => true,
    }
}

/// DWARF register number of a register of a family (-1 where there is none).
pub open spec fn spec_class_dwarf_id(c: RegisterClass) -> int {
    match c {
        RegisterClass::Gpr64 { dwarf_id, .. } => dwarf_id as int,
        RegisterClass::Fpr { dwarf_id, .. } => dwarf_id as int,
        RegisterClass::St { number } => 33 + number,
        RegisterClass::Mm { number } => 41 + number,
        RegisterClass::Xmm { number } => 17 + number,
        _ => -1,
    }
}

/// Size in bytes of a register of a family.
pub open spec fn spec_class_size(c: RegisterClass) -> int {
    match c {
        RegisterClass::Gpr64 { .. } => 8,
        RegisterClass::Gpr32 { .. } => 4,
        RegisterClass::Gpr16 { .. } => 2,
        RegisterClass::Gpr8High { .. } => 1,
        RegisterClass::Gpr8Low { .. } => 1,
        RegisterClass::Fpr { field, .. } => spec_fpr_field_size(field),
        RegisterClass::St { .. } => 16,
        RegisterClass::Mm { .. } => 8,
        RegisterClass::Xmm { .. } => 16,
        RegisterClass::Dr { .. } => 8,
    }
}

/// Offset in the user area of a register of a family.
pub open spec fn spec_class_offset(c: RegisterClass) -> int {
    match c {
        RegisterClass::Gpr64 { slot, .. } => 8 * spec_user_regs_index(slot),
        RegisterClass::Gpr32 { slot } => 8 * spec_user_regs_index(slot),
        RegisterClass::Gpr16 { slot } => 8 * spec_user_regs_index(slot),
        RegisterClass::Gpr8High { slot } => 8 * spec_user_regs_index(slot) + 1,
        RegisterClass::Gpr8Low { slot } => 8 * spec_user_regs_index(slot),
        RegisterClass::Fpr { field, .. } => USER_FPREGS_OFFSET + spec_fpr_field_offset(field),
        RegisterClass::St { number } => USER_FPREGS_OFFSET + ST_SPACE_OFFSET + 16 * number,
        RegisterClass::Mm { number } => USER_FPREGS_OFFSET + ST_SPACE_OFFSET + 16 * number,
        RegisterClass::Xmm { number } => USER_FPREGS_OFFSET + XMM_SPACE_OFFSET + 16 * number,
        RegisterClass::Dr { number } => USER_DEBUGREG_OFFSET + 8 * number,
    }
}

/// Register type of a family.
pub open spec fn spec_class_type(c: RegisterClass) -> RegisterType {
    match c {
        RegisterClass::Gpr64 { .. } => RegisterType::GPR,
        RegisterClass::Gpr32 { .. } => RegisterType::SUBGPR,
        RegisterClass::Gpr16 { .. } => RegisterType::SUBGPR,
        RegisterClass::Gpr8High { .. } => RegisterType::SUBGPR,
        RegisterClass::Gpr8Low { .. } => RegisterType::SUBGPR,
        RegisterClass::Fpr { .. } => RegisterType::FPR,
        RegisterClass::St { .. } => RegisterType::FPR,
        RegisterClass::Mm { .. } => RegisterType::FPR,
        RegisterClass::Xmm { .. } => RegisterType::FPR,
        RegisterClass::Dr { .. } => RegisterType::DR,
    }
}

/// Register format of a family.
pub open spec fn spec_class_format(c: RegisterClass) -> RegisterFormat {
    match c {
        RegisterClass::St { .. } => RegisterFormat::VECTOR,
        RegisterClass::Mm { .. } => RegisterFormat::VECTOR,
        RegisterClass::Xmm { .. } => RegisterFormat::VECTOR,
        _ => RegisterFormat::UINT,
    }
}

/// Everything the debugger knows of one register.
#[derive(Clone, Copy, Debug)]
pub struct RegisterInfo {
    pub id: RegisterId,
    pub name: &'static str,
    pub dwarf_id: i32,
    pub size: usize,
    /// Offset of the register in the kernel's `struct user`.
    pub offset: usize,
    pub r_type: RegisterType,
    pub format: RegisterFormat,
}

impl RegisterInfo {
    /// This is the table's entry for register `id`.
    pub open spec fn describes(self, id: RegisterId) -> bool {
        let c = spec_register_class(id);
        &&& self.id == id
        &&& self.name@ == spec_register_entry(id).1
        &&& self.dwarf_id == spec_class_dwarf_id(c)
        &&& self.size == spec_class_size(c)
        &&& self.offset == spec_class_offset(c)
        &&& self.r_type == spec_class_type(c)
        &&& self.format == spec_class_format(c)
    }
}

/// The family and name of a register.
fn register_entry(id: RegisterId) -> (r: (RegisterClass, &'static str))
    ensures
        r.0 == spec_register_entry(id).0,
        r.1@ == spec_register_entry(id).1,
{
    match id {
        RegisterId::rax => (RegisterClass::Gpr64 { slot: UserRegsField::rax, dwarf_id: 0 }, "rax"),
        RegisterId::rdx => (RegisterClass::Gpr64 { slot: UserRegsField::rdx, dwarf_id: 1 }, "rdx"),
        RegisterId::rcx => (RegisterClass::Gpr64 { slot: UserRegsField::rcx, dwarf_id: 2 }, "rcx"),
        RegisterId::rbx => (RegisterClass::Gpr64 { slot: UserRegsField::rbx, dwarf_id: 3 }, "rbx"),
        RegisterId::rsi => (RegisterClass::Gpr64 { slot: UserRegsField::rsi, dwarf_id: 4 }, "rsi"),
        RegisterId::rsp => (RegisterClass::Gpr64 { slot: UserRegsField::rsp, dwarf_id: 7 }, "rsp"),
        RegisterId::r8 => (RegisterClass::Gpr64 { slot: UserRegsField::r8, dwarf_id: 8 }, "r8"),
        RegisterId::r9 => (RegisterClass::Gpr64 { slot: UserRegsField::r9, dwarf_id: 9 }, "r9"),
        RegisterId::r10 => (RegisterClass::Gpr64 { slot: UserRegsField::r10, dwarf_id: 10 }, "r10"),
        RegisterId::r11 => (RegisterClass::Gpr64 { slot: UserRegsField::r11, dwarf_id: 11 }, "r11"),
        RegisterId::r12 => (RegisterClass::Gpr64 { slot: UserRegsField::r12, dwarf_id: 12 }, "r12"),
        RegisterId::r13 => (RegisterClass::Gpr64 { slot: UserRegsField::r13, dwarf_id: 13 }, "r13"),
        RegisterId::r14 => (RegisterClass::Gpr64 { slot: UserRegsField::r14, dwarf_id: 14 }, "r14"),
        RegisterId::rip => (RegisterClass::Gpr64 { slot: UserRegsField::rip, dwarf_id: 16 }, "rip"),
        RegisterId::eflags => (RegisterClass::Gpr64 { slot: UserRegsField::eflags, dwarf_id: 49 }, "eflags"),
        RegisterId::cs => (RegisterClass::Gpr64 { slot: UserRegsField::cs, dwarf_id: 51 }, "cs"),
        RegisterId::fs => (RegisterClass::Gpr64 { slot: UserRegsField::fs, dwarf_id: 54 }, "fs"),
        RegisterId::gs => (RegisterClass::Gpr64 { slot: UserRegsField::gs, dwarf_id: 55 }, "gs"),
        RegisterId::ss => (RegisterClass::Gpr64 { slot: UserRegsField::ss, dwarf_id: 52 }, "ss"),
        RegisterId::ds => (RegisterClass::Gpr64 { slot: UserRegsField::ds, dwarf_id: 53 }, "ds"),
        RegisterId::es => (RegisterClass::Gpr64 { slot: UserRegsField::es, dwarf_id: 50 }, "es"),
        RegisterId::orig_rax => (RegisterClass::Gpr64 { slot: UserRegsField::orig_rax, dwarf_id: -1i32 }, "orig_rax"),
        RegisterId::eax => (RegisterClass::Gpr32 { slot: UserRegsField::rax }, "eax"),
        RegisterId::edx => (RegisterClass::Gpr32 { slot: UserRegsField::rdx }, "edx"),
        RegisterId::ecx => (RegisterClass::Gpr32 { slot: UserRegsField::rcx }, "ecx"),
        RegisterId::ebx => (RegisterClass::Gpr32 { slot: UserRegsField::rbx }, "ebx"),
        RegisterId::esi => (RegisterClass::Gpr32 { slot: UserRegsField::rsi }, "esi"),
        RegisterId::edi => (RegisterClass::Gpr32 { slot: UserRegsField::rdi }, "edi"),
        RegisterId::ebp => (RegisterClass::Gpr32 { slot: UserRegsField::rbp }, "ebp"),
        RegisterId::esp => (RegisterClass::Gpr32 { slot: UserRegsField::rsp }, "esp"),
        RegisterId::r8d => (RegisterClass::Gpr32 { slot: UserRegsField::r8 }, "r8d"),
        RegisterId::r9d => (RegisterClass::Gpr32 { slot: UserRegsField::r9 }, "r9d"),
        RegisterId::r10d => (RegisterClass::Gpr32 { slot: UserRegsField::r10 }, "r10d"),
        RegisterId::r11d => (RegisterClass::Gpr32 { slot: UserRegsField::r11 }, "r11d"),
        RegisterId::r12d => (RegisterClass::Gpr32 { slot: UserRegsField::r12 }, "r12d"),
        RegisterId::r13d => (RegisterClass::Gpr32 { slot: UserRegsField::r13 }, "r13d"),
        RegisterId::r14d => (RegisterClass::Gpr32 { slot: UserRegsField::r14 }, "r14d"),
        RegisterId::r15d => (RegisterClass::Gpr32 { slot: UserRegsField::r15 }, "r15d"),
        RegisterId::ax => (RegisterClass::Gpr16 { slot: UserRegsField::rax }, "ax"),
        RegisterId::dx => (RegisterClass::Gpr16 { slot: UserRegsField::rdx }, "dx"),
        RegisterId::cx => (RegisterClass::Gpr16 { slot: UserRegsField::rcx }, "cx"),
        RegisterId::bx => (RegisterClass::Gpr16 { slot: UserRegsField::rbx }, "bx"),
        RegisterId::si => (RegisterClass::Gpr16 { slot: UserRegsField::rsi }, "si"),
        RegisterId::di => (RegisterClass::Gpr16 { slot: UserRegsField::rdi }, "di"),
        RegisterId::bp => (RegisterClass::Gpr16 { slot: UserRegsField::rbp }, "bp"),
        RegisterId::sp => (RegisterClass::Gpr16 { slot: UserRegsField::rsp }, "sp"),
        RegisterId::r8w => (RegisterClass::Gpr16 { slot: UserRegsField::r8 }, "r8w"),
        RegisterId::r9w => (RegisterClass::Gpr16 { slot: UserRegsField::r9 }, "r9w"),
        RegisterId::r10w => (RegisterClass::Gpr16 { slot: UserRegsField::r10 }, "r10w"),
        RegisterId::r11w => (RegisterClass::Gpr16 { slot: UserRegsField::r11 }, "r11w"),
        RegisterId::r12w => (RegisterClass::Gpr16 { slot: UserRegsField::r12 }, "r12w"),
        RegisterId::r13w => (RegisterClass::Gpr16 { slot: UserRegsField::r13 }, "r13w"),
        RegisterId::r14w => (RegisterClass::Gpr16 { slot: UserRegsField::r14 }, "r14w"),
        RegisterId::r15w => (RegisterClass::Gpr16 { slot: UserRegsField::r15 }, "r15w"),
        RegisterId::ah => (RegisterClass::Gpr8High { slot: UserRegsField::rax }, "ah"),
        RegisterId::dh => (RegisterClass::Gpr8High { slot: UserRegsField::rdx }, "dh"),
        RegisterId::ch => (RegisterClass::Gpr8High { slot: UserRegsField::rcx }, "ch"),
        RegisterId::bh => (RegisterClass::Gpr8High { slot: UserRegsField::rbx }, "bh"),
        RegisterId::al => (RegisterClass::Gpr8Low { slot: UserRegsField::rax }, "al"),
        RegisterId::dl => (RegisterClass::Gpr8Low { slot: UserRegsField::rdx }, "dl"),
        RegisterId::cl => (RegisterClass::Gpr8Low { slot: UserRegsField::rcx }, "cl"),
        RegisterId::bl => (RegisterClass::Gpr8Low { slot: UserRegsField::rbx }, "bl"),
        RegisterId::sil => (RegisterClass::Gpr8Low { slot: UserRegsField::rsi }, "sil"),
        RegisterId::dil => (RegisterClass::Gpr8Low { slot: UserRegsField::rdi }, "dil"),
        RegisterId::bpl => (RegisterClass::Gpr8Low { slot: UserRegsField::rbp }, "bpl"),
        RegisterId::spl => (RegisterClass::Gpr8Low { slot: UserRegsField::rsp }, "spl"),
        RegisterId::r8b => (RegisterClass::Gpr8Low { slot: UserRegsField::r8 }, "r8b"),
        RegisterId::r9b => (RegisterClass::Gpr8Low { slot: UserRegsField::r9 }, "r9b"),
        RegisterId::r10b => (RegisterClass::Gpr8Low { slot: UserRegsField::r10 }, "r10b"),
        RegisterId::r11b => (RegisterClass::Gpr8Low { slot: UserRegsField::r11 }, "r11b"),
        RegisterId::r12b => (RegisterClass::Gpr8Low { slot: UserRegsField::r12 }, "r12b"),
        RegisterId::r13b => (RegisterClass::Gpr8Low { slot: UserRegsField::r13 }, "r13b"),
        RegisterId::r14b => (RegisterClass::Gpr8Low { slot: UserRegsField::r14 }, "r14b"),
        RegisterId::r15b => (RegisterClass::Gpr8Low { slot: UserRegsField::r15 }, "r15b"),
        RegisterId::fcw => (RegisterClass::Fpr { field: FprField::cwd, dwarf_id: 65 }, "fcw"),
        RegisterId::fsw => (RegisterClass::Fpr { field: FprField::swd, dwarf_id: 66 }, "fsw"),
        RegisterId::ftw => (RegisterClass::Fpr { field: FprField::ftw, dwarf_id: -1i32 }, "ftw"),
        RegisterId::fop => (RegisterClass::Fpr { field: FprField::fop, dwarf_id: -1i32 }, "fop"),
        RegisterId::frip => (RegisterClass::Fpr { field: FprField::rip, dwarf_id: -1i32 }, "frip"),
        RegisterId::frdp => (RegisterClass::Fpr { field: FprField::rdp, dwarf_id: -1i32 }, "frdp"),
        RegisterId::mxcsr => (RegisterClass::Fpr { field: FprField::mxcsr, dwarf_id: 64 }, "mxcsr"),
        RegisterId::mxcsrmask => (RegisterClass::Fpr { field: FprField::mxcr_mask, dwarf_id: -1i32 }, "mxcsrmask"),
        RegisterId::st0 => (RegisterClass::St { number: 0 }, "st0"),
        RegisterId::st1 => (RegisterClass::St { number: 1 }, "st1"),
        RegisterId::st2 => (RegisterClass::St { number: 2 }, "st2"),
        RegisterId::st3 => (RegisterClass::St { number: 3 }, "st3"),
        RegisterId::st4 => (RegisterClass::St { number: 4 }, "st4"),
        RegisterId::st5 => (RegisterClass::St { number: 5 }, "st5"),
        RegisterId::st6 => (RegisterClass::St { number: 6 }, "st6"),
        RegisterId::st7 => (RegisterClass::St { number: 7 }, "st7"),
        RegisterId::mm0 => (RegisterClass::Mm { number: 0 }, "mm0"),
        RegisterId::mm1 => (RegisterClass::Mm { number: 1 }, "mm1"),
        RegisterId::mm2 => (RegisterClass::Mm { number: 2 }, "mm2"),
        RegisterId::mm3 => (RegisterClass::Mm { number: 3 }, "mm3"),
        RegisterId::mm4 => (RegisterClass::Mm { number: 4 }, "mm4"),
        RegisterId::mm5 => (RegisterClass::Mm { number: 5 }, "mm5"),
        RegisterId::mm6 => (RegisterClass::Mm { number: 6 }, "mm6"),
        RegisterId::mm7 => (RegisterClass::Mm { number: 7 }, "mm7"),
        RegisterId::xmm0 => (RegisterClass::Xmm { number: 0 }, "xmm0"),
        RegisterId::xmm1 => (RegisterClass::Xmm { number: 1 }, "xmm1"),
        RegisterId::xmm2 => (RegisterClass::Xmm { number: 2 }, "xmm2"),
        RegisterId::xmm3 => (RegisterClass::Xmm { number: 3 }, "xmm3"),
        RegisterId::xmm4 => (RegisterClass::Xmm { number: 4 }, "xmm4"),
        RegisterId::xmm5 => (RegisterClass::Xmm { number: 5 }, "xmm5"),
        RegisterId::xmm6 => (RegisterClass::Xmm { number: 6 }, "xmm6"),
        RegisterId::xmm7 => (RegisterClass::Xmm { number: 7 }, "xmm7"),
        RegisterId::xmm8 => (RegisterClass::Xmm { number: 8 }, "xmm8"),
        RegisterId::xmm9 => (RegisterClass::Xmm { number: 9 }, "xmm9"),
        RegisterId::xmm10 => (RegisterClass::Xmm { number: 10 }, "xmm10"),
        RegisterId::xmm11 => (RegisterClass::Xmm { number: 11 }, "xmm11"),
        RegisterId::xmm12 => (RegisterClass::Xmm { number: 12 }, "xmm12"),
        RegisterId::xmm13 => (RegisterClass::Xmm { number: 13 }, "xmm13"),
        RegisterId::xmm14 => (RegisterClass::Xmm { number: 14 }, "xmm14"),
        RegisterId::xmm15 => (RegisterClass::Xmm { number: 15 }, "xmm15"),
        RegisterId::dr0 => (RegisterClass::Dr { number: 0 }, "dr0"),
        RegisterId::dr1 => (RegisterClass::Dr { number: 1 }, "dr1"),
        RegisterId::dr2 => (RegisterClass::Dr { number: 2 }, "dr2"),
        RegisterId::dr3 => (RegisterClass::Dr { number: 3 }, "dr3"),
        RegisterId::dr4 => (RegisterClass::Dr { number: 4 }, "dr4"),
        RegisterId::dr5 => (RegisterClass::Dr { number: 5 }, "dr5"),
        RegisterId::dr6 => (RegisterClass::Dr { number: 6 }, "dr6"),
        RegisterId::dr7 => (RegisterClass::Dr { number: 7 }, "dr7"),
    }
}

/// The table entry of a register, computed from its family.
fn class_layout(c: RegisterClass) -> (r: (i32, usize, usize, RegisterType, RegisterFormat))
    requires
        spec_class_wf(c),
    ensures
        r.0 == spec_class_dwarf_id(c),
        r.1 == spec_class_size(c),
        r.2 == spec_class_offset(c),
        r.3 == spec_class_type(c),
        r.4 == spec_class_format(c),
{
    match c {
        RegisterClass::Gpr64 { slot, dwarf_id } =>
            (dwarf_id, 8, slot.offset(), RegisterType::GPR, RegisterFormat::UINT),
        RegisterClass::Gpr32 { slot } =>
            (-1, 4, slot.offset(), RegisterType::SUBGPR, RegisterFormat::UINT),
        RegisterClass::Gpr16 { slot } =>
            (-1, 2, slot.offset(), RegisterType::SUBGPR, RegisterFormat::UINT),
        RegisterClass::Gpr8High { slot } =>
            (-1, 1, slot.offset() + 1, RegisterType::SUBGPR, RegisterFormat::UINT),
        RegisterClass::Gpr8Low { slot } =>
            (-1, 1, slot.offset(), RegisterType::SUBGPR, RegisterFormat::UINT),
        RegisterClass::Fpr { field, dwarf_id } => {
            let (off, size) = field.layout();
            (dwarf_id, size, USER_FPREGS_OFFSET + off, RegisterType::FPR, RegisterFormat::UINT)
        },
        RegisterClass::St { number } => (
            33 + number as i32,
            16,
            USER_FPREGS_OFFSET + ST_SPACE_OFFSET + 16 * number,
            RegisterType::FPR,
            RegisterFormat::VECTOR,
        ),
        RegisterClass::Mm { number } => (
            41 + number as i32,
            8,
            USER_FPREGS_OFFSET + ST_SPACE_OFFSET + 16 * number,
            RegisterType::FPR,
            RegisterFormat::VECTOR,
        ),
        RegisterClass::Xmm { number } => (
            17 + number as i32,
            16,
            USER_FPREGS_OFFSET + XMM_SPACE_OFFSET + 16 * number,
            RegisterType::FPR,
            RegisterFormat::VECTOR,
        ),
        RegisterClass::Dr { number } => (
            -1,
            8,
            USER_DEBUGREG_OFFSET + 8 * number,
            RegisterType::DR,
            RegisterFormat::UINT,
        ),
    }
}

/// Every family in the table obeys its bounds.
pub proof fn lemma_register_class_wf(id: RegisterId)
    ensures
        spec_class_wf(spec_register_class(id)),
{
}

/// Offset of a register in the user area.
pub open spec fn spec_register_offset(id: RegisterId) -> int {
    spec_class_offset(spec_register_class(id))
}

/// Size in bytes of a register.
pub open spec fn spec_register_size(id: RegisterId) -> int {
    spec_class_size(spec_register_class(id))
}

/// Every register lies inside the user area, and its size is 1, 2, 4, 8 or 16 bytes.
pub proof fn lemma_register_in_user_area(id: RegisterId)
    ensures
        0 <= spec_register_offset(id),
        spec_register_offset(id) + spec_register_size(id) <= USER_AREA_SIZE,
        spec_register_size(id) == 1 || spec_register_size(id) == 2 || spec_register_size(id) == 4
            || spec_register_size(id) == 8 || spec_register_size(id) == 16,
{
    lemma_register_class_wf(id);
}

/// Every part of a general purpose register lies inside the 64-bit slot of
/// the register it is part of, and that slot lies inside `struct user_regs_struct`.
pub proof fn lemma_subregister_within_parent(id: RegisterId)
    ensures
        match spec_register_class(id) {
            RegisterClass::Gpr64 { slot, .. } | RegisterClass::Gpr32 { slot }
            | RegisterClass::Gpr16 { slot } | RegisterClass::Gpr8High { slot }
            | RegisterClass::Gpr8Low { slot } => {
                &&& 8 * spec_user_regs_index(slot) <= spec_register_offset(id)
                &&& spec_register_offset(id) + spec_register_size(id)
                    <= 8 * spec_user_regs_index(slot) + 8
                &&& 8 * spec_user_regs_index(slot) + 8 <= USER_REGS_SIZE
            },
            _ => true,
        },
{
}

/// The floating point registers lie inside `struct user_fpregs_struct`, and
/// only they do.
pub proof fn lemma_fpr_within_fpregs(id: RegisterId)
    ensures
        (spec_class_type(spec_register_class(id)) == RegisterType::FPR) <==> (
        USER_FPREGS_OFFSET <= spec_register_offset(id) && spec_register_offset(id)
            + spec_register_size(id) <= USER_FPREGS_OFFSET + USER_FPREGS_SIZE),
{
    lemma_register_class_wf(id);
}

/// A register that is not a floating point register lies inside one aligned
/// 8-byte word of the user area.
pub proof fn lemma_non_fpr_within_aligned_word(id: RegisterId)
    ensures
        spec_class_type(spec_register_class(id)) != RegisterType::FPR ==> {
            let word = spec_register_offset(id) - spec_register_offset(id) % 8;
            &&& word + 8 <= USER_AREA_SIZE
            &&& spec_register_offset(id) + spec_register_size(id) <= word + 8
        },
{
    lemma_register_class_wf(id);
}

/// Debug register `n` is the `n`-th 64-bit word of `u_debugreg`.
pub proof fn lemma_debug_register_offset(id: RegisterId)
    ensures
        spec_register_class(id) matches RegisterClass::Dr { number } ==> {
            &&& number < 8
            &&& spec_register_offset(id) == USER_DEBUGREG_OFFSET + 8 * number
            &&& spec_register_size(id) == 8
        },
{
    lemma_register_class_wf(id);
}

/// The register that a family entry belongs to: the table read backwards.
/// A full general purpose register is found by its slot alone, a floating
/// point scalar register by its field alone.
pub open spec fn spec_register_with_class(c: RegisterClass) -> Option<RegisterId> {
    match c {
        RegisterClass::Gpr64 { slot: UserRegsField::rax, .. } => Some(RegisterId::rax),
        RegisterClass::Gpr64 { slot: UserRegsField::rdx, .. } => Some(RegisterId::rdx),
        RegisterClass::Gpr64 { slot: UserRegsField::rcx, .. } => Some(RegisterId::rcx),
        RegisterClass::Gpr64 { slot: UserRegsField::rbx, .. } => Some(RegisterId::rbx),
        RegisterClass::Gpr64 { slot: UserRegsField::rsi, .. } => Some(RegisterId::rsi),
        RegisterClass::Gpr64 { slot: UserRegsField::rsp, .. } => Some(RegisterId::rsp),
        RegisterClass::Gpr64 { slot: UserRegsField::r8, .. } => Some(RegisterId::r8),
        RegisterClass::Gpr64 { slot: UserRegsField::r9, .. } => Some(RegisterId::r9),
        RegisterClass::Gpr64 { slot: UserRegsField::r10, .. } => Some(RegisterId::r10),
        RegisterClass::Gpr64 { slot: UserRegsField::r11, .. } => Some(RegisterId::r11),
        RegisterClass::Gpr64 { slot: UserRegsField::r12, .. } => Some(RegisterId::r12),
        RegisterClass::Gpr64 { slot: UserRegsField::r13, .. } => Some(RegisterId::r13),
        RegisterClass::Gpr64 { slot: UserRegsField::r14, .. } => Some(RegisterId::r14),
        RegisterClass::Gpr64 { slot: UserRegsField::rip, .. } => Some(RegisterId::rip),
        RegisterClass::Gpr64 { slot: UserRegsField::eflags, .. } => Some(RegisterId::eflags),
        RegisterClass::Gpr64 { slot: UserRegsField::cs, .. } => Some(RegisterId::cs),
        RegisterClass::Gpr64 { slot: UserRegsField::fs, .. } => Some(RegisterId::fs),
        RegisterClass::Gpr64 { slot: UserRegsField::gs, .. } => Some(RegisterId::gs),
        RegisterClass::Gpr64 { slot: UserRegsField::ss, .. } => Some(RegisterId::ss),
        RegisterClass::Gpr64 { slot: UserRegsField::ds, .. } => Some(RegisterId::ds),
        RegisterClass::Gpr64 { slot: UserRegsField::es, .. } => Some(RegisterId::es),
        RegisterClass::Gpr64 { slot: UserRegsField::orig_rax, .. } => Some(RegisterId::orig_rax),
        RegisterClass::Gpr32 { slot: UserRegsField::rax } => Some(RegisterId::eax),
        RegisterClass::Gpr32 { slot: UserRegsField::rdx } => Some(RegisterId::edx),
        RegisterClass::Gpr32 { slot: UserRegsField::rcx } => Some(RegisterId::ecx),
        RegisterClass::Gpr32 { slot: UserRegsField::rbx } => Some(RegisterId::ebx),
        RegisterClass::Gpr32 { slot: UserRegsField::rsi } => Some(RegisterId::esi),
        RegisterClass::Gpr32 { slot: UserRegsField::rdi } => Some(RegisterId::edi),
        RegisterClass::Gpr32 { slot: UserRegsField::rbp } => Some(RegisterId::ebp),
        RegisterClass::Gpr32 { slot: UserRegsField::rsp } => Some(RegisterId::esp),
        RegisterClass::Gpr32 { slot: UserRegsField::r8 } => Some(RegisterId::r8d),
        RegisterClass::Gpr32 { slot: UserRegsField::r9 } => Some(RegisterId::r9d),
        RegisterClass::Gpr32 { slot: UserRegsField::r10 } => Some(RegisterId::r10d),
        RegisterClass::Gpr32 { slot: UserRegsField::r11 } => Some(RegisterId::r11d),
        RegisterClass::Gpr32 { slot: UserRegsField::r12 } => Some(RegisterId::r12d),
        RegisterClass::Gpr32 { slot: UserRegsField::r13 } => Some(RegisterId::r13d),
        RegisterClass::Gpr32 { slot: UserRegsField::r14 } => Some(RegisterId::r14d),
        RegisterClass::Gpr32 { slot: UserRegsField::r15 } => Some(RegisterId::r15d),
        RegisterClass::Gpr16 { slot: UserRegsField::rax } => Some(RegisterId::ax),
        RegisterClass::Gpr16 { slot: UserRegsField::rdx } => Some(RegisterId::dx),
        RegisterClass::Gpr16 { slot: UserRegsField::rcx } => Some(RegisterId::cx),
        RegisterClass::Gpr16 { slot: UserRegsField::rbx } => Some(RegisterId::bx),
        RegisterClass::Gpr16 { slot: UserRegsField::rsi } => Some(RegisterId::si),
        RegisterClass::Gpr16 { slot: UserRegsField::rdi } => Some(RegisterId::di),
        RegisterClass::Gpr16 { slot: UserRegsField::rbp } => Some(RegisterId::bp),
        RegisterClass::Gpr16 { slot: UserRegsField::rsp } => Some(RegisterId::sp),
        RegisterClass::Gpr16 { slot: UserRegsField::r8 } => Some(RegisterId::r8w),
        RegisterClass::Gpr16 { slot: UserRegsField::r9 } => Some(RegisterId::r9w),
        RegisterClass::Gpr16 { slot: UserRegsField::r10 } => Some(RegisterId::r10w),
        RegisterClass::Gpr16 { slot: UserRegsField::r11 } => Some(RegisterId::r11w),
        RegisterClass::Gpr16 { slot: UserRegsField::r12 } => Some(RegisterId::r12w),
        RegisterClass::Gpr16 { slot: UserRegsField::r13 } => Some(RegisterId::r13w),
        RegisterClass::Gpr16 { slot: UserRegsField::r14 } => Some(RegisterId::r14w),
        RegisterClass::Gpr16 { slot: UserRegsField::r15 } => Some(RegisterId::r15w),
        RegisterClass::Gpr8High { slot: UserRegsField::rax } => Some(RegisterId::ah),
        RegisterClass::Gpr8High { slot: UserRegsField::rdx } => Some(RegisterId::dh),
        RegisterClass::Gpr8High { slot: UserRegsField::rcx } => Some(RegisterId::ch),
        RegisterClass::Gpr8High { slot: UserRegsField::rbx } => Some(RegisterId::bh),
        RegisterClass::Gpr8Low { slot: UserRegsField::rax } => Some(RegisterId::al),
        RegisterClass::Gpr8Low { slot: UserRegsField::rdx } => Some(RegisterId::dl),
        RegisterClass::Gpr8Low { slot: UserRegsField::rcx } => Some(RegisterId::cl),
        RegisterClass::Gpr8Low { slot: UserRegsField::rbx } => Some(RegisterId::bl),
        RegisterClass::Gpr8Low { slot: UserRegsField::rsi } => Some(RegisterId::sil),
        RegisterClass::Gpr8Low { slot: UserRegsField::rdi } => Some(RegisterId::dil),
        RegisterClass::Gpr8Low { slot: UserRegsField::rbp } => Some(RegisterId::bpl),
        RegisterClass::Gpr8Low { slot: UserRegsField::rsp } => Some(RegisterId::spl),
        RegisterClass::Gpr8Low { slot: UserRegsField::r8 } => Some(RegisterId::r8b),
        RegisterClass::Gpr8Low { slot: UserRegsField::r9 } => Some(RegisterId::r9b),
        RegisterClass::Gpr8Low { slot: UserRegsField::r10 } => Some(RegisterId::r10b),
        RegisterClass::Gpr8Low { slot: UserRegsField::r11 } => Some(RegisterId::r11b),
        RegisterClass::Gpr8Low { slot: UserRegsField::r12 } => Some(RegisterId::r12b),
        RegisterClass::Gpr8Low { slot: UserRegsField::r13 } => Some(RegisterId::r13b),
        RegisterClass::Gpr8Low { slot: UserRegsField::r14 } => Some(RegisterId::r14b),
        RegisterClass::Gpr8Low { slot: UserRegsField::r15 } => Some(RegisterId::r15b),
        RegisterClass::Fpr { field: FprField::cwd, .. } => Some(RegisterId::fcw),
        RegisterClass::Fpr { field: FprField::swd, .. } => Some(RegisterId::fsw),
        RegisterClass::Fpr { field: FprField::ftw, .. } => Some(RegisterId::ftw),
        RegisterClass::Fpr { field: FprField::fop, .. } => Some(RegisterId::fop),
        RegisterClass::Fpr { field: FprField::rip, .. } => Some(RegisterId::frip),
        RegisterClass::Fpr { field: FprField::rdp, .. } => Some(RegisterId::frdp),
        RegisterClass::Fpr { field: FprField::mxcsr, .. } => Some(RegisterId::mxcsr),
        RegisterClass::Fpr { field: FprField::mxcr_mask, .. } => Some(RegisterId::mxcsrmask),
        RegisterClass::St { number: 0 } => Some(RegisterId::st0),
        RegisterClass::St { number: 1 } => Some(RegisterId::st1),
        RegisterClass::St { number: 2 } => Some(RegisterId::st2),
        RegisterClass::St { number: 3 } => Some(RegisterId::st3),
        RegisterClass::St { number: 4 } => Some(RegisterId::st4),
        RegisterClass::St { number: 5 } => Some(RegisterId::st5),
        RegisterClass::St { number: 6 } => Some(RegisterId::st6),
        RegisterClass::St { number: 7 } => Some(RegisterId::st7),
        RegisterClass::Mm { number: 0 } => Some(RegisterId::mm0),
        RegisterClass::Mm { number: 1 } => Some(RegisterId::mm1),
        RegisterClass::Mm { number: 2 } => Some(RegisterId::mm2),
        RegisterClass::Mm { number: 3 } => Some(RegisterId::mm3),
        RegisterClass::Mm { number: 4 } => Some(RegisterId::mm4),
        RegisterClass::Mm { number: 5 } => Some(RegisterId::mm5),
        RegisterClass::Mm { number: 6 } => Some(RegisterId::mm6),
        RegisterClass::Mm { number: 7 } => Some(RegisterId::mm7),
        RegisterClass::Xmm { number: 0 } => Some(RegisterId::xmm0),
        RegisterClass::Xmm { number: 1 } => Some(RegisterId::xmm1),
        RegisterClass::Xmm { number: 2 } => Some(RegisterId::xmm2),
        RegisterClass::Xmm { number: 3 } => Some(RegisterId::xmm3),
        RegisterClass::Xmm { number: 4 } => Some(RegisterId::xmm4),
        RegisterClass::Xmm { number: 5 } => Some(RegisterId::xmm5),
        RegisterClass::Xmm { number: 6 } => Some(RegisterId::xmm6),
        RegisterClass::Xmm { number: 7 } => Some(RegisterId::xmm7),
        RegisterClass::Xmm { number: 8 } => Some(RegisterId::xmm8),
        RegisterClass::Xmm { number: 9 } => Some(RegisterId::xmm9),
        RegisterClass::Xmm { number: 10 } => Some(RegisterId::xmm10),
        RegisterClass::Xmm { number: 11 } => Some(RegisterId::xmm11),
        RegisterClass::Xmm { number: 12 } => Some(RegisterId::xmm12),
        RegisterClass::Xmm { number: 13 } => Some(RegisterId::xmm13),
        RegisterClass::Xmm { number: 14 } => Some(RegisterId::xmm14),
        RegisterClass::Xmm { number: 15 } => Some(RegisterId::xmm15),
        RegisterClass::Dr { number: 0 } => Some(RegisterId::dr0),
        RegisterClass::Dr { number: 1 } => Some(RegisterId::dr1),
        RegisterClass::Dr { number: 2 } => Some(RegisterId::dr2),
        RegisterClass::Dr { number: 3 } => Some(RegisterId::dr3),
        RegisterClass::Dr { number: 4 } => Some(RegisterId::dr4),
        RegisterClass::Dr { number: 5 } => Some(RegisterId::dr5),
        RegisterClass::Dr { number: 6 } => Some(RegisterId::dr6),
        RegisterClass::Dr { number: 7 } => Some(RegisterId::dr7),
        _ => None,
    }
}

/// No two registers share a table entry: each entry leads back to its
/// register, so distinct full general purpose registers have distinct slots
/// and distinct floating point scalar registers distinct fields.
pub proof fn lemma_register_table_injective(id: RegisterId)
    ensures
        spec_register_with_class(spec_register_class(id)) == Some(id),
{
}

/// Distinct full 64-bit general purpose registers occupy disjoint 8-byte
/// slots of `struct user_regs_struct`.
pub proof fn lemma_full_gprs_disjoint(a: RegisterId, b: RegisterId)
    requires
        a != b,
        spec_register_class(a) is Gpr64,
        spec_register_class(b) is Gpr64,
    ensures
        spec_register_offset(a) + 8 <= spec_register_offset(b) || spec_register_offset(b) + 8
            <= spec_register_offset(a),
        spec_register_size(a) == 8,
        spec_register_size(b) == 8,
{
    lemma_register_table_injective(a);
    lemma_register_table_injective(b);
    lemma_user_regs_slots(spec_register_class(a)->Gpr64_slot);
    lemma_user_regs_slots(spec_register_class(b)->Gpr64_slot);
    lemma_user_regs_slots_distinct(spec_register_class(a)->Gpr64_slot, spec_register_class(b)->Gpr64_slot);
}

/// The slot of `struct user_regs_struct` at a position.
pub open spec fn spec_user_regs_field_at(i: int) -> Option<UserRegsField> {
    if i == 0 {
        Some(UserRegsField::r15)
    } else if i == 1 {
        Some(UserRegsField::r14)
    } else if i == 2 {
        Some(UserRegsField::r13)
    } else if i == 3 {
        Some(UserRegsField::r12)
    } else if i == 4 {
        Some(UserRegsField::rbp)
    } else if i == 5 {
        Some(UserRegsField::rbx)
    } else if i == 6 {
        Some(UserRegsField::r11)
    } else if i == 7 {
        Some(UserRegsField::r10)
    } else if i == 8 {
        Some(UserRegsField::r9)
    } else if i == 9 {
        Some(UserRegsField::r8)
    } else if i == 10 {
        Some(UserRegsField::rax)
    } else if i == 11 {
        Some(UserRegsField::rcx)
    } else if i == 12 {
        Some(UserRegsField::rdx)
    } else if i == 13 {
        Some(UserRegsField::rsi)
    } else if i == 14 {
        Some(UserRegsField::rdi)
    } else if i == 15 {
        Some(UserRegsField::orig_rax)
    } else if i == 16 {
        Some(UserRegsField::rip)
    } else if i == 17 {
        Some(UserRegsField::cs)
    } else if i == 18 {
        Some(UserRegsField::eflags)
    } else if i == 19 {
        Some(UserRegsField::rsp)
    } else if i == 20 {
        Some(UserRegsField::ss)
    } else if i == 21 {
        Some(UserRegsField::fs_base)
    } else if i == 22 {
        Some(UserRegsField::gs_base)
    } else if i == 23 {
        Some(UserRegsField::ds)
    } else if i == 24 {
        Some(UserRegsField::es)
    } else if i == 25 {
        Some(UserRegsField::fs)
    } else if i == 26 {
        Some(UserRegsField::gs)
    } else {
        None
    }
}

/// The slots of `struct user_regs_struct` are its 27 positions, each taken once.
pub proof fn lemma_user_regs_slots(f: UserRegsField)
    ensures
        0 <= spec_user_regs_index(f) < 27,
        spec_user_regs_field_at(spec_user_regs_index(f)) == Some(f),
{
}

/// Distinct slots of `struct user_regs_struct` are at distinct positions.
pub proof fn lemma_user_regs_slots_distinct(f: UserRegsField, g: UserRegsField)
    requires
        f != g,
    ensures
        spec_user_regs_index(f) != spec_user_regs_index(g),
{
    lemma_user_regs_slots(f);
    lemma_user_regs_slots(g);
}

/// DWARF register numbers of the x86-64 psABI for the slots of
/// `struct user_regs_struct` (-1 for `orig_rax`, which has none).
pub open spec fn spec_psabi_dwarf_number(f: UserRegsField) -> int {
    match f {
        UserRegsField::rax => 0,
        UserRegsField::rdx => 1,
        UserRegsField::rcx => 2,
        UserRegsField::rbx => 3,
        UserRegsField::rsi => 4,
        UserRegsField::rdi => 5,
        UserRegsField::rbp => 6,
        UserRegsField::rsp => 7,
        UserRegsField::r8 => 8,
        UserRegsField::r9 => 9,
        UserRegsField::r10 => 10,
        UserRegsField::r11 => 11,
        UserRegsField::r12 => 12,
        UserRegsField::r13 => 13,
        UserRegsField::r14 => 14,
        UserRegsField::r15 => 15,
        UserRegsField::rip => 16,
        UserRegsField::eflags => 49,
        UserRegsField::es => 50,
        UserRegsField::cs => 51,
        UserRegsField::ss => 52,
        UserRegsField::ds => 53,
        UserRegsField::fs => 54,
        UserRegsField::gs => 55,
        UserRegsField::fs_base => 58,
        UserRegsField::gs_base => 59,
        UserRegsField::orig_rax => -1,
    }
}

/// Every full general purpose register carries the psABI DWARF number of its slot.
pub proof fn lemma_gpr_dwarf_numbers(id: RegisterId)
    ensures
        spec_register_class(id) matches RegisterClass::Gpr64 { slot, dwarf_id } ==> dwarf_id
            == spec_psabi_dwarf_number(slot),
{
}

/// The register that carries a DWARF number.
pub open spec fn spec_register_with_dwarf(d: int) -> Option<RegisterId> {
    if false {
        None
    } else if d == 0 {
        Some(RegisterId::rax)
    } else if d == 1 {
        Some(RegisterId::rdx)
    } else if d == 2 {
        Some(RegisterId::rcx)
    } else if d == 3 {
        Some(RegisterId::rbx)
    } else if d == 4 {
        Some(RegisterId::rsi)
    } else if d == 7 {
        Some(RegisterId::rsp)
    } else if d == 8 {
        Some(RegisterId::r8)
    } else if d == 9 {
        Some(RegisterId::r9)
    } else if d == 10 {
        Some(RegisterId::r10)
    } else if d == 11 {
        Some(RegisterId::r11)
    } else if d == 12 {
        Some(RegisterId::r12)
    } else if d == 13 {
        Some(RegisterId::r13)
    } else if d == 14 {
        Some(RegisterId::r14)
    } else if d == 16 {
        Some(RegisterId::rip)
    } else if d == 49 {
        Some(RegisterId::eflags)
    } else if d == 51 {
        Some(RegisterId::cs)
    } else if d == 54 {
        Some(RegisterId::fs)
    } else if d == 55 {
        Some(RegisterId::gs)
    } else if d == 52 {
        Some(RegisterId::ss)
    } else if d == 53 {
        Some(RegisterId::ds)
    } else if d == 50 {
        Some(RegisterId::es)
    } else if d == 65 {
        Some(RegisterId::fcw)
    } else if d == 66 {
        Some(RegisterId::fsw)
    } else if d == 64 {
        Some(RegisterId::mxcsr)
    } else if d == 33 {
        Some(RegisterId::st0)
    } else if d == 34 {
        Some(RegisterId::st1)
    } else if d == 35 {
        Some(RegisterId::st2)
    } else if d == 36 {
        Some(RegisterId::st3)
    } else if d == 37 {
        Some(RegisterId::st4)
    } else if d == 38 {
        Some(RegisterId::st5)
    } else if d == 39 {
        Some(RegisterId::st6)
    } else if d == 40 {
        Some(RegisterId::st7)
    } else if d == 41 {
        Some(RegisterId::mm0)
    } else if d == 42 {
        Some(RegisterId::mm1)
    } else if d == 43 {
        Some(RegisterId::mm2)
    } else if d == 44 {
        Some(RegisterId::mm3)
    } else if d == 45 {
        Some(RegisterId::mm4)
    } else if d == 46 {
        Some(RegisterId::mm5)
    } else if d == 47 {
        Some(RegisterId::mm6)
    } else if d == 48 {
        Some(RegisterId::mm7)
    } else if d == 17 {
        Some(RegisterId::xmm0)
    } else if d == 18 {
        Some(RegisterId::xmm1)
    } else if d == 19 {
        Some(RegisterId::xmm2)
    } else if d == 20 {
        Some(RegisterId::xmm3)
    } else if d == 21 {
        Some(RegisterId::xmm4)
    } else if d == 22 {
        Some(RegisterId::xmm5)
    } else if d == 23 {
        Some(RegisterId::xmm6)
    } else if d == 24 {
        Some(RegisterId::xmm7)
    } else if d == 25 {
        Some(RegisterId::xmm8)
    } else if d == 26 {
        Some(RegisterId::xmm9)
    } else if d == 27 {
        Some(RegisterId::xmm10)
    } else if d == 28 {
        Some(RegisterId::xmm11)
    } else if d == 29 {
        Some(RegisterId::xmm12)
    } else if d == 30 {
        Some(RegisterId::xmm13)
    } else if d == 31 {
        Some(RegisterId::xmm14)
    } else if d == 32 {
        Some(RegisterId::xmm15)
    } else {
        None
    }
}

/// No two registers share a DWARF number: each number leads back to its register.
pub proof fn lemma_dwarf_numbers_distinct(id: RegisterId)
    ensures
        spec_class_dwarf_id(spec_register_class(id)) >= 0 ==> spec_register_with_dwarf(
            spec_class_dwarf_id(spec_register_class(id)),
        ) == Some(id),
{
    lemma_register_class_wf(id);
}

/// The scalar fields of `struct user_fpregs_struct` follow one another from
/// its start, with no gap, up to `st_space`; the eight 16-byte x87 slots then
/// reach `xmm_space`, and the sixteen 16-byte SSE slots and the 96 bytes of
/// padding end the structure.
pub proof fn lemma_fpregs_layout()
    ensures
        spec_fpr_field_offset(FprField::cwd) == 0,
        spec_fpr_field_offset(FprField::swd) == spec_fpr_field_offset(FprField::cwd)
            + spec_fpr_field_size(FprField::cwd),
        spec_fpr_field_offset(FprField::ftw) == spec_fpr_field_offset(FprField::swd)
            + spec_fpr_field_size(FprField::swd),
        spec_fpr_field_offset(FprField::fop) == spec_fpr_field_offset(FprField::ftw)
            + spec_fpr_field_size(FprField::ftw),
        spec_fpr_field_offset(FprField::rip) == spec_fpr_field_offset(FprField::fop)
            + spec_fpr_field_size(FprField::fop),
        spec_fpr_field_offset(FprField::rdp) == spec_fpr_field_offset(FprField::rip)
            + spec_fpr_field_size(FprField::rip),
        spec_fpr_field_offset(FprField::mxcsr) == spec_fpr_field_offset(FprField::rdp)
            + spec_fpr_field_size(FprField::rdp),
        spec_fpr_field_offset(FprField::mxcr_mask) == spec_fpr_field_offset(FprField::mxcsr)
            + spec_fpr_field_size(FprField::mxcsr),
        ST_SPACE_OFFSET == spec_fpr_field_offset(FprField::mxcr_mask) + spec_fpr_field_size(
            FprField::mxcr_mask,
        ),
        spec_fpr_field_size(FprField::cwd) == 2 && spec_fpr_field_size(FprField::swd) == 2
            && spec_fpr_field_size(FprField::ftw) == 2 && spec_fpr_field_size(FprField::fop) == 2
            && spec_fpr_field_size(FprField::rip) == 8 && spec_fpr_field_size(FprField::rdp) == 8
            && spec_fpr_field_size(FprField::mxcsr) == 4 && spec_fpr_field_size(FprField::mxcr_mask)
            == 4,
        XMM_SPACE_OFFSET == ST_SPACE_OFFSET + 8 * 16,
        USER_FPREGS_SIZE == XMM_SPACE_OFFSET + 16 * 16 + 96,
        USER_FPREGS_OFFSET == USER_REGS_SIZE + 8,
        USER_REGS_SIZE == 27 * 8,
{
}

/// The parts of a general purpose register: the 32-, 16- and low 8-bit parts
/// start where the full register does and are 4, 2 and 1 bytes wide; the high
/// 8-bit part is the second byte.
pub proof fn lemma_subregister_shapes(id: RegisterId)
    ensures
        match spec_register_class(id) {
            RegisterClass::Gpr64 { slot, .. } => spec_register_offset(id) == 8
                * spec_user_regs_index(slot) && spec_register_size(id) == 8,
            RegisterClass::Gpr32 { slot } => spec_register_offset(id) == 8 * spec_user_regs_index(
                slot,
            ) && spec_register_size(id) == 4,
            RegisterClass::Gpr16 { slot } => spec_register_offset(id) == 8 * spec_user_regs_index(
                slot,
            ) && spec_register_size(id) == 2,
            RegisterClass::Gpr8Low { slot } => spec_register_offset(id) == 8 * spec_user_regs_index(
                slot,
            ) && spec_register_size(id) == 1,
            RegisterClass::Gpr8High { slot } => spec_register_offset(id) == 8
                * spec_user_regs_index(slot) + 1 && spec_register_size(id) == 1,
            _ => true,
        },
{
}

/// A part of a general purpose register lies in the slot of the full register
/// with the same slot, where the table has that register.
pub proof fn lemma_subregister_of_full_register(part: RegisterId, full: RegisterId)
    requires
        spec_register_class(full) matches RegisterClass::Gpr64 { slot, .. } && match spec_register_class(part) {
            RegisterClass::Gpr32 { slot: s } | RegisterClass::Gpr16 { slot: s }
            | RegisterClass::Gpr8Low { slot: s } | RegisterClass::Gpr8High { slot: s } => s == slot,
            _ => false,
        },
    ensures
        spec_register_offset(full) <= spec_register_offset(part),
        spec_register_offset(part) + spec_register_size(part) <= spec_register_offset(full) + 8,
        spec_register_class(part) is Gpr8High || spec_register_offset(part) == spec_register_offset(full),
{
}

/// MMX register `n` is the low 8 bytes of x87 register `n`.
pub proof fn lemma_mmx_aliases_x87(mm: RegisterId, st: RegisterId)
    requires
        spec_register_class(mm) matches RegisterClass::Mm { number: m } && spec_register_class(st)
            matches RegisterClass::St { number: s } && m == s,
    ensures
        spec_register_offset(mm) == spec_register_offset(st),
        spec_register_size(mm) == 8,
        spec_register_size(st) == 16,
{
}

/// The x87 registers fill `st_space` in order, 16 bytes each, and the SSE
/// registers fill `xmm_space` in order, 16 bytes each; distinct ones of either
/// kind do not overlap.
pub proof fn lemma_vector_register_slots(a: RegisterId, b: RegisterId)
    ensures
        spec_register_class(a) matches RegisterClass::St { number } ==> {
            &&& number < 8
            &&& spec_register_offset(a) == USER_FPREGS_OFFSET + ST_SPACE_OFFSET + 16 * number
            &&& spec_register_size(a) == 16
        },
        spec_register_class(a) matches RegisterClass::Xmm { number } ==> {
            &&& number < 16
            &&& spec_register_offset(a) == USER_FPREGS_OFFSET + XMM_SPACE_OFFSET + 16 * number
            &&& spec_register_size(a) == 16
        },
        a != b && ((spec_register_class(a) is St && spec_register_class(b) is St) || (
        spec_register_class(a) is Xmm && spec_register_class(b) is Xmm)) ==> (spec_register_offset(a)
            + 16 <= spec_register_offset(b) || spec_register_offset(b) + 16 <= spec_register_offset(a)),
{
    lemma_register_class_wf(a);
    lemma_register_class_wf(b);
    lemma_register_table_injective(a);
    lemma_register_table_injective(b);
}

/// The name of a slot of `struct user_regs_struct`.
pub open spec fn spec_user_regs_field_name(f: UserRegsField) -> Seq<char> {
    match f {
        UserRegsField::r15 => seq!['r', '1', '5'],
        UserRegsField::r14 => seq!['r', '1', '4'],
        UserRegsField::r13 => seq!['r', '1', '3'],
        UserRegsField::r12 => seq!['r', '1', '2'],
        UserRegsField::rbp => seq!['r', 'b', 'p'],
        UserRegsField::rbx => seq!['r', 'b', 'x'],
        UserRegsField::r11 => seq!['r', '1', '1'],
        UserRegsField::r10 => seq!['r', '1', '0'],
        UserRegsField::r9 => seq!['r', '9'],
        UserRegsField::r8 => seq!['r', '8'],
        UserRegsField::rax => seq!['r', 'a', 'x'],
        UserRegsField::rcx => seq!['r', 'c', 'x'],
        UserRegsField::rdx => seq!['r', 'd', 'x'],
        UserRegsField::rsi => seq!['r', 's', 'i'],
        UserRegsField::rdi => seq!['r', 'd', 'i'],
        UserRegsField::orig_rax => seq!['o', 'r', 'i', 'g', '_', 'r', 'a', 'x'],
        UserRegsField::rip => seq!['r', 'i', 'p'],
        UserRegsField::cs => seq!['c', 's'],
        UserRegsField::eflags => seq!['e', 'f', 'l', 'a', 'g', 's'],
        UserRegsField::rsp => seq!['r', 's', 'p'],
        UserRegsField::ss => seq!['s', 's'],
        UserRegsField::fs_base => seq!['f', 's', '_', 'b', 'a', 's', 'e'],
        UserRegsField::gs_base => seq!['g', 's', '_', 'b', 'a', 's', 'e'],
        UserRegsField::ds => seq!['d', 's'],
        UserRegsField::es => seq!['e', 's'],
        UserRegsField::fs => seq!['f', 's'],
        UserRegsField::gs => seq!['g', 's'],
    }
}

/// The name of the register held in a scalar field of `struct user_fpregs_struct`.
pub open spec fn spec_fpr_register_name(f: FprField) -> Seq<char> {
    match f {
        FprField::cwd => seq!['f', 'c', 'w'],
        FprField::swd => seq!['f', 's', 'w'],
        FprField::ftw => seq!['f', 't', 'w'],
        FprField::fop => seq!['f', 'o', 'p'],
        FprField::rip => seq!['f', 'r', 'i', 'p'],
        FprField::rdp => seq!['f', 'r', 'd', 'p'],
        FprField::mxcsr => seq!['m', 'x', 'c', 's', 'r'],
        FprField::mxcr_mask => seq!['m', 'x', 'c', 's', 'r', 'm', 'a', 's', 'k'],
    }
}

/// The slot is one of `r8` to `r15`, whose parts are named by a suffix.
pub open spec fn spec_is_numbered(name: Seq<char>) -> bool {
    name.len() >= 2 && name[0] == 'r' && '0' <= name[1] && name[1] <= '9'
}

/// The x86-64 name of a register of a family: a full register has the name
/// of its slot; its 32-bit part is `e..` (`r8d` for the numbered ones), its
/// 16-bit part drops the `r` (`r8w`), its low byte is `al`, `sil` (`r8b`)
/// and its second byte `ah`; the vector and debug registers are numbered.
pub open spec fn spec_x86_register_name(c: RegisterClass) -> Seq<char> {
    match c {
        RegisterClass::Gpr64 { slot, .. } => spec_user_regs_field_name(slot),
        RegisterClass::Gpr32 { slot } => {
            let f = spec_user_regs_field_name(slot);
            if spec_is_numbered(f) { f.push('d') } else { seq!['e'] + f.drop_first() }
        },
        RegisterClass::Gpr16 { slot } => {
            let f = spec_user_regs_field_name(slot);
            if spec_is_numbered(f) { f.push('w') } else { f.drop_first() }
        },
        RegisterClass::Gpr8Low { slot } => {
            let f = spec_user_regs_field_name(slot);
            if spec_is_numbered(f) {
                f.push('b')
            } else if f.last() == 'x' {
                seq![f[1], 'l']
            } else {
                f.drop_first().push('l')
            }
        },
        RegisterClass::Gpr8High { slot } => {
            let f = spec_user_regs_field_name(slot);
            seq![f[1], 'h']
        },
        RegisterClass::Fpr { field, .. } => spec_fpr_register_name(field),
        RegisterClass::St { number } => seq!['s', 't'] + spec_decimal(number as nat),
        RegisterClass::Mm { number } => seq!['m', 'm'] + spec_decimal(number as nat),
        RegisterClass::Xmm { number } => seq!['x', 'm', 'm'] + spec_decimal(number as nat),
        RegisterClass::Dr { number } => seq!['d', 'r'] + spec_decimal(number as nat),
    }
}

/// Every register's name is the x86-64 name of its place: the table puts
/// `r8` in the slot named `r8`, `eax` in the low half of `rax`, `mm1` over
/// `st1`, and so on.
#[verifier::rlimit(100)]
pub proof fn lemma_register_names(id: RegisterId)
    ensures
        spec_register_entry(id).1 == spec_x86_register_name(spec_register_class(id)),
{
    reveal_with_fuel(spec_decimal, 2);
    match id {
        RegisterId::rax => {
            reveal_strlit("rax");
        },
        RegisterId::rdx => {
            reveal_strlit("rdx");
        },
        RegisterId::rcx => {
            reveal_strlit("rcx");
        },
        RegisterId::rbx => {
            reveal_strlit("rbx");
        },
        RegisterId::rsi => {
            reveal_strlit("rsi");
        },
        RegisterId::rsp => {
            reveal_strlit("rsp");
        },
        RegisterId::r8 => {
            reveal_strlit("r8");
        },
        RegisterId::r9 => {
            reveal_strlit("r9");
        },
        RegisterId::r10 => {
            reveal_strlit("r10");
        },
        RegisterId::r11 => {
            reveal_strlit("r11");
        },
        RegisterId::r12 => {
            reveal_strlit("r12");
        },
        RegisterId::r13 => {
            reveal_strlit("r13");
        },
        RegisterId::r14 => {
            reveal_strlit("r14");
        },
        RegisterId::rip => {
            reveal_strlit("rip");
        },
        RegisterId::eflags => {
            reveal_strlit("eflags");
        },
        RegisterId::cs => {
            reveal_strlit("cs");
        },
        RegisterId::fs => {
            reveal_strlit("fs");
        },
        RegisterId::gs => {
            reveal_strlit("gs");
        },
        RegisterId::ss => {
            reveal_strlit("ss");
        },
        RegisterId::ds => {
            reveal_strlit("ds");
        },
        RegisterId::es => {
            reveal_strlit("es");
        },
        RegisterId::orig_rax => {
            reveal_strlit("orig_rax");
        },
        RegisterId::eax => {
            reveal_strlit("eax");
        },
        RegisterId::edx => {
            reveal_strlit("edx");
        },
        RegisterId::ecx => {
            reveal_strlit("ecx");
        },
        RegisterId::ebx => {
            reveal_strlit("ebx");
        },
        RegisterId::esi => {
            reveal_strlit("esi");
        },
        RegisterId::edi => {
            reveal_strlit("edi");
        },
        RegisterId::ebp => {
            reveal_strlit("ebp");
        },
        RegisterId::esp => {
            reveal_strlit("esp");
        },
        RegisterId::r8d => {
            reveal_strlit("r8d");
        },
        RegisterId::r9d => {
            reveal_strlit("r9d");
        },
        RegisterId::r10d => {
            reveal_strlit("r10d");
        },
        RegisterId::r11d => {
            reveal_strlit("r11d");
        },
        RegisterId::r12d => {
            reveal_strlit("r12d");
        },
        RegisterId::r13d => {
            reveal_strlit("r13d");
        },
        RegisterId::r14d => {
            reveal_strlit("r14d");
        },
        RegisterId::r15d => {
            reveal_strlit("r15d");
        },
        RegisterId::ax => {
            reveal_strlit("ax");
        },
        RegisterId::dx => {
            reveal_strlit("dx");
        },
        RegisterId::cx => {
            reveal_strlit("cx");
        },
        RegisterId::bx => {
            reveal_strlit("bx");
        },
        RegisterId::si => {
            reveal_strlit("si");
        },
        RegisterId::di => {
            reveal_strlit("di");
        },
        RegisterId::bp => {
            reveal_strlit("bp");
        },
        RegisterId::sp => {
            reveal_strlit("sp");
        },
        RegisterId::r8w => {
            reveal_strlit("r8w");
        },
        RegisterId::r9w => {
            reveal_strlit("r9w");
        },
        RegisterId::r10w => {
            reveal_strlit("r10w");
        },
        RegisterId::r11w => {
            reveal_strlit("r11w");
        },
        RegisterId::r12w => {
            reveal_strlit("r12w");
        },
        RegisterId::r13w => {
            reveal_strlit("r13w");
        },
        RegisterId::r14w => {
            reveal_strlit("r14w");
        },
        RegisterId::r15w => {
            reveal_strlit("r15w");
        },
        RegisterId::ah => {
            reveal_strlit("ah");
        },
        RegisterId::dh => {
            reveal_strlit("dh");
        },
        RegisterId::ch => {
            reveal_strlit("ch");
        },
        RegisterId::bh => {
            reveal_strlit("bh");
        },
        RegisterId::al => {
            reveal_strlit("al");
        },
        RegisterId::dl => {
            reveal_strlit("dl");
        },
        RegisterId::cl => {
            reveal_strlit("cl");
        },
        RegisterId::bl => {
            reveal_strlit("bl");
        },
        RegisterId::sil => {
            reveal_strlit("sil");
        },
        RegisterId::dil => {
            reveal_strlit("dil");
        },
        RegisterId::bpl => {
            reveal_strlit("bpl");
        },
        RegisterId::spl => {
            reveal_strlit("spl");
        },
        RegisterId::r8b => {
            reveal_strlit("r8b");
        },
        RegisterId::r9b => {
            reveal_strlit("r9b");
        },
        RegisterId::r10b => {
            reveal_strlit("r10b");
        },
        RegisterId::r11b => {
            reveal_strlit("r11b");
        },
        RegisterId::r12b => {
            reveal_strlit("r12b");
        },
        RegisterId::r13b => {
            reveal_strlit("r13b");
        },
        RegisterId::r14b => {
            reveal_strlit("r14b");
        },
        RegisterId::r15b => {
            reveal_strlit("r15b");
        },
        RegisterId::fcw => {
            reveal_strlit("fcw");
        },
        RegisterId::fsw => {
            reveal_strlit("fsw");
        },
        RegisterId::ftw => {
            reveal_strlit("ftw");
        },
        RegisterId::fop => {
            reveal_strlit("fop");
        },
        RegisterId::frip => {
            reveal_strlit("frip");
        },
        RegisterId::frdp => {
            reveal_strlit("frdp");
        },
        RegisterId::mxcsr => {
            reveal_strlit("mxcsr");
        },
        RegisterId::mxcsrmask => {
            reveal_strlit("mxcsrmask");
        },
        RegisterId::st0 => {
            reveal_strlit("st0");
        },
        RegisterId::st1 => {
            reveal_strlit("st1");
        },
        RegisterId::st2 => {
            reveal_strlit("st2");
        },
        RegisterId::st3 => {
            reveal_strlit("st3");
        },
        RegisterId::st4 => {
            reveal_strlit("st4");
        },
        RegisterId::st5 => {
            reveal_strlit("st5");
        },
        RegisterId::st6 => {
            reveal_strlit("st6");
        },
        RegisterId::st7 => {
            reveal_strlit("st7");
        },
        RegisterId::mm0 => {
            reveal_strlit("mm0");
        },
        RegisterId::mm1 => {
            reveal_strlit("mm1");
        },
        RegisterId::mm2 => {
            reveal_strlit("mm2");
        },
        RegisterId::mm3 => {
            reveal_strlit("mm3");
        },
        RegisterId::mm4 => {
            reveal_strlit("mm4");
        },
        RegisterId::mm5 => {
            reveal_strlit("mm5");
        },
        RegisterId::mm6 => {
            reveal_strlit("mm6");
        },
        RegisterId::mm7 => {
            reveal_strlit("mm7");
        },
        RegisterId::xmm0 => {
            reveal_strlit("xmm0");
        },
        RegisterId::xmm1 => {
            reveal_strlit("xmm1");
        },
        RegisterId::xmm2 => {
            reveal_strlit("xmm2");
        },
        RegisterId::xmm3 => {
            reveal_strlit("xmm3");
        },
        RegisterId::xmm4 => {
            reveal_strlit("xmm4");
        },
        RegisterId::xmm5 => {
            reveal_strlit("xmm5");
        },
        RegisterId::xmm6 => {
            reveal_strlit("xmm6");
        },
        RegisterId::xmm7 => {
            reveal_strlit("xmm7");
        },
        RegisterId::xmm8 => {
            reveal_strlit("xmm8");
        },
        RegisterId::xmm9 => {
            reveal_strlit("xmm9");
        },
        RegisterId::xmm10 => {
            reveal_strlit("xmm10");
        },
        RegisterId::xmm11 => {
            reveal_strlit("xmm11");
        },
        RegisterId::xmm12 => {
            reveal_strlit("xmm12");
        },
        RegisterId::xmm13 => {
            reveal_strlit("xmm13");
        },
        RegisterId::xmm14 => {
            reveal_strlit("xmm14");
        },
        RegisterId::xmm15 => {
            reveal_strlit("xmm15");
        },
        RegisterId::dr0 => {
            reveal_strlit("dr0");
        },
        RegisterId::dr1 => {
            reveal_strlit("dr1");
        },
        RegisterId::dr2 => {
            reveal_strlit("dr2");
        },
        RegisterId::dr3 => {
            reveal_strlit("dr3");
        },
        RegisterId::dr4 => {
            reveal_strlit("dr4");
        },
        RegisterId::dr5 => {
            reveal_strlit("dr5");
        },
        RegisterId::dr6 => {
            reveal_strlit("dr6");
        },
        RegisterId::dr7 => {
            reveal_strlit("dr7");
        },
    }
    assert(spec_register_entry(id).1 =~= spec_x86_register_name(spec_register_class(id)));
}

/// The parts of `struct user` that the debugger uses: the general purpose
/// registers open it, the floating point area follows after `u_fpvalid` and
/// its padding, 112 bytes of bookkeeping fields follow that, and the eight
/// 64-bit debug registers close it.
pub proof fn lemma_user_area_layout()
    ensures
        USER_FPREGS_OFFSET == USER_REGS_SIZE + 8,
        USER_DEBUGREG_OFFSET == USER_FPREGS_OFFSET + USER_FPREGS_SIZE + 112,
        USER_AREA_SIZE == USER_DEBUGREG_OFFSET + 8 * 8,
{
}

/// The kind of each register: full general purpose registers are `GPR` and
/// their parts `SUBGPR`; the x87, MMX, SSE and floating point control
/// registers are `FPR`, the debug registers `DR`. The x87, MMX and SSE
/// registers hold raw vectors; all others unsigned integers.
pub proof fn lemma_register_kinds(id: RegisterId)
    ensures
        ({
            let c = spec_register_class(id);
            &&& (spec_class_type(c) == RegisterType::GPR) <==> c is Gpr64
            &&& (spec_class_type(c) == RegisterType::SUBGPR) <==> (c is Gpr32 || c is Gpr16
                || c is Gpr8Low || c is Gpr8High)
            &&& (spec_class_type(c) == RegisterType::FPR) <==> (c is Fpr || c is St || c is Mm
                || c is Xmm)
            &&& (spec_class_type(c) == RegisterType::DR) <==> c is Dr
            &&& (spec_class_format(c) == RegisterFormat::VECTOR) <==> (c is St || c is Mm || c is Xmm)
            &&& (spec_class_format(c) == RegisterFormat::UINT) <==> !(c is St || c is Mm || c is Xmm)
        }),
{
}

/// Looks up the table entry of a register. Every register has one.
pub fn register_info_by_id(id: RegisterId) -> (r: Result<RegisterInfo, Error>)
    ensures
        r matches Ok(info) && info.describes(id),
{
    let (class, name) = register_entry(id);
    proof {
        lemma_register_class_wf(id);
    }
    let (dwarf_id, size, offset, r_type, format) = class_layout(class);
    Ok(RegisterInfo { id, name, dwarf_id, size, offset, r_type, format })
}

} // verus!
