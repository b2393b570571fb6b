//! The register file of a traced process, held as the bytes of the kernel's
//! `struct user`, and the encoding of register values into those bytes.
use vstd::prelude::*;
use vstd::bytes::*;
use vstd::slice::slice_to_vec;
use crate::error::Error;
use crate::register_info::{
    RegisterFormat, RegisterId, RegisterInfo, RegisterType, USER_AREA_SIZE, USER_DEBUGREG_OFFSET,
    USER_REGS_SIZE, USER_FPREGS_OFFSET,
    USER_FPREGS_SIZE, lemma_non_fpr_within_aligned_word, lemma_register_in_user_area, lemma_fpr_within_fpregs,
    register_info_by_id, spec_class_type, spec_class_format, lemma_register_class_wf, spec_register_class, spec_register_offset,
    spec_register_size,
};
use crate::bit::{from_bytes_byte128, from_bytes_byte64};
use crate::types::{Byte128, Byte64, lemma_widen_prefix, spec_widen, spec_zeros, to_byte128};

verus! {

/// A register value. `F32` and `F64` hold the IEEE-754 bit patterns of
/// single and double precision numbers.
#[derive(Clone, Copy, Debug, PartialEq)]
pub enum Variant {
    U8(u8),
    U16(u16),
    U32(u32),
    U64(u64),
    I8(i8),
    I16(i16),
    I32(i32),
    I64(i64),
    F32(u32),
    F64(u64),
    Byte64(Byte64),
    Byte128(Byte128),
}

/// Size in bytes of the machine representation of a value.
pub open spec fn spec_variant_size(v: Variant) -> nat {
    match v {
        Variant::U8(_) | Variant::I8(_) => 1,
        Variant::U16(_) | Variant::I16(_) => 2,
        Variant::U32(_) | Variant::I32(_) | Variant::F32(_) => 4,
        Variant::U64(_) | Variant::I64(_) | Variant::F64(_) | Variant::Byte64(_) => 8,
        Variant::Byte128(_) => 16,
    }
}

/// The little-endian machine representation of a value.
pub open spec fn spec_variant_bytes(v: Variant) -> Seq<u8> {
    match v {
        Variant::U8(x) => seq![x],
        Variant::U16(x) => spec_u16_to_le_bytes(x),
        Variant::U32(x) => spec_u32_to_le_bytes(x),
        Variant::U64(x) => spec_u64_to_le_bytes(x),
        Variant::I8(x) => seq![x as u8],
        Variant::I16(x) => spec_u16_to_le_bytes(x as u16),
        Variant::I32(x) => spec_u32_to_le_bytes(x as u32),
        Variant::I64(x) => spec_u64_to_le_bytes(x as u64),
        Variant::F32(bits) => spec_u32_to_le_bytes(bits),
        Variant::F64(bits) => spec_u64_to_le_bytes(bits),
        Variant::Byte64(a) => a@,
        Variant::Byte128(a) => a@,
    }
}

/// The representation of each value has the value's size.
pub proof fn lemma_variant_bytes_len(v: Variant)
    ensures
        spec_variant_bytes(v).len() == spec_variant_size(v),
{
    lemma_auto_spec_u16_to_from_le_bytes();
    lemma_auto_spec_u32_to_from_le_bytes();
    lemma_auto_spec_u64_to_from_le_bytes();
}

/// The number of bytes a read of a register of this size and format takes.
pub open spec fn spec_read_width(size: int, format: RegisterFormat) -> int {
    match format {
        RegisterFormat::UINT => size,
        RegisterFormat::DOUBLEFLOAT => 8,
        RegisterFormat::LONGDOUBLE => 16,
        RegisterFormat::VECTOR => if size == 8 { 8 } else { 16 },
    }
}

/// A read of a register of this size and format fails.
pub open spec fn spec_read_fails(size: int, format: RegisterFormat) -> bool {
    format == RegisterFormat::UINT && !(size == 1 || size == 2 || size == 4 || size == 8)
}

/// `v` is the value that a read of a register of this size and format
/// gives for the register bytes `bytes`.
pub open spec fn spec_decodes_to(size: int, format: RegisterFormat, bytes: Seq<u8>, v: Variant) -> bool {
    match format {
        RegisterFormat::UINT => {
            if size == 1 {
                v == Variant::U8(bytes[0])
            } else if size == 2 {
                v == Variant::U16(spec_u16_from_le_bytes(bytes))
            } else if size == 4 {
                v == Variant::U32(spec_u32_from_le_bytes(bytes))
            } else {
                v == Variant::U64(spec_u64_from_le_bytes(bytes))
            }
        },
        RegisterFormat::DOUBLEFLOAT => v == Variant::F64(spec_u64_from_le_bytes(bytes)),
        RegisterFormat::LONGDOUBLE => v matches Variant::Byte128(a) && a@ == bytes,
        RegisterFormat::VECTOR => if size == 8 {
            v matches Variant::Byte64(a) && a@ == bytes
        } else {
            v matches Variant::Byte128(a) && a@ == bytes
        },
    }
}

/// Every register of the table is read whole, and no read of one fails.
pub proof fn lemma_read_width(id: RegisterId)
    ensures
        spec_read_width(spec_register_size(id), spec_class_format(spec_register_class(id)))
            == spec_register_size(id),
        !spec_read_fails(spec_register_size(id), spec_class_format(spec_register_class(id))),
{
    lemma_register_class_wf(id);
}

/// `image` with `bytes` written over it from `offset` on.
pub open spec fn spec_splice(image: Seq<u8>, offset: int, bytes: Seq<u8>) -> Seq<u8> {
    image.take(offset) + bytes + image.skip(offset + bytes.len())
}

/// The user area after a write of `v` to register `id`: the low bytes of the
/// zero-extended representation of `v`, as many as the register is wide.
pub open spec fn spec_write_image(image: Seq<u8>, id: RegisterId, v: Variant) -> Seq<u8> {
    spec_splice(
        image,
        spec_register_offset(id),
        spec_widen(spec_variant_bytes(v)).take(spec_register_size(id)),
    )
}

/// The bytes of register `id` in `image`.
pub open spec fn spec_register_bytes(image: Seq<u8>, id: RegisterId) -> Seq<u8> {
    image.subrange(
        spec_register_offset(id),
        spec_register_offset(id) + spec_register_size(id),
    )
}

/// A write of `v` to register `id` that the register can hold leaves the user
/// area as long as it was, puts the low bytes of the zero-extended value into
/// the register, and changes no other byte.
pub proof fn lemma_write_image(image: Seq<u8>, id: RegisterId, v: Variant)
    requires
        image.len() == USER_AREA_SIZE,
        spec_variant_size(v) <= spec_register_size(id),
    ensures
        spec_write_image(image, id, v).len() == USER_AREA_SIZE,
        spec_register_bytes(spec_write_image(image, id, v), id) == spec_widen(
            spec_variant_bytes(v),
        ).take(spec_register_size(id)),
        forall|i: int|
            0 <= i < USER_AREA_SIZE && !(spec_register_offset(id) <= i < spec_register_offset(id)
                + spec_register_size(id)) ==> #[trigger] spec_write_image(image, id, v)[i]
                == image[i],
{
    lemma_register_in_user_area(id);
    lemma_variant_bytes_len(v);
    let new = spec_write_image(image, id, v);
    assert(spec_register_bytes(new, id) =~= spec_widen(spec_variant_bytes(v)).take(
        spec_register_size(id),
    ));
}

/// `v` is a value of register `id`'s own kind: an unsigned integer exactly
/// as wide as an unsigned register, or raw bytes exactly as wide as a vector
/// register.
pub open spec fn spec_native_value(id: RegisterId, v: Variant) -> bool {
    let size = spec_register_size(id);
    match spec_class_format(spec_register_class(id)) {
        RegisterFormat::UINT => match v {
            Variant::U8(_) => size == 1,
            Variant::U16(_) => size == 2,
            Variant::U32(_) => size == 4,
            Variant::U64(_) => size == 8,
            _ => false,
        },
        RegisterFormat::VECTOR => match v {
            Variant::Byte64(_) => size == 8,
            Variant::Byte128(_) => size == 16,
            _ => false,
        },
        _ => false,
    }
}

/// Each register has values of its own kind: an unsigned integer as wide as
/// an unsigned register, eight raw bytes for an MMX register, sixteen for an
/// x87 or SSE register.
pub proof fn lemma_native_values(id: RegisterId, x8: u8, x16: u16, x32: u32, x64: u64, a64: Byte64, a128: Byte128)
    ensures
        spec_register_size(id) == 1 && spec_class_format(spec_register_class(id)) == RegisterFormat::UINT
            ==> spec_native_value(id, Variant::U8(x8)),
        spec_register_size(id) == 2 && spec_class_format(spec_register_class(id)) == RegisterFormat::UINT
            ==> spec_native_value(id, Variant::U16(x16)),
        spec_register_size(id) == 4 && spec_class_format(spec_register_class(id)) == RegisterFormat::UINT
            ==> spec_native_value(id, Variant::U32(x32)),
        spec_register_size(id) == 8 && spec_class_format(spec_register_class(id)) == RegisterFormat::UINT
            ==> spec_native_value(id, Variant::U64(x64)),
        spec_register_class(id) is Mm ==> spec_native_value(id, Variant::Byte64(a64)),
        spec_register_class(id) is St || spec_register_class(id) is Xmm ==> spec_native_value(
            id,
            Variant::Byte128(a128),
        ),
{
}

/// Read after write: a value of a register's own kind, written to it, is
/// what a read of the register gives back.
pub proof fn lemma_read_after_write(image: Seq<u8>, id: RegisterId, v: Variant)
    requires
        image.len() == USER_AREA_SIZE,
        spec_native_value(id, v),
    ensures
        spec_decodes_to(
            spec_register_size(id),
            spec_class_format(spec_register_class(id)),
            spec_register_bytes(spec_write_image(image, id, v), id),
            v,
        ),
{
    lemma_variant_bytes_len(v);
    lemma_write_image(image, id, v);
    lemma_auto_spec_u16_to_from_le_bytes();
    lemma_auto_spec_u32_to_from_le_bytes();
    lemma_auto_spec_u64_to_from_le_bytes();
    let bytes = spec_register_bytes(spec_write_image(image, id, v), id);
    assert(bytes =~= spec_variant_bytes(v));
}

/// A write to one register leaves every register that does not share a byte
/// with it as it was.
pub proof fn lemma_write_leaves_other_registers(image: Seq<u8>, id: RegisterId, other: RegisterId, v: Variant)
    requires
        image.len() == USER_AREA_SIZE,
        spec_variant_size(v) <= spec_register_size(id),
        spec_register_offset(other) + spec_register_size(other) <= spec_register_offset(id)
            || spec_register_offset(id) + spec_register_size(id) <= spec_register_offset(other),
    ensures
        spec_register_bytes(spec_write_image(image, id, v), other) == spec_register_bytes(image, other),
{
    lemma_write_image(image, id, v);
    lemma_register_in_user_area(other);
    assert(spec_register_bytes(spec_write_image(image, id, v), other) =~= spec_register_bytes(
        image,
        other,
    ));
}

/// Decoding is a function: the bytes of a register give one value.
pub proof fn lemma_decodes_to_unique(size: int, format: RegisterFormat, bytes: Seq<u8>, v1: Variant, v2: Variant)
    requires
        spec_decodes_to(size, format, bytes, v1),
        spec_decodes_to(size, format, bytes, v2),
    ensures
        v1 == v2,
{
    match (v1, v2) {
        (Variant::Byte64(a1), Variant::Byte64(a2)) => {
            assert(a1 =~= a2);
        },
        (Variant::Byte128(a1), Variant::Byte128(a2)) => {
            assert(a1 =~= a2);
        },
        _ => {},
    }
}

/// The low bytes of the zero-extended representation of a value, as many as
/// the value is wide, give the value back: the round trip of `to_byte128`
/// and the little-endian readers, for every kind of value.
pub proof fn lemma_byte128_round_trip(v: Variant)
    ensures
        ({
            let b = spec_widen(spec_variant_bytes(v)).take(spec_variant_size(v) as int);
            match v {
                Variant::U8(x) => b == seq![x],
                Variant::U16(x) => spec_u16_from_le_bytes(b) == x,
                Variant::U32(x) => spec_u32_from_le_bytes(b) == x,
                Variant::U64(x) => spec_u64_from_le_bytes(b) == x,
                Variant::I8(x) => b.len() == 1 && b[0] as i8 == x,
                Variant::I16(x) => spec_u16_from_le_bytes(b) as i16 == x,
                Variant::I32(x) => spec_u32_from_le_bytes(b) as i32 == x,
                Variant::I64(x) => spec_u64_from_le_bytes(b) as i64 == x,
                Variant::F32(bits) => spec_u32_from_le_bytes(b) == bits,
                Variant::F64(bits) => spec_u64_from_le_bytes(b) == bits,
                Variant::Byte64(a) => b == a@,
                Variant::Byte128(a) => b == a@,
            }
        }),
{
    lemma_variant_bytes_len(v);
    lemma_widen_prefix(spec_variant_bytes(v));
    lemma_auto_spec_u16_to_from_le_bytes();
    lemma_auto_spec_u32_to_from_le_bytes();
    lemma_auto_spec_u64_to_from_le_bytes();
    match v {
        Variant::I8(x) => {
            assert((x as u8) as i8 == x) by (bit_vector);
        },
        Variant::I16(x) => {
            assert((x as u16) as i16 == x) by (bit_vector);
        },
        Variant::I32(x) => {
            assert((x as u32) as i32 == x) by (bit_vector);
        },
        Variant::I64(x) => {
            assert((x as u64) as i64 == x) by (bit_vector);
        },
        _ => {},
    }
}

/// Start of the aligned 8-byte word that holds a byte of the user area.
pub open spec fn spec_aligned_word(offset: int) -> int {
    offset - offset % 8
}

/// What must reach the traced process for a register write to take effect.
#[derive(Clone, Debug, PartialEq, Eq)]
pub enum UserAreaWrite {
    /// The whole `struct user_fpregs_struct`, with these bytes.
    Fprs(Vec<u8>),
    /// One aligned 64-bit word of the user area.
    Word { offset: usize, data: u64 },
}

/// `w` carries the part of `image` that holds register `id` to the process:
/// the floating point area for a floating point register, else the aligned
/// word that holds the register.
pub open spec fn spec_user_area_write(image: Seq<u8>, id: RegisterId, w: UserAreaWrite) -> bool {
    if spec_class_type(spec_register_class(id)) == RegisterType::FPR {
        w matches UserAreaWrite::Fprs(bytes) && bytes@ == image.subrange(
            USER_FPREGS_OFFSET as int,
            USER_FPREGS_OFFSET + USER_FPREGS_SIZE,
        )
    } else {
        let word = spec_aligned_word(spec_register_offset(id));
        w matches UserAreaWrite::Word { offset, data } && offset == word && data
            == spec_u64_from_le_bytes(image.subrange(word, word + 8))
    }
}

/// The size of a value and its representation, zero-extended to sixteen bytes.
fn encode(value: &Variant) -> (r: (usize, Byte128))
    ensures
        r.0 == spec_variant_size(*value),
        r.1@ == spec_widen(spec_variant_bytes(*value)),
{
    proof {
        lemma_variant_bytes_len(*value);
    }
    match value {
        Variant::U8(x) => {
            let b: [u8; 1] = [*x];
            assert(b@ =~= seq![*x]);
            (1, to_byte128(b.as_slice()))
        },
        Variant::U16(x) => (2, to_byte128(u16_to_le_bytes(*x).as_slice())),
        Variant::U32(x) => (4, to_byte128(u32_to_le_bytes(*x).as_slice())),
        Variant::U64(x) => (8, to_byte128(u64_to_le_bytes(*x).as_slice())),
        Variant::I8(x) => {
            let b: [u8; 1] = [*x as u8];
            assert(b@ =~= seq![*x as u8]);
            (1, to_byte128(b.as_slice()))
        },
        Variant::I16(x) => (2, to_byte128(u16_to_le_bytes(*x as u16).as_slice())),
        Variant::I32(x) => (4, to_byte128(u32_to_le_bytes(*x as u32).as_slice())),
        Variant::I64(x) => (8, to_byte128(u64_to_le_bytes(*x as u64).as_slice())),
        Variant::F32(bits) => (4, to_byte128(u32_to_le_bytes(*bits).as_slice())),
        Variant::F64(bits) => (8, to_byte128(u64_to_le_bytes(*bits).as_slice())),
        Variant::Byte64(a) => (8, to_byte128(a.as_slice())),
        Variant::Byte128(a) => {
            assert(spec_widen(a@) =~= a@);
            (16, *a)
        },
    }
}

/// What reaches the process carries the whole register: for a floating
/// point register, the floating point area holds it; for any other register,
/// the poked word holds it.
pub proof fn lemma_user_area_write_carries_register(image: Seq<u8>, id: RegisterId, w: UserAreaWrite)
    requires
        image.len() == USER_AREA_SIZE,
        spec_user_area_write(image, id, w),
    ensures
        match w {
            UserAreaWrite::Fprs(bytes) => bytes@.subrange(
                spec_register_offset(id) - USER_FPREGS_OFFSET,
                spec_register_offset(id) - USER_FPREGS_OFFSET + spec_register_size(id),
            ) == spec_register_bytes(image, id),
            UserAreaWrite::Word { offset, data } => spec_u64_to_le_bytes(data).subrange(
                spec_register_offset(id) - offset,
                spec_register_offset(id) - offset + spec_register_size(id),
            ) == spec_register_bytes(image, id),
        },
{
    lemma_register_in_user_area(id);
    lemma_fpr_within_fpregs(id);
    lemma_non_fpr_within_aligned_word(id);
    lemma_auto_spec_u64_to_from_le_bytes();
    match w {
        UserAreaWrite::Fprs(bytes) => {
            assert(bytes@.subrange(
                spec_register_offset(id) - USER_FPREGS_OFFSET,
                spec_register_offset(id) - USER_FPREGS_OFFSET + spec_register_size(id),
            ) =~= spec_register_bytes(image, id));
        },
        UserAreaWrite::Word { offset, data } => {
            let word = image.subrange(offset as int, offset + 8);
            assert(spec_u64_to_le_bytes(data) == word);
            assert(word.subrange(
                spec_register_offset(id) - offset,
                spec_register_offset(id) - offset + spec_register_size(id),
            ) =~= spec_register_bytes(image, id));
        },
    }
}

/// The register file of a traced process: the bytes of its `struct user`.
pub struct Registers {
    data: Vec<u8>,
}

impl View for Registers {
    type V = Seq<u8>;

    /// The bytes of the user area.
    closed spec fn view(&self) -> Seq<u8> {
        self.data@
    }
}

impl Registers {
    #[verifier::type_invariant]
    spec fn wf(self) -> bool {
        self.data@.len() == USER_AREA_SIZE
    }

    /// A register file whose bytes are all zero.
    pub fn new() -> (r: Registers)
        ensures
            r@ == spec_zeros(USER_AREA_SIZE as nat),
    {
        let mut data: Vec<u8> = Vec::new();
        let mut k: usize = 0;
        while k < USER_AREA_SIZE
            invariant
                k <= USER_AREA_SIZE,
                data@ == spec_zeros(k as nat),
            decreases USER_AREA_SIZE - k,
        {
            data.push(0u8);
            k = k + 1;
            assert(data@ =~= spec_zeros(k as nat));
        }
        Registers { data }
    }

    /// The bytes of the user area.
    pub fn data(&self) -> (d: &Vec<u8>)
        ensures
            d@ == self@,
            d@.len() == USER_AREA_SIZE,
    {
        proof {
            use_type_invariant(self);
        }
        &self.data
    }

    /// Writes `src` over the user area from `offset` on.
    fn copy_into(&mut self, offset: usize, src: &[u8])
        requires
            offset + src@.len() <= USER_AREA_SIZE,
        ensures
            final(self)@ == spec_splice(old(self)@, offset as int, src@),
            old(self)@.len() == USER_AREA_SIZE,
            final(self)@.len() == USER_AREA_SIZE,
    {
        proof {
            use_type_invariant(&*self);
        }
        let n = src.len();
        let mut k: usize = 0;
        while k < n
            invariant
                n == src@.len(),
                offset + n <= USER_AREA_SIZE,
                self.data@.len() == USER_AREA_SIZE,
                old(self)@.len() == USER_AREA_SIZE,
                k <= n,
                forall|i: int| 0 <= i < offset ==> self.data@[i] == old(self)@[i],
                forall|i: int| offset + n <= i < USER_AREA_SIZE ==> self.data@[i] == old(self)@[i],
                forall|i: int| offset + k <= i < offset + n ==> self.data@[i] == old(self)@[i],
                forall|i: int| 0 <= i < k ==> self.data@[offset + i] == src@[i],
            decreases n - k,
        {
            self.data[offset + k] = src[k];
            k = k + 1;
        }
        assert(self@ =~= spec_splice(old(self)@, offset as int, src@));
    }
    /// Reads the register that `info` describes. Only an unsigned register
    /// whose size is not 1, 2, 4 or 8 bytes cannot be read.
    fn read(&self, info: &RegisterInfo) -> (r: Result<Variant, Error>)
        requires
            info.describes(info.id),
        ensures
            r is Err <==> spec_read_fails(info.size as int, info.format),
            r matches Err(e) ==> e@ == "Unexpected register size"@,
            r matches Ok(v) ==> spec_decodes_to(
                info.size as int,
                info.format,
                self@.subrange(
                    info.offset as int,
                    info.offset + spec_read_width(info.size as int, info.format),
                ),
                v,
            ),
    {
        proof {
            use_type_invariant(self);
            lemma_register_in_user_area(info.id);
            lemma_read_width(info.id);
        }
        let bytes = self.data.as_slice();
        let off = info.offset;
        match info.format {
            RegisterFormat::UINT => {
                if info.size == 1 {
                    Ok(Variant::U8(bytes[off]))
                } else if info.size == 2 {
                    Ok(Variant::U16(u16_from_le_bytes(&bytes[off..off + 2])))
                } else if info.size == 4 {
                    Ok(Variant::U32(u32_from_le_bytes(&bytes[off..off + 4])))
                } else if info.size == 8 {
                    Ok(Variant::U64(u64_from_le_bytes(&bytes[off..off + 8])))
                } else {
                    Err(Error::send("Unexpected register size"))
                }
            },
            RegisterFormat::DOUBLEFLOAT => Ok(Variant::F64(u64_from_le_bytes(&bytes[off..off + 8]))),
            RegisterFormat::LONGDOUBLE => Ok(Variant::Byte128(from_bytes_byte128(bytes, off))),
            RegisterFormat::VECTOR => {
                if info.size == 8 {
                    Ok(Variant::Byte64(from_bytes_byte64(bytes, off)))
                } else {
                    Ok(Variant::Byte128(from_bytes_byte128(bytes, off)))
                }
            },
        }
    }

    /// Reads register `id`. Every register of the table can be read.
    pub fn read_by_id(&self, id: RegisterId) -> (r: Result<Variant, Error>)
        ensures
            self@.len() == USER_AREA_SIZE,
            r matches Ok(v) && spec_decodes_to(
                spec_register_size(id),
                spec_class_format(spec_register_class(id)),
                spec_register_bytes(self@, id),
                v,
            ),
    {
        proof {
            use_type_invariant(self);
            lemma_read_width(id);
        }
        let info = match register_info_by_id(id) {
            Ok(info) => info,
            Err(e) => return Err(e),
        };
        self.read(&info)
    }

    /// Puts the bytes of `struct user_regs_struct` in place.
    pub fn store_gprs(&mut self, gprs: &[u8])
        requires
            gprs@.len() == USER_REGS_SIZE,
        ensures
            final(self)@ == spec_splice(old(self)@, 0, gprs@),
            old(self)@.len() == USER_AREA_SIZE,
            final(self)@.len() == USER_AREA_SIZE,
    {
        self.copy_into(0, gprs);
    }

    /// Puts the bytes of `struct user_fpregs_struct` in place.
    pub fn store_fprs(&mut self, fprs: &[u8])
        requires
            fprs@.len() == USER_FPREGS_SIZE,
        ensures
            final(self)@ == spec_splice(old(self)@, USER_FPREGS_OFFSET as int, fprs@),
            old(self)@.len() == USER_AREA_SIZE,
            final(self)@.len() == USER_AREA_SIZE,
    {
        self.copy_into(USER_FPREGS_OFFSET, fprs);
    }

    /// Puts the value of debug register `index` in place.
    pub fn store_debug_register(&mut self, index: usize, value: u64)
        requires
            index < 8,
        ensures
            final(self)@ == spec_splice(
                old(self)@,
                USER_DEBUGREG_OFFSET + 8 * index,
                spec_u64_to_le_bytes(value),
            ),
            old(self)@.len() == USER_AREA_SIZE,
            final(self)@.len() == USER_AREA_SIZE,
    {
        let bytes = u64_to_le_bytes(value);
        self.copy_into(USER_DEBUGREG_OFFSET + 8 * index, bytes.as_slice());
    }

    /// The bytes of `struct user_fpregs_struct`.
    pub fn fprs(&self) -> (b: Vec<u8>)
        ensures
            b@ == self@.subrange(USER_FPREGS_OFFSET as int, USER_FPREGS_OFFSET + USER_FPREGS_SIZE),
    {
        proof {
            use_type_invariant(self);
        }
        slice_to_vec(&self.data.as_slice()[USER_FPREGS_OFFSET..USER_FPREGS_OFFSET + USER_FPREGS_SIZE])
    }

    /// Writes `value` to the register that `info` describes. A value wider
    /// than the register is refused. Otherwise the register's bytes become
    /// the low bytes of the zero-extended value, and the result says what
    /// must reach the process.
    fn write(&mut self, info: &RegisterInfo, value: Variant) -> (r: Result<UserAreaWrite, Error>)
        requires
            info.describes(info.id),
        ensures
            spec_variant_size(value) > info.size ==> {
                &&& r matches Err(e)
                &&& e@ == "registers::write called with mismatched register and value sizes"@
                &&& final(self)@ == old(self)@
            },
            spec_variant_size(value) <= info.size ==> {
                &&& final(self)@ == spec_write_image(old(self)@, info.id, value)
                &&& r matches Ok(w)
                &&& spec_user_area_write(final(self)@, info.id, w)
            },
    {
        proof {
            use_type_invariant(&*self);
            lemma_register_in_user_area(info.id);
            lemma_non_fpr_within_aligned_word(info.id);
        }
        let (size, val_widen) = encode(&value);
        if size > info.size {
            return Err(Error::send("registers::write called with mismatched register and value sizes"));
        }
        let src = &val_widen.as_slice()[0..info.size];
        assert(src@ =~= spec_widen(spec_variant_bytes(value)).take(info.size as int));
        self.copy_into(info.offset, src);
        proof {
            use_type_invariant(&*self);
        }
        let offset = info.offset;
        let aligned_offset = offset & !0b111usize;
        assert(aligned_offset == offset - offset % 8) by (bit_vector)
            requires
                aligned_offset == offset & !0b111usize,
        ;
        if info.r_type == RegisterType::FPR {
            Ok(UserAreaWrite::Fprs(self.fprs()))
        } else {
            let word = u64_from_le_bytes(&self.data.as_slice()[aligned_offset..aligned_offset + 8]);
            Ok(UserAreaWrite::Word { offset: aligned_offset, data: word })
        }
    }

    /// Writes `value` to register `id`; see `write`.
    pub fn write_by_id(&mut self, id: RegisterId, value: Variant) -> (r: Result<UserAreaWrite, Error>)
        ensures
            old(self)@.len() == USER_AREA_SIZE,
            final(self)@.len() == USER_AREA_SIZE,
            spec_variant_size(value) > spec_register_size(id) ==> {
                &&& r matches Err(e)
                &&& e@ == "registers::write called with mismatched register and value sizes"@
                &&& final(self)@ == old(self)@
            },
            spec_variant_size(value) <= spec_register_size(id) ==> {
                &&& final(self)@ == spec_write_image(old(self)@, id, value)
                &&& r matches Ok(w)
                &&& spec_user_area_write(final(self)@, id, w)
            },
    {
        proof {
            use_type_invariant(&*self);
            lemma_register_in_user_area(id);
        }
        let info = match register_info_by_id(id) {
            Ok(info) => info,
            Err(e) => return Err(e),
        };
        let r = self.write(&info, value);
        proof {
            use_type_invariant(&*self);
        }
        r
    }
}

} // verus!
