//! Register snapshots taken with a sample.

use crate::buffer::{ByteBuffer, ParseError};
use crate::decode::{take_u64s, u64_at};
use crate::samples::bits::SampleRegsAbi;
use vstd::arithmetic::power2::{lemma2_to64, lemma2_to64_rest, lemma_pow2_unfold, pow2};
use vstd::prelude::*;

verus! {

/// A set of registers, one bit for each.
pub trait RegMask {
    /// The set as plain bits.
    spec fn spec_bits(&self) -> u64;

    /// The set as plain bits.
    fn as_bits(&self) -> (r: u64)
        ensures
            r == self.spec_bits(),
    ;
}

impl RegMask for u64 {
    open spec fn spec_bits(&self) -> u64 {
        *self
    }

    fn as_bits(&self) -> u64 {
        *self
    }
}

/// The registers of x86, by the slot that each takes in a snapshot.
#[derive(Clone, Copy, Debug, PartialEq, Eq, Hash, Structural)]
pub struct X86RegMask {
    pub bits: u64,
}

impl X86RegMask {
    pub const AX: u64 = 0x1;

    pub const BX: u64 = 0x2;

    pub const CX: u64 = 0x4;

    pub const DX: u64 = 0x8;

    pub const SI: u64 = 0x10;

    pub const DI: u64 = 0x20;

    pub const BP: u64 = 0x40;

    pub const SP: u64 = 0x80;

    pub const IP: u64 = 0x100;

    pub const FLAGS: u64 = 0x200;

    pub const CS: u64 = 0x400;

    pub const SS: u64 = 0x800;

    pub const DS: u64 = 0x1000;

    pub const ES: u64 = 0x2000;

    pub const FS: u64 = 0x4000;

    pub const GS: u64 = 0x8000;

    pub const R8: u64 = 0x10000;

    pub const R9: u64 = 0x20000;

    pub const R10: u64 = 0x40000;

    pub const R11: u64 = 0x80000;

    pub const R12: u64 = 0x100000;

    pub const R13: u64 = 0x200000;

    pub const R14: u64 = 0x400000;

    pub const R15: u64 = 0x800000;

    /// An XMM register has 128 bits and so takes two slots.
    pub const XMM0: u64 = 0x300000000;

    pub const XMM1: u64 = 0xc00000000;

    pub const XMM2: u64 = 0x3000000000;

    pub const XMM3: u64 = 0xc000000000;

    pub const XMM4: u64 = 0x30000000000;

    pub const XMM5: u64 = 0xc0000000000;

    pub const XMM6: u64 = 0x300000000000;

    pub const XMM7: u64 = 0xc00000000000;

    pub const XMM8: u64 = 0x3000000000000;

    pub const XMM9: u64 = 0xc000000000000;

    pub const XMM10: u64 = 0x30000000000000;

    pub const XMM11: u64 = 0xc0000000000000;

    pub const XMM12: u64 = 0x300000000000000;

    pub const XMM13: u64 = 0xc00000000000000;

    pub const XMM14: u64 = 0x3000000000000000;

    pub const XMM15: u64 = 0xc000000000000000;

    /// A set with exactly the given bits. Bits without a name are kept.
    pub fn new(bits: u64) -> (r: Self)
        ensures
            r.bits == bits,
    {
        X86RegMask { bits }
    }

    /// The underlying bits.
    pub fn bits(&self) -> (r: u64)
        ensures
            r == self.bits,
    {
        self.bits
    }

    /// Whether every bit of `flags` is set.
    #[verifier::allow_in_spec]
    pub fn contains(&self, flags: u64) -> bool
        returns
            self.bits & flags == flags,
    {
        self.bits & flags == flags
    }
}

impl RegMask for X86RegMask {
    open spec fn spec_bits(&self) -> u64 {
        self.bits
    }

    fn as_bits(&self) -> u64 {
        self.bits
    }
}

/// The registers of 64-bit ARM, by the slot that each takes in a snapshot.
#[derive(Clone, Copy, Debug, PartialEq, Eq, Hash, Structural)]
pub struct Arm64RegMask {
    pub bits: u64,
}

impl Arm64RegMask {
    pub const X0: u64 = 0x1;

    pub const X1: u64 = 0x2;

    pub const X2: u64 = 0x4;

    pub const X3: u64 = 0x8;

    pub const X4: u64 = 0x10;

    pub const X5: u64 = 0x20;

    pub const X6: u64 = 0x40;

    pub const X7: u64 = 0x80;

    pub const X8: u64 = 0x100;

    pub const X9: u64 = 0x200;

    pub const X10: u64 = 0x400;

    pub const X11: u64 = 0x800;

    pub const X12: u64 = 0x1000;

    pub const X13: u64 = 0x2000;

    pub const X14: u64 = 0x4000;

    pub const X15: u64 = 0x8000;

    pub const X16: u64 = 0x10000;

    pub const X17: u64 = 0x20000;

    pub const X18: u64 = 0x40000;

    pub const X19: u64 = 0x80000;

    pub const X20: u64 = 0x100000;

    pub const X21: u64 = 0x200000;

    pub const X22: u64 = 0x400000;

    pub const X23: u64 = 0x800000;

    pub const X24: u64 = 0x1000000;

    pub const X25: u64 = 0x2000000;

    pub const X26: u64 = 0x4000000;

    pub const X27: u64 = 0x8000000;

    pub const X28: u64 = 0x10000000;

    pub const X29: u64 = 0x20000000;

    pub const LR: u64 = 0x40000000;

    pub const SP: u64 = 0x80000000;

    pub const PC: u64 = 0x100000000;

    /// A set with exactly the given bits. Bits without a name are kept.
    pub fn new(bits: u64) -> (r: Self)
        ensures
            r.bits == bits,
    {
        Arm64RegMask { bits }
    }

    /// The underlying bits.
    pub fn bits(&self) -> (r: u64)
        ensures
            r == self.bits,
    {
        self.bits
    }

    /// Whether every bit of `flags` is set.
    #[verifier::allow_in_spec]
    pub fn contains(&self, flags: u64) -> bool
        returns
            self.bits & flags == flags,
    {
        self.bits & flags == flags
    }
}

impl RegMask for Arm64RegMask {
    open spec fn spec_bits(&self) -> u64 {
        self.bits
    }

    fn as_bits(&self) -> u64 {
        self.bits
    }
}

/// The registers of PowerPC, by the slot that each takes in a snapshot.
#[derive(Clone, Copy, Debug, PartialEq, Eq, Hash, Structural)]
pub struct PowerPCRegMask {
    pub bits: u64,
}

impl PowerPCRegMask {
    pub const R0: u64 = 0x1;

    pub const R1: u64 = 0x2;

    pub const R2: u64 = 0x4;

    pub const R3: u64 = 0x8;

    pub const R4: u64 = 0x10;

    pub const R5: u64 = 0x20;

    pub const R6: u64 = 0x40;

    pub const R7: u64 = 0x80;

    pub const R8: u64 = 0x100;

    pub const R9: u64 = 0x200;

    pub const R10: u64 = 0x400;

    pub const R11: u64 = 0x800;

    pub const R12: u64 = 0x1000;

    pub const R13: u64 = 0x2000;

    pub const R14: u64 = 0x4000;

    pub const R15: u64 = 0x8000;

    pub const R16: u64 = 0x10000;

    pub const R17: u64 = 0x20000;

    pub const R18: u64 = 0x40000;

    pub const R19: u64 = 0x80000;

    pub const R20: u64 = 0x100000;

    pub const R21: u64 = 0x200000;

    pub const R22: u64 = 0x400000;

    pub const R23: u64 = 0x800000;

    pub const R24: u64 = 0x1000000;

    pub const R25: u64 = 0x2000000;

    pub const R26: u64 = 0x4000000;

    pub const R27: u64 = 0x8000000;

    pub const R28: u64 = 0x10000000;

    pub const R29: u64 = 0x20000000;

    pub const R30: u64 = 0x40000000;

    pub const R31: u64 = 0x80000000;

    pub const NIP: u64 = 0x100000000;

    pub const MSR: u64 = 0x200000000;

    pub const ORIG_R3: u64 = 0x400000000;

    pub const CTR: u64 = 0x800000000;

    pub const LINK: u64 = 0x1000000000;

    pub const XER: u64 = 0x2000000000;

    pub const CCR: u64 = 0x4000000000;

    pub const SOFTE: u64 = 0x8000000000;

    pub const TRAP: u64 = 0x10000000000;

    pub const DAR: u64 = 0x20000000000;

    pub const DSISR: u64 = 0x40000000000;

    pub const SIER: u64 = 0x80000000000;

    pub const MMCRA: u64 = 0x100000000000;

    pub const MMCR0: u64 = 0x200000000000;

    pub const MMCR1: u64 = 0x400000000000;

    pub const MMCR2: u64 = 0x800000000000;

    pub const MMCR3: u64 = 0x1000000000000;

    pub const SIER2: u64 = 0x2000000000000;

    pub const SIER3: u64 = 0x4000000000000;

    pub const PMC1: u64 = 0x8000000000000;

    pub const PMC2: u64 = 0x10000000000000;

    pub const PMC3: u64 = 0x20000000000000;

    pub const PMC4: u64 = 0x40000000000000;

    pub const PMC5: u64 = 0x80000000000000;

    pub const PMC6: u64 = 0x100000000000000;

    pub const SDAR: u64 = 0x200000000000000;

    pub const SIAR: u64 = 0x400000000000000;

    /// A set with exactly the given bits. Bits without a name are kept.
    pub fn new(bits: u64) -> (r: Self)
        ensures
            r.bits == bits,
    {
        PowerPCRegMask { bits }
    }

    /// The underlying bits.
    pub fn bits(&self) -> (r: u64)
        ensures
            r == self.bits,
    {
        self.bits
    }

    /// Whether every bit of `flags` is set.
    #[verifier::allow_in_spec]
    pub fn contains(&self, flags: u64) -> bool
        returns
            self.bits & flags == flags,
    {
        self.bits & flags == flags
    }
}

impl RegMask for PowerPCRegMask {
    open spec fn spec_bits(&self) -> u64 {
        self.bits
    }

    fn as_bits(&self) -> u64 {
        self.bits
    }
}

/// The registers of RISC-V, by the slot that each takes in a snapshot.
#[derive(Clone, Copy, Debug, PartialEq, Eq, Hash, Structural)]
pub struct RiscvRegMask {
    pub bits: u64,
}

impl RiscvRegMask {
    pub const PC: u64 = 0x1;

    pub const RA: u64 = 0x2;

    pub const SP: u64 = 0x4;

    pub const GP: u64 = 0x8;

    pub const TP: u64 = 0x10;

    pub const T0: u64 = 0x20;

    pub const T1: u64 = 0x40;

    pub const T2: u64 = 0x80;

    pub const S0: u64 = 0x100;

    pub const S1: u64 = 0x200;

    pub const A0: u64 = 0x400;

    pub const A1: u64 = 0x800;

    pub const A2: u64 = 0x1000;

    pub const A3: u64 = 0x2000;

    pub const A4: u64 = 0x4000;

    pub const A5: u64 = 0x8000;

    pub const A6: u64 = 0x10000;

    pub const A7: u64 = 0x20000;

    pub const S2: u64 = 0x40000;

    pub const S3: u64 = 0x80000;

    pub const S4: u64 = 0x100000;

    pub const S5: u64 = 0x200000;

    pub const S6: u64 = 0x400000;

    pub const S7: u64 = 0x800000;

    pub const S8: u64 = 0x1000000;

    pub const S9: u64 = 0x2000000;

    pub const S10: u64 = 0x4000000;

    pub const S11: u64 = 0x8000000;

    pub const T3: u64 = 0x10000000;

    pub const T4: u64 = 0x20000000;

    pub const T5: u64 = 0x40000000;

    pub const T6: u64 = 0x80000000;

    /// A set with exactly the given bits. Bits without a name are kept.
    pub fn new(bits: u64) -> (r: Self)
        ensures
            r.bits == bits,
    {
        RiscvRegMask { bits }
    }

    /// The underlying bits.
    pub fn bits(&self) -> (r: u64)
        ensures
            r == self.bits,
    {
        self.bits
    }

    /// Whether every bit of `flags` is set.
    #[verifier::allow_in_spec]
    pub fn contains(&self, flags: u64) -> bool
        returns
            self.bits & flags == flags,
    {
        self.bits & flags == flags
    }
}

impl RegMask for RiscvRegMask {
    open spec fn spec_bits(&self) -> u64 {
        self.bits
    }

    fn as_bits(&self) -> u64 {
        self.bits
    }
}

/// The registers of S390, by the slot that each takes in a snapshot.
#[derive(Clone, Copy, Debug, PartialEq, Eq, Hash, Structural)]
pub struct S390RegMask {
    pub bits: u64,
}

impl S390RegMask {
    pub const R0: u64 = 0x1;

    pub const R1: u64 = 0x2;

    pub const R2: u64 = 0x4;

    pub const R3: u64 = 0x8;

    pub const R4: u64 = 0x10;

    pub const R5: u64 = 0x20;

    pub const R6: u64 = 0x40;

    pub const R7: u64 = 0x80;

    pub const R8: u64 = 0x100;

    pub const R9: u64 = 0x200;

    pub const R10: u64 = 0x400;

    pub const R11: u64 = 0x800;

    pub const R12: u64 = 0x1000;

    pub const R13: u64 = 0x2000;

    pub const R14: u64 = 0x4000;

    pub const R15: u64 = 0x8000;

    pub const FP0: u64 = 0x10000;

    pub const FP1: u64 = 0x20000;

    pub const FP2: u64 = 0x40000;

    pub const FP3: u64 = 0x80000;

    pub const FP4: u64 = 0x100000;

    pub const FP5: u64 = 0x200000;

    pub const FP6: u64 = 0x400000;

    pub const FP7: u64 = 0x800000;

    pub const FP8: u64 = 0x1000000;

    pub const FP9: u64 = 0x2000000;

    pub const FP10: u64 = 0x4000000;

    pub const FP11: u64 = 0x8000000;

    pub const FP12: u64 = 0x10000000;

    pub const FP13: u64 = 0x20000000;

    pub const FP14: u64 = 0x40000000;

    pub const FP15: u64 = 0x80000000;

    pub const MASK: u64 = 0x100000000;

    pub const PC: u64 = 0x200000000;

    /// A set with exactly the given bits. Bits without a name are kept.
    pub fn new(bits: u64) -> (r: Self)
        ensures
            r.bits == bits,
    {
        S390RegMask { bits }
    }

    /// The underlying bits.
    pub fn bits(&self) -> (r: u64)
        ensures
            r == self.bits,
    {
        self.bits
    }

    /// Whether every bit of `flags` is set.
    #[verifier::allow_in_spec]
    pub fn contains(&self, flags: u64) -> bool
        returns
            self.bits & flags == flags,
    {
        self.bits & flags == flags
    }
}

impl RegMask for S390RegMask {
    open spec fn spec_bits(&self) -> u64 {
        self.bits
    }

    fn as_bits(&self) -> u64 {
        self.bits
    }
}

/// How many bits of `x` are set.
pub open spec fn count_ones(x: nat) -> nat
    decreases x,
{
    if x == 0 {
        0
    } else {
        (x % 2) + count_ones(x / 2)
    }
}

/// A number below `2^k` has at most `k` bits set.
proof fn lemma_count_ones_bound(x: nat, k: nat)
    requires
        x < pow2(k),
    ensures
        count_ones(x) <= k,
    decreases k,
{
    if x != 0 {
        if k == 0 {
            lemma2_to64();
        } else {
            lemma_pow2_unfold(k);
            lemma_count_ones_bound(x / 2, (k - 1) as nat);
        }
    }
}

/// How many bits of `mask` are set.
pub fn popcount(mask: u64) -> (n: u32)
    ensures
        n == count_ones(mask as nat),
        n <= 64,
{
    proof {
        lemma2_to64_rest();
        lemma_count_ones_bound(mask as nat, 64);
    }
    let mut n: u32 = 0;
    let mut m = mask;
    while m != 0
        invariant
            n + count_ones(m as nat) == count_ones(mask as nat),
            count_ones(mask as nat) <= 64,
        decreases m,
    {
        if m % 2 == 1 {
            n += 1;
        }
        m = m / 2;
    }
    n
}

/// The registers that were captured when a sample was taken.
#[derive(Clone, Debug)]
pub struct Registers {
    /// The register convention of the sampled program.
    pub abi: SampleRegsAbi,
    /// Which registers were captured, one bit each.
    pub mask: u64,
    /// The captured values, in the order of their bits in `mask`.
    pub regs: Vec<u64>,
}

/// A [`Registers`] with its values as a sequence.
pub struct RegistersView {
    pub abi: SampleRegsAbi,
    pub mask: u64,
    pub regs: Seq<u64>,
}

impl View for Registers {
    type V = RegistersView;

    open spec fn view(&self) -> RegistersView {
        RegistersView { abi: self.abi, mask: self.mask, regs: self.regs@ }
    }
}

impl Registers {
    /// The mask that a snapshot with the given ABI tag really has: empty
    /// where the tag says that no registers were captured, as configured
    /// otherwise.
    pub open spec fn effective_mask(mask: u64, abi: u64) -> u64 {
        if abi == SampleRegsAbi::NONE {
            0
        } else {
            mask
        }
    }

    /// The snapshot at the front of `s` and the bytes after it: the ABI tag
    /// and then one 64-bit value for each bit of the effective mask.
    pub open spec fn spec_parse(mask: u64, s: Seq<u8>) -> Option<(RegistersView, Seq<u8>)> {
        if s.len() >= 8 {
            let abi = u64_at(s, 0);
            let m = Registers::effective_mask(mask, abi);
            match take_u64s(s.skip(8), count_ones(m as nat)) {
                Some((regs, rest)) => Some(
                    (RegistersView { abi: SampleRegsAbi(abi), mask: m, regs }, rest),
                ),
                None => None,
            }
        } else {
            None
        }
    }

    /// Decodes the snapshot at the front of `buf`, taken with the
    /// configured `mask`.
    pub fn parse_regs(mask: u64, buf: &mut ByteBuffer) -> (r: Result<Registers, ParseError>)
        ensures
            match r {
                Ok(v) => Registers::spec_parse(mask, old(buf)@) == Some((v@, final(buf)@)),
                Err(e) => e == ParseError::Eof && Registers::spec_parse(mask, old(buf)@) is None,
            },
    {
        let abi = buf.parse_u64()?;
        let mask = if abi == SampleRegsAbi::NONE {
            0
        } else {
            mask
        };
        let count = popcount(mask);
        let regs = buf.parse_u64s(count as u64)?;
        Ok(Registers { abi: SampleRegsAbi::new(abi), mask, regs })
    }

    /// The value of the register with bit number `bit`, where the snapshot
    /// holds it: the value in the slot that is as far from the start as
    /// there are captured registers with a lower bit number.
    pub fn reg(&self, bit: u32) -> (r: Option<u64>)
        requires
            bit < 64,
        ensures
            r == ({
                let slot = count_ones((self.mask & ((1u64 << bit) - 1) as u64) as nat);
                if self.mask & (1u64 << bit) != 0 && slot < self.regs@.len() {
                    Some(self.regs@[slot as int])
                } else {
                    None
                }
            }),
    {
        let one: u64 = 1u64 << bit;
        assert(one >= 1) by (bit_vector)
            requires
                one == 1u64 << bit,
                bit < 64,
        ;
        if self.mask & one != 0 {
            let index = popcount(self.mask & (one - 1)) as usize;
            if index < self.regs.len() {
                Some(self.regs[index])
            } else {
                None
            }
        } else {
            None
        }
    }

    /// The value of the 128-bit register that takes the two slots with
    /// the bit numbers `bit` and `bit + 1`, where the snapshot holds both:
    /// the lower half from the first slot, the upper half from the second.
    pub fn reg128(&self, bit: u32) -> (r: Option<u128>)
        requires
            bit < 63,
        ensures
            r == ({
                let slot = count_ones((self.mask & ((1u64 << bit) - 1) as u64) as nat);
                if self.mask & (3u64 << bit) == (3u64 << bit) && slot + 1 < self.regs@.len() {
                    Some((self.regs@[slot as int + 1] as u128) << 64 | (self.regs@[slot as int] as u128))
                } else {
                    None
                }
            }),
    {
        let one: u64 = 1u64 << bit;
        let both: u64 = 3u64 << bit;
        assert(one >= 1) by (bit_vector)
            requires
                one == 1u64 << bit,
                bit < 63,
        ;
        if self.mask & both == both {
            let index = popcount(self.mask & (one - 1)) as usize;
            if index < self.regs.len() && index + 1 < self.regs.len() {
                let lo = self.regs[index];
                let hi = self.regs[index + 1];
                Some(((hi as u128) << 64) | (lo as u128))
            } else {
                None
            }
        } else {
            None
        }
    }
}

/// A snapshot whose ABI tag says that no registers were captured holds no
/// value, whatever mask was configured.
pub proof fn lemma_registers_abi_none(mask: u64, s: Seq<u8>)
    requires
        s.len() >= 8,
        u64_at(s, 0) == SampleRegsAbi::NONE,
    ensures
        Registers::spec_parse(mask, s) == Some(
            (
                RegistersView { abi: SampleRegsAbi(SampleRegsAbi::NONE), mask: 0, regs: Seq::empty() },
                s.skip(8),
            ),
        ),
{
    assert(count_ones(0) == 0);
    let t = s.skip(8);
    assert(t.skip(0) =~= t);
    assert(Seq::new(0, |k: int| u64_at(t, 0 + 8 * k)) =~= Seq::<u64>::empty());
}

} // verus!
