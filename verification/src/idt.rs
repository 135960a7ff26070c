//! The interrupt descriptor table and the bit-exact encoding of its entries.
//!
//! Each entry stores the virtual address of its handler split across three
//! hardware-mandated fields (low 16, middle 16 and high 32 bits), a code
//! segment selector, and a bit-packed 16-bit options word. The split
//! representation is kept behind an explicit encode/decode pair and never
//! exposed to callers.

use core::marker::PhantomData;

use vstd::prelude::*;

use crate::gdt::{PrivilegeLevel, SegmentSelector};
use crate::memory::{virtual_address_canonical, VirtualAddress};

verus! {

/// The options word of a missing descriptor: not present, no stack switch,
/// interrupts disabled during handling, ring 0.
pub const MISSING_OPTIONS: u16 = 0x0E00;

/// The stack to switch to when handling the interrupt.
#[derive(Clone, Copy, Debug, Hash, PartialEq, Eq, Structural)]
pub enum IstSetting {
    /// Don't switch stacks.
    NoSwitch,
    /// Switch to the 1st stack in the interrupt stack table.
    Ist1,
    /// Switch to the 2nd stack in the interrupt stack table.
    Ist2,
    /// Switch to the 3rd stack in the interrupt stack table.
    Ist3,
    /// Switch to the 4th stack in the interrupt stack table.
    Ist4,
    /// Switch to the 5th stack in the interrupt stack table.
    Ist5,
    /// Switch to the 6th stack in the interrupt stack table.
    Ist6,
    /// Switch to the 7th stack in the interrupt stack table.
    Ist7,
}

impl IstSetting {
    /// The numeric encoding of the stack-switch setting.
    pub open spec fn spec_value(self) -> u16 {
        match self {
            IstSetting::NoSwitch => 0,
            IstSetting::Ist1 => 1,
            IstSetting::Ist2 => 2,
            IstSetting::Ist3 => 3,
            IstSetting::Ist4 => 4,
            IstSetting::Ist5 => 5,
            IstSetting::Ist6 => 6,
            IstSetting::Ist7 => 7,
        }
    }

    /// Returns the numeric encoding of this [`IstSetting`].
    pub fn value(self) -> (r: u16)
        ensures
            r == self.spec_value(),
            r < 8,
    {
        match self {
            IstSetting::NoSwitch => 0,
            IstSetting::Ist1 => 1,
            IstSetting::Ist2 => 2,
            IstSetting::Ist3 => 3,
            IstSetting::Ist4 => 4,
            IstSetting::Ist5 => 5,
            IstSetting::Ist6 => 6,
            IstSetting::Ist7 => 7,
        }
    }

    /// Returns the [`IstSetting`] encoded by the low three bits of `v`.
    pub fn from_bits(v: u16) -> (r: Self)
        ensures
            r.spec_value() == v % 8,
    {
        proof {
            assert(v & 0b111 == v % 8) by (bit_vector);
        }
        match v & 0b111 {
            0 => IstSetting::NoSwitch,
            1 => IstSetting::Ist1,
            2 => IstSetting::Ist2,
            3 => IstSetting::Ist3,
            4 => IstSetting::Ist4,
            5 => IstSetting::Ist5,
            6 => IstSetting::Ist6,
            _ => IstSetting::Ist7,
        }
    }
}

/// Various options that control the behavior of the interrupt when it
/// occurs, bit-packed into 16 bits: the stack-switch setting in the low
/// three bits, a clear bit 8 when interrupts are disabled during handling,
/// the mandatory gate-type bits, the privilege level in bits 13 and 14, and
/// the present flag in bit 15.
#[derive(Clone, Copy, Debug, Hash, PartialEq, Eq, Structural)]
pub struct InterruptDescriptorOptions(pub u16);

/// The packed options word for the given field values.
pub open spec fn spec_encode_options(
    present: bool,
    ist: u16,
    disables_interrupts: bool,
    privilege_level: u16,
) -> u16 {
    (ist + (if disables_interrupts {
        0u16
    } else {
        0x100u16
    }) + 0x0E00 + privilege_level * 0x2000 + (if present {
        0x8000u16
    } else {
        0u16
    })) as u16
}

impl InterruptDescriptorOptions {
    /// The stack-switch setting encoded in the options word.
    pub open spec fn spec_ist(self) -> u16 {
        self.0 % 8
    }

    /// Whether the options word encodes that interrupts are disabled for
    /// the duration of the handler: bit 8 is clear.
    pub open spec fn spec_disables_interrupts(self) -> bool {
        (self.0 / 0x100) % 2 == 0
    }

    /// The numeric privilege level encoded in the options word.
    pub open spec fn spec_privilege_level(self) -> u16 {
        (self.0 / 0x2000) % 4
    }

    /// Whether the options word encodes a present handler: bit 15 is set.
    pub open spec fn spec_present(self) -> bool {
        self.0 >= 0x8000
    }

    /// Returns the [`InterruptDescriptorOptions`] that describes a missing
    /// descriptor: not present, no stack switch, interrupts disabled, ring 0.
    pub fn missing() -> (r: Self)
        ensures
            r.0 == MISSING_OPTIONS,
            r == Self::spec_missing(),
            !r.spec_present(),
            r.spec_disables_interrupts(),
            r.spec_ist() == 0,
            r.spec_privilege_level() == 0,
    {
        InterruptDescriptorOptions(MISSING_OPTIONS)
    }

    /// The options word that describes a missing descriptor.
    pub open spec fn spec_missing() -> Self {
        InterruptDescriptorOptions(MISSING_OPTIONS)
    }

    /// Creates a new [`InterruptDescriptorOptions`], which specifies whether
    /// the interrupt handler is present, which stack to switch to when the
    /// handler is called, whether interrupts are disabled for the duration
    /// of the interrupt, and the privilege level at which the interrupt
    /// handling occurs. Each field is recovered exactly by its accessor.
    pub fn new(
        present: bool,
        ist: IstSetting,
        disables_interrupts: bool,
        privilege_level: PrivilegeLevel,
    ) -> (r: Self)
        ensures
            r.0 == spec_encode_options(
                present,
                ist.spec_value(),
                disables_interrupts,
                privilege_level.spec_value(),
            ),
            r.spec_present() == present,
            r.spec_disables_interrupts() == disables_interrupts,
            r.spec_ist() == ist.spec_value(),
            r.spec_privilege_level() == privilege_level.spec_value(),
    {
        let ist_bits = ist.value();
        let interrupt_bit: u16 = if disables_interrupts {
            0
        } else {
            0x100
        };
        let present_bit: u16 = if present {
            0x8000
        } else {
            0
        };
        let privilege_bits = privilege_level.value();
        proof {
            let i = ist_bits;
            let d = interrupt_bit;
            let p = present_bit;
            let l = privilege_bits;
            assert(i < 8 && (d == 0 || d == 0x100) && (p == 0 || p == 0x8000) && l < 4 ==> {
                let packed = i | d | 0x0E00u16 | (l << 13) | p;
                &&& packed == (i + d + 0x0E00 + l * 0x2000 + p) as u16
                &&& packed % 8 == i
                &&& (packed / 0x100) % 2 == d / 0x100
                &&& (packed / 0x2000) % 4 == l
                &&& (packed >= 0x8000 <==> p == 0x8000)
            }) by (bit_vector);
        }
        InterruptDescriptorOptions(
            ist_bits | interrupt_bit | 0x0E00 | (privilege_bits << 13) | present_bit,
        )
    }

    /// Which stack to switch to when this interrupt occurs.
    pub fn ist(&self) -> (r: IstSetting)
        ensures
            r.spec_value() == self.spec_ist(),
    {
        IstSetting::from_bits(self.0)
    }

    /// Whether interrupts are disabled while this interrupt is handled.
    pub fn disables_interrupts(&self) -> (r: bool)
        ensures
            r == self.spec_disables_interrupts(),
    {
        proof {
            let v = self.0;
            assert((v & 0x100 == 0x100) <==> (v / 0x100) % 2 == 1) by (bit_vector);
        }
        !(self.0 & 0x100 == 0x100)
    }

    /// The privilege level to switch to when this interrupt occurs.
    pub fn privilege_level(&self) -> (r: PrivilegeLevel)
        ensures
            r.spec_value() == self.spec_privilege_level(),
    {
        proof {
            let v = self.0;
            assert((v >> 13) % 4 == (v / 0x2000) % 4) by (bit_vector);
        }
        PrivilegeLevel::from_bits(self.0 >> 13)
    }

    /// Whether the interrupt handler is present.
    pub fn present(&self) -> (r: bool)
        ensures
            r == self.spec_present(),
    {
        proof {
            let v = self.0;
            assert((v & 0x8000 == 0x8000) <==> v >= 0x8000) by (bit_vector);
        }
        self.0 & 0x8000 == 0x8000
    }
}

/// The handler calling convention of a vector that takes no error code and
/// returns.
#[derive(Clone, Copy, Debug, Hash, PartialEq, Eq, Structural)]
pub struct HandlerFunc;

/// The handler calling convention of a vector that takes an error code and
/// returns.
#[derive(Clone, Copy, Debug, Hash, PartialEq, Eq, Structural)]
pub struct HandlerFuncErrorCode;

/// The handler calling convention of a vector that takes no error code and
/// diverges.
#[derive(Clone, Copy, Debug, Hash, PartialEq, Eq, Structural)]
pub struct NoReturnHandlerFunc;

/// The handler calling convention of a vector that takes an error code and
/// diverges.
#[derive(Clone, Copy, Debug, Hash, PartialEq, Eq, Structural)]
pub struct NoReturnHandlerFuncErrorCode;

/// Relies on `core::marker::PhantomData::clone`: cloning the zero-sized
/// marker returns the marker itself, which carries no data. This lets the
/// derived `Clone` of [`InterruptDescriptor`] resolve.
pub assume_specification<T: core::marker::PointeeSized>[ <PhantomData<T> as Clone>::clone ](
    v: &PhantomData<T>,
) -> (r: PhantomData<T>)
    ensures
        r == *v,
;

/// 16-byte structure that identifies the [`VirtualAddress`] of a handler
/// function, as well as other miscellaneous information that determines how
/// an interrupt occurs. The type parameter distinguishes the handler calling
/// convention at compile time.
#[derive(Clone, Copy, Debug, Hash, PartialEq, Eq, Structural)]
pub struct InterruptDescriptor<F> {
    /// Bits 0 through 15 of the handler's address.
    pub low_func_ptr: u16,
    /// The code segment the CPU loads when the interrupt occurs.
    pub code_segment: SegmentSelector,
    /// The bit-packed behavior options of the vector.
    pub options: InterruptDescriptorOptions,
    /// Bits 16 through 31 of the handler's address.
    pub mid_func_ptr: u16,
    /// Bits 32 through 63 of the handler's address.
    pub high_func_ptr: u32,
    /// Hardware-mandated reserved field, always zero.
    pub reserved: u32,
    /// Marker of the handler calling convention.
    pub phantom: PhantomData<F>,
}

impl<F> InterruptDescriptor<F> {
    /// The handler address stored split across the three address fields.
    pub open spec fn spec_func_addr(self) -> int {
        self.low_func_ptr + self.mid_func_ptr * 0x1_0000 + self.high_func_ptr * 0x1_0000_0000
    }

    /// Whether this descriptor describes a missing handler.
    pub open spec fn is_missing(self) -> bool {
        &&& self.low_func_ptr == 0
        &&& self.code_segment.0 == 0
        &&& self.options == InterruptDescriptorOptions::spec_missing()
        &&& self.mid_func_ptr == 0
        &&& self.high_func_ptr == 0
        &&& self.reserved == 0
    }

    /// Returns an [`InterruptDescriptor`] that describes a missing handler
    /// function.
    pub fn missing() -> (r: Self)
        ensures
            r.is_missing(),
    {
        InterruptDescriptor {
            low_func_ptr: 0,
            code_segment: SegmentSelector::null(),
            options: InterruptDescriptorOptions::missing(),
            mid_func_ptr: 0,
            high_func_ptr: 0,
            reserved: 0,
            phantom: PhantomData,
        }
    }

    /// Constructs a new [`InterruptDescriptor`] that points to a handler
    /// function located at `address`, with the CPU using `code_segment` to
    /// determine the code segment, and `options` to determine the behavior
    /// of the CPU on interrupt.
    pub fn new(
        address: VirtualAddress,
        code_segment: SegmentSelector,
        options: InterruptDescriptorOptions,
    ) -> (r: Self)
        ensures
            r.spec_func_addr() == address@,
            r.code_segment == code_segment,
            r.options == options,
            r.reserved == 0,
    {
        proof {
            let a = address.0;
            assert((a as u16) + (((a >> 16) as u16) * 0x1_0000) + (((a >> 32) as u32)
                * 0x1_0000_0000) == a) by (bit_vector);
        }
        InterruptDescriptor {
            low_func_ptr: address.value() as u16,
            code_segment,
            options,
            mid_func_ptr: (address.value() >> 16) as u16,
            high_func_ptr: (address.value() >> 32) as u32,
            reserved: 0,
            phantom: PhantomData,
        }
    }

    /// The [`VirtualAddress`] of the handler function, reconstructed exactly
    /// from the three split fields.
    pub fn func_ptr(&self) -> (r: VirtualAddress)
        requires
            virtual_address_canonical(self.spec_func_addr() as u64),
        ensures
            r@ == self.spec_func_addr(),
            r.wf(),
    {
        proof {
            let lo = self.low_func_ptr;
            let mid = self.mid_func_ptr;
            let hi = self.high_func_ptr;
            assert((lo as u64) | ((mid as u64) << 16) | ((hi as u64) << 32) == lo + mid * 0x1_0000
                + hi * 0x1_0000_0000) by (bit_vector);
        }
        let address = self.low_func_ptr as u64 | ((self.mid_func_ptr as u64) << 16) | (
        (self.high_func_ptr as u64) << 32);
        VirtualAddress::new(address).unwrap()
    }

    /// Sets the [`SegmentSelector`] which the CPU uses for the code segment
    /// when the interrupt occurs.
    pub fn set_code_segment(&mut self, segment: SegmentSelector)
        ensures
            (*final(self) == InterruptDescriptor { code_segment: segment, ..*old(self) }),
    {
        self.code_segment = segment;
    }

    /// Sets the [`InterruptDescriptorOptions`], which controls the behavior
    /// of the interrupt and interrupt handler.
    pub fn set_options(&mut self, options: InterruptDescriptorOptions)
        ensures
            (*final(self) == InterruptDescriptor { options, ..*old(self) }),
    {
        self.options = options;
    }

    /// Sets the address of the handler function to `handler`.
    ///
    /// Also sets the code segment selector to select the segment in index 2
    /// at [`PrivilegeLevel::Ring0`] as the code segment, and the options to
    /// indicate that the interrupt handler is present, should disable
    /// interrupts, operate on the same stack, and handle the interrupt at
    /// [`PrivilegeLevel::Ring0`]. The handler address is recovered exactly
    /// by [`InterruptDescriptor::func_ptr`].
    pub fn set_handler_fn(&mut self, handler: VirtualAddress)
        ensures
            final(self).spec_func_addr() == handler@,
            final(self).options.0 == spec_encode_options(true, 0, true, 0),
            final(self).options.spec_present(),
            final(self).options.spec_disables_interrupts(),
            final(self).options.spec_ist() == 0,
            final(self).options.spec_privilege_level() == 0,
            final(self).code_segment == SegmentSelector(16),
            final(self).code_segment.spec_index() == 2,
            final(self).code_segment.spec_rpl() == 0,
            final(self).reserved == old(self).reserved,
    {
        let address = handler.value();

        proof {
            let a = address;
            assert((a as u16) + (((a >> 16) as u16) * 0x1_0000) + (((a >> 32) as u32)
                * 0x1_0000_0000) == a) by (bit_vector);
        }
        self.low_func_ptr = address as u16;
        self.mid_func_ptr = (address >> 16) as u16;
        self.high_func_ptr = (address >> 32) as u32;

        self.options = InterruptDescriptorOptions::new(
            true,
            IstSetting::NoSwitch,
            true,
            PrivilegeLevel::Ring0,
        );
        self.code_segment = SegmentSelector::new(2, PrivilegeLevel::Ring0);
    }
}

/// Table of [`InterruptDescriptor`]s that describe how each trap or
/// interrupt vector should be handled.
#[derive(Clone, Copy)]
pub struct InterruptDescriptorTable {
    /// Indicates the divisor operand for a DIV or IDIV instruction is 0 or
    /// that the result cannot be represented in the number of bits for the
    /// destination operand.
    pub divide_error: InterruptDescriptor<HandlerFunc>,
    /// Indicates that one or more of several debug-exception conditions has
    /// been detected.
    pub debug: InterruptDescriptor<HandlerFunc>,
    /// A non-maskable interrupt has occurred.
    pub non_maskable_interrupt: InterruptDescriptor<HandlerFunc>,
    /// Indicates that a breakpoint instruction was executed, causing a
    /// breakpoint trap to be generated.
    pub breakpoint: InterruptDescriptor<HandlerFunc>,
    /// An overflow trap occurred when an INTO instruction was executed.
    pub overflow: InterruptDescriptor<HandlerFunc>,
    /// Indicates that a BOUND-range-exceeded fault occurred when a BOUND
    /// instruction was executed.
    pub bound_range_exceeded: InterruptDescriptor<HandlerFunc>,
    /// Indicates that the processor attempted to execute an invalid or
    /// reserved opcode, or an instruction with illegal arguments.
    pub invalid_opcode: InterruptDescriptor<HandlerFunc>,
    /// The processor executed a floating-point instruction while the
    /// relevant control-register flags forbid it.
    pub device_not_available: InterruptDescriptor<HandlerFunc>,
    /// Indicates that the processor detected a second exception while
    /// calling an exception handler for a prior exception.
    pub double_fault: InterruptDescriptor<NoReturnHandlerFuncErrorCode>,
    /// Reserved interrupt.
    pub coprocessor_segment_overrun: InterruptDescriptor<HandlerFunc>,
    /// An error related to a TSS occurred.
    pub invalid_tss: InterruptDescriptor<HandlerFuncErrorCode>,
    /// The present flag of a segment or gate descriptor is clear.
    pub segment_not_present: InterruptDescriptor<HandlerFuncErrorCode>,
    /// Either a limit violation, a not-present stack segment, or a
    /// canonical violation was detected during an operation that references
    /// memory using the stack pointer.
    pub stack_segment_fault: InterruptDescriptor<HandlerFuncErrorCode>,
    /// The processor detected a class of protection violations that does
    /// not trigger another interrupt.
    pub general_protection_fault: InterruptDescriptor<HandlerFuncErrorCode>,
    /// Indicates, with paging enabled, that the processor detected an error
    /// while translating a linear address to a physical address.
    pub page_fault: InterruptDescriptor<HandlerFuncErrorCode>,
    /// Reserved interrupt.
    pub reserved_1: InterruptDescriptor<HandlerFunc>,
    /// The x87 FPU detected a floating point error.
    pub x87_floating_point_fault: InterruptDescriptor<HandlerFunc>,
    /// The processor detected an unaligned memory operand when alignment
    /// checking was enabled.
    pub alignment_check_exception: InterruptDescriptor<HandlerFuncErrorCode>,
    /// Indicates that the processor detected an internal machine or bus
    /// error, or that an external agent detected a bus error.
    pub machine_check: InterruptDescriptor<NoReturnHandlerFunc>,
    /// Indicates that the processor detected a SIMD floating point
    /// exception.
    pub simd_floating_point: InterruptDescriptor<HandlerFunc>,
    /// Indicates that the processor detected an EPT violation in VMX
    /// non-root operation.
    pub virtualization: InterruptDescriptor<HandlerFunc>,
    /// Indicates that the processor detected a control flow transfer
    /// attempt that would have violated the control flow enforcement
    /// technology constraints.
    pub cp_protection_exception: InterruptDescriptor<HandlerFuncErrorCode>,
    /// Reserved interrupts.
    pub reserved_2: [InterruptDescriptor<HandlerFunc>; 10],
    /// General purpose interrupts.
    pub general_interrupts: [InterruptDescriptor<HandlerFunc>; 224],
}

impl InterruptDescriptorTable {
    /// Whether every vector of the table describes a missing handler.
    pub open spec fn all_missing(self) -> bool {
        &&& self.divide_error.is_missing()
        &&& self.debug.is_missing()
        &&& self.non_maskable_interrupt.is_missing()
        &&& self.breakpoint.is_missing()
        &&& self.overflow.is_missing()
        &&& self.bound_range_exceeded.is_missing()
        &&& self.invalid_opcode.is_missing()
        &&& self.device_not_available.is_missing()
        &&& self.double_fault.is_missing()
        &&& self.coprocessor_segment_overrun.is_missing()
        &&& self.invalid_tss.is_missing()
        &&& self.segment_not_present.is_missing()
        &&& self.stack_segment_fault.is_missing()
        &&& self.general_protection_fault.is_missing()
        &&& self.page_fault.is_missing()
        &&& self.reserved_1.is_missing()
        &&& self.x87_floating_point_fault.is_missing()
        &&& self.alignment_check_exception.is_missing()
        &&& self.machine_check.is_missing()
        &&& self.simd_floating_point.is_missing()
        &&& self.virtualization.is_missing()
        &&& self.cp_protection_exception.is_missing()
        &&& forall|i: int| 0 <= i < 10 ==> self.reserved_2[i].is_missing()
        &&& forall|i: int| 0 <= i < 224 ==> self.general_interrupts[i].is_missing()
    }

    /// Creates a new [`InterruptDescriptorTable`], setting all entries to
    /// the missing descriptor.
    pub fn new() -> (r: Self)
        ensures
            r.all_missing(),
    {
        InterruptDescriptorTable {
            divide_error: InterruptDescriptor::missing(),
            debug: InterruptDescriptor::missing(),
            non_maskable_interrupt: InterruptDescriptor::missing(),
            breakpoint: InterruptDescriptor::missing(),
            overflow: InterruptDescriptor::missing(),
            bound_range_exceeded: InterruptDescriptor::missing(),
            invalid_opcode: InterruptDescriptor::missing(),
            device_not_available: InterruptDescriptor::missing(),
            double_fault: InterruptDescriptor::missing(),
            coprocessor_segment_overrun: InterruptDescriptor::missing(),
            invalid_tss: InterruptDescriptor::missing(),
            segment_not_present: InterruptDescriptor::missing(),
            stack_segment_fault: InterruptDescriptor::missing(),
            general_protection_fault: InterruptDescriptor::missing(),
            page_fault: InterruptDescriptor::missing(),
            reserved_1: InterruptDescriptor::missing(),
            x87_floating_point_fault: InterruptDescriptor::missing(),
            alignment_check_exception: InterruptDescriptor::missing(),
            machine_check: InterruptDescriptor::missing(),
            simd_floating_point: InterruptDescriptor::missing(),
            virtualization: InterruptDescriptor::missing(),
            cp_protection_exception: InterruptDescriptor::missing(),
            reserved_2: [InterruptDescriptor::missing();10],
            general_interrupts: [InterruptDescriptor::missing();224],
        }
    }
}

/// Wires the double-fault vector of `table` to the diverging handler located
/// at `handler`, leaving every other vector untouched. Loading the table
/// into the processor is left to the unverified surroundings.
pub fn install_double_fault_handler(table: &mut InterruptDescriptorTable, handler: VirtualAddress)
    ensures
        final(table).double_fault.spec_func_addr() == handler@,
        final(table).double_fault.options.0 == spec_encode_options(true, 0, true, 0),
        final(table).double_fault.code_segment == SegmentSelector(16),
        final(table).double_fault.options.spec_present(),
        final(table).double_fault.options.spec_disables_interrupts(),
        final(table).double_fault.options.spec_ist() == 0,
        final(table).double_fault.options.spec_privilege_level() == 0,
        final(table).double_fault.code_segment.spec_index() == 2,
        final(table).double_fault.code_segment.spec_rpl() == 0,
        (*final(table) == InterruptDescriptorTable {
            double_fault: final(table).double_fault,
            ..*old(table)
        }),
{
    table.double_fault.set_handler_fn(handler);
}

/// One hardware trap frame as pushed by the processor when an interrupt
/// occurs.
#[derive(Clone, Copy, Debug, Hash, PartialEq, Eq, Structural)]
pub struct InterruptStackFrame {
    /// The address of the instruction to resume at.
    pub interrupt_pointer: VirtualAddress,
    /// The code segment in use when the interrupt occurred.
    pub code_segment: SegmentSelector,
    /// The saved processor flags.
    pub cpu_flags: u64,
    /// The stack pointer at the time of the interrupt.
    pub stack_pointer: VirtualAddress,
    /// The stack segment in use when the interrupt occurred.
    pub stack_segment: SegmentSelector,
}

} // verus!
