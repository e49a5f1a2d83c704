//! The injection bootstrap: what must be written into target memory, and
//! into the CPU registers, to start the stub.
//!
//! Injection is three strictly ordered stages: download the image to the base
//! of target RAM and, if a pin mapping is supplied, fill the config region
//! (validity flag first, then the four pins in fixed order); then read the
//! two boot-vector words back from the now-resident image; then prime the
//! CPU registers from them so the stub starts executing. The driver performs
//! the accesses; this module decides exactly which, with what, in what order.

use vstd::prelude::*;

use crate::layout::Layout;

verus! {

/// Which physical pins drive the external flash's SPI signals.
#[derive(Clone, Copy, Debug, PartialEq, Eq, Structural)]
pub struct SpiPins {
    pub miso: u32,
    pub mosi: u32,
    pub clk: u32,
    pub csn: u32,
}

/// The CPU registers primed before the stub executes its first instruction.
#[derive(Clone, Copy, Debug, PartialEq, Eq, Structural)]
pub enum CpuRegister {
    /// Main stack pointer.
    Msp,
    /// Program counter.
    Pc,
    /// Link register.
    Lr,
}

/// One target-memory access of the injection prologue.
#[derive(Clone, Copy, Debug, PartialEq, Eq, Structural)]
pub enum InjectAction {
    /// Download the stub image to this address.
    LoadImage { addr: u32 },
    /// Write one 32-bit word.
    WriteWord { addr: u32, value: u32 },
}

/// One CPU-register write of the injection epilogue.
#[derive(Clone, Copy, Debug, PartialEq, Eq, Structural)]
pub struct RegisterWrite {
    pub register: CpuRegister,
    pub value: u32,
}

/// Parked in the link register so that an erroneous return from the stub is
/// observably trapped rather than silently falling through.
pub const LR_SENTINEL: u32 = 0xFFFF_FFFF;

/// The accesses performed before the boot words are read back: the image
/// download, then — only if a pin mapping is supplied — the validity flag
/// and the four pins, in fixed field order. Without a mapping the config
/// region is left alone and the stub falls back to its built-in pins.
pub open spec fn spec_inject_prologue(l: Layout, pins: Option<SpiPins>) -> Seq<InjectAction> {
    let load = seq![InjectAction::LoadImage { addr: l.sram_start }];
    match pins {
        None => load,
        Some(p) => load + seq![
            InjectAction::WriteWord { addr: l.conf_valid, value: 1 },
            InjectAction::WriteWord { addr: l.conf_spi_miso, value: p.miso },
            InjectAction::WriteWord { addr: l.conf_spi_mosi, value: p.mosi },
            InjectAction::WriteWord { addr: l.conf_spi_clk, value: p.clk },
            InjectAction::WriteWord { addr: l.conf_spi_csn, value: p.csn },
        ],
    }
}

pub fn inject_prologue(layout: &Layout, pins: Option<SpiPins>) -> (r: Vec<InjectAction>)
    ensures
        r@ == spec_inject_prologue(*layout, pins),
{
    let mut r: Vec<InjectAction> = Vec::new();
    r.push(InjectAction::LoadImage { addr: layout.sram_start });
    match pins {
        None => {},
        Some(p) => {
            r.push(InjectAction::WriteWord { addr: layout.conf_valid, value: 1 });
            r.push(InjectAction::WriteWord { addr: layout.conf_spi_miso, value: p.miso });
            r.push(InjectAction::WriteWord { addr: layout.conf_spi_mosi, value: p.mosi });
            r.push(InjectAction::WriteWord { addr: layout.conf_spi_clk, value: p.clk });
            r.push(InjectAction::WriteWord { addr: layout.conf_spi_csn, value: p.csn });
        },
    }
    proof {
        assert(r@ =~= spec_inject_prologue(*layout, pins));
    }
    r
}

/// The register writes that start the stub, given the two boot-vector words
/// read back after the download: stack pointer from the first word, entry
/// address from the second, and the sentinel in the link register.
pub open spec fn spec_boot_register_writes(stack_addr: u32, reset_isr: u32) -> Seq<RegisterWrite> {
    seq![
        RegisterWrite { register: CpuRegister::Msp, value: stack_addr },
        RegisterWrite { register: CpuRegister::Pc, value: reset_isr },
        RegisterWrite { register: CpuRegister::Lr, value: LR_SENTINEL },
    ]
}

pub fn boot_register_writes(stack_addr: u32, reset_isr: u32) -> (r: Vec<RegisterWrite>)
    ensures
        r@ == spec_boot_register_writes(stack_addr, reset_isr),
{
    let mut r: Vec<RegisterWrite> = Vec::new();
    r.push(RegisterWrite { register: CpuRegister::Msp, value: stack_addr });
    r.push(RegisterWrite { register: CpuRegister::Pc, value: reset_isr });
    r.push(RegisterWrite { register: CpuRegister::Lr, value: LR_SENTINEL });
    proof {
        assert(r@ =~= spec_boot_register_writes(stack_addr, reset_isr));
    }
    r
}

} // verus!
