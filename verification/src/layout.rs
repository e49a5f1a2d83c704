//! The target-memory address map shared with the stub.
//!
//! The stub's build fixes where the boot vector, the pin-configuration
//! region, the two doorbell slots and the transfer buffer sit in target RAM.
//! The map is injected at construction instead of being scattered through the
//! protocol code, so a stub built with another layout can be substituted
//! without touching the protocol logic.

use vstd::prelude::*;

verus! {

/// Size in bytes of the shared transfer buffer.
pub const BUF_SIZE: u32 = 0x1000;

/// Addresses of every field the protocol reads or writes in target memory.
#[derive(Clone, Copy, Debug, PartialEq, Eq, Structural)]
pub struct Layout {
    /// Base of target RAM; the stub image is downloaded here.
    pub sram_start: u32,
    /// First boot-vector word: the stub's initial stack pointer.
    pub stack_addr: u32,
    /// Second boot-vector word: the stub's reset/entry address.
    pub reset_isr: u32,
    /// Config region: validity flag.
    pub conf_valid: u32,
    /// Config region: the four SPI pin numbers.
    pub conf_spi_miso: u32,
    pub conf_spi_mosi: u32,
    pub conf_spi_clk: u32,
    pub conf_spi_csn: u32,
    /// Command slot: the word the stub polls, written last.
    pub cmd_kind: u32,
    pub cmd_arg0: u32,
    pub cmd_arg1: u32,
    pub cmd_arg2: u32,
    /// Response slot: the word the host polls, cleared after reading.
    pub rsp_kind: u32,
    pub rsp_val0: u32,
    pub rsp_val1: u32,
    pub rsp_val2: u32,
    /// Base of the shared transfer buffer.
    pub buf_start: u32,
}

impl Layout {
    /// The fields stand at their fixed offsets from the region bases, so in
    /// particular the command slot and the response slot do not overlap.
    pub open spec fn wf(self) -> bool {
        &&& self.stack_addr == self.sram_start
        &&& self.reset_isr == self.sram_start + 4
        &&& self.conf_spi_miso == self.conf_valid + 0x04
        &&& self.conf_spi_mosi == self.conf_valid + 0x08
        &&& self.conf_spi_clk == self.conf_valid + 0x0C
        &&& self.conf_spi_csn == self.conf_valid + 0x10
        &&& self.cmd_arg0 == self.cmd_kind + 0x04
        &&& self.cmd_arg1 == self.cmd_kind + 0x08
        &&& self.cmd_arg2 == self.cmd_kind + 0x0C
        &&& self.rsp_kind == self.cmd_kind + 0x10
        &&& self.rsp_val0 == self.cmd_kind + 0x14
        &&& self.rsp_val1 == self.cmd_kind + 0x18
        &&& self.rsp_val2 == self.cmd_kind + 0x1C
    }

    /// Whether `addr` is one of the four response-slot fields.
    pub open spec fn in_response_slot(self, addr: u32) -> bool {
        addr == self.rsp_kind || addr == self.rsp_val0 || addr == self.rsp_val1 || addr
            == self.rsp_val2
    }

    /// The address map of the stock stub build.
    pub fn standard() -> (r: Layout)
        ensures
            r.wf(),
            r.sram_start == 0x2000_0000u32,
            r.conf_valid == 0x2000_3000u32,
            r.cmd_kind == 0x2000_3100u32,
            r.buf_start == 0x2000_4000u32,
    {
        Layout {
            sram_start: 0x2000_0000,
            stack_addr: 0x2000_0000,
            reset_isr: 0x2000_0004,
            conf_valid: 0x2000_3000,
            conf_spi_miso: 0x2000_3004,
            conf_spi_mosi: 0x2000_3008,
            conf_spi_clk: 0x2000_300C,
            conf_spi_csn: 0x2000_3010,
            cmd_kind: 0x2000_3100,
            cmd_arg0: 0x2000_3104,
            cmd_arg1: 0x2000_3108,
            cmd_arg2: 0x2000_310C,
            rsp_kind: 0x2000_3110,
            rsp_val0: 0x2000_3114,
            rsp_val1: 0x2000_3118,
            rsp_val2: 0x2000_311C,
            buf_start: 0x2000_4000,
        }
    }
}

} // verus!
