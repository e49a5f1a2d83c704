use flash_bridge::inject::{
    boot_register_writes, inject_prologue, CpuRegister, InjectAction, RegisterWrite, SpiPins,
};
use flash_bridge::layout::Layout;

#[test]
fn prologue_with_pins_fills_the_config_region_in_order() {
    let layout = Layout::standard();
    let pins = SpiPins { miso: 8, mosi: 9, clk: 10, csn: 11 };
    let actions = inject_prologue(&layout, Some(pins));
    assert_eq!(
        actions,
        vec![
            InjectAction::LoadImage { addr: 0x2000_0000 },
            InjectAction::WriteWord { addr: 0x2000_3000, value: 1 },
            InjectAction::WriteWord { addr: 0x2000_3004, value: 8 },
            InjectAction::WriteWord { addr: 0x2000_3008, value: 9 },
            InjectAction::WriteWord { addr: 0x2000_300C, value: 10 },
            InjectAction::WriteWord { addr: 0x2000_3010, value: 11 },
        ]
    );
}

#[test]
fn prologue_without_pins_only_downloads_the_image() {
    let layout = Layout::standard();
    let actions = inject_prologue(&layout, None);
    assert_eq!(actions, vec![InjectAction::LoadImage { addr: 0x2000_0000 }]);
}

#[test]
fn boot_registers_are_primed_from_the_boot_words() {
    let writes = boot_register_writes(0x2000_8000, 0x2000_00A1);
    assert_eq!(
        writes,
        vec![
            RegisterWrite { register: CpuRegister::Msp, value: 0x2000_8000 },
            RegisterWrite { register: CpuRegister::Pc, value: 0x2000_00A1 },
            RegisterWrite { register: CpuRegister::Lr, value: 0xFFFF_FFFF },
        ]
    );
}

#[test]
fn boot_word_addresses_follow_the_vector_convention() {
    let layout = Layout::standard();
    assert_eq!(layout.stack_addr, layout.sram_start);
    assert_eq!(layout.reset_isr, layout.sram_start + 4);
}
