use gameboy_core::bus::cartridge::{
    Cartridge, CartridgeType, MemoryModel, RAM_SIZE, ROM_CARTRIDGE_TYPE, ROM_SIZE,
};
use gameboy_core::bus::io::IoPorts;
use gameboy_core::bus::joypad::{Controller, Joypad, Key};
use gameboy_core::bus::memory_range::{
    in_range, make_range, range_end, range_offset, range_size, range_start, MemoryBounds,
};
use gameboy_core::bus::ppu::{
    color_index, get_color, palette, pixel_bit, Lcdc, Ppu, PpuMode, SpriteData, Stat,
};
use gameboy_core::bus::ram::InternalRam;
use gameboy_core::bus::rtc::{is_rtc_register, Rtc};
use gameboy_core::bus::timer::{Tac, Timer};
use gameboy_core::bus::{region, Memory, Region, SystemBus};
use gameboy_core::config::{Config, HardwareModel};
use gameboy_core::cpu::interrupts::{Interrupt, InterruptIter, InterruptSource};
use gameboy_core::GameboyError;

fn rom_with(cart_type: u8, rom_size: u8, ram_size: u8, banks: usize) -> Vec<u8> {
    let mut rom = vec![0_u8; banks * 0x4000];
    rom[ROM_CARTRIDGE_TYPE] = cart_type;
    rom[ROM_SIZE] = rom_size;
    rom[RAM_SIZE] = ram_size;
    rom
}

fn bus() -> SystemBus {
    let rom = rom_with(0x00, 0x00, 0x00, 2);
    SystemBus::new(&Config::default(), Cartridge::new(rom, Vec::new()).unwrap())
}

#[test]
fn ranges_pack_their_bounds() {
    let range = make_range(0xC000, 0xDFFF);
    assert_eq!(range, 0xC000_DFFF);
    assert_eq!(range_start(range), 0xC000);
    assert_eq!(range_end(range), 0xDFFF);
    assert_eq!(range_size(range), 0x2000);
    assert_eq!(range_size(make_range(5, 4)), 0);
    assert!(in_range(range, 0xC000) && in_range(range, 0xDFFF));
    assert!(!in_range(range, 0xBFFF) && !in_range(range, 0xE000));
    assert_eq!(range_offset(range, 0xC123), 0x123);
    assert_eq!(<() as MemoryBounds<0x8000_9FFF>>::start(), 0x8000);
    assert_eq!(<() as MemoryBounds<0x8000_9FFF>>::end(), 0x9FFF);
}

#[test]
fn addresses_are_decoded_by_region() {
    assert_eq!(region(0x0000), Some(Region::Cartridge));
    assert_eq!(region(0x7FFF), Some(Region::Cartridge));
    assert_eq!(region(0x8000), Some(Region::Ppu));
    assert_eq!(region(0xA000), Some(Region::Cartridge));
    assert_eq!(region(0xC000), Some(Region::Ram));
    assert_eq!(region(0xFDFF), Some(Region::Ram));
    assert_eq!(region(0xFE9F), Some(Region::Ppu));
    assert_eq!(region(0xFEA0), None);
    assert_eq!(region(0xFF00), Some(Region::Joypad));
    assert_eq!(region(0xFF01), Some(Region::Io));
    assert_eq!(region(0xFF04), Some(Region::Timer));
    assert_eq!(region(0xFF07), Some(Region::Timer));
    assert_eq!(region(0xFF0F), Some(Region::Bus));
    assert_eq!(region(0xFF40), Some(Region::Ppu));
    assert_eq!(region(0xFF46), Some(Region::Bus));
    assert_eq!(region(0xFF4B), Some(Region::Ppu));
    assert_eq!(region(0xFF4C), Some(Region::Io));
    assert_eq!(region(0xFF7F), Some(Region::Io));
    assert_eq!(region(0xFF80), Some(Region::Ram));
    assert_eq!(region(0xFFFE), Some(Region::Ram));
    assert_eq!(region(0xFFFF), Some(Region::Bus));
}

#[test]
fn echo_shows_the_work_ram() {
    let mut bus = bus();
    for address in (0xC000..0xDE00_u16).step_by(7) {
        let value = (address % 251) as u8;
        bus.write(address, value).unwrap();
        assert_eq!(bus.read(address).unwrap(), value);
        assert_eq!(bus.read(address + 0x2000).unwrap(), value);
        bus.write(address + 0x2000, !value).unwrap();
        assert_eq!(bus.read(address).unwrap(), !value);
    }
    for address in 0xC000..0xDE00_u16 {
        assert_eq!(bus.read(address).unwrap(), bus.read(address + 0x2000).unwrap());
    }
}

#[test]
fn internal_ram_answers_to_its_ranges_only() {
    let mut ram = InternalRam::new();
    ram.write(0xFF80, 7).unwrap();
    ram.write(0xFFFE, 9).unwrap();
    assert_eq!(ram.read(0xFF80).unwrap(), 7);
    assert_eq!(ram.read(0xFFFE).unwrap(), 9);
    assert_eq!(ram.read(0xC000).unwrap(), 0);
    assert!(matches!(ram.read(0xFFFF), Err(GameboyError::Io(_))));
    assert!(matches!(ram.write(0xBFFF, 1), Err(GameboyError::Io(_))));
}

#[test]
fn stored_registers_boot_values() {
    let mut io = IoPorts::new(&Config::default());
    assert_eq!(io.read(0xFF10).unwrap(), 0x80);
    assert_eq!(io.read(0xFF11).unwrap(), 0xBF);
    assert_eq!(io.read(0xFF24).unwrap(), 0x77);
    assert_eq!(io.read(0xFF26).unwrap(), 0xF1);
    assert_eq!(io.read(0xFF01).unwrap(), 0x00);
    let sgb = IoPorts::new(&Config { model: HardwareModel::SGB });
    assert_eq!(sgb.read(0xFF26).unwrap(), 0xF0);
    io.write(0xFF10, 0x12).unwrap();
    io.write(0xFF7F, 0x34).unwrap();
    assert_eq!(io.read(0xFF7F).unwrap(), 0x34);
    io.reset(&Config::default());
    assert_eq!(io.read(0xFF10).unwrap(), 0x80);
    assert_eq!(io.read(0xFF7F).unwrap(), 0x34);
    assert!(matches!(io.read(0xFF80), Err(GameboyError::BadAddress(0xFF80))));
    assert!(matches!(io.write(0xFEFF, 0), Err(GameboyError::BadAddress(0xFEFF))));
}

#[test]
fn timer_counts_once_per_period() {
    let mut timer = Timer::new(&Config::default());
    timer.write(0xFF07, 0x04).unwrap();
    for _ in 0..256 {
        timer.process(4);
    }
    assert_eq!(timer.read(0xFF05).unwrap(), 1);
    for _ in 0..256 {
        timer.process(4);
    }
    assert_eq!(timer.read(0xFF05).unwrap(), 2);
    // Stopped, the counter stays.
    timer.write(0xFF07, 0x00).unwrap();
    for _ in 0..512 {
        timer.process(4);
    }
    assert_eq!(timer.read(0xFF05).unwrap(), 2);
}

#[test]
fn timer_rates_follow_the_selected_bit() {
    for (select, period) in [(0x04_u8, 1024_usize), (0x05, 16), (0x06, 64), (0x07, 256)] {
        let mut timer = Timer::new(&Config::default());
        timer.write(0xFF04, 0).unwrap();
        timer.write(0xFF07, select).unwrap();
        for _ in 0..(10 * period / 4) {
            timer.process(4);
        }
        assert_eq!(timer.read(0xFF05).unwrap(), 10);
        assert_eq!(timer.read(0xFF07).unwrap(), select);
    }
}

#[test]
fn timer_registers() {
    let mut timer = Timer::new(&Config::default());
    assert_eq!(timer.read(0xFF04).unwrap(), 0xAB);
    timer.process(0x100);
    assert_eq!(timer.read(0xFF04).unwrap(), 0xAC);
    timer.write(0xFF04, 0x55).unwrap();
    assert_eq!(timer.read(0xFF04).unwrap(), 0);
    timer.write(0xFF06, 0x42).unwrap();
    assert_eq!(timer.read(0xFF06).unwrap(), 0x42);
    assert!(matches!(timer.read(0xFF08), Err(GameboyError::BadAddress(0xFF08))));
    assert!(matches!(timer.write(0xFF03, 0), Err(GameboyError::BadAddress(0xFF03))));
    assert_eq!(Timer::new(&Config { model: HardwareModel::GBC }).read(0xFF04).unwrap(), 0x1E);
    timer.write(0xFF07, 0x05).unwrap();
    timer.write(0xFF05, 0xFF).unwrap();
    timer.reset(&Config::default());
    assert_eq!(timer.read(0xFF05).unwrap(), 0);
    assert_eq!(timer.read(0xFF07).unwrap(), 0);
    let mut tac = Tac::new();
    assert_eq!(tac.read(), 0);
    tac.write(0xFE);
    assert!(tac.enable);
    assert_eq!(tac.frequency, 2);
    assert_eq!(tac.read(), 6);
    tac.reset();
    assert_eq!(tac.read(), 0);
    timer.clear();
    assert_eq!(timer.interrupts(), 0);
}

#[test]
fn joypad_shows_the_selected_group() {
    let mut joypad = Joypad::new();
    for key in [Key::Right, Key::Left, Key::Up, Key::Down, Key::A, Key::B, Key::Select, Key::Start]
    {
        joypad.up(key);
    }
    assert_eq!(joypad.interrupts(), 0);
    joypad.down(Key::A);
    joypad.down(Key::Left);
    assert_eq!(joypad.interrupts(), 0x10);
    // Bit 5 clear: the buttons. A is held, so its line is low.
    joypad.write(0xFF00, 0x10).unwrap();
    assert_eq!(joypad.read(0xFF00).unwrap(), 0x10 | 0x0E);
    // Bit 4 clear: the arrows. Left is held.
    joypad.write(0xFF00, 0x20).unwrap();
    assert_eq!(joypad.read(0xFF00).unwrap(), 0x20 | 0x0D);
    joypad.write(0xFF00, 0x30).unwrap();
    assert_eq!(joypad.read(0xFF00).unwrap(), 0x30);
    joypad.up(Key::Left);
    joypad.write(0xFF00, 0x20).unwrap();
    assert_eq!(joypad.read(0xFF00).unwrap(), 0x20 | 0x0F);
    joypad.clear();
    assert_eq!(joypad.interrupts(), 0);
    joypad.process(100);
    assert!(matches!(joypad.read(0xFF01), Err(GameboyError::BadAddress(0xFF01))));
    assert!(matches!(joypad.write(0xFF01, 0), Err(GameboyError::BadAddress(0xFF01))));
    assert_eq!(Key::Right.value(), 1);
    assert_eq!(Key::Down.value(), 8);
    assert_eq!(Key::Start.value(), 128);
}

#[test]
fn interrupts_by_priority() {
    assert_eq!(Interrupt::VerticalBlank.ordinal(), 0);
    assert_eq!(Interrupt::Joypad.ordinal(), 4);
    assert_eq!(Interrupt::LcdStat.value(), 2);
    assert_eq!(Interrupt::Timer.value(), 4);
    assert_eq!(Interrupt::Serial.value(), 8);
    assert_eq!(Interrupt::Timer.vector(), 0x0050);
    let mut iter = InterruptIter::new(0b1_0110);
    assert_eq!(iter.next(), Some(Interrupt::LcdStat));
    assert_eq!(iter.mask, 0b1_0100);
    assert_eq!(iter.next(), Some(Interrupt::Timer));
    assert_eq!(iter.next(), Some(Interrupt::Joypad));
    assert_eq!(iter.next(), None);
    let mut high = InterruptIter::new(0xE0);
    assert_eq!(high.next(), None);
    assert_eq!(high.mask, 0xE0);
    let mut bus = bus();
    bus.interrupt_flag = 0x1F;
    bus.interrupt_enable = 0x18;
    assert_eq!(bus.fetch_interrupt(), Some(Interrupt::Serial));
    assert_eq!(bus.interrupt_flag, 0x17);
    assert_eq!(bus.fetch_interrupt(), Some(Interrupt::Joypad));
    assert_eq!(bus.fetch_interrupt(), None);
    assert_eq!(bus.interrupt_flag, 0x07);
}

#[test]
fn cartridge_headers() {
    assert_eq!(Cartridge::num_rom_banks(&rom_with(0, 0x00, 0, 2)).unwrap(), 2);
    assert_eq!(Cartridge::num_rom_banks(&rom_with(0, 0x06, 0, 2)).unwrap(), 128);
    assert_eq!(Cartridge::num_rom_banks(&rom_with(0, 0x52, 0, 2)).unwrap(), 72);
    assert_eq!(Cartridge::num_rom_banks(&rom_with(0, 0x53, 0, 2)).unwrap(), 80);
    assert_eq!(Cartridge::num_rom_banks(&rom_with(0, 0x54, 0, 2)).unwrap(), 96);
    assert_eq!(Cartridge::rom_size(&rom_with(0, 0x01, 0, 2)).unwrap(), 4 * 0x4000);
    assert!(matches!(
        Cartridge::num_rom_banks(&rom_with(0, 0x07, 0, 2)),
        Err(GameboyError::Cartridge(_))
    ));
    for (code, size) in [(0_u8, 0_usize), (1, 0x800), (2, 0x2000), (3, 0x8000), (4, 0x20000)] {
        assert_eq!(Cartridge::ram_size(&rom_with(0, 0, code, 2)).unwrap(), size);
        let ram = Cartridge::make_ram(&rom_with(0, 0, code, 2)).unwrap();
        assert_eq!(ram.len(), size);
        assert!(ram.iter().all(|byte| *byte == 0));
    }
    assert!(matches!(Cartridge::ram_size(&rom_with(0, 0, 5, 2)), Err(GameboyError::Cartridge(_))));
    assert!(matches!(Cartridge::ram_size(&[0_u8; 0x149]), Err(GameboyError::Cartridge(_))));
    assert!(matches!(Cartridge::make_ram(&[]), Err(GameboyError::Cartridge(_))));
    for (code, cart_type) in [
        (0x00_u8, CartridgeType::RomOnly),
        (0x09, CartridgeType::RomOnly),
        (0x01, CartridgeType::MBC1(MemoryModel::MoreRom)),
        (0x06, CartridgeType::MBC2),
        (0x12, CartridgeType::MBC3),
        (0x1E, CartridgeType::MBC5),
    ] {
        let cartridge = Cartridge::new(rom_with(code, 0, 0, 2), Vec::new()).unwrap();
        assert_eq!(cartridge.cart_type(), cart_type);
    }
    assert!(matches!(
        Cartridge::new(rom_with(0x04, 0, 0, 2), Vec::new()),
        Err(GameboyError::Cartridge(_))
    ));
    // The sizes of the images must be those that the header declares.
    assert!(Cartridge::new(rom_with(0, 1, 0, 2), Vec::new()).is_err());
    assert!(Cartridge::new(rom_with(0, 0, 2, 2), Vec::new()).is_err());
    assert!(Cartridge::new(rom_with(0, 0, 2, 2), vec![0; 0x2000]).is_ok());
}

#[test]
fn plain_rom_is_written_in_place() {
    let mut cartridge = Cartridge::new(rom_with(0, 0, 0, 2), Vec::new()).unwrap();
    cartridge.write(0x1234, 0x56).unwrap();
    assert_eq!(cartridge.read(0x1234).unwrap(), 0x56);
    assert!(matches!(cartridge.read(0x8000), Err(GameboyError::BadAddress(0x8000))));
    assert!(matches!(cartridge.write(0xA000, 1), Err(GameboyError::BadAddress(0xA000))));
}

#[test]
fn rom_banks_are_switched() {
    for code in [0x01_u8, 0x13] {
        let mut rom = rom_with(code, 0x01, 0x00, 4);
        rom[0x4000] = 0x11;
        rom[0x8000] = 0x22;
        rom[0xC000 + 0x3FFF] = 0x33;
        let mut cartridge = Cartridge::new(rom, Vec::new()).unwrap();
        // Bank 1 stands in for bank 0.
        assert_eq!(cartridge.read(0x4000).unwrap(), 0x11);
        cartridge.write(0x2000, 2).unwrap();
        assert_eq!(cartridge.read(0x4000).unwrap(), 0x22);
        cartridge.write(0x3FFF, 3).unwrap();
        assert_eq!(cartridge.read(0x7FFF).unwrap(), 0x33);
        cartridge.write(0x2000, 0).unwrap();
        assert_eq!(cartridge.read(0x4000).unwrap(), 0x11);
        assert_eq!(cartridge.read(0x0147).unwrap(), code);
    }
    let mut cartridge = Cartridge::new(rom_with(0x13, 0x00, 0x00, 2), Vec::new()).unwrap();
    cartridge.write(0x2000, 5).unwrap();
    assert!(matches!(cartridge.read(0x4000), Err(GameboyError::Cartridge(_))));
    assert!(cartridge.set_rom_bank(0x2100, 1).is_ok());
    assert!(matches!(cartridge.set_rom_bank(0x4000, 1), Err(GameboyError::BadAddress(0x4000))));
    assert!(matches!(cartridge.read(0x8000), Err(GameboyError::BadAddress(0x8000))));
}

#[test]
fn ram_banks_are_switched() {
    let mut cartridge =
        Cartridge::new(rom_with(0x13, 0x00, 0x03, 2), vec![0; 0x8000]).unwrap();
    assert!(matches!(cartridge.read(0xA000), Err(GameboyError::Io(_))));
    cartridge.write(0x0000, 0x0A).unwrap();
    cartridge.write(0xA000, 0x10).unwrap();
    cartridge.write(0x4000, 3).unwrap();
    cartridge.write(0xBFFF, 0x13).unwrap();
    assert_eq!(cartridge.read(0xA000).unwrap(), 0);
    assert_eq!(cartridge.read(0xBFFF).unwrap(), 0x13);
    assert_eq!(cartridge.ram()[3 * 0x2000 + 0x1FFF], 0x13);
    cartridge.write(0x4000, 0).unwrap();
    assert_eq!(cartridge.read(0xA000).unwrap(), 0x10);
    cartridge.write(0x4000, 4).unwrap();
    assert!(matches!(cartridge.read(0xA000), Err(GameboyError::Cartridge(_))));
    assert!(matches!(cartridge.write(0xA000, 0), Err(GameboyError::Cartridge(_))));
    // Any value whose low nibble is not 0xA disables the RAM.
    cartridge.write(0x4000, 0).unwrap();
    cartridge.write(0x1FFF, 0x1A).unwrap();
    assert!(cartridge.read(0xA000).is_ok());
    cartridge.write(0x0000, 0x0B).unwrap();
    assert!(matches!(cartridge.write(0xA000, 0), Err(GameboyError::Io(_))));
    assert!(cartridge.set_ram_bank(1).is_ok());
}

#[test]
fn memory_model_of_the_first_controller() {
    let mut cartridge = Cartridge::new(rom_with(0x01, 0x00, 0x00, 2), Vec::new()).unwrap();
    cartridge.write(0x6000, 0x01).unwrap();
    assert_eq!(cartridge.cart_type(), CartridgeType::MBC1(MemoryModel::MoreRam));
    cartridge.write(0x7FFF, 0x02).unwrap();
    assert_eq!(cartridge.cart_type(), CartridgeType::MBC1(MemoryModel::MoreRom));
    // This controller has no clock: the value selects a RAM bank.
    cartridge.write(0x0000, 0x0A).unwrap();
    cartridge.write(0x4000, 0x08).unwrap();
    assert!(matches!(cartridge.read(0xA000), Err(GameboyError::Cartridge(_))));
}

#[test]
fn controllers_that_are_not_emulated() {
    for code in [0x05_u8, 0x19] {
        let mut cartridge = Cartridge::new(rom_with(code, 0x00, 0x00, 2), Vec::new()).unwrap();
        assert!(matches!(cartridge.read(0x0000), Err(GameboyError::NotImplemented)));
        assert!(matches!(cartridge.write(0x2000, 1), Err(GameboyError::NotImplemented)));
    }
}

#[test]
fn clock_is_latched_into_its_registers() {
    let mut rtc = Rtc::new();
    // One day, one hour, one minute and one second.
    for _ in 0..90061 {
        rtc.tick();
    }
    assert_eq!(rtc.seconds(), 0);
    rtc.latch(1);
    assert_eq!((rtc.seconds(), rtc.minutes(), rtc.hours(), rtc.days_low()), (1, 1, 1, 1));
    assert_eq!(rtc.flags(), 0);
    rtc.tick();
    // A one that follows a one latches nothing.
    rtc.latch(1);
    assert_eq!(rtc.seconds(), 1);
    rtc.latch(0);
    rtc.latch(1);
    assert_eq!(rtc.seconds(), 2);
    assert!(is_rtc_register(0x08) && is_rtc_register(0x0C));
    assert!(!is_rtc_register(0x07) && !is_rtc_register(0x0D));
    assert!(matches!(rtc.set_active_register(0x07), Err(GameboyError::BadValue(0x07))));
    rtc.set_active_register(0x0A).unwrap();
    assert_eq!(rtc.read(0xA000).unwrap(), 1);
    rtc.write(0xA000, 23).unwrap();
    assert_eq!(rtc.hours(), 23);
    // The halt bit stops the clock.
    rtc.set_active_register(0x0C).unwrap();
    rtc.write(0xBFFF, 0xFF).unwrap();
    assert_eq!(rtc.flags(), 0xC1);
    rtc.tick();
    rtc.latch(0);
    rtc.latch(1);
    assert_eq!(rtc.seconds(), 2);
    assert_eq!(rtc.flags() & 0xC0, 0xC0);
    assert!(matches!(rtc.read(0x9FFF), Err(GameboyError::BadAddress(0x9FFF))));
}

#[test]
fn clock_through_the_cartridge() {
    let mut cartridge = Cartridge::new(rom_with(0x13, 0x00, 0x02, 2), vec![0; 0x2000]).unwrap();
    cartridge.write(0x0000, 0x0A).unwrap();
    cartridge.write(0x4000, 0x08).unwrap();
    cartridge.write(0xA000, 42).unwrap();
    assert_eq!(cartridge.read(0xA123).unwrap(), 42);
    cartridge.write(0x6000, 0).unwrap();
    cartridge.write(0x6000, 1).unwrap();
    assert_eq!(cartridge.read(0xA000).unwrap(), 0);
    cartridge.write(0x4000, 0x00).unwrap();
    assert_eq!(cartridge.read(0xA000).unwrap(), 0);
    assert_eq!(cartridge.ram()[0], 0);
}

#[test]
fn palette_and_shades() {
    assert_eq!(palette(0), 0x081820);
    assert_eq!(palette(1), 0x346856);
    assert_eq!(palette(2), 0x88c070);
    assert_eq!(palette(3), 0xe0f8d0);
    assert_eq!(get_color(0xE4, 0), 3);
    assert_eq!(get_color(0xE4, 1), 2);
    assert_eq!(get_color(0xE4, 2), 1);
    assert_eq!(get_color(0xE4, 3), 0);
    assert_eq!(get_color(0xFC, 0), 3);
    assert_eq!(get_color(0xFC, 1), 0);
    assert!(pixel_bit(0x80, 0) && !pixel_bit(0x80, 1) && pixel_bit(0x01, 7));
    assert_eq!(color_index(0x80, 0x00, 0), 1);
    assert_eq!(color_index(0x00, 0x80, 0), 2);
    assert_eq!(color_index(0x40, 0x40, 1), 3);
    assert_eq!(color_index(0x40, 0x40, 0), 0);
}

#[test]
fn display_registers() {
    let mut lcdc = Lcdc::new();
    assert_eq!(lcdc.read(), 0);
    lcdc.reset();
    assert_eq!(lcdc.read(), 0x91);
    assert!(lcdc.power() && lcdc.tileset() && lcdc.bg_enable());
    assert!(!lcdc.window_tilemap() && !lcdc.window_enable() && !lcdc.bg_tilemap());
    assert!(!lcdc.sprite_size() && !lcdc.sprites_enable());
    lcdc.write(0x6E);
    assert!(lcdc.window_tilemap() && lcdc.window_enable() && lcdc.bg_tilemap());
    assert!(lcdc.sprite_size() && lcdc.sprites_enable() && !lcdc.power());
    let mut stat = Stat::new();
    assert_eq!(stat.read(), 0x80);
    stat.write(0xFF);
    assert_eq!(stat.read(), 0xF8);
    assert!(stat.lyc_check_enable() && stat.oam_check_enable());
    assert!(stat.vblank_check_enable() && stat.hblank_check_enable());
    stat.set_lyc_signal(true);
    stat.set_mode(PpuMode::RenderLine);
    assert_eq!(stat.read(), 0xFF);
    stat.set_lyc_signal(false);
    stat.set_mode(PpuMode::Vblank);
    assert_eq!(stat.read(), 0xF9);
    stat.reset();
    assert_eq!(stat.read(), 0x81);
    assert_eq!(PpuMode::SearchOam.duration(), 80);
    assert_eq!(PpuMode::RenderLine.duration(), 172);
    assert_eq!(PpuMode::Hblank.duration(), 204);
    assert_eq!(PpuMode::Vblank.duration(), 456);
}

#[test]
fn sprite_attributes() {
    let sprite = SpriteData::new(&[16, 8, 0x03, 0xF0], true);
    assert_eq!((sprite.x, sprite.y, sprite.tile_id), (0, 0, 0x02));
    assert!(sprite.palette_select() && sprite.flip_x());
    assert!(sprite.flip_y() && sprite.sprite_behind());
    let sprite = SpriteData::new(&[0, 1, 0x03, 0x00], false);
    assert_eq!((sprite.x, sprite.y, sprite.tile_id), (249, 240, 0x03));
    assert_eq!((sprite.left(), sprite.top()), (-7, -16));
    assert!(!sprite.palette_select() && !sprite.flip_x());
    assert!(!sprite.flip_y() && !sprite.sprite_behind());
}

/// Reads the mode and the scanline of the display controller.
fn timing(ppu: &Ppu) -> (u8, u8) {
    (ppu.read(0xFF41).unwrap() & 3, ppu.read(0xFF44).unwrap())
}

#[test]
fn display_period() {
    let mut ppu = Ppu::new();
    let mut first = Vec::new();
    for _ in 0..(70224 / 4) {
        first.push(timing(&ppu));
        ppu.process(4);
    }
    assert_eq!(timing(&ppu), (2, 0));
    for (index, before) in first.iter().enumerate() {
        assert_eq!(timing(&ppu), *before, "at cycle {}", index * 4);
        ppu.process(4);
    }
    // The scanline takes each value from 0 to 153, once and in order.
    let mut lines: Vec<u8> = first.iter().map(|(_, line)| *line).collect();
    lines.dedup();
    assert_eq!(lines, (0..=153).collect::<Vec<u8>>());
    // Each visible line goes through its three modes; the last ten lines are blank.
    assert_eq!(first[0], (2, 0));
    assert_eq!(first[19], (2, 0));
    assert_eq!(first[20], (3, 0));
    assert_eq!(first[62], (3, 0));
    assert_eq!(first[63], (0, 0));
    assert_eq!(first[113], (0, 0));
    assert_eq!(first[114], (2, 1));
    assert_eq!(first[144 * 114 - 1], (0, 143));
    assert_eq!(first[144 * 114], (1, 144));
    assert_eq!(first[154 * 114 - 1], (1, 153));
}

#[test]
fn display_period_does_not_depend_on_the_ticks() {
    let mut by_four = Ppu::new();
    let mut at_once = Ppu::new();
    let mut uneven = Ppu::new();
    for _ in 0..(70224 / 4 + 1000) {
        by_four.process(4);
    }
    at_once.process(70224 + 4000);
    let mut left = 70224 + 4000;
    let mut tick = 1;
    while left > 0 {
        let cycles = if tick < left { tick } else { left };
        uneven.process(cycles);
        left -= cycles;
        tick = tick * 3 % 1000 + 1;
    }
    assert_eq!(timing(&by_four), timing(&at_once));
    assert_eq!(timing(&by_four), timing(&uneven));
}

#[test]
fn display_that_is_off_stands_still() {
    let mut ppu = Ppu::new();
    ppu.process(500);
    let before = timing(&ppu);
    ppu.write(0xFF40, 0x11).unwrap();
    ppu.process(100_000);
    assert_eq!(timing(&ppu), before);
}

#[test]
fn display_interrupts() {
    let mut ppu = Ppu::new();
    ppu.process(144 * 456 - 1);
    assert_eq!(ppu.interrupts(), 0);
    ppu.process(1);
    assert_eq!(ppu.interrupts(), 0x01);
    ppu.clear();
    assert_eq!(ppu.interrupts(), 0);
    // Ask for the status interrupt at the line of the compare register.
    ppu.write(0xFF41, 0x40).unwrap();
    ppu.write(0xFF45, 2).unwrap();
    ppu.process(10 * 456 + 2 * 456 - 1);
    assert_eq!(ppu.interrupts(), 0);
    assert_eq!(ppu.read(0xFF41).unwrap() & 4, 0);
    ppu.process(1);
    assert_eq!(ppu.interrupts(), 0x02);
    assert_eq!(ppu.read(0xFF41).unwrap() & 4, 4);
    ppu.clear();
    // Ask for the status interrupt at each horizontal blanking.
    ppu.write(0xFF41, 0x08).unwrap();
    ppu.process(80 + 172 - 1);
    assert_eq!(ppu.interrupts(), 0);
    ppu.process(1);
    assert_eq!(ppu.interrupts(), 0x02);
}

#[test]
fn object_attribute_memory_is_written_by_bytes() {
    let mut ppu = Ppu::new();
    ppu.set_oam(0x9F, 0x77);
    ppu.write(0xFE00, 0x11).unwrap();
    assert_eq!(ppu.oam().len(), 0xA0);
    assert_eq!(ppu.oam()[0], 0x11);
    assert_eq!(ppu.oam()[0x9F], 0x77);
    assert_eq!(ppu.read(0xFE9F).unwrap(), 0x77);
    assert!(matches!(ppu.read(0xFEA0), Err(GameboyError::BadAddress(0xFEA0))));
    ppu.reset();
    assert_eq!(ppu.oam()[0], 0x11);
    assert_eq!(ppu.read(0xFF40).unwrap(), 0x91);
    assert_eq!(ppu.read(0xFF47).unwrap(), 0xFC);
}
