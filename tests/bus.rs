use cpu::bus::{Bus, Device, Hook, LoadError, NoDevice};

/// Answers 0x42 at 0x1234 and 0 elsewhere; remembers the last write it took.
#[derive(Clone)]
struct Responder {
    last_write: Option<(u16, u8)>,
}

impl Device for Responder {
    fn read_spec(&self, address: u16) -> u8 {
        self.read(address)
    }

    fn after_write(&self, address: u16, value: u8) -> Self {
        let mut next = self.clone();
        next.write(address, value);
        next
    }

    fn read(&self, address: u16) -> u8 {
        if address == 0x1234 {
            0x42
        } else {
            0x00
        }
    }

    fn write(&mut self, address: u16, value: u8) {
        self.last_write = Some((address, value));
    }
}

fn responder_bus() -> Bus<Responder> {
    Bus::new(Responder { last_write: None })
}

#[test]
fn test_load_rom_at() {
    let mut bus = Bus::new(NoDevice);
    let rom = [0x01, 0x02, 0x03];
    assert_eq!(bus.load_rom_at(&rom, 0x8000), Ok(()));
    assert_eq!(bus.read_byte(0x8000), 0x01);
    assert_eq!(bus.read_byte(0x8001), 0x02);
    assert_eq!(bus.read_byte(0x8002), 0x03);
}

#[test]
fn test_add_hook() {
    let mut bus = responder_bus();
    bus.add_hook(0x1234, Hook { read: true, write: false });
    assert_eq!(bus.read_byte(0x1234), 0x42);

    bus.add_hook(0x1234, Hook { read: true, write: false });
    assert_eq!(bus.read_byte(0x1234), 0x42);
}

#[test]
fn test_read_write() {
    let mut bus = Bus::new(NoDevice);
    bus.write_byte(0x1234, 0x42);
    assert_eq!(bus.read_byte(0x1234), 0x42);
}

#[test]
fn load_rom_past_the_end_fails_and_changes_nothing() {
    let mut bus = Bus::new(NoDevice);
    let rom = [0xAA, 0xBB, 0xCC];
    assert_eq!(bus.load_rom_at(&rom, 0xFFFE), Err(LoadError::OutOfRange));
    assert_eq!(bus.read_byte(0xFFFE), 0x00);
    assert_eq!(bus.read_byte(0xFFFF), 0x00);
    assert_eq!(bus.read_byte(0x0000), 0x00);
}

#[test]
fn load_rom_up_to_the_last_address() {
    let mut bus = Bus::new(NoDevice);
    let rom = [0xAA, 0xBB];
    assert_eq!(bus.load_rom_at(&rom, 0xFFFE), Ok(()));
    assert_eq!(bus.read_byte(0xFFFF), 0xBB);
    assert_eq!(bus.load_rom_at(&[], 0xFFFF), Ok(()));
}

#[test]
fn read_hook_ignores_memory() {
    let mut bus = responder_bus();
    bus.write_byte(0x1234, 0x99);
    assert_eq!(bus.read_byte(0x1234), 0x99);
    bus.add_hook(0x1234, Hook { read: true, write: false });
    assert_eq!(bus.read_byte(0x1234), 0x42);
    bus.write_byte(0x1234, 0x77);
    assert_eq!(bus.read_byte(0x1234), 0x42);
    assert_eq!(bus.ram[0x1234], 0x77);
}

#[test]
fn hooked_write_updates_memory_and_fires() {
    let mut bus = responder_bus();
    bus.add_hook(0x6000, Hook { read: false, write: true });
    bus.write_byte(0x6000, 0x5A);
    assert_eq!(bus.ram[0x6000], 0x5A);
    assert_eq!(bus.read_byte(0x6000), 0x5A);
    assert_eq!(bus.device.last_write, Some((0x6000, 0x5A)));
}

#[test]
fn hooked_write_reaches_device_once_per_write() {
    let mut bus = responder_bus();
    bus.add_hook(0x6000, Hook { read: false, write: true });
    bus.write_byte(0x6000, 0x01);
    bus.write_byte(0x6000, 0x02);
    assert_eq!(bus.device.last_write, Some((0x6000, 0x02)));
    assert_eq!(bus.ram[0x6000], 0x02);
}

#[test]
fn unhooked_write_does_not_reach_device() {
    let mut bus = responder_bus();
    bus.write_byte(0x6001, 0x11);
    assert_eq!(bus.device.last_write, None);
}

#[test]
fn hook_range_is_inclusive() {
    let mut bus = responder_bus();
    bus.add_hook_range(0x6000, 0x6002, Hook { read: false, write: true });
    assert_eq!(bus.hooks[0x5FFF], None);
    assert_eq!(bus.hooks[0x6000], Some(Hook { read: false, write: true }));
    assert_eq!(bus.hooks[0x6002], Some(Hook { read: false, write: true }));
    assert_eq!(bus.hooks[0x6003], None);
    bus.write_byte(0x6002, 0x01);
    assert_eq!(bus.device.last_write, Some((0x6002, 0x01)));
}

#[test]
fn hook_range_to_the_last_address() {
    let mut bus = responder_bus();
    bus.add_hook_range(0xFFFE, 0xFFFF, Hook { read: true, write: true });
    assert_eq!(bus.hooks[0xFFFF], Some(Hook { read: true, write: true }));
    bus.add_hook_range(0x0010, 0x000F, Hook { read: true, write: true });
    assert_eq!(bus.hooks[0x000F], None);
    assert_eq!(bus.hooks[0x0010], None);
}
