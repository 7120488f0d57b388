use stm32_flash::device::{Control, ERASED, WORD_WIDTH};
use stm32_flash::peripheral::Peripheral;
use stm32_flash::protocol::{Command, KEY1, KEY2};
use stm32_flash::status::{ALIGNMENT, BUSY, PARALLELISM, SEQUENCE, WRITE_PROTECT};

fn open_peripheral(latency: u32) -> Peripheral {
    let mut peripheral = Peripheral::new(latency);
    peripheral.perform(Command::WriteKey(KEY1));
    peripheral.perform(Command::WriteKey(KEY2));
    peripheral.perform(Command::SelectWordWidth);
    peripheral
}

fn status(peripheral: &mut Peripheral) -> u32 {
    peripheral.perform(Command::ReadStatus).unwrap()
}

fn store(peripheral: &mut Peripheral, address: usize, value: u32) {
    peripheral.perform(Command::StoreWord { address, value });
}

#[test]
fn fresh_peripheral_is_locked_idle_and_erased() {
    let mut peripheral = Peripheral::new(3);
    assert!(!peripheral.is_open());
    assert_eq!(
        peripheral.control(),
        Control { program: false, sector_erase: false, sector: 0, start: false, width: 0 }
    );
    assert_eq!(status(&mut peripheral), 0);
    assert_eq!(ERASED, 0xFF);
    assert_eq!(peripheral.load(0x0800_0000), 0xFF);
    assert_eq!(peripheral.load(0x0808_1234), 0xFF);
    assert_eq!(peripheral.load(0x080F_FFFF), 0xFF);
}

#[test]
fn both_keys_in_order_open_the_controller() {
    let mut peripheral = Peripheral::new(0);
    assert_eq!(peripheral.perform(Command::WriteKey(KEY1)), None);
    assert!(!peripheral.is_open());
    assert_eq!(peripheral.perform(Command::WriteKey(KEY2)), None);
    assert!(peripheral.is_open());
    peripheral.perform(Command::WriteKey(0));
    assert!(peripheral.is_open());
}

#[test]
fn wrong_key_shuts_the_controller() {
    let mut peripheral = Peripheral::new(0);
    peripheral.perform(Command::WriteKey(KEY2));
    peripheral.perform(Command::WriteKey(KEY1));
    peripheral.perform(Command::WriteKey(KEY2));
    assert!(!peripheral.is_open());

    let mut peripheral = Peripheral::new(0);
    peripheral.perform(Command::WriteKey(KEY1));
    peripheral.perform(Command::WriteKey(KEY1));
    peripheral.perform(Command::WriteKey(KEY2));
    assert!(!peripheral.is_open());
}

#[test]
fn locked_control_register_takes_no_write() {
    let mut peripheral = Peripheral::new(0);
    let before = peripheral.control();
    peripheral.perform(Command::SelectWordWidth);
    peripheral.perform(Command::SelectSector(3));
    peripheral.perform(Command::EnableProgramming);
    peripheral.perform(Command::Start);
    assert_eq!(peripheral.control(), before);
    assert_eq!(status(&mut peripheral), 0);
}

#[test]
fn open_control_register_takes_each_write() {
    let mut peripheral = open_peripheral(0);
    assert_eq!(WORD_WIDTH, 2);
    assert_eq!(peripheral.control().width, 2);
    peripheral.perform(Command::SelectSector(9));
    assert!(peripheral.control().sector_erase);
    assert_eq!(peripheral.control().sector, 9);
    peripheral.perform(Command::SelectSector(0x1B));
    assert_eq!(peripheral.control().sector, 0x0B);
    peripheral.perform(Command::EnableProgramming);
    assert!(peripheral.control().program);
    peripheral.perform(Command::DisableProgramming);
    assert!(!peripheral.control().program);
    peripheral.perform(Command::Start);
    assert!(peripheral.control().start);
    peripheral.perform(Command::ClearStart);
    assert!(!peripheral.control().start);
}

#[test]
fn store_ands_the_word_into_the_array() {
    let mut peripheral = open_peripheral(0);
    peripheral.perform(Command::EnableProgramming);
    store(&mut peripheral, 0x0800_0010, 0x1234_5678);
    assert_eq!(status(&mut peripheral), 0);
    assert_eq!(peripheral.load(0x0800_000F), 0xFF);
    assert_eq!(peripheral.load(0x0800_0010), 0x78);
    assert_eq!(peripheral.load(0x0800_0011), 0x56);
    assert_eq!(peripheral.load(0x0800_0012), 0x34);
    assert_eq!(peripheral.load(0x0800_0013), 0x12);
    assert_eq!(peripheral.load(0x0800_0014), 0xFF);
    store(&mut peripheral, 0x0800_0010, 0xFF00_0FF0);
    assert_eq!(peripheral.load(0x0800_0010), 0x70);
    assert_eq!(peripheral.load(0x0800_0011), 0x06);
    assert_eq!(peripheral.load(0x0800_0012), 0x00);
    assert_eq!(peripheral.load(0x0800_0013), 0x12);
}

#[test]
fn store_without_programming_enabled_is_out_of_sequence() {
    let mut peripheral = open_peripheral(0);
    store(&mut peripheral, 0x0800_0000, 0);
    assert_eq!(status(&mut peripheral), SEQUENCE);
    assert_eq!(peripheral.load(0x0800_0000), 0xFF);
}

#[test]
fn store_with_another_width_is_a_parallelism_fault() {
    let mut peripheral = Peripheral::new(0);
    peripheral.perform(Command::WriteKey(KEY1));
    peripheral.perform(Command::WriteKey(KEY2));
    peripheral.perform(Command::EnableProgramming);
    store(&mut peripheral, 0x0800_0000, 0);
    assert_eq!(status(&mut peripheral), PARALLELISM);
    assert_eq!(peripheral.load(0x0800_0000), 0xFF);
}

#[test]
fn misaligned_store_is_an_alignment_fault() {
    let mut peripheral = open_peripheral(0);
    peripheral.perform(Command::EnableProgramming);
    for address in [0x0800_0001, 0x0800_0002, 0x0800_0003] {
        store(&mut peripheral, address, 0);
        assert_eq!(status(&mut peripheral), ALIGNMENT);
        peripheral.perform(Command::ClearStatus);
        assert_eq!(status(&mut peripheral), 0);
    }
    for address in 0x0800_0000..0x0800_0008 {
        assert_eq!(peripheral.load(address), 0xFF);
    }
}

#[test]
fn store_to_a_protected_sector_is_refused() {
    let mut peripheral = open_peripheral(0);
    peripheral.protect(4);
    peripheral.perform(Command::EnableProgramming);
    store(&mut peripheral, 0x0801_0000, 0);
    assert_eq!(status(&mut peripheral), WRITE_PROTECT);
    assert_eq!(peripheral.load(0x0801_0000), 0xFF);
    store(&mut peripheral, 0x0800_FFFC, 0);
    assert_eq!(peripheral.load(0x0800_FFFC), 0x00);
    store(&mut peripheral, 0x0802_0000, 0);
    assert_eq!(peripheral.load(0x0802_0000), 0x00);
}

#[test]
fn store_outside_the_array_is_not_seen() {
    let mut peripheral = open_peripheral(5);
    store(&mut peripheral, 0x0810_0000, 0);
    store(&mut peripheral, 0x07FF_FFFC, 0);
    store(&mut peripheral, 0x080F_FFFD, 0);
    store(&mut peripheral, 0, 0);
    store(&mut peripheral, usize::MAX, 0);
    assert_eq!(status(&mut peripheral), 0);
    assert_eq!(peripheral.load(0x080F_FFFF), 0xFF);
}

#[test]
fn erase_sets_the_whole_sector_and_nothing_else() {
    let mut peripheral = open_peripheral(0);
    peripheral.perform(Command::EnableProgramming);
    for address in [0x0800_3FFC, 0x0800_4000, 0x0800_5000, 0x0800_7FFC, 0x0800_8000] {
        store(&mut peripheral, address, 0);
    }
    peripheral.perform(Command::SelectSector(1));
    peripheral.perform(Command::Start);
    assert_eq!(status(&mut peripheral), 0);
    for address in 0x0800_4000..0x0800_8000 {
        assert_eq!(peripheral.load(address), 0xFF);
    }
    for address in [0x0800_3FFC, 0x0800_3FFF, 0x0800_8000, 0x0800_8003] {
        assert_eq!(peripheral.load(address), 0x00);
    }
}

#[test]
fn erase_of_a_protected_sector_is_refused() {
    let mut peripheral = open_peripheral(0);
    peripheral.perform(Command::EnableProgramming);
    store(&mut peripheral, 0x0804_0000, 0);
    peripheral.protect(6);
    peripheral.perform(Command::SelectSector(6));
    peripheral.perform(Command::Start);
    assert_eq!(status(&mut peripheral), WRITE_PROTECT);
    assert_eq!(peripheral.load(0x0804_0000), 0x00);
}

#[test]
fn start_without_a_sector_of_the_map_erases_nothing() {
    let mut peripheral = open_peripheral(4);
    peripheral.perform(Command::EnableProgramming);
    store(&mut peripheral, 0x0800_0000, 0);
    while status(&mut peripheral) & BUSY != 0 {}
    peripheral.perform(Command::Start);
    assert_eq!(status(&mut peripheral), 0);
    peripheral.perform(Command::SelectSector(12));
    peripheral.perform(Command::Start);
    assert_eq!(status(&mut peripheral), 0);
    assert_eq!(peripheral.load(0x0800_0000), 0x00);
}

#[test]
fn busy_flag_shows_for_as_many_reads_as_the_latency() {
    let mut peripheral = open_peripheral(3);
    assert_eq!(status(&mut peripheral), 0);
    peripheral.perform(Command::SelectSector(0));
    peripheral.perform(Command::Start);
    assert_eq!(status(&mut peripheral), BUSY);
    assert_eq!(status(&mut peripheral), BUSY);
    assert_eq!(status(&mut peripheral), BUSY);
    assert_eq!(status(&mut peripheral), 0);
    assert_eq!(status(&mut peripheral), 0);
    peripheral.perform(Command::EnableProgramming);
    store(&mut peripheral, 0x0800_0001, 0);
    assert_eq!(status(&mut peripheral), BUSY | ALIGNMENT);
    assert_eq!(status(&mut peripheral), BUSY | ALIGNMENT);
    assert_eq!(status(&mut peripheral), BUSY | ALIGNMENT);
    assert_eq!(status(&mut peripheral), ALIGNMENT);
}

#[test]
fn flags_stay_until_they_are_cleared() {
    let mut peripheral = open_peripheral(0);
    store(&mut peripheral, 0x0800_0000, 0);
    peripheral.protect(0);
    peripheral.perform(Command::SelectSector(0));
    peripheral.perform(Command::Start);
    assert_eq!(status(&mut peripheral), SEQUENCE | WRITE_PROTECT);
    assert_eq!(status(&mut peripheral), SEQUENCE | WRITE_PROTECT);
    peripheral.perform(Command::ClearWriteProtect);
    assert_eq!(status(&mut peripheral), 0);

    store(&mut peripheral, 0x0800_0000, 0);
    assert_eq!(status(&mut peripheral), SEQUENCE);
    peripheral.perform(Command::ClearStatus);
    assert_eq!(status(&mut peripheral), 0);
}

#[test]
fn only_a_status_read_is_answered() {
    let mut peripheral = open_peripheral(0);
    assert_eq!(peripheral.perform(Command::ReadStatus), Some(0));
    assert_eq!(peripheral.perform(Command::SelectWordWidth), None);
    assert_eq!(peripheral.perform(Command::SelectSector(0)), None);
    assert_eq!(peripheral.perform(Command::Start), None);
    assert_eq!(peripheral.perform(Command::ClearStart), None);
    assert_eq!(peripheral.perform(Command::ClearWriteProtect), None);
    assert_eq!(peripheral.perform(Command::EnableProgramming), None);
    assert_eq!(peripheral.perform(Command::StoreWord { address: 0x0800_0000, value: 0 }), None);
    assert_eq!(peripheral.perform(Command::ClearStatus), None);
    assert_eq!(peripheral.perform(Command::DisableProgramming), None);
}
