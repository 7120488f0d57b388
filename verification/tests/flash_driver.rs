use stm32_flash::peripheral::Peripheral;
use stm32_flash::protocol::{Command, KEY1};
use stm32_flash::sector::descriptor;
use stm32_flash::status::{ALIGNMENT, PARALLELISM, SEQUENCE, WRITE_PROTECT};
use stm32_flash::Flash;

fn flash_on(sector: u8, latency: u32) -> Flash {
    Flash::new(Peripheral::new(latency), sector)
}

fn status(flash: &mut Flash) -> u32 {
    flash.flash.perform(Command::ReadStatus).unwrap()
}

fn pattern(length: usize) -> Vec<u8> {
    (0..length).map(|i| (i * 37 + 11) as u8).collect()
}

#[test]
fn new_opens_a_peripheral_that_comes_out_of_reset() {
    let flash = flash_on(11, 0);
    assert_eq!(flash.sector, 11);
    assert!(flash.flash.is_open());
    let control = flash.flash.control();
    assert_eq!(control.width, 2);
    assert!(!control.program);
    assert!(!control.sector_erase);
    assert!(!control.start);
}

#[test]
fn new_does_not_report_a_controller_that_stays_shut() {
    let mut peripheral = Peripheral::new(0);
    peripheral.perform(Command::WriteKey(KEY1));
    let mut flash = Flash::new(peripheral, 2);
    assert!(!flash.flash.is_open());
    assert_eq!(flash.flash.control().width, 0);
    assert_eq!(flash.erase(), Ok(()));
    assert_eq!(flash.write(0, &[0, 0, 0, 0]), Err(SEQUENCE as u16));
    assert_eq!(flash.read(0, 4), vec![0xFF; 4]);
    assert_eq!(status(&mut flash), 0);
}

#[test]
fn scenario_on_sector_eleven() {
    let mut flash = flash_on(11, 2);
    assert_eq!(flash.erase(), Ok(()));
    assert_eq!(flash.write(0, &0x0000_0001u32.to_le_bytes()), Ok(()));
    assert_eq!(flash.read(0, 4), 0x0000_0001u32.to_le_bytes().to_vec());
    assert_eq!(flash.write(0, &0x0000_0002u32.to_le_bytes()), Ok(()));
    assert_eq!(flash.read(0, 4), 0x0000_0000u32.to_le_bytes().to_vec());
}

#[test]
fn round_trip_of_four_eight_and_sixteen_bytes() {
    for sector in [0u8, 4, 11] {
        let size = descriptor(sector).size;
        for length in [4usize, 8, 16] {
            for offset in [0, 0x100, size - length - 4] {
                let mut flash = flash_on(sector, 1);
                let data = pattern(length);
                assert_eq!(flash.erase(), Ok(()));
                assert_eq!(flash.write(offset, &data), Ok(()));
                assert_eq!(flash.read(offset, length), data);
            }
        }
    }
}

#[test]
fn round_trip_after_the_sector_was_used() {
    let mut flash = flash_on(3, 0);
    assert_eq!(flash.write(0x20, &[0u8; 16]), Ok(()));
    assert_eq!(flash.read(0x20, 16), vec![0u8; 16]);
    assert_eq!(flash.erase(), Ok(()));
    let data = pattern(16);
    assert_eq!(flash.write(0x20, &data), Ok(()));
    assert_eq!(flash.read(0x20, 16), data);
}

#[test]
fn write_puts_the_bytes_at_their_addresses() {
    let mut flash = flash_on(5, 0);
    assert_eq!(flash.write(8, &[1, 2, 3, 4, 5, 6, 7, 8]), Ok(()));
    assert_eq!(flash.flash.load(0x0802_0007), 0xFF);
    for i in 0..8 {
        assert_eq!(flash.flash.load(0x0802_0008 + i), i as u8 + 1);
    }
    assert_eq!(flash.flash.load(0x0802_0010), 0xFF);
    assert_eq!(flash.read(6, 12), vec![0xFF, 0xFF, 1, 2, 3, 4, 5, 6, 7, 8, 0xFF, 0xFF]);
}

#[test]
fn erase_leaves_every_byte_of_the_sector_erased() {
    let mut flash = flash_on(1, 3);
    let size = descriptor(1).size;
    assert_eq!(flash.write(0, &vec![0x5A; 256]), Ok(()));
    assert_eq!(flash.write(size - 8, &[0, 0, 0, 0]), Ok(()));
    assert_eq!(flash.erase(), Ok(()));
    for address in 0x0800_4000..0x0800_8000 {
        assert_eq!(flash.flash.load(address), 0xFF);
    }
    assert_eq!(flash.read(0, size - 1), vec![0xFF; size - 1]);
}

#[test]
fn erase_leaves_other_sectors_alone() {
    let mut peripheral = Peripheral::new(0);
    let mut setup = Flash::new(peripheral, 0);
    assert_eq!(setup.write(0x3FF8, &[0, 0, 0, 0]), Ok(()));
    peripheral = setup.flash;
    let mut setup = Flash::new(peripheral, 2);
    assert_eq!(setup.write(0, &[0, 0, 0, 0]), Ok(()));
    peripheral = setup.flash;
    let mut flash = Flash::new(peripheral, 1);
    assert_eq!(flash.write(0, &[0, 0, 0, 0]), Ok(()));
    assert_eq!(flash.erase(), Ok(()));
    assert_eq!(flash.read(0, 4), vec![0xFF; 4]);
    assert_eq!(flash.flash.load(0x0800_3FF8), 0x00);
    assert_eq!(flash.flash.load(0x0800_8000), 0x00);
}

#[test]
fn erase_of_an_erased_sector_succeeds_and_changes_nothing() {
    let mut flash = flash_on(0, 2);
    assert_eq!(flash.erase(), Ok(()));
    assert_eq!(flash.erase(), Ok(()));
    assert_eq!(flash.erase(), Ok(()));
    for address in 0x0800_0000..0x0800_4000 {
        assert_eq!(flash.flash.load(address), 0xFF);
    }
    assert_eq!(status(&mut flash), 0);
}

#[test]
fn erase_leaves_the_sector_selected_and_the_start_bit_cleared() {
    let mut flash = flash_on(7, 1);
    assert_eq!(flash.erase(), Ok(()));
    let control = flash.flash.control();
    assert!(control.sector_erase);
    assert_eq!(control.sector, 7);
    assert!(!control.start);
    assert!(!control.program);
}

#[test]
fn write_can_clear_bits_but_never_set_them() {
    let mut flash = flash_on(2, 0);
    let first = [0xF0, 0x0F, 0xAA, 0x55, 0x00, 0xFF, 0x3C, 0x81];
    let second = [0x3C, 0x3C, 0x55, 0x55, 0xFF, 0x0F, 0xFF, 0x7E];
    assert_eq!(flash.write(0x40, &first), Ok(()));
    assert_eq!(flash.write(0x40, &second), Ok(()));
    let back = flash.read(0x40, 8);
    assert_eq!(back, vec![0x30, 0x0C, 0x00, 0x55, 0x00, 0x0F, 0x3C, 0x00]);
    for i in 0..8 {
        assert_eq!(back[i] & !first[i], 0);
        assert_eq!(back[i], first[i] & second[i]);
    }
}

#[test]
fn erase_of_a_protected_sector_reports_write_protection() {
    let mut peripheral = Peripheral::new(2);
    peripheral.protect(6);
    let mut flash = Flash::new(peripheral, 6);
    let result = flash.erase();
    assert_eq!(result, Err(WRITE_PROTECT as u16));
    assert_ne!(result.unwrap_err() & 0x0010, 0);
    assert_eq!(status(&mut flash), 0);
    assert!(!flash.flash.control().start);
}

#[test]
fn erase_of_a_protected_sector_keeps_its_bytes() {
    let mut flash = flash_on(6, 0);
    assert_eq!(flash.write(0, &[1, 2, 3, 4]), Ok(()));
    flash.flash.protect(6);
    assert_eq!(flash.erase(), Err(0x0010));
    assert_eq!(flash.read(0, 4), vec![1, 2, 3, 4]);
}

#[test]
fn write_to_a_protected_sector_reports_write_protection() {
    let mut peripheral = Peripheral::new(1);
    peripheral.protect(9);
    let mut flash = Flash::new(peripheral, 9);
    let result = flash.write(0, &[0; 8]);
    assert_eq!(result, Err(WRITE_PROTECT as u16));
    assert_eq!(flash.read(0, 8), vec![0xFF; 8]);
    assert_eq!(status(&mut flash), 0);
    assert!(flash.flash.control().program);
}

#[test]
fn protection_of_another_sector_does_not_matter() {
    let mut peripheral = Peripheral::new(0);
    peripheral.protect(8);
    peripheral.protect(10);
    let mut flash = Flash::new(peripheral, 9);
    assert_eq!(flash.erase(), Ok(()));
    assert_eq!(flash.write(0, &[9, 9, 9, 9]), Ok(()));
    assert_eq!(flash.read(0, 4), vec![9, 9, 9, 9]);
}

#[test]
fn write_at_an_odd_offset_reports_an_alignment_fault() {
    for offset in [1usize, 2, 3, 0x101] {
        let mut flash = flash_on(0, 1);
        assert_eq!(flash.write(offset, &[0; 8]), Err(ALIGNMENT as u16));
        assert_eq!(flash.read(0, 16), vec![0xFF; 16]);
        assert_eq!(status(&mut flash), 0);
    }
}

#[test]
fn write_with_another_width_reports_a_parallelism_fault() {
    let mut peripheral = Peripheral::new(0);
    peripheral.perform(Command::WriteKey(0x4567_0123));
    peripheral.perform(Command::WriteKey(0xCDEF_89AB));
    let mut flash = Flash { flash: peripheral, sector: 0 };
    assert_eq!(flash.write(0, &[0; 4]), Err(PARALLELISM as u16));
    assert_eq!(flash.read(0, 4), vec![0xFF; 4]);
}

#[test]
fn write_reports_a_flag_that_was_left_set() {
    let mut flash = flash_on(0, 0);
    flash.flash.perform(Command::StoreWord { address: 0x0800_0000, value: 0 });
    assert_eq!(flash.write(0x10, &[1, 2, 3, 4, 5, 6, 7, 8]), Err(SEQUENCE as u16));
    assert_eq!(flash.read(0x10, 8), vec![1, 2, 3, 4, 0xFF, 0xFF, 0xFF, 0xFF]);
    assert_eq!(status(&mut flash), 0);
    assert_eq!(flash.write(0x10, &[1, 2, 3, 4, 5, 6, 7, 8]), Ok(()));
    assert_eq!(flash.read(0x10, 8), vec![1, 2, 3, 4, 5, 6, 7, 8]);
}

#[test]
fn erase_reports_a_write_protection_flag_that_was_left_set() {
    let mut flash = flash_on(0, 0);
    flash.flash.protect(1);
    flash.flash.perform(Command::SelectSector(1));
    flash.flash.perform(Command::Start);
    assert_eq!(flash.write(0, &[0; 4]), Err(0x0010));
    flash.flash.perform(Command::SelectSector(1));
    flash.flash.perform(Command::Start);
    assert_eq!(flash.erase(), Err(0x0010));
    assert_eq!(flash.read(0, 4), vec![0xFF; 4]);
    assert_eq!(flash.erase(), Ok(()));
}

#[test]
fn erase_does_not_mind_other_flags() {
    let mut flash = flash_on(0, 0);
    flash.flash.perform(Command::StoreWord { address: 0x0800_0000, value: 0 });
    assert_eq!(flash.erase(), Ok(()));
    assert_eq!(status(&mut flash), SEQUENCE);
}

#[test]
fn write_of_nothing_succeeds_and_disables_programming() {
    let mut flash = flash_on(0, 0);
    flash.flash.perform(Command::EnableProgramming);
    assert_eq!(flash.write(0, &[]), Ok(()));
    assert!(!flash.flash.control().program);
    assert_eq!(flash.read(0, 0), Vec::<u8>::new());
}

#[test]
fn write_disables_programming_when_it_is_done() {
    let mut flash = flash_on(0, 4);
    assert_eq!(flash.write(0, &[0; 16]), Ok(()));
    assert!(!flash.flash.control().program);
    assert_eq!(status(&mut flash), 0);
}

#[test]
fn operations_wait_for_an_operation_that_is_under_way() {
    let mut flash = flash_on(10, 50);
    flash.flash.perform(Command::SelectSector(0));
    flash.flash.perform(Command::Start);
    assert_ne!(status(&mut flash) & 0x1_0000, 0);
    assert_eq!(flash.erase(), Ok(()));
    assert_eq!(status(&mut flash), 0);
    flash.flash.perform(Command::SelectSector(0));
    flash.flash.perform(Command::Start);
    assert_eq!(flash.write(0, &[7; 4]), Ok(()));
    assert_eq!(status(&mut flash), 0);
    assert_eq!(flash.read(0, 4), vec![7; 4]);
}

#[test]
fn read_into_fills_the_whole_destination() {
    let mut flash = flash_on(4, 0);
    let data = pattern(32);
    assert_eq!(flash.write(0x200, &data), Ok(()));
    let mut destination = [0u8; 32];
    flash.read_into(0x200, &mut destination);
    assert_eq!(destination.to_vec(), data);
    let mut destination = [0u8; 5];
    flash.read_into(0x203, &mut destination);
    assert_eq!(destination.to_vec(), data[3..8].to_vec());
    let mut destination: [u8; 0] = [];
    flash.read_into(0, &mut destination);
}

#[test]
fn read_takes_any_offset_and_length_inside_the_sector() {
    let mut flash = flash_on(0, 0);
    assert_eq!(flash.write(0, &[0x10, 0x20, 0x30, 0x40]), Ok(()));
    assert_eq!(flash.read(1, 2), vec![0x20, 0x30]);
    assert_eq!(flash.read(3, 1), vec![0x40]);
    assert_eq!(flash.read(0x3FFE, 1), vec![0xFF]);
    assert_eq!(flash.read(0, 0x3FFF).len(), 0x3FFF);
}
