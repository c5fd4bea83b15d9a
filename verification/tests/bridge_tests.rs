use basic_bridge::bridge::{
    consume_character, ready_to_output_character, ready_to_read_key, supply_input_byte,
    translate_input_byte,
};
use basic_bridge::memory::{word_from_le_bytes, Generic64kMem};
use basic_bridge::profile::{kb9_addresses, osi_addresses, profile_for, AddressProfile, Variant};
use basic_bridge::traps::install_traps;

#[test]
fn new_space_is_zeroed() {
    let mem = Generic64kMem::new();
    assert_eq!(mem.data.len(), 0x10000);
    assert_eq!(mem.read(0x0000), 0);
    assert_eq!(mem.read(0x8000), 0);
    assert_eq!(mem.read(0xFFFF), 0);
}

#[test]
fn read_write_round_trip() {
    let mut mem = Generic64kMem::new();
    mem.write(0x1234, 0xAB);
    assert_eq!(mem.read(0x1234), 0xAB);
    assert_eq!(mem.read(0x1233), 0);
    assert_eq!(mem.read(0x1235), 0);
}

#[test]
fn insert_writes_payload() {
    let mut mem = Generic64kMem::new();
    let payload = vec![1u8, 2, 3];
    mem.insert(0x2000, &payload);
    assert_eq!(mem.read(0x1FFF), 0);
    assert_eq!(mem.read(0x2000), 1);
    assert_eq!(mem.read(0x2001), 2);
    assert_eq!(mem.read(0x2002), 3);
    assert_eq!(mem.read(0x2003), 0);
}

#[test]
fn insert_twice_is_idempotent() {
    let payload = vec![0xDE, 0xAD, 0xBE, 0xEF];
    let mut once = Generic64kMem::new();
    once.insert(0x3000, &payload);
    let mut twice = Generic64kMem::new();
    twice.insert(0x3000, &payload);
    twice.insert(0x3000, &payload);
    assert_eq!(once.data, twice.data);
}

#[test]
fn reset_vector_round_trip() {
    let addrs: Vec<u16> = vec![0x0000, 0x0001, 0x00FF, 0x0100, 0x4065, 0xABCD, 0xFFFF];
    for addr in addrs {
        let mut mem = Generic64kMem::new();
        mem.set_reset_vector(addr);
        let lo = mem.read(0xFFFC);
        let hi = mem.read(0xFFFD);
        assert_eq!(word_from_le_bytes(lo, hi), addr);
    }
}

#[test]
fn word_from_le_bytes_reassembles() {
    assert_eq!(word_from_le_bytes(0x65, 0x40), 0x4065);
    assert_eq!(word_from_le_bytes(0x00, 0x00), 0x0000);
    assert_eq!(word_from_le_bytes(0xFF, 0xFF), 0xFFFF);
}

#[test]
fn read_range_returns_subrange() {
    let mut mem = Generic64kMem::new();
    let payload = vec![7u8, 8, 9, 10];
    mem.insert(0x0500, &payload);
    assert_eq!(mem.read_range(0x0500, 0x0504), vec![7u8, 8, 9, 10]);
    assert_eq!(mem.read_range(0x04FF, 0x0501), vec![0u8, 7]);
    assert_eq!(mem.read_range(0x0500, 0x0500), Vec::<u8>::new());
}

#[test]
fn kb9_profile_values() {
    let p = kb9_addresses();
    assert_eq!(p.basic_rom_start, 0x2000);
    assert_eq!(p.cold_start, 0x4065);
    assert_eq!(p.moncout_vector, 0x1EA0);
    assert_eq!(p.monrdkey_vector, 0x1E5A);
    assert_eq!(p.mon_handlers_hi, 0xFF);
    assert_eq!(p.moncout_handler_lo, 0x02);
    assert_eq!(p.moncout_store_lo, 0x00);
    assert_eq!(p.monrdkey_handler_lo, 0x07);
    assert_eq!(p.monrdkey_store_lo, 0x01);
    assert_eq!(p.moncout_store_addr(), 0xFF00);
    assert_eq!(p.monrdkey_store_addr(), 0xFF01);
    assert_eq!(p.moncout_handler_addr(), 0xFF02);
    assert_eq!(p.monrdkey_handler_addr(), 0xFF07);
}

#[test]
fn osi_profile_values() {
    let p = osi_addresses();
    assert_eq!(p.basic_rom_start, 0xA000);
    assert_eq!(p.cold_start, 0xBD11);
    assert_eq!(p.moncout_vector, 0xFFEE);
    assert_eq!(p.monrdkey_vector, 0xFFEB);
    assert_eq!(p.mon_handlers_hi, 0x02);
    assert_eq!(p.moncout_store_addr(), 0x0222);
    assert_eq!(p.monrdkey_store_addr(), 0x0223);
    assert_eq!(p.moncout_handler_addr(), 0x0224);
    assert_eq!(p.monrdkey_handler_addr(), 0x0229);
}

#[test]
fn profile_for_selects_variant() {
    assert_eq!(profile_for(Variant::KB9), kb9_addresses());
    assert_eq!(profile_for(Variant::OSI), osi_addresses());
}

#[test]
fn install_traps_writes_stub_bytes() {
    let p = kb9_addresses();
    let mut mem = Generic64kMem::new();
    install_traps(&mut mem, &p);
    assert_eq!(mem.read_range(0x1EA0, 0x1EA3), vec![0x4C, 0x02, 0xFF]);
    assert_eq!(mem.read_range(0xFF02, 0xFF06), vec![0x8D, 0x00, 0xFF, 0x60]);
    assert_eq!(mem.read_range(0x1E5A, 0x1E5D), vec![0x4C, 0x07, 0xFF]);
    assert_eq!(
        mem.read_range(0xFF07, 0xFF10),
        vec![0xA9, 0x01, 0x8D, 0x01, 0xFF, 0xAD, 0x01, 0xFF, 0x60]
    );
    assert_eq!(mem.read(0xFF00), 0);
    assert_eq!(mem.read(0xFF01), 0);
}

fn regions_of(p: &AddressProfile, rom_len: u16) -> Vec<(u16, u16)> {
    vec![
        (p.basic_rom_start, p.basic_rom_start + rom_len),
        (p.moncout_vector, p.moncout_vector + 3),
        (p.monrdkey_vector, p.monrdkey_vector + 3),
        (p.moncout_handler_addr(), p.moncout_handler_addr() + 4),
        (p.monrdkey_handler_addr(), p.monrdkey_handler_addr() + 9),
        (p.moncout_store_addr(), p.moncout_store_addr() + 1),
        (p.monrdkey_store_addr(), p.monrdkey_store_addr() + 1),
    ]
}

#[test]
fn install_traps_does_not_touch_disjoint_profile() {
    let installed = kb9_addresses();
    let other = osi_addresses();
    let other_rom_len: u16 = 0x0800;
    let mut mem = Generic64kMem::new();
    // Give the other profile's regions recognizable contents first.
    let rom_image: Vec<u8> = (0..other_rom_len).map(|i| (i % 251) as u8).collect();
    mem.insert(other.basic_rom_start, &rom_image);
    install_traps(&mut mem, &other);
    let before: Vec<Vec<u8>> = regions_of(&other, other_rom_len)
        .iter()
        .map(|&(s, e)| mem.read_range(s, e))
        .collect();
    install_traps(&mut mem, &installed);
    let after: Vec<Vec<u8>> = regions_of(&other, other_rom_len)
        .iter()
        .map(|&(s, e)| mem.read_range(s, e))
        .collect();
    assert_eq!(before, after);
}

#[test]
fn every_output_byte_is_emitted_exactly_once() {
    let p = kb9_addresses();
    let mut mem = Generic64kMem::new();
    for v in 1..=255u8 {
        mem.write(p.moncout_store_addr(), v);
        assert!(ready_to_output_character(&p, &mem));
        let emitted = consume_character(&p, &mut mem);
        assert_eq!(emitted, v);
        assert_eq!(mem.read(p.moncout_store_addr()), 0);
        assert!(!ready_to_output_character(&p, &mem));
    }
}

#[test]
fn every_input_byte_lands_translated_in_the_cell() {
    let p = kb9_addresses();
    let mut mem = Generic64kMem::new();
    for b in 0..=255u8 {
        supply_input_byte(&p, &mut mem, b);
        let expected = if b == 10 { 13 } else { b };
        assert_eq!(mem.read(p.monrdkey_store_addr()), expected);
    }
}

#[test]
fn translate_input_byte_only_rewrites_line_feed() {
    assert_eq!(translate_input_byte(10), 13);
    assert_eq!(translate_input_byte(13), 13);
    assert_eq!(translate_input_byte(0), 0);
    assert_eq!(translate_input_byte(65), 65);
    assert_eq!(translate_input_byte(255), 255);
}

#[test]
fn end_to_end_output_scenario() {
    // Load a ROM stub at 0x2000, set the reset vector to the cold-start
    // entry, install the output trap, then play the engine's part: write 'A'
    // into the output handshake cell at an instruction boundary.
    let p = kb9_addresses();
    let mut mem = Generic64kMem::new();
    let rom_stub = vec![0xEA, 0xEA, 0x4C, 0x00, 0x20];
    mem.insert(0x2000, &rom_stub);
    mem.set_reset_vector(0x4065);
    install_traps(&mut mem, &p);
    assert_eq!(word_from_le_bytes(mem.read(0xFFFC), mem.read(0xFFFD)), 0x4065);
    mem.write(p.moncout_store_addr(), 0x41);
    assert!(ready_to_output_character(&p, &mem));
    let emitted = consume_character(&p, &mut mem);
    assert_eq!(emitted as char, 'A');
    assert_eq!(mem.read(p.moncout_store_addr()), 0);
    assert!(!ready_to_output_character(&p, &mem));
}

#[test]
fn end_to_end_input_scenario() {
    // Play the engine's part: the input handler marks the cell "waiting";
    // the bridge answers the line-feed byte 10 by storing carriage-return 13,
    // after which the cell no longer signals "waiting".
    let p = kb9_addresses();
    let mut mem = Generic64kMem::new();
    install_traps(&mut mem, &p);
    mem.write(p.monrdkey_store_addr(), 1);
    assert!(ready_to_read_key(&p, &mem));
    supply_input_byte(&p, &mut mem, 10);
    assert_eq!(mem.read(p.monrdkey_store_addr()), 13);
    assert!(!ready_to_read_key(&p, &mem));
}
