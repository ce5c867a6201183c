use naanes::mapper::{Mapper, Mapping, Mirroring, NRomMapper};

#[test]
fn one_bank_repeats_in_the_upper_half() {
    let mapper = Mapper::NRom(NRomMapper::new(1, Mirroring::Horizontal));
    assert_eq!(mapper.mapping_address(0x8000), 0x0000);
    assert_eq!(mapper.mapping_address(0xBFFF), 0x3FFF);
    assert_eq!(mapper.mapping_address(0xC000), 0x0000);
    assert_eq!(mapper.mapping_address(0xFFFC), 0x3FFC);
    assert_eq!(mapper.mapping_address(0xFFFF), 0x3FFF);
}

#[test]
fn two_banks_follow_each_other() {
    let mapper = Mapper::NRom(NRomMapper::new(2, Mirroring::Vertical));
    assert_eq!(mapper.mapping_address(0x8000), 0x0000);
    assert_eq!(mapper.mapping_address(0xBFFF), 0x3FFF);
    assert_eq!(mapper.mapping_address(0xC000), 0x4000);
    assert_eq!(mapper.mapping_address(0xFFFC), 0x7FFC);
    assert_eq!(mapper.mapping_address(0xFFFF), 0x7FFF);
}

#[test]
fn one_bank_maps_every_address_to_its_low_fourteen_bits() {
    let board = NRomMapper::new(1, Mirroring::Horizontal);
    for address in 0x8000usize..=0xFFFF {
        assert_eq!(board.mapping_address(address), address & 0x3FFF);
    }
}

#[test]
fn board_reports_its_mirroring() {
    let horizontal = NRomMapper::new(1, Mirroring::Horizontal);
    let vertical = NRomMapper::new(2, Mirroring::Vertical);
    assert_eq!(horizontal.get_nametable_mirroring_type(), Mirroring::Horizontal);
    assert_eq!(vertical.get_nametable_mirroring_type(), Mirroring::Vertical);
    assert_eq!(
        Mapper::NRom(horizontal).get_nametable_mirroring_type(),
        Mirroring::Horizontal
    );
    assert_eq!(
        Mapper::NRom(vertical).get_nametable_mirroring_type(),
        Mirroring::Vertical
    );
}
