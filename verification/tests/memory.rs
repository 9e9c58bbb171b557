use retroludos::device::InvalidAddress;
use retroludos::device::InvalidMemoryDevice;
use retroludos::device::MemoryDevice;
use retroludos::device::VirtualMemoryCard;
use retroludos::mux::MemoryMultiplexer;

#[test]
fn a_new_card_is_zeroed_and_bounds_checked() {
    let card = VirtualMemoryCard::new(16);
    assert_eq!(card.size(), 16);
    assert_eq!(card.read_byte(0), Ok(0));
    assert_eq!(card.read_byte(15), Ok(0));
    assert_eq!(card.read_byte(16), Err(InvalidAddress));
}

#[test]
fn card_word_round_trip_and_bounds() {
    let mut card = VirtualMemoryCard::new(16);
    for addr in 0u16..15 {
        assert_eq!(card.write_word(addr, 0xBEEF), Ok(()));
        assert_eq!(card.read_word(addr), Ok(0xBEEF));
    }
    // The high byte of a word at the last address falls outside the card.
    assert_eq!(card.write_word(15, 0xBEEF), Err(InvalidAddress));
    assert_eq!(card.read_word(15), Err(InvalidAddress));
}

#[test]
fn registration_rejects_overlaps() {
    let mut mux: MemoryMultiplexer<VirtualMemoryCard> = MemoryMultiplexer::new();
    assert_eq!(mux.add_device(0x0000, VirtualMemoryCard::new(16)), Ok(()));
    assert_eq!(mux.add_device(0x0010, VirtualMemoryCard::new(16)), Ok(()));
    // An eight-byte card at 0x0008 overlaps the first card's range [0, 16).
    assert_eq!(
        mux.add_device(0x0008, VirtualMemoryCard::new(8)),
        Err(InvalidMemoryDevice)
    );
    // The same base as a registered, non-empty card is an overlap too.
    assert_eq!(
        mux.add_device(0x0000, VirtualMemoryCard::new(1)),
        Err(InvalidMemoryDevice)
    );
}

#[test]
fn byte_write_then_read() {
    let mut mux: MemoryMultiplexer<VirtualMemoryCard> = MemoryMultiplexer::new();
    assert_eq!(mux.add_device(0x0000, VirtualMemoryCard::new(16)), Ok(()));
    assert_eq!(mux.write_byte(0x0, 0xAB), Ok(()));
    assert_eq!(mux.read_byte(0x0), Ok(0xAB));
}

#[test]
fn words_are_stored_little_endian() {
    let mut mux: MemoryMultiplexer<VirtualMemoryCard> = MemoryMultiplexer::new();
    assert_eq!(mux.add_device(0x0000, VirtualMemoryCard::new(16)), Ok(()));
    assert_eq!(mux.write_word(4, 0x1234), Ok(()));
    assert_eq!(mux.read_byte(4), Ok(0x34));
    assert_eq!(mux.read_byte(5), Ok(0x12));
    assert_eq!(mux.read_word(4), Ok(0x1234));
}

#[test]
fn overflowing_registration_fails_and_leaves_the_set_unchanged() {
    let mut mux: MemoryMultiplexer<VirtualMemoryCard> = MemoryMultiplexer::new();
    assert_eq!(mux.add_device(0x0000, VirtualMemoryCard::new(16)), Ok(()));
    assert_eq!(mux.write_byte(0x3, 0x7E), Ok(()));
    // 0xFFF0 + 0x20 exceeds 0xFFFF.
    assert_eq!(
        mux.add_device(0xFFF0, VirtualMemoryCard::new(0x20)),
        Err(InvalidMemoryDevice)
    );
    // Nothing was registered: the overflowing range stays unmapped and the
    // existing device keeps its contents.
    assert_eq!(mux.read_byte(0xFFF0), Err(InvalidAddress));
    assert_eq!(mux.read_byte(0x3), Ok(0x7E));
    // A range that ends exactly at 0xFFFF is accepted.
    assert_eq!(mux.add_device(0xFFF0, VirtualMemoryCard::new(0xF)), Ok(()));
}

#[test]
fn boundary_reads_at_the_end_of_a_device() {
    let mut mux: MemoryMultiplexer<VirtualMemoryCard> = MemoryMultiplexer::new();
    assert_eq!(mux.add_device(0x0000, VirtualMemoryCard::new(16)), Ok(()));
    // The last address of the card succeeds; one past its end fails while no
    // device begins there.
    assert_eq!(mux.read_byte(15), Ok(0));
    assert_eq!(mux.read_byte(16), Err(InvalidAddress));
    // With an adjacent device beginning exactly at 16, the read is routed to
    // it instead; the address reaches it untranslated, so it must be large
    // enough to own its own base address.
    assert_eq!(mux.add_device(0x0010, VirtualMemoryCard::new(32)), Ok(()));
    assert_eq!(mux.read_byte(16), Ok(0));
}

#[test]
fn accesses_with_no_owning_device_fail() {
    let mut mux: MemoryMultiplexer<VirtualMemoryCard> = MemoryMultiplexer::new();
    assert_eq!(mux.read_byte(0), Err(InvalidAddress));
    assert_eq!(mux.read_word(0), Err(InvalidAddress));
    assert_eq!(mux.write_byte(0, 1), Err(InvalidAddress));
    assert_eq!(mux.write_word(0, 1), Err(InvalidAddress));
    // A device registered away from address zero leaves lower addresses
    // unowned.
    assert_eq!(mux.add_device(0x0100, VirtualMemoryCard::new(16)), Ok(()));
    assert_eq!(mux.read_byte(0x00FF), Err(InvalidAddress));
}

#[test]
fn word_writes_rejected_at_the_device_edge_leave_memory_unchanged() {
    let mut mux: MemoryMultiplexer<VirtualMemoryCard> = MemoryMultiplexer::new();
    assert_eq!(mux.add_device(0x0000, VirtualMemoryCard::new(16)), Ok(()));
    assert_eq!(mux.write_byte(15, 0x55), Ok(()));
    // The high byte of a word at 15 would land at 16, outside the device.
    assert_eq!(mux.write_word(15, 0xA0A0), Err(InvalidAddress));
    assert_eq!(mux.read_byte(15), Ok(0x55));
}
