use bitptr::{Address, AddressError, BitIdx, BitPtr, Const, Lsb0, Msb0, Mut};
use core::mem::{align_of, size_of};

#[test]
fn from_a_reference_points_at_bit_zero_of_a_valid_address() {
    let elem: u32 = 0x0000_0001;
    let ptr: BitPtr<Lsb0, u32, Const> = BitPtr::from(&elem);
    let (addr, head) = ptr.raw_parts();
    assert_eq!(head.value(), 0);
    assert_ne!(addr.value(), 0);
    assert_eq!(addr.value() % align_of::<u32>(), 0);
    assert!(ptr.read(&elem));
}

#[test]
fn from_a_reference_takes_the_address_of_the_referent() {
    let elems: [u32; 4] = [0, 0, 0, 0];
    let first: BitPtr<Lsb0, u32, Const> = BitPtr::from(&elems[0]);
    let again: BitPtr<Lsb0, u32, Const> = BitPtr::from(&elems[0]);
    let third: BitPtr<Lsb0, u32, Const> = BitPtr::from(&elems[2]);
    assert!(first == again);
    assert!(first < third);
    let (a0, _) = first.raw_parts();
    let (a2, _) = third.raw_parts();
    assert_eq!(a2.value() - a0.value(), 2 * size_of::<u32>());
}

#[test]
fn from_a_mutable_reference_points_at_bit_zero_of_a_valid_address() {
    let mut elem: u64 = 0;
    let ptr: BitPtr<Msb0, u64, Mut> = BitPtr::from(&mut elem);
    let (addr, head) = ptr.raw_parts();
    assert_eq!(head.value(), 0);
    assert_ne!(addr.value(), 0);
    assert_eq!(addr.value() % align_of::<u64>(), 0);
    ptr.write(&mut elem, true);
    assert_eq!(elem, 0x8000_0000_0000_0000);
    let same: BitPtr<Msb0, u64, Const> = BitPtr::from(&elem);
    assert!(same == ptr);
}

#[test]
fn addresses_come_from_references() {
    let mut elems: [u16; 2] = [7, 9];
    let a0: Address<u16, Const> = Address::from(&elems[0]);
    let a1: Address<u16, Const> = Address::from(&elems[1]);
    assert_eq!(a1.value() - a0.value(), size_of::<u16>());
    let m1: Address<u16, Mut> = Address::from(&mut elems[1]);
    assert_eq!(m1.value(), a1.value());
    assert_eq!(a0.value() % align_of::<u16>(), 0);
}

#[test]
fn from_an_address_points_at_bit_zero_there() {
    let addr = Address::<u16, Mut>::new(0x100).unwrap();
    let ptr: BitPtr<Lsb0, u16, Mut> = BitPtr::from(addr);
    let (a, h) = ptr.raw_parts();
    assert_eq!(a.value(), 0x100);
    assert_eq!(h.value(), 0);
    let built = BitPtr::<Lsb0, u16, Mut>::new_unchecked(addr, BitIdx::zero());
    assert!(ptr == built);
}

#[test]
fn try_from_a_number_checks_it() {
    let ok: Result<BitPtr<Lsb0, u32, Const>, AddressError> = BitPtr::try_from(0x1000usize);
    let (a, h) = ok.unwrap().raw_parts();
    assert_eq!(a.value(), 0x1000);
    assert_eq!(h.value(), 0);
    let null: Result<BitPtr<Lsb0, u32, Const>, AddressError> = BitPtr::try_from(0usize);
    assert_eq!(null, Err(AddressError::Null));
    let odd: Result<BitPtr<Lsb0, u32, Mut>, AddressError> = BitPtr::try_from(0x1003usize);
    assert_eq!(odd, Err(AddressError::Misaligned(0x1003)));
    let writer: Result<BitPtr<Lsb0, u32, Mut>, AddressError> = BitPtr::try_from(0x1000usize);
    assert!(writer.unwrap() == ok.unwrap());
}

#[test]
fn try_from_a_number_rejects_null_for_every_width() {
    assert_eq!(
        BitPtr::<Lsb0, u8, Const>::try_from(0usize),
        Err(AddressError::Null)
    );
    assert_eq!(
        BitPtr::<Lsb0, u16, Mut>::try_from(0usize),
        Err(AddressError::Null)
    );
    assert_eq!(
        BitPtr::<Lsb0, u32, Const>::try_from(0usize),
        Err(AddressError::Null)
    );
    assert_eq!(
        BitPtr::<Lsb0, u64, Mut>::try_from(0usize),
        Err(AddressError::Null)
    );
    let a64: usize = align_of::<u64>() + 1;
    assert_eq!(
        BitPtr::<Lsb0, u64, Mut>::try_from(a64),
        Err(AddressError::Misaligned(a64))
    );
}
