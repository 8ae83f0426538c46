use bitptr::{Address, BitIdx, BitOrder, BitPtr, BitStore, Const, Lsb0, Msb0, Mut, Mutability};
use core::cmp::Ordering;

fn ptr<O: BitOrder, T: BitStore, M: Mutability>(addr: usize, index: u8) -> BitPtr<O, T, M> {
    BitPtr::new(addr, BitIdx::new(index).unwrap()).unwrap()
}

#[test]
fn unlike_representations_are_never_equal() {
    let a: BitPtr<Lsb0, u8, Const> = ptr(0x1000, 3);
    let b: BitPtr<Lsb0, u32, Const> = ptr(0x1000, 3);
    let c: BitPtr<Lsb0, u16, Mut> = ptr(0x1000, 3);
    let d: BitPtr<Lsb0, u64, Mut> = ptr(0x1000, 3);
    assert!(!(a == b));
    assert!(a != b);
    assert!(!(b == a));
    assert!(a != c);
    assert!(a != d);
    assert!(b != c);
    assert!(b != d);
    assert!(c != d);
}

#[test]
fn unlike_representations_are_never_ordered() {
    let a: BitPtr<Msb0, u8, Const> = ptr(0x1000, 3);
    let b: BitPtr<Msb0, u32, Mut> = ptr(0x1000, 3);
    let c: BitPtr<Msb0, u32, Mut> = ptr(0x2000, 7);
    assert_eq!(a.partial_cmp(&b), None);
    assert_eq!(b.partial_cmp(&a), None);
    assert_eq!(a.partial_cmp(&c), None);
    assert!(!(a < b));
    assert!(!(a > b));
    assert!(!(a <= b));
    assert!(!(a >= b));
    assert!(!(a < c));
    assert!(!(c < a));
}

#[test]
fn dangling_pointers_of_unlike_representations_differ() {
    let a: BitPtr<Lsb0, u16, Const> = ptr(8, 0);
    let b: BitPtr<Lsb0, u64, Const> = ptr(8, 0);
    assert!(a != b);
    assert_eq!(a.partial_cmp(&b), None);
}

#[test]
fn equality_is_by_address_and_index() {
    let a: BitPtr<Lsb0, u16, Const> = ptr(0x1000, 3);
    let same: BitPtr<Lsb0, u16, Const> = ptr(0x1000, 3);
    let other_index: BitPtr<Lsb0, u16, Const> = ptr(0x1000, 4);
    let other_addr: BitPtr<Lsb0, u16, Const> = ptr(0x1002, 3);
    assert!(a == same);
    assert!(a != other_index);
    assert!(a != other_addr);
    assert_eq!(a, same);
    assert_ne!(a, other_index);
}

#[test]
fn equality_ignores_the_access_tag() {
    let reader: BitPtr<Lsb0, u32, Const> = ptr(0x1000, 30);
    let writer: BitPtr<Lsb0, u32, Mut> = ptr(0x1000, 30);
    let elsewhere: BitPtr<Lsb0, u32, Mut> = ptr(0x1000, 29);
    assert!(reader == writer);
    assert!(writer == reader);
    assert!(reader != elsewhere);
    assert_eq!(reader.partial_cmp(&writer), Some(Ordering::Equal));
    assert_eq!(reader.partial_cmp(&elsewhere), Some(Ordering::Greater));
    assert_eq!(elsewhere.partial_cmp(&reader), Some(Ordering::Less));
}

#[test]
fn at_one_address_the_index_orders() {
    let low: BitPtr<Msb0, u8, Mut> = ptr(0x1000, 1);
    let high: BitPtr<Msb0, u8, Mut> = ptr(0x1000, 6);
    assert_eq!(low.cmp(&high), Ordering::Less);
    assert_eq!(high.cmp(&low), Ordering::Greater);
    assert_eq!(low.cmp(&low), Ordering::Equal);
    assert_eq!(low.partial_cmp(&high), Some(Ordering::Less));
    assert!(low < high);
    assert!(high > low);
    assert!(low <= low);
    assert!(low >= low);
}

#[test]
fn the_address_orders_before_the_index() {
    let first: BitPtr<Lsb0, u8, Const> = ptr(0x1000, 7);
    let second: BitPtr<Lsb0, u8, Const> = ptr(0x1001, 0);
    assert_eq!(first.cmp(&second), Ordering::Less);
    assert_eq!(second.cmp(&first), Ordering::Greater);
    assert_eq!(first.partial_cmp(&second), Some(Ordering::Less));
    assert!(first < second);
}

#[test]
fn the_bit_order_does_not_change_the_ordering() {
    let low: BitPtr<Msb0, u16, Const> = ptr(0x1000, 0);
    let high: BitPtr<Msb0, u16, Const> = ptr(0x1000, 15);
    assert_eq!(low.cmp(&high), Ordering::Less);
    let low: BitPtr<Lsb0, u16, Const> = ptr(0x1000, 0);
    let high: BitPtr<Lsb0, u16, Const> = ptr(0x1000, 15);
    assert_eq!(low.cmp(&high), Ordering::Less);
}

#[test]
fn sorting_by_the_order_puts_pointers_in_memory_order() {
    let mut ptrs: Vec<BitPtr<Lsb0, u32, Const>> = vec![
        ptr(0x2000, 0),
        ptr(0x1000, 31),
        ptr(0x1004, 2),
        ptr(0x1000, 0),
        ptr(0x1004, 1),
    ];
    ptrs.sort_by(|a, b| a.cmp(b));
    let parts: Vec<(usize, u8)> = ptrs
        .iter()
        .map(|p| {
            let (a, i) = p.raw_parts();
            (a.value(), i.value())
        })
        .collect();
    assert_eq!(
        parts,
        vec![(0x1000, 0), (0x1000, 31), (0x1004, 1), (0x1004, 2), (0x2000, 0)]
    );
}

#[test]
fn a_pointer_equals_its_copy() {
    let a: BitPtr<Lsb0, u64, Mut> = ptr(0x1000, 40);
    let copy = a;
    let clone = a.clone();
    assert!(a == copy);
    assert!(a == clone);
    assert_eq!(a.cmp(&copy), Ordering::Equal);
    let (addr, head) = clone.raw_parts();
    assert_eq!(addr.value(), 0x1000);
    assert_eq!(head.value(), 40);
    let addr_copy: Address<u64, Mut> = addr;
    assert_eq!(addr_copy.clone().value(), addr.value());
}
