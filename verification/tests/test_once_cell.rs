use easy_hash::{once_cell_ehash, split_u64, type_salt, EasyHash};
use fletcher::calc_fletcher64;
use std::cell::OnceCell;

#[test]
fn test_once_cell_hash_changes() {
    let cell: OnceCell<u32> = OnceCell::new();
    let empty_hash = once_cell_ehash(cell.get());
    cell.set(5).unwrap();
    let filled_hash = once_cell_ehash(cell.get());
    assert_ne!(empty_hash, filled_hash);
}

#[test]
fn test_different_cells_same_contents() {
    let cell_1: OnceCell<u32> = OnceCell::new();
    let cell_2: OnceCell<u32> = OnceCell::new();
    cell_1.set(10).unwrap();
    cell_2.set(10).unwrap();
    assert_eq!(once_cell_ehash(cell_1.get()), once_cell_ehash(cell_2.get()));
}

#[test]
fn once_cell_stream() {
    let salt = type_salt::<&u32>();
    let cell: OnceCell<u32> = OnceCell::new();
    assert_eq!(once_cell_ehash(cell.get()), calc_fletcher64(&[salt, 961157112]));
    cell.set(10).unwrap();
    let parts = split_u64(10u32.ehash());
    assert_eq!(once_cell_ehash(cell.get()), calc_fletcher64(&[salt, parts[0], parts[1]]));
}
