//! Type-salted structural hashing: a 64-bit digest that depends on a value's
//! static type, on its contents and on their order.

pub mod aggregate;
pub mod checksum;
pub mod composite;
pub mod easy_hash_2;
pub mod fast_path;
pub mod hash;
pub mod laws;
pub mod layout;
pub mod primitives;
pub mod slices;
pub mod tuples;
pub mod type_salt;
pub mod words;

pub use aggregate::{hash_sum, Data, Field, Fields};
pub use checksum::{checksum_of, Checksum};
pub use composite::{fields_ehash, once_cell_ehash, presence_ehash, text_ehash};
pub use easy_hash_2::{EasyHash2, ToU32Slices};
pub use fast_path::{aligned_ehash, bytes_ehash, update_unaligned, wide_slice_ehash};
pub use hash::{narrow_ehash, raw_ehash, wide_ehash, word_ehash, EasyHash};
pub use layout::FixedLayout;
pub use primitives::{double_bits_ehash, float_bits_ehash};
pub use slices::layout_ehash;
pub use type_salt::{
    generic_salt_of_names, salt_of_name, type_salt, type_salt_generic, EasyHashTypeSalt,
};
pub use words::{join_u32s, split_i64, split_u64, u64_to_u32_slice};
