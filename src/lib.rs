//! Early-boot runtime for multi-hart RISC-V machines running under SBI firmware:
//! typed firmware-call results, the hart bootstrap protocol and the install-once heap.

pub mod boot;
pub mod heap;
pub mod sbi;
