pub mod cpu;
pub mod mbc;
pub mod memory;
