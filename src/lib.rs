pub mod boot;
pub mod cpu;
pub mod io;
