pub mod command;
pub mod dac;
pub mod fmtbuf;
pub mod inputs;
pub mod ir;
pub mod line;
pub mod processor;
pub mod protocol;
pub mod registers;
pub mod sample_rate;
