pub mod aggregator;
pub mod bytes;
pub mod chacha20;
pub mod driver;
pub mod hasher;
pub mod parse;
pub mod sha512;
pub mod stream;
