#![allow(non_camel_case_types)]
use vstd::prelude::*;

pub mod alone_encoder;
pub mod bytes;
pub mod coder;
pub mod crc;
pub mod drive;
pub mod easy_preset;
pub mod filter_common;
pub mod filter_decoder;
pub mod harness;
pub mod memcmplen;
pub mod microlzma_encoder;
pub mod options;

verus! {
}
