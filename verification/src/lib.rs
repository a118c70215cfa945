//! IEEE 1722 (AVTP) protocol data units over plain byte buffers.
pub mod aaf;
pub mod acf;
pub mod acf_common;
pub mod common;
pub mod common_header;
pub mod crf;
pub mod cvf;
pub mod error;
pub mod field;
pub mod pdu;
pub mod rvf;
pub mod udp;

pub use common::{AcfMsgType, Subtype};
pub use common_header::CommonHeader;
pub use error::{Error, Result};
pub use udp::Udp;
pub use crf::Crf;
pub use rvf::Rvf;
