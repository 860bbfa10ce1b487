//! The protocol's atomic unit of exchange: one discrete message on the
//! transport, either a UTF-8 text frame, a binary byte frame, or an
//! explicit close.

use vstd::prelude::*;

verus! {

/// One discrete message on the transport.
pub enum Frame {
    Text(String),
    Binary(Vec<u8>),
    Close,
}

/// Mathematical model of a frame: its payload as a sequence.
#[verifier::ext_equal]
pub ghost enum FrameModel {
    Text(Seq<char>),
    Binary(Seq<u8>),
    Close,
}

impl View for Frame {
    type V = FrameModel;

    open spec fn view(&self) -> FrameModel {
        match self {
            Frame::Text(s) => FrameModel::Text(s@),
            Frame::Binary(b) => FrameModel::Binary(b@),
            Frame::Close => FrameModel::Close,
        }
    }
}

} // verus!
