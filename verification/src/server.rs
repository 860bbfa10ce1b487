//! The server side of one session: list the directory once, then
//! repeatedly resolve a selection and stream the file, until the peer
//! leaves or anything goes wrong.
//!
//! The session is a pure state machine: `server_step` maps the current
//! state and one observed event to the next state and the action the
//! embedding program must perform. All transport and filesystem work
//! stays outside.

use vstd::prelude::*;
use crate::frame::Frame;
use crate::frame::FrameModel;
use crate::listing::json_listing_of;
use crate::listing::listing_has_name;
use crate::listing::listing_of_frame;
use crate::listing::listing_frame;
use crate::listing::listing_contains;

verus! {

/// Where one server session stands.
pub enum ServerState {
    /// Connection accepted; the directory has not been enumerated yet.
    Starting,
    /// Listing sent; waiting for the peer to name a file.
    AwaitingSelection { listing: Vec<String> },
    /// A named file was resolved; waiting for its bytes.
    ReadingFile { listing: Vec<String>, name: String },
    /// The session is over; nothing more is sent.
    Closed,
}

#[verifier::ext_equal]
pub ghost enum ServerStateModel {
    Starting,
    AwaitingSelection { listing: Seq<Seq<char>> },
    ReadingFile { listing: Seq<Seq<char>>, name: Seq<char> },
    Closed,
}

impl View for ServerState {
    type V = ServerStateModel;

    open spec fn view(&self) -> ServerStateModel {
        match self {
            ServerState::Starting => ServerStateModel::Starting,
            ServerState::AwaitingSelection { listing } => ServerStateModel::AwaitingSelection {
                listing: listing.deep_view(),
            },
            ServerState::ReadingFile { listing, name } => ServerStateModel::ReadingFile {
                listing: listing.deep_view(),
                name: name@,
            },
            ServerState::Closed => ServerStateModel::Closed,
        }
    }
}

/// One thing the embedding program observed for this session.
pub enum ServerEvent {
    /// The root directory was enumerated into these file names.
    ListingRead { names: Vec<String> },
    /// The root directory could not be read.
    ListingFailed,
    /// A frame arrived from the peer.
    FrameReceived { frame: Frame },
    /// The transport dropped or the peer closed.
    PeerGone,
    /// The selected file was read whole.
    FileRead { bytes: Vec<u8> },
    /// The selected file could not be opened or read.
    FileReadFailed,
}

#[verifier::ext_equal]
pub ghost enum ServerEventModel {
    ListingRead { names: Seq<Seq<char>> },
    ListingFailed,
    FrameReceived { frame: FrameModel },
    PeerGone,
    FileRead { bytes: Seq<u8> },
    FileReadFailed,
}

impl View for ServerEvent {
    type V = ServerEventModel;

    open spec fn view(&self) -> ServerEventModel {
        match self {
            ServerEvent::ListingRead { names } => ServerEventModel::ListingRead {
                names: names.deep_view(),
            },
            ServerEvent::ListingFailed => ServerEventModel::ListingFailed,
            ServerEvent::FrameReceived { frame } => ServerEventModel::FrameReceived {
                frame: frame@,
            },
            ServerEvent::PeerGone => ServerEventModel::PeerGone,
            ServerEvent::FileRead { bytes } => ServerEventModel::FileRead { bytes: bytes@ },
            ServerEvent::FileReadFailed => ServerEventModel::FileReadFailed,
        }
    }
}

/// What the embedding program must do next for this session.
pub enum ServerAction {
    /// Send this text frame: the encoded listing.
    SendListing { frame: Frame },
    /// Open and read this file under the served root.
    OpenFile { name: String },
    /// Send this binary frame: the file's bytes.
    SendFile { frame: Frame },
    /// Close the connection; the session is over.
    CloseConnection,
}

#[verifier::ext_equal]
pub ghost enum ServerActionModel {
    SendListing { frame: FrameModel },
    OpenFile { name: Seq<char> },
    SendFile { frame: FrameModel },
    CloseConnection,
}

impl View for ServerAction {
    type V = ServerActionModel;

    open spec fn view(&self) -> ServerActionModel {
        match self {
            ServerAction::SendListing { frame } => ServerActionModel::SendListing {
                frame: frame@,
            },
            ServerAction::OpenFile { name } => ServerActionModel::OpenFile { name: name@ },
            ServerAction::SendFile { frame } => ServerActionModel::SendFile { frame: frame@ },
            ServerAction::CloseConnection => ServerActionModel::CloseConnection,
        }
    }
}

/// The session's transition relation. A selection that does not name a
/// listed file, a failed directory read, a failed file read, a frame of
/// the wrong kind and a vanished peer all end the session with the
/// connection closed and no further frame sent.
pub open spec fn server_transition(s: ServerStateModel, e: ServerEventModel) -> (
    ServerStateModel,
    ServerActionModel,
) {
    match (s, e) {
        (
            ServerStateModel::Starting,
            ServerEventModel::ListingRead { names },
        ) => (
            ServerStateModel::AwaitingSelection { listing: names },
            ServerActionModel::SendListing { frame: FrameModel::Text(json_listing_of(names)) },
        ),
        (
            ServerStateModel::AwaitingSelection { listing },
            ServerEventModel::FrameReceived { frame: FrameModel::Text(name) },
        ) => if listing_has_name(listing, name) {
            (
                ServerStateModel::ReadingFile { listing, name },
                ServerActionModel::OpenFile { name },
            )
        } else {
            (ServerStateModel::Closed, ServerActionModel::CloseConnection)
        },
        (
            ServerStateModel::ReadingFile { listing, name },
            ServerEventModel::FileRead { bytes },
        ) => (
            ServerStateModel::AwaitingSelection { listing },
            ServerActionModel::SendFile { frame: FrameModel::Binary(bytes) },
        ),
        _ => (ServerStateModel::Closed, ServerActionModel::CloseConnection),
    }
}

/// Drive one server session by one observed event.
///
/// The second clause is the listing's round trip over the wire: the
/// frame sent for an enumerated directory decodes back to exactly the
/// enumerated names.
pub fn server_step(state: ServerState, event: ServerEvent) -> (r: (ServerState, ServerAction))
    ensures
        (r.0@, r.1@) == server_transition(state@, event@),
        state@ is Starting ==> (event@ matches ServerEventModel::ListingRead { names } ==> (
        r.1@ matches ServerActionModel::SendListing { frame } && listing_of_frame(frame)
            == names)),
{
    match (state, event) {
        (ServerState::Starting, ServerEvent::ListingRead { names }) => {
            let frame = listing_frame(&names);
            (
                ServerState::AwaitingSelection { listing: names },
                ServerAction::SendListing { frame },
            )
        },
        (
            ServerState::AwaitingSelection { listing },
            ServerEvent::FrameReceived { frame: Frame::Text(name) },
        ) => {
            if listing_contains(&listing, &name) {
                let requested = name.clone();
                (
                    ServerState::ReadingFile { listing, name },
                    ServerAction::OpenFile { name: requested },
                )
            } else {
                (ServerState::Closed, ServerAction::CloseConnection)
            }
        },
        (
            ServerState::ReadingFile { listing, name: _ },
            ServerEvent::FileRead { bytes },
        ) => (
            ServerState::AwaitingSelection { listing },
            ServerAction::SendFile { frame: Frame::Binary(bytes) },
        ),
        _ => (ServerState::Closed, ServerAction::CloseConnection),
    }
}

} // verus!
