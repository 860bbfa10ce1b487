//! The client side: connect, receive the listing, let the operator
//! pick a file, request it by name, persist the received bytes, then
//! choose between another file on the same connection and another
//! server.
//!
//! The driver is a pure state machine: `client_step` maps the current
//! state and one observed event to the next state and the action the
//! embedding program must perform. Rendering, line reading, transport
//! and filesystem work stay outside. No transition ever asks the
//! embedding program to abort: transport trouble leads back to address
//! entry, bad input to a fresh prompt.

use vstd::prelude::*;
use crate::frame::Frame;
use crate::frame::FrameModel;
use crate::input::Choice;
use crate::input::choice_of_line;
use crate::input::parse_choice;
use crate::input::parse_selection;
use crate::input::selection_of_line;
use crate::input::trim_line;
use crate::input::trimmed;
use crate::listing::listing_of_frame;
use crate::listing::parse_listing_frame;
use crate::transfer::download_dest_spec;
use crate::transfer::download_destination;

verus! {

/// Configuration handed to the driver at construction: the address
/// used when the operator enters nothing.
pub struct ClientConfig {
    pub default_addr: String,
}

impl View for ClientConfig {
    type V = Seq<char>;

    open spec fn view(&self) -> Seq<char> {
        self.default_addr@
    }
}

/// Where the driver stands.
pub enum ClientState {
    /// No connection; the operator is asked for an address.
    Disconnected,
    /// A connection to this address is being attempted.
    Connecting { addr: String },
    /// Connected; the first frame is awaited.
    AwaitingListing,
    /// The listing is on screen; the operator is asked for an index.
    SelectingFile { listing: Vec<String> },
    /// The request went out; one binary frame is awaited.
    Downloading { listing: Vec<String>, name: String },
    /// The operator is asked: another file, or another server.
    ChoosingNext { listing: Vec<String> },
}

#[verifier::ext_equal]
pub ghost enum ClientStateModel {
    Disconnected,
    Connecting { addr: Seq<char> },
    AwaitingListing,
    SelectingFile { listing: Seq<Seq<char>> },
    Downloading { listing: Seq<Seq<char>>, name: Seq<char> },
    ChoosingNext { listing: Seq<Seq<char>> },
}

impl View for ClientState {
    type V = ClientStateModel;

    open spec fn view(&self) -> ClientStateModel {
        match self {
            ClientState::Disconnected => ClientStateModel::Disconnected,
            ClientState::Connecting { addr } => ClientStateModel::Connecting { addr: addr@ },
            ClientState::AwaitingListing => ClientStateModel::AwaitingListing,
            ClientState::SelectingFile { listing } => ClientStateModel::SelectingFile {
                listing: listing.deep_view(),
            },
            ClientState::Downloading { listing, name } => ClientStateModel::Downloading {
                listing: listing.deep_view(),
                name: name@,
            },
            ClientState::ChoosingNext { listing } => ClientStateModel::ChoosingNext {
                listing: listing.deep_view(),
            },
        }
    }
}

/// One thing the embedding program observed.
pub enum ClientEvent {
    /// The operator answered the address prompt with this line.
    AddressEntered { line: String },
    /// The attempted connection stands.
    Connected,
    /// The attempted connection failed.
    ConnectFailed,
    /// A frame arrived from the server.
    FrameReceived { frame: Frame },
    /// The transport dropped or the server closed.
    PeerGone,
    /// The operator answered the current prompt with this line.
    InputEntered { line: String },
}

#[verifier::ext_equal]
pub ghost enum ClientEventModel {
    AddressEntered { line: Seq<char> },
    Connected,
    ConnectFailed,
    FrameReceived { frame: FrameModel },
    PeerGone,
    InputEntered { line: Seq<char> },
}

impl View for ClientEvent {
    type V = ClientEventModel;

    open spec fn view(&self) -> ClientEventModel {
        match self {
            ClientEvent::AddressEntered { line } => ClientEventModel::AddressEntered {
                line: line@,
            },
            ClientEvent::Connected => ClientEventModel::Connected,
            ClientEvent::ConnectFailed => ClientEventModel::ConnectFailed,
            ClientEvent::FrameReceived { frame } => ClientEventModel::FrameReceived {
                frame: frame@,
            },
            ClientEvent::PeerGone => ClientEventModel::PeerGone,
            ClientEvent::InputEntered { line } => ClientEventModel::InputEntered { line: line@ },
        }
    }
}

/// What the embedding program must do next. Whatever the state holds
/// (the listing to render, the selected name) is read from the
/// returned state; actions carry only what leaves the driver.
pub enum ClientAction {
    /// Ask the operator for a server address.
    PromptAddress,
    /// Try to open a connection to this address.
    Connect { addr: String },
    /// Wait for the first frame of the session.
    AwaitListing,
    /// Render the listing with its indices and ask for a selection.
    ShowListing,
    /// Tell the operator the input was invalid and ask again.
    RepromptSelection,
    /// Send this text frame naming the selected file, then await one
    /// frame.
    RequestFile { frame: Frame },
    /// Persist these bytes under this path, report the transfer, then
    /// offer the post-transfer choice.
    SaveFile { path: String, bytes: Vec<u8> },
    /// Report a failed download, then offer the post-transfer choice.
    ReportDownloadFailed,
    /// Offer the post-transfer choice (again).
    PromptChoice,
    /// Send a close frame, drop the connection, and ask for a new
    /// address.
    CloseThenPromptAddress,
}

#[verifier::ext_equal]
pub ghost enum ClientActionModel {
    PromptAddress,
    Connect { addr: Seq<char> },
    AwaitListing,
    ShowListing,
    RepromptSelection,
    RequestFile { frame: FrameModel },
    SaveFile { path: Seq<char>, bytes: Seq<u8> },
    ReportDownloadFailed,
    PromptChoice,
    CloseThenPromptAddress,
}

impl View for ClientAction {
    type V = ClientActionModel;

    open spec fn view(&self) -> ClientActionModel {
        match self {
            ClientAction::PromptAddress => ClientActionModel::PromptAddress,
            ClientAction::Connect { addr } => ClientActionModel::Connect { addr: addr@ },
            ClientAction::AwaitListing => ClientActionModel::AwaitListing,
            ClientAction::ShowListing => ClientActionModel::ShowListing,
            ClientAction::RepromptSelection => ClientActionModel::RepromptSelection,
            ClientAction::RequestFile { frame } => ClientActionModel::RequestFile {
                frame: frame@,
            },
            ClientAction::SaveFile { path, bytes } => ClientActionModel::SaveFile {
                path: path@,
                bytes: bytes@,
            },
            ClientAction::ReportDownloadFailed => ClientActionModel::ReportDownloadFailed,
            ClientAction::PromptChoice => ClientActionModel::PromptChoice,
            ClientAction::CloseThenPromptAddress => ClientActionModel::CloseThenPromptAddress,
        }
    }
}

/// The driver's transition relation, against the configured default
/// address. An empty address line means the default; a frame that is
/// no decodable listing means no files; a non-binary frame in place of
/// the file means a failed download, reported once, never retried; an
/// invalid selection or choice line means one more prompt; a vanished
/// peer leads back to address entry.
pub open spec fn client_transition(
    cfg: Seq<char>,
    s: ClientStateModel,
    e: ClientEventModel,
) -> (ClientStateModel, ClientActionModel) {
    match (s, e) {
        (
            ClientStateModel::Disconnected,
            ClientEventModel::AddressEntered { line },
        ) => {
            let t = trimmed(line);
            let addr = if t.len() == 0 { cfg } else { t };
            (ClientStateModel::Connecting { addr }, ClientActionModel::Connect { addr })
        },
        (
            ClientStateModel::Connecting { addr },
            ClientEventModel::Connected,
        ) => (ClientStateModel::AwaitingListing, ClientActionModel::AwaitListing),
        (
            ClientStateModel::AwaitingListing,
            ClientEventModel::FrameReceived { frame },
        ) => {
            let names = listing_of_frame(frame);
            if names.len() == 0 {
                (
                    ClientStateModel::ChoosingNext { listing: names },
                    ClientActionModel::PromptChoice,
                )
            } else {
                (
                    ClientStateModel::SelectingFile { listing: names },
                    ClientActionModel::ShowListing,
                )
            }
        },
        (
            ClientStateModel::SelectingFile { listing },
            ClientEventModel::InputEntered { line },
        ) => match selection_of_line(line, listing.len() as int) {
            Some(i) => (
                ClientStateModel::Downloading { listing, name: listing[i] },
                ClientActionModel::RequestFile { frame: FrameModel::Text(listing[i]) },
            ),
            None => (
                ClientStateModel::SelectingFile { listing },
                ClientActionModel::RepromptSelection,
            ),
        },
        (
            ClientStateModel::Downloading { listing, name },
            ClientEventModel::FrameReceived { frame: FrameModel::Binary(bytes) },
        ) => (
            ClientStateModel::ChoosingNext { listing },
            ClientActionModel::SaveFile { path: download_dest_spec(name), bytes },
        ),
        (
            ClientStateModel::Downloading { listing, name },
            ClientEventModel::FrameReceived { frame },
        ) => (
            ClientStateModel::ChoosingNext { listing },
            ClientActionModel::ReportDownloadFailed,
        ),
        (
            ClientStateModel::ChoosingNext { listing },
            ClientEventModel::InputEntered { line },
        ) => match choice_of_line(line) {
            Some(Choice::AnotherFile) => if listing.len() > 0 {
                (
                    ClientStateModel::SelectingFile { listing },
                    ClientActionModel::ShowListing,
                )
            } else {
                (
                    ClientStateModel::ChoosingNext { listing },
                    ClientActionModel::PromptChoice,
                )
            },
            Some(Choice::AnotherServer) => (
                ClientStateModel::Disconnected,
                ClientActionModel::CloseThenPromptAddress,
            ),
            None => (
                ClientStateModel::ChoosingNext { listing },
                ClientActionModel::PromptChoice,
            ),
        },
        _ => (ClientStateModel::Disconnected, ClientActionModel::PromptAddress),
    }
}

/// Drive the client by one observed event.
pub fn client_step(config: &ClientConfig, state: ClientState, event: ClientEvent) -> (r: (
    ClientState,
    ClientAction,
))
    ensures
        (r.0@, r.1@) == client_transition(config@, state@, event@),
{
    match (state, event) {
        (ClientState::Disconnected, ClientEvent::AddressEntered { line }) => {
            let t = trim_line(line.as_str());
            let addr = if t.is_empty() {
                config.default_addr.clone()
            } else {
                t.to_owned()
            };
            let target = addr.clone();
            (ClientState::Connecting { addr }, ClientAction::Connect { addr: target })
        },
        (ClientState::Connecting { addr: _ }, ClientEvent::Connected) => {
            (ClientState::AwaitingListing, ClientAction::AwaitListing)
        },
        (ClientState::AwaitingListing, ClientEvent::FrameReceived { frame }) => {
            let names = parse_listing_frame(&frame);
            if names.len() == 0 {
                (ClientState::ChoosingNext { listing: names }, ClientAction::PromptChoice)
            } else {
                (ClientState::SelectingFile { listing: names }, ClientAction::ShowListing)
            }
        },
        (ClientState::SelectingFile { listing }, ClientEvent::InputEntered { line }) => {
            match parse_selection(line.as_str(), listing.len()) {
                Some(i) => {
                    let name = listing[i].clone();
                    let requested = name.clone();
                    proof {
                        assert(listing.deep_view()[i as int] == listing@[i as int]@);
                    }
                    (
                        ClientState::Downloading { listing, name },
                        ClientAction::RequestFile { frame: Frame::Text(requested) },
                    )
                },
                _ => (
                    ClientState::SelectingFile { listing },
                    ClientAction::RepromptSelection,
                ),
            }
        },
        (
            ClientState::Downloading { listing, name },
            ClientEvent::FrameReceived { frame: Frame::Binary(bytes) },
        ) => {
            let path = download_destination(name.as_str());
            (ClientState::ChoosingNext { listing }, ClientAction::SaveFile { path, bytes })
        },
        (
            ClientState::Downloading { listing, name: _ },
            ClientEvent::FrameReceived { frame: _ },
        ) => (ClientState::ChoosingNext { listing }, ClientAction::ReportDownloadFailed),
        (ClientState::ChoosingNext { listing }, ClientEvent::InputEntered { line }) => {
            match parse_choice(line.as_str()) {
                Some(Choice::AnotherFile) => {
                    if listing.len() > 0 {
                        (ClientState::SelectingFile { listing }, ClientAction::ShowListing)
                    } else {
                        (ClientState::ChoosingNext { listing }, ClientAction::PromptChoice)
                    }
                },
                Some(Choice::AnotherServer) => {
                    (ClientState::Disconnected, ClientAction::CloseThenPromptAddress)
                },
                _ => (ClientState::ChoosingNext { listing }, ClientAction::PromptChoice),
            }
        },
        _ => (ClientState::Disconnected, ClientAction::PromptAddress),
    }
}

} // verus!
