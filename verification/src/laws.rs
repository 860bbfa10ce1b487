//! The protocol's guarantees, proved once and for all over the two
//! transition relations.

use vstd::prelude::*;
use crate::client::ClientActionModel;
use crate::client::ClientEventModel;
use crate::client::ClientStateModel;
use crate::client::client_transition;
use crate::frame::FrameModel;
use crate::input::all_digits;
use crate::input::decimal_val;
use crate::input::selection_of_line;
use crate::input::trimmed;
use crate::listing::listing_has_name;
use crate::listing::listing_of_frame;
use crate::server::ServerActionModel;
use crate::server::ServerEventModel;
use crate::server::ServerStateModel;
use crate::server::server_transition;
use crate::transfer::download_dest_spec;

verus! {

/// A selection that does not name a listed file never crashes the
/// server and never yields a file: that session ends with the
/// connection closed and no binary frame sent.
pub proof fn unknown_selection_closes_without_file(listing: Seq<Seq<char>>, name: Seq<char>)
    requires
        !listing_has_name(listing, name),
    ensures
        server_transition(
            ServerStateModel::AwaitingSelection { listing },
            ServerEventModel::FrameReceived { frame: FrameModel::Text(name) },
        ) == (ServerStateModel::Closed, ServerActionModel::CloseConnection),
{
}

/// The server streams bytes only right after the resolved file was
/// read, and streams exactly the bytes that were read.
pub proof fn file_frames_carry_read_bytes(s: ServerStateModel, e: ServerEventModel)
    ensures
        server_transition(s, e).1 matches ServerActionModel::SendFile { frame } ==> (
        e matches ServerEventModel::FileRead { bytes } && frame == FrameModel::Binary(bytes)),
{
}

/// A failed directory read ends that session before any frame is
/// sent; nothing else is affected, and a later session starts afresh
/// from `Starting`.
pub proof fn failed_listing_closes_quietly()
    ensures
        server_transition(ServerStateModel::Starting, ServerEventModel::ListingFailed) == (
            ServerStateModel::Closed,
            ServerActionModel::CloseConnection,
        ),
{
}

/// A closed session stays closed, whatever else arrives.
pub proof fn closed_session_stays_closed(e: ServerEventModel)
    ensures
        server_transition(ServerStateModel::Closed, e) == (
            ServerStateModel::Closed,
            ServerActionModel::CloseConnection,
        ),
{
}

/// Round trip of a transfer: the bytes the server was handed from the
/// file travel unchanged into the binary frame, and the bytes of a
/// binary frame travel unchanged into what the client is told to
/// persist, under the selected file's name inside the local directory.
pub proof fn transfer_preserves_bytes(
    cfg: Seq<char>,
    srv_listing: Seq<Seq<char>>,
    srv_name: Seq<char>,
    cl_listing: Seq<Seq<char>>,
    cl_name: Seq<char>,
    bytes: Seq<u8>,
)
    ensures
        server_transition(
            ServerStateModel::ReadingFile { listing: srv_listing, name: srv_name },
            ServerEventModel::FileRead { bytes },
        ).1 == (ServerActionModel::SendFile { frame: FrameModel::Binary(bytes) }),
        client_transition(
            cfg,
            ClientStateModel::Downloading { listing: cl_listing, name: cl_name },
            ClientEventModel::FrameReceived { frame: FrameModel::Binary(bytes) },
        ).1 == (ClientActionModel::SaveFile { path: download_dest_spec(cl_name), bytes }),
{
}

/// A non-binary frame where the file was expected: the download is
/// reported failed exactly once and the driver lands on the stable
/// choice menu — no retry, no new request.
pub proof fn non_binary_frame_fails_download(
    cfg: Seq<char>,
    listing: Seq<Seq<char>>,
    name: Seq<char>,
    frame: FrameModel,
)
    requires
        !(frame is Binary),
    ensures
        client_transition(
            cfg,
            ClientStateModel::Downloading { listing, name },
            ClientEventModel::FrameReceived { frame },
        ) == (
            ClientStateModel::ChoosingNext { listing },
            ClientActionModel::ReportDownloadFailed,
        ),
{
}

/// A frame that decodes to no files skips selection entirely: the
/// driver goes straight to the choice menu.
pub proof fn empty_listing_skips_selection(cfg: Seq<char>, frame: FrameModel)
    requires
        listing_of_frame(frame).len() == 0,
    ensures
        client_transition(
            cfg,
            ClientStateModel::AwaitingListing,
            ClientEventModel::FrameReceived { frame },
        ) == (
            ClientStateModel::ChoosingNext { listing: listing_of_frame(frame) },
            ClientActionModel::PromptChoice,
        ),
{
}

/// Invalid selection input never advances and is never defaulted: the
/// driver keeps the same listing and asks once more, for as long as
/// the input stays invalid.
pub proof fn invalid_selection_reprompts(cfg: Seq<char>, listing: Seq<Seq<char>>, line: Seq<char>)
    requires
        selection_of_line(line, listing.len() as int) is None,
    ensures
        client_transition(
            cfg,
            ClientStateModel::SelectingFile { listing },
            ClientEventModel::InputEntered { line },
        ) == (
            ClientStateModel::SelectingFile { listing },
            ClientActionModel::RepromptSelection,
        ),
{
}

/// The server opens a file only while a selection was awaited, and
/// only one that stands in the listing it sent.
pub proof fn server_opens_only_listed_files(s: ServerStateModel, e: ServerEventModel)
    ensures
        server_transition(s, e).1 matches ServerActionModel::OpenFile { name } ==> (
        s matches ServerStateModel::AwaitingSelection { listing } && listing_has_name(
            listing,
            name,
        )),
{
}

/// The driver requests only files that stand in its listing: whatever
/// the operator types, no request for an unlisted name ever goes out.
pub proof fn client_requests_only_listed_files(
    cfg: Seq<char>,
    s: ClientStateModel,
    e: ClientEventModel,
)
    ensures
        client_transition(cfg, s, e).1 matches ClientActionModel::RequestFile { frame } ==> (
        s matches ClientStateModel::SelectingFile { listing } && (frame matches FrameModel::Text(
            name,
        ) && listing_has_name(listing, name))),
{
    if s is SelectingFile && e is InputEntered {
        let listing = s->SelectingFile_listing;
        let line = e->InputEntered_line;
        if let Some(i) = selection_of_line(line, listing.len() as int) {
            lemma_decimal_val_nonneg(trimmed(line));
            assert(0 <= i < listing.len());
            assert(listing_has_name(listing, listing[i]));
        }
    }
}

proof fn lemma_decimal_val_nonneg(s: Seq<char>)
    requires
        all_digits(s),
    ensures
        decimal_val(s) >= 0,
    decreases s.len(),
{
    if s.len() > 0 {
        assert(all_digits(s.drop_last()));
        lemma_decimal_val_nonneg(s.drop_last());
    }
}

/// A valid selection is accepted at once: the driver requests exactly
/// the file the operator's index names.
pub proof fn valid_selection_requests_named_file(
    cfg: Seq<char>,
    listing: Seq<Seq<char>>,
    line: Seq<char>,
    i: int,
)
    requires
        selection_of_line(line, listing.len() as int) == Some(i),
    ensures
        0 <= i < listing.len(),
        client_transition(
            cfg,
            ClientStateModel::SelectingFile { listing },
            ClientEventModel::InputEntered { line },
        ) == (
            ClientStateModel::Downloading { listing, name: listing[i] },
            ClientActionModel::RequestFile { frame: FrameModel::Text(listing[i]) },
        ),
{
    lemma_decimal_val_nonneg(trimmed(line));
}

} // verus!
