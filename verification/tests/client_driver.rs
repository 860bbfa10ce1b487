use fileshare::client::{client_step, ClientAction, ClientConfig, ClientEvent, ClientState};
use fileshare::frame::Frame;
use fileshare::listing::listing_frame;
use fileshare::server::{server_step, ServerAction, ServerEvent, ServerState};

fn config() -> ClientConfig {
    ClientConfig { default_addr: "10.0.0.1:1337".to_string() }
}

fn names(v: &[&str]) -> Vec<String> {
    v.iter().map(|s| s.to_string()).collect()
}

#[test]
fn empty_address_line_means_the_default() {
    let (state, action) = client_step(
        &config(),
        ClientState::Disconnected,
        ClientEvent::AddressEntered { line: "\n".to_string() },
    );
    assert!(matches!(state, ClientState::Connecting { ref addr } if addr == "10.0.0.1:1337"));
    assert!(matches!(action, ClientAction::Connect { ref addr } if addr == "10.0.0.1:1337"));
}

#[test]
fn entered_address_is_trimmed_and_used() {
    let (state, action) = client_step(
        &config(),
        ClientState::Disconnected,
        ClientEvent::AddressEntered { line: " 192.168.1.5:9000 \r\n".to_string() },
    );
    assert!(matches!(state, ClientState::Connecting { ref addr } if addr == "192.168.1.5:9000"));
    assert!(matches!(action, ClientAction::Connect { ref addr } if addr == "192.168.1.5:9000"));
}

#[test]
fn failed_connection_reprompts_for_an_address() {
    let (state, action) = client_step(
        &config(),
        ClientState::Connecting { addr: "10.0.0.1:1337".to_string() },
        ClientEvent::ConnectFailed,
    );
    assert!(matches!(state, ClientState::Disconnected));
    assert!(matches!(action, ClientAction::PromptAddress));
}

#[test]
fn listing_with_files_is_shown_for_selection() {
    let frame = listing_frame(&names(&["a.txt", "b.bin"]));
    let (state, action) =
        client_step(&config(), ClientState::AwaitingListing, ClientEvent::FrameReceived { frame });
    assert!(matches!(state, ClientState::SelectingFile { ref listing } if *listing == names(&["a.txt", "b.bin"])));
    assert!(matches!(action, ClientAction::ShowListing));
}

#[test]
fn empty_listing_skips_selection_and_offers_only_the_choice_menu() {
    let frame = listing_frame(&names(&[]));
    let (state, action) =
        client_step(&config(), ClientState::AwaitingListing, ClientEvent::FrameReceived { frame });
    assert!(matches!(state, ClientState::ChoosingNext { ref listing } if listing.is_empty()));
    assert!(matches!(action, ClientAction::PromptChoice));
}

#[test]
fn undecodable_listing_counts_as_no_files() {
    let (state, action) = client_step(
        &config(),
        ClientState::AwaitingListing,
        ClientEvent::FrameReceived { frame: Frame::Text("not a listing".to_string()) },
    );
    assert!(matches!(state, ClientState::ChoosingNext { ref listing } if listing.is_empty()));
    assert!(matches!(action, ClientAction::PromptChoice));

    let (state, _) = client_step(
        &config(),
        ClientState::AwaitingListing,
        ClientEvent::FrameReceived { frame: Frame::Binary(vec![1, 2]) },
    );
    assert!(matches!(state, ClientState::ChoosingNext { ref listing } if listing.is_empty()));
}

#[test]
fn whole_exchange_downloads_the_selected_file() {
    // Directory holds ["a.txt", "b.bin"]; the operator selects index 1;
    // b.bin's bytes come through unchanged and land under its name.
    let b_bin_bytes = vec![0u8, 159, 146, 150, 7];
    let listing = names(&["a.txt", "b.bin"]);

    let (srv, srv_action) =
        server_step(ServerState::Starting, ServerEvent::ListingRead { names: listing.clone() });
    let listing_frame_sent = match srv_action {
        ServerAction::SendListing { frame } => frame,
        _ => panic!("expected the listing to be sent"),
    };

    let (cl, cl_action) = client_step(
        &config(),
        ClientState::AwaitingListing,
        ClientEvent::FrameReceived { frame: listing_frame_sent },
    );
    assert!(matches!(cl_action, ClientAction::ShowListing));

    let (cl, cl_action) =
        client_step(&config(), cl, ClientEvent::InputEntered { line: "1".to_string() });
    let request = match cl_action {
        ClientAction::RequestFile { frame } => frame,
        _ => panic!("expected a request for the selected file"),
    };
    assert!(matches!(&request, Frame::Text(name) if name == "b.bin"));

    let (srv, srv_action) = server_step(srv, ServerEvent::FrameReceived { frame: request });
    assert!(matches!(srv_action, ServerAction::OpenFile { ref name } if name == "b.bin"));

    let (_srv, srv_action) =
        server_step(srv, ServerEvent::FileRead { bytes: b_bin_bytes.clone() });
    let file_frame = match srv_action {
        ServerAction::SendFile { frame } => frame,
        _ => panic!("expected the file bytes to be sent"),
    };

    let (cl, cl_action) =
        client_step(&config(), cl, ClientEvent::FrameReceived { frame: file_frame });
    match cl_action {
        ClientAction::SaveFile { path, bytes } => {
            assert!(path.contains("b.bin"));
            assert_eq!(path, "Shared/b.bin");
            assert_eq!(bytes, b_bin_bytes);
            assert_eq!(bytes.len(), b_bin_bytes.len());
        }
        _ => panic!("expected the bytes to be persisted"),
    }
    assert!(matches!(cl, ClientState::ChoosingNext { .. }));
}

#[test]
fn out_of_range_selections_reprompt_until_a_valid_one() {
    let cfg = config();
    let mut state = ClientState::SelectingFile { listing: names(&["a.txt", "b.bin"]) };
    let mut reprompts = 0;
    for bad in ["5", "abc", "2"] {
        let (next, action) =
            client_step(&cfg, state, ClientEvent::InputEntered { line: bad.to_string() });
        assert!(matches!(action, ClientAction::RepromptSelection));
        assert!(matches!(next, ClientState::SelectingFile { .. }));
        reprompts += 1;
        state = next;
    }
    assert_eq!(reprompts, 3);
    let (state, action) =
        client_step(&cfg, state, ClientEvent::InputEntered { line: "0".to_string() });
    assert!(matches!(state, ClientState::Downloading { ref name, .. } if name == "a.txt"));
    assert!(matches!(action, ClientAction::RequestFile { frame: Frame::Text(ref n) } if n == "a.txt"));
}

#[test]
fn non_binary_frame_reports_failure_and_lands_on_the_menu() {
    let (state, action) = client_step(
        &config(),
        ClientState::Downloading { listing: names(&["a.txt"]), name: "a.txt".to_string() },
        ClientEvent::FrameReceived { frame: Frame::Text("oops".to_string()) },
    );
    assert!(matches!(state, ClientState::ChoosingNext { .. }));
    assert!(matches!(action, ClientAction::ReportDownloadFailed));

    let (state, action) = client_step(
        &config(),
        ClientState::Downloading { listing: names(&["a.txt"]), name: "a.txt".to_string() },
        ClientEvent::FrameReceived { frame: Frame::Close },
    );
    assert!(matches!(state, ClientState::ChoosingNext { .. }));
    assert!(matches!(action, ClientAction::ReportDownloadFailed));
}

#[test]
fn choice_menu_offers_exactly_two_ways_on() {
    let cfg = config();
    let menu = || ClientState::ChoosingNext { listing: names(&["a.txt"]) };

    let (state, action) =
        client_step(&cfg, menu(), ClientEvent::InputEntered { line: "1".to_string() });
    assert!(matches!(state, ClientState::SelectingFile { .. }));
    assert!(matches!(action, ClientAction::ShowListing));

    let (state, action) =
        client_step(&cfg, menu(), ClientEvent::InputEntered { line: "2".to_string() });
    assert!(matches!(state, ClientState::Disconnected));
    assert!(matches!(action, ClientAction::CloseThenPromptAddress));

    let (state, action) =
        client_step(&cfg, menu(), ClientEvent::InputEntered { line: "9".to_string() });
    assert!(matches!(state, ClientState::ChoosingNext { .. }));
    assert!(matches!(action, ClientAction::PromptChoice));
}

#[test]
fn empty_listing_keeps_offering_the_choice_menu() {
    let (state, action) = client_step(
        &config(),
        ClientState::ChoosingNext { listing: names(&[]) },
        ClientEvent::InputEntered { line: "1".to_string() },
    );
    assert!(matches!(state, ClientState::ChoosingNext { .. }));
    assert!(matches!(action, ClientAction::PromptChoice));
}

#[test]
fn losing_the_peer_returns_to_address_entry() {
    let (state, action) =
        client_step(&config(), ClientState::AwaitingListing, ClientEvent::PeerGone);
    assert!(matches!(state, ClientState::Disconnected));
    assert!(matches!(action, ClientAction::PromptAddress));
}
