use vantara::display::setup::crtc_scan_stays_in_range;
use vantara::display::setup::{
    choose_crtc, choose_encoder, preferred_mode_index, ConnectorSummary, CrtcChoice,
    EncoderChoice, EncoderSummary, SetupAction, SetupEvent, SetupSearch,
};
use vantara::display::utils::{is_drm_card_name, select_drm_card};

fn name(s: &str) -> Option<Vec<u8>> {
    Some(s.as_bytes().to_vec())
}

#[test]
fn card_names_start_with_card() {
    assert!(is_drm_card_name(b"card0"));
    assert!(is_drm_card_name(b"card"));
    assert!(!is_drm_card_name(b"renderD128"));
    assert!(!is_drm_card_name(b"car"));
}

#[test]
fn first_card_is_selected() {
    let entries = vec![name("by-path"), name("renderD128"), name("card1"), name("card0")];
    assert_eq!(select_drm_card(&entries), Some(2));
}

#[test]
fn unreadable_entry_before_a_card_stops_the_scan() {
    let entries = vec![name("renderD128"), None, name("card0")];
    assert_eq!(select_drm_card(&entries), None);
}

#[test]
fn no_card_means_none() {
    assert_eq!(select_drm_card(&vec![name("renderD128")]), None);
    assert_eq!(select_drm_card(&vec![]), None);
}

#[test]
fn encoder_choice_prefers_the_current_encoder() {
    let c = ConnectorSummary { connected: true, has_current_encoder: true, encoder_count: 2 };
    assert_eq!(choose_encoder(&c), Some(EncoderChoice::Current));
    let c = ConnectorSummary { connected: true, has_current_encoder: false, encoder_count: 2 };
    assert_eq!(choose_encoder(&c), Some(EncoderChoice::FirstListed));
    let c = ConnectorSummary { connected: true, has_current_encoder: false, encoder_count: 0 };
    assert_eq!(choose_encoder(&c), None);
    let c = ConnectorSummary { connected: false, has_current_encoder: true, encoder_count: 1 };
    assert_eq!(choose_encoder(&c), None);
}

#[test]
fn crtc_choice_follows_the_mask() {
    let e = EncoderSummary { has_crtc: true, possible_crtcs: 0 };
    assert_eq!(choose_crtc(&e, 3), Some(CrtcChoice::Current));
    let e = EncoderSummary { has_crtc: false, possible_crtcs: 0b110 };
    assert_eq!(choose_crtc(&e, 3), Some(CrtcChoice::Listed(1)));
    let e = EncoderSummary { has_crtc: false, possible_crtcs: 0b1000 };
    assert_eq!(choose_crtc(&e, 3), None);
    let e = EncoderSummary { has_crtc: false, possible_crtcs: 1 << 5 };
    assert_eq!(choose_crtc(&e, 40), Some(CrtcChoice::Listed(5)));
}

#[test]
fn search_skips_disconnected_connectors() {
    let (mut search, action) = SetupSearch::start(2, 3);
    assert_eq!(action, SetupAction::InspectConnector(0));
    let off = ConnectorSummary { connected: false, has_current_encoder: false, encoder_count: 1 };
    assert_eq!(search.step(SetupEvent::Connector(Some(off))), SetupAction::InspectConnector(1));
    let on = ConnectorSummary { connected: true, has_current_encoder: true, encoder_count: 1 };
    assert_eq!(
        search.step(SetupEvent::Connector(Some(on))),
        SetupAction::InspectEncoder(EncoderChoice::Current)
    );
    let enc = EncoderSummary { has_crtc: false, possible_crtcs: 0b10 };
    assert_eq!(search.step(SetupEvent::Encoder(Some(enc))), SetupAction::Use(CrtcChoice::Listed(1)));
}

#[test]
fn search_moves_on_when_an_encoder_has_no_crtc() {
    let (mut search, _) = SetupSearch::start(2, 1);
    let on = ConnectorSummary { connected: true, has_current_encoder: false, encoder_count: 1 };
    assert_eq!(
        search.step(SetupEvent::Connector(Some(on))),
        SetupAction::InspectEncoder(EncoderChoice::FirstListed)
    );
    let enc = EncoderSummary { has_crtc: false, possible_crtcs: 0b10 };
    assert_eq!(search.step(SetupEvent::Encoder(Some(enc))), SetupAction::InspectConnector(1));
    let off = ConnectorSummary { connected: false, has_current_encoder: false, encoder_count: 0 };
    assert_eq!(search.step(SetupEvent::Connector(Some(off))), SetupAction::NoDisplay);
}

#[test]
fn refused_request_aborts_the_search() {
    let (mut search, _) = SetupSearch::start(3, 1);
    assert_eq!(search.step(SetupEvent::Connector(None)), SetupAction::Abort);
    let (mut search, _) = SetupSearch::start(3, 1);
    let on = ConnectorSummary { connected: true, has_current_encoder: true, encoder_count: 1 };
    search.step(SetupEvent::Connector(Some(on)));
    assert_eq!(search.step(SetupEvent::Encoder(None)), SetupAction::Abort);
}

#[test]
fn no_connectors_means_no_display() {
    let (_, action) = SetupSearch::start(0, 2);
    assert_eq!(action, SetupAction::NoDisplay);
}

#[test]
fn preferred_mode_or_first() {
    assert_eq!(preferred_mode_index(&vec![false, true, true]), 1);
    assert_eq!(preferred_mode_index(&vec![false, false]), 0);
    assert_eq!(preferred_mode_index(&vec![true]), 0);
}

#[test]
fn search_ends_within_two_requests_per_connector() {
    let n = 5usize;
    let (mut search, mut action) = SetupSearch::start(n, 2);
    let mut requests = 0;
    loop {
        action = match action {
            SetupAction::InspectConnector(_) => {
                requests += 1;
                let c = ConnectorSummary { connected: true, has_current_encoder: true, encoder_count: 1 };
                search.step(SetupEvent::Connector(Some(c)))
            }
            SetupAction::InspectEncoder(_) => {
                requests += 1;
                let e = EncoderSummary { has_crtc: false, possible_crtcs: 0b100 };
                search.step(SetupEvent::Encoder(Some(e)))
            }
            other => {
                assert_eq!(other, SetupAction::NoDisplay);
                break;
            }
        };
    }
    assert_eq!(requests, 2 * n);
}

#[test]
fn crtc_scan_range_check() {
    assert!(crtc_scan_stays_in_range(&EncoderSummary { has_crtc: false, possible_crtcs: 0 }, 32));
    assert!(!crtc_scan_stays_in_range(&EncoderSummary { has_crtc: false, possible_crtcs: 0 }, 33));
    assert!(crtc_scan_stays_in_range(&EncoderSummary { has_crtc: false, possible_crtcs: 1 << 31 }, 33));
    assert!(crtc_scan_stays_in_range(&EncoderSummary { has_crtc: true, possible_crtcs: 0 }, 40));
}
