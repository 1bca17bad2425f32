use gnosis_vpn_app::icons::{
    apply_status, determine_app_icon, determine_tray_icon, extract_connection_state_from_icon,
    recover_label, select_app_icon, select_tray_icon, update_app_icon,
    update_icon_name_if_changed, update_tray_icon, AppIcon, AppIconState, IconRedraws, TrayIcon,
    TrayIconState, APP_ICON_CONNECTED, APP_ICON_CONNECTED_LOW_FUNDS, APP_ICON_CONNECTING_1,
    APP_ICON_CONNECTING_2, APP_ICON_DISCONNECTED, APP_ICON_DISCONNECTED_LOW_FUNDS,
    TRAY_ICON_CONNECTED, TRAY_ICON_CONNECTED_BLACK, TRAY_ICON_CONNECTING,
    TRAY_ICON_CONNECTING_BLACK, TRAY_ICON_DISCONNECTED, TRAY_ICON_DISCONNECTED_BLACK,
};
use gnosis_vpn_app::label::ConnectionLabel;
use gnosis_vpn_app::theme::Theme;
use gnosis_vpn_app::{
    ConnectionState, Destination, DestinationState, FundingIssue, FundingState, RoutingOptions,
    RunMode, StatusResponse,
};
use std::collections::HashMap;
use std::time::SystemTime;

const LABELS: [ConnectionLabel; 4] = [
    ConnectionLabel::Connected,
    ConnectionLabel::Connecting,
    ConnectionLabel::Disconnecting,
    ConnectionLabel::Disconnected,
];

const THEMES: [Option<Theme>; 3] = [None, Some(Theme::Light), Some(Theme::Dark)];

const APP_ICONS: [AppIcon; 6] = [
    AppIcon::Connected,
    AppIcon::ConnectedLowFunds,
    AppIcon::Connecting1,
    AppIcon::Connecting2,
    AppIcon::Disconnected,
    AppIcon::DisconnectedLowFunds,
];

const TRAY_ICONS: [TrayIcon; 6] = [
    TrayIcon::Connected,
    TrayIcon::ConnectedBlack,
    TrayIcon::Connecting,
    TrayIcon::ConnectingBlack,
    TrayIcon::Disconnected,
    TrayIcon::DisconnectedBlack,
];

fn status_of(run_mode: RunMode, states: Vec<ConnectionState>) -> StatusResponse {
    let mut destinations = Vec::new();
    for connection_state in states {
        destinations.push(DestinationState {
            destination: Destination {
                meta: HashMap::new(),
                address: "0x0000000000000000000000000000000000000001".to_string(),
                routing: RoutingOptions::IntermediatePath(vec![]),
            },
            connection_state,
            last_connection_error: None,
        });
    }
    StatusResponse { run_mode, destinations, network: "rotsee".to_string() }
}

#[test]
fn catalog_file_names() {
    assert_eq!(AppIcon::Connected.file_name(), "app-icon-connected.png");
    assert_eq!(AppIcon::ConnectedLowFunds.file_name(), "app-icon-connected-low-funds.png");
    assert_eq!(AppIcon::Connecting1.file_name(), "app-icon-connecting-1.png");
    assert_eq!(AppIcon::Connecting2.file_name(), "app-icon-connecting-2.png");
    assert_eq!(AppIcon::Disconnected.file_name(), "app-icon-disconnected.png");
    assert_eq!(AppIcon::DisconnectedLowFunds.file_name(), "app-icon-disconnected-low-funds.png");
    assert_eq!(TrayIcon::Connected.file_name(), "tray-icons/tray-icon-connected.png");
    assert_eq!(TrayIcon::ConnectedBlack.file_name(), "tray-icons/tray-icon-connected-black.png");
    assert_eq!(TrayIcon::Connecting.file_name(), "tray-icons/tray-icon-connecting.png");
    assert_eq!(TrayIcon::ConnectingBlack.file_name(), "tray-icons/tray-icon-connecting-black.png");
    assert_eq!(TrayIcon::Disconnected.file_name(), "tray-icons/tray-icon-disconnected.png");
    assert_eq!(
        TrayIcon::DisconnectedBlack.file_name(),
        "tray-icons/tray-icon-disconnected-black.png"
    );
}

#[test]
fn catalog_constants_match_the_icons() {
    assert_eq!(AppIcon::Connected.file_name(), APP_ICON_CONNECTED);
    assert_eq!(AppIcon::ConnectedLowFunds.file_name(), APP_ICON_CONNECTED_LOW_FUNDS);
    assert_eq!(AppIcon::Connecting1.file_name(), APP_ICON_CONNECTING_1);
    assert_eq!(AppIcon::Connecting2.file_name(), APP_ICON_CONNECTING_2);
    assert_eq!(AppIcon::Disconnected.file_name(), APP_ICON_DISCONNECTED);
    assert_eq!(AppIcon::DisconnectedLowFunds.file_name(), APP_ICON_DISCONNECTED_LOW_FUNDS);
    assert_eq!(TrayIcon::Connected.file_name(), TRAY_ICON_CONNECTED);
    assert_eq!(TrayIcon::ConnectedBlack.file_name(), TRAY_ICON_CONNECTED_BLACK);
    assert_eq!(TrayIcon::Connecting.file_name(), TRAY_ICON_CONNECTING);
    assert_eq!(TrayIcon::ConnectingBlack.file_name(), TRAY_ICON_CONNECTING_BLACK);
    assert_eq!(TrayIcon::Disconnected.file_name(), TRAY_ICON_DISCONNECTED);
    assert_eq!(TrayIcon::DisconnectedBlack.file_name(), TRAY_ICON_DISCONNECTED_BLACK);
}

#[test]
fn catalog_file_names_are_distinct() {
    for (i, a) in APP_ICONS.iter().enumerate() {
        for (k, b) in APP_ICONS.iter().enumerate() {
            assert_eq!(a.file_name() == b.file_name(), i == k);
        }
    }
    for (i, a) in TRAY_ICONS.iter().enumerate() {
        for (k, b) in TRAY_ICONS.iter().enumerate() {
            assert_eq!(a.file_name() == b.file_name(), i == k);
        }
    }
}

#[test]
fn app_icon_table() {
    assert_eq!(select_app_icon(ConnectionLabel::Connected, true), AppIcon::ConnectedLowFunds);
    assert_eq!(select_app_icon(ConnectionLabel::Connected, false), AppIcon::Connected);
    assert_eq!(select_app_icon(ConnectionLabel::Connecting, true), AppIcon::Connecting1);
    assert_eq!(select_app_icon(ConnectionLabel::Connecting, false), AppIcon::Connecting1);
    assert_eq!(select_app_icon(ConnectionLabel::Disconnecting, true), AppIcon::Connecting1);
    assert_eq!(select_app_icon(ConnectionLabel::Disconnecting, false), AppIcon::Connecting1);
    assert_eq!(
        select_app_icon(ConnectionLabel::Disconnected, true),
        AppIcon::DisconnectedLowFunds
    );
    assert_eq!(select_app_icon(ConnectionLabel::Disconnected, false), AppIcon::Disconnected);
}

#[test]
fn tray_icon_table_without_auto_recolor() {
    let table = [
        (ConnectionLabel::Connected, TrayIcon::Connected, TrayIcon::ConnectedBlack),
        (ConnectionLabel::Connecting, TrayIcon::Connecting, TrayIcon::ConnectingBlack),
        (ConnectionLabel::Disconnecting, TrayIcon::Connecting, TrayIcon::ConnectingBlack),
        (ConnectionLabel::Disconnected, TrayIcon::Disconnected, TrayIcon::DisconnectedBlack),
    ];
    for (label, plain, black) in table {
        assert_eq!(select_tray_icon(label, Some(Theme::Light), false), black);
        assert_eq!(select_tray_icon(label, Some(Theme::Dark), false), plain);
        assert_eq!(select_tray_icon(label, None, false), plain);
    }
}

#[test]
fn tray_icon_ignores_theme_with_auto_recolor() {
    for label in LABELS {
        for theme in THEMES {
            assert_eq!(
                select_tray_icon(label, theme, true),
                select_tray_icon(label, Some(Theme::Dark), false)
            );
        }
    }
}

#[test]
fn selection_is_total_and_repeatable() {
    for label in LABELS {
        for low_funds in [false, true] {
            assert_eq!(select_app_icon(label, low_funds), select_app_icon(label, low_funds));
            for theme in THEMES {
                for auto_recolor in [false, true] {
                    assert_eq!(
                        select_tray_icon(label, theme, auto_recolor),
                        select_tray_icon(label, theme, auto_recolor)
                    );
                }
            }
        }
    }
}

#[test]
fn determine_app_icon_by_label_name() {
    let low = RunMode::Running { funding: FundingState::TopIssue(FundingIssue::SafeLowOnFunds) };
    let fine = RunMode::Running { funding: FundingState::WellFunded };
    assert_eq!(determine_app_icon("Connected", &low), "app-icon-connected-low-funds.png");
    assert_eq!(determine_app_icon("Connected", &fine), "app-icon-connected.png");
    assert_eq!(determine_app_icon("Connecting", &low), "app-icon-connecting-1.png");
    assert_eq!(determine_app_icon("Disconnecting", &fine), "app-icon-connecting-1.png");
    assert_eq!(determine_app_icon("Disconnected", &low), "app-icon-disconnected-low-funds.png");
    assert_eq!(determine_app_icon("Disconnected", &fine), "app-icon-disconnected.png");
    assert_eq!(determine_app_icon("anything", &low), "app-icon-disconnected-low-funds.png");
    assert_eq!(determine_app_icon("", &RunMode::Warmup), "app-icon-disconnected.png");
    assert_eq!(determine_app_icon("Connected", &RunMode::Shutdown), "app-icon-connected.png");
}

#[test]
fn determine_tray_icon_by_label_name() {
    assert_eq!(
        determine_tray_icon("Connected", Some(Theme::Dark), false),
        "tray-icons/tray-icon-connected.png"
    );
    assert_eq!(
        determine_tray_icon("Connected", Some(Theme::Light), false),
        "tray-icons/tray-icon-connected-black.png"
    );
    assert_eq!(
        determine_tray_icon("Connected", Some(Theme::Light), true),
        "tray-icons/tray-icon-connected.png"
    );
    assert_eq!(
        determine_tray_icon("Connecting", Some(Theme::Light), false),
        "tray-icons/tray-icon-connecting-black.png"
    );
    assert_eq!(
        determine_tray_icon("Disconnecting", None, false),
        "tray-icons/tray-icon-connecting.png"
    );
    assert_eq!(
        determine_tray_icon("Disconnected", Some(Theme::Light), false),
        "tray-icons/tray-icon-disconnected-black.png"
    );
    assert_eq!(determine_tray_icon("whatever", None, false), "tray-icons/tray-icon-disconnected.png");
}

#[test]
fn connected_with_unfunded_node_under_dark_theme() {
    let status = status_of(
        RunMode::Running { funding: FundingState::TopIssue(FundingIssue::Unfunded) },
        vec![
            ConnectionState::Connected(SystemTime::UNIX_EPOCH),
            ConnectionState::Connecting(SystemTime::UNIX_EPOCH, "handshake".to_string()),
        ],
    );
    let mut tray = TrayIconState::new(TrayIcon::Disconnected);
    let mut app = AppIconState::new();
    let redraws = apply_status(
        Some(&status),
        Some(Theme::Dark),
        false,
        Some(&mut tray.current_icon),
        Some(&mut app.current_icon),
        &mut app.is_animating,
    );
    assert_eq!(
        redraws,
        IconRedraws { tray: Some(TrayIcon::Connected), app: Some(AppIcon::ConnectedLowFunds) }
    );
    assert_eq!(app.current_icon, "app-icon-connected-low-funds.png");
    assert_eq!(tray.current_icon, "tray-icons/tray-icon-connected.png");
    assert!(!app.is_animating);
}

#[test]
fn failed_status_query_shows_disconnected() {
    for shown_tray in TRAY_ICONS {
        for shown_app in APP_ICONS {
            let mut tray = shown_tray.file_name().to_string();
            let mut app = shown_app.file_name().to_string();
            let mut is_animating = true;
            let redraws = apply_status(
                None,
                Some(Theme::Dark),
                false,
                Some(&mut tray),
                Some(&mut app),
                &mut is_animating,
            );
            assert_eq!(tray, "tray-icons/tray-icon-disconnected.png");
            assert_eq!(app, "app-icon-disconnected.png");
            assert!(!is_animating);
            assert_eq!(redraws.tray.is_some(), shown_tray != TrayIcon::Disconnected);
            assert_eq!(redraws.app.is_some(), shown_app != AppIcon::Disconnected);
        }
    }
}

#[test]
fn failed_status_query_without_records_draws_both() {
    let mut is_animating = true;
    let redraws = apply_status(None, Some(Theme::Light), false, None, None, &mut is_animating);
    assert_eq!(
        redraws,
        IconRedraws { tray: Some(TrayIcon::DisconnectedBlack), app: Some(AppIcon::Disconnected) }
    );
    assert!(!is_animating);
}

#[test]
fn unchanged_status_draws_nothing() {
    let status = status_of(RunMode::Warmup, vec![ConnectionState::NoConnection]);
    let mut tray = TrayIconState::new(TrayIcon::Disconnected);
    let mut app = AppIconState::new();
    let redraws = apply_status(
        Some(&status),
        None,
        false,
        Some(&mut tray.current_icon),
        Some(&mut app.current_icon),
        &mut app.is_animating,
    );
    assert_eq!(redraws, IconRedraws { tray: None, app: None });
}

#[test]
fn same_candidate_twice_changes_once() {
    let mut shown = String::from("app-icon-disconnected.png");
    assert!(update_icon_name_if_changed(Some(&mut shown), "app-icon-connected.png"));
    assert_eq!(shown, "app-icon-connected.png");
    assert!(!update_icon_name_if_changed(Some(&mut shown), "app-icon-connected.png"));
    assert_eq!(shown, "app-icon-connected.png");
}

#[test]
fn different_candidates_change_twice() {
    let mut shown = String::from("app-icon-disconnected.png");
    assert!(update_icon_name_if_changed(Some(&mut shown), "app-icon-connected.png"));
    assert!(update_icon_name_if_changed(Some(&mut shown), "app-icon-connecting-1.png"));
    assert_eq!(shown, "app-icon-connecting-1.png");
}

#[test]
fn candidate_already_shown_changes_nothing() {
    let mut shown = String::from("app-icon-connected.png");
    assert!(!update_icon_name_if_changed(Some(&mut shown), "app-icon-connected.png"));
    assert_eq!(shown, "app-icon-connected.png");
}

#[test]
fn missing_record_counts_as_changed() {
    assert!(update_icon_name_if_changed(None, "app-icon-connected.png"));
    assert!(update_icon_name_if_changed(None, "app-icon-connected.png"));
    assert_eq!(AppIcon::Connected.apply_if_changed(None), Some(AppIcon::Connected));
    assert_eq!(TrayIcon::Connecting.apply_if_changed(None), Some(TrayIcon::Connecting));
}

#[test]
fn typed_icons_apply_by_file_name() {
    let mut shown = String::from("tray-icon.png");
    assert_eq!(
        TrayIcon::ConnectedBlack.apply_if_changed(Some(&mut shown)),
        Some(TrayIcon::ConnectedBlack)
    );
    assert_eq!(shown, "tray-icons/tray-icon-connected-black.png");
    assert_eq!(TrayIcon::ConnectedBlack.apply_if_changed(Some(&mut shown)), None);

    let mut shown = String::new();
    assert_eq!(
        AppIcon::Connecting2.apply_if_changed(Some(&mut shown)),
        Some(AppIcon::Connecting2)
    );
    assert_eq!(shown, "app-icon-connecting-2.png");
    assert_eq!(AppIcon::Connecting2.apply_if_changed(Some(&mut shown)), None);
}

#[test]
fn update_tray_icon_draws_only_on_change() {
    let mut tray = TrayIconState::new(TrayIcon::Disconnected);
    assert_eq!(
        update_tray_icon(Some(&mut tray.current_icon), "Connected", Some(Theme::Light), false),
        Some(TrayIcon::ConnectedBlack)
    );
    assert_eq!(tray.current_icon, "tray-icons/tray-icon-connected-black.png");
    assert_eq!(
        update_tray_icon(Some(&mut tray.current_icon), "Connected", Some(Theme::Light), false),
        None
    );
    assert_eq!(
        update_tray_icon(Some(&mut tray.current_icon), "Connecting", Some(Theme::Light), false),
        Some(TrayIcon::ConnectingBlack)
    );
    assert_eq!(
        update_tray_icon(Some(&mut tray.current_icon), "Disconnecting", Some(Theme::Light), false),
        None
    );
    assert_eq!(
        update_tray_icon(None, "Disconnecting", Some(Theme::Light), false),
        Some(TrayIcon::ConnectingBlack)
    );
}

#[test]
fn update_app_icon_sets_the_animating_flag() {
    let mut app = AppIconState::new();
    assert_eq!(app.current_icon, "app-icon-disconnected.png");
    assert!(!app.is_animating);
    assert!(!app.animation_toggle);

    let redraw = update_app_icon(
        Some(&mut app.current_icon),
        &mut app.is_animating,
        ConnectionLabel::Connecting,
        true,
    );
    assert_eq!(redraw, Some(AppIcon::Connecting1));
    assert!(app.is_animating);

    let redraw = update_app_icon(
        Some(&mut app.current_icon),
        &mut app.is_animating,
        ConnectionLabel::Connected,
        false,
    );
    assert_eq!(redraw, Some(AppIcon::Connected));
    assert!(!app.is_animating);

    let redraw = update_app_icon(None, &mut app.is_animating, ConnectionLabel::Disconnecting, false);
    assert_eq!(redraw, Some(AppIcon::Connecting1));
    assert!(app.is_animating);
    assert_eq!(app.current_icon, "app-icon-connected.png");
}

#[test]
fn labels_read_back_from_tray_icons() {
    assert_eq!(recover_label("tray-icons/tray-icon-connected.png"), ConnectionLabel::Connected);
    assert_eq!(
        recover_label("tray-icons/tray-icon-connected-black.png"),
        ConnectionLabel::Connected
    );
    assert_eq!(recover_label("tray-icons/tray-icon-connecting.png"), ConnectionLabel::Connecting);
    assert_eq!(
        recover_label("tray-icons/tray-icon-connecting-black.png"),
        ConnectionLabel::Connecting
    );
}

#[test]
fn disconnecting_is_read_back_as_connecting() {
    let mut shown = String::new();
    update_tray_icon(Some(&mut shown), "Disconnecting", Some(Theme::Dark), false);
    assert_eq!(extract_connection_state_from_icon(&shown), "Connecting");
    assert_eq!(recover_label(&shown), ConnectionLabel::Connecting);
}

#[test]
fn disconnected_icons_read_back_as_disconnected() {
    assert_eq!(
        recover_label("tray-icons/tray-icon-disconnected.png"),
        ConnectionLabel::Disconnected
    );
    assert_eq!(
        recover_label("tray-icons/tray-icon-disconnected-black.png"),
        ConnectionLabel::Disconnected
    );
    assert_eq!(
        extract_connection_state_from_icon("tray-icons/tray-icon-disconnected.png"),
        "Disconnected"
    );
    assert_eq!(recover_label("app-icon-disconnected-low-funds.png"), ConnectionLabel::Disconnected);
    assert_eq!(recover_label("disconnected and connected"), ConnectionLabel::Disconnected);
}

#[test]
fn every_tray_icon_reads_back_as_its_label() {
    let buckets = [
        (ConnectionLabel::Connected, ConnectionLabel::Connected),
        (ConnectionLabel::Connecting, ConnectionLabel::Connecting),
        (ConnectionLabel::Disconnecting, ConnectionLabel::Connecting),
        (ConnectionLabel::Disconnected, ConnectionLabel::Disconnected),
    ];
    for (label, bucket) in buckets {
        for theme in THEMES {
            for auto_recolor in [false, true] {
                let icon = select_tray_icon(label, theme, auto_recolor);
                assert_eq!(recover_label(icon.file_name()), bucket);
                assert_eq!(extract_connection_state_from_icon(icon.file_name()), bucket.name());
            }
        }
    }
}

#[test]
fn rethemed_through_the_stored_name_equals_rethemed_from_the_label() {
    for name in ["Connected", "Connecting", "Disconnecting", "Disconnected"] {
        for theme in THEMES {
            for new_theme in THEMES {
                for auto_recolor in [false, true] {
                    let stored = determine_tray_icon(name, theme, auto_recolor);
                    assert_eq!(
                        determine_tray_icon(
                            extract_connection_state_from_icon(stored),
                            new_theme,
                            auto_recolor
                        ),
                        determine_tray_icon(name, new_theme, auto_recolor)
                    );
                }
            }
        }
    }
}

#[test]
fn names_without_either_word_read_back_as_disconnected() {
    assert_eq!(recover_label("tray-icon.png"), ConnectionLabel::Disconnected);
    assert_eq!(recover_label(""), ConnectionLabel::Disconnected);
    assert_eq!(recover_label("Connected"), ConnectionLabel::Disconnected);
    assert_eq!(extract_connection_state_from_icon("tray-icon.png"), "Disconnected");
}

#[test]
fn names_with_both_words_read_back_as_connecting() {
    assert_eq!(recover_label("connected-connecting"), ConnectionLabel::Connecting);
    assert_eq!(extract_connection_state_from_icon("connecting connected"), "Connecting");
    assert_eq!(recover_label("disconnected-connecting"), ConnectionLabel::Connecting);
}
