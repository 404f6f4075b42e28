use bibe::models::{BibeMsg, BikeStatus, ParseBikeStatusError, SocketAddress};
use std::str::FromStr;

#[test]
fn status_names() {
    assert_eq!(BikeStatus::Available.as_str(), "available");
    assert_eq!(BikeStatus::Rented.as_str(), "rented");
    assert_eq!(BikeStatus::UnderMaintenance.as_str(), "under_maintenance");
    assert_eq!(BikeStatus::UnderMaintenance.to_string(), String::from("under_maintenance"));
}

#[test]
fn status_parse_round_trip() {
    for status in [BikeStatus::Available, BikeStatus::Rented, BikeStatus::UnderMaintenance] {
        assert_eq!(BikeStatus::parse(&status.to_string()), Ok(status));
        assert_eq!(status.as_str().parse::<BikeStatus>(), Ok(status));
    }
}

#[test]
fn status_parse_rejects_other_text() {
    for text in ["", "Available", "RENTED", "rented ", "under maintenance", "underMaintenance", "broken"] {
        assert_eq!(BikeStatus::parse(text), Err(ParseBikeStatusError), "{:?}", text);
    }
}

#[test]
fn messages_compare_by_content() {
    let a = SocketAddress::V4 { ipv4: 0x7f000001, port: 1690 };
    let b = SocketAddress::V4 { ipv4: 0x7f000001, port: 1691 };
    assert_eq!(
        BibeMsg::SwitchBikeOnline { socket_address: a },
        BibeMsg::SwitchBikeOnline { socket_address: a }
    );
    assert_ne!(
        BibeMsg::SwitchBikeOnline { socket_address: a },
        BibeMsg::SwitchBikeOnline { socket_address: b }
    );
    assert_ne!(BibeMsg::LockBike { bike_id: 7 }, BibeMsg::UnlockBike { bike_id: 7 });
}

#[test]
fn bike_status_from_str_matches_parse() {
    assert_eq!(BikeStatus::from_str("rented"), Ok(BikeStatus::Rented));
    assert_eq!(BikeStatus::from_str("under_maintenance"), Ok(BikeStatus::UnderMaintenance));
    assert_eq!(BikeStatus::from_str("Rented"), Err(ParseBikeStatusError));
}
