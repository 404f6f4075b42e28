use vstd::prelude::*;

verus! {

/// Where a bike stands in the rental cycle.
#[derive(Debug, PartialEq, Eq, Clone, Copy, Structural)]
pub enum BikeStatus {
    Available,
    Rented,
    UnderMaintenance,
}

/// The text that names `status`: its string form, and its value in the
/// database.
pub open spec fn status_text(status: BikeStatus) -> Seq<char> {
    match status {
        BikeStatus::Available => "available"@,
        BikeStatus::Rented => "rented"@,
        BikeStatus::UnderMaintenance => "under_maintenance"@,
    }
}

/// The status that `text` names, if it names one.
pub open spec fn status_named(text: Seq<char>) -> Option<BikeStatus> {
    if text == "available"@ {
        Some(BikeStatus::Available)
    } else if text == "rented"@ {
        Some(BikeStatus::Rented)
    } else if text == "under_maintenance"@ {
        Some(BikeStatus::UnderMaintenance)
    } else {
        None
    }
}

/// The text handed to `BikeStatus::parse` names no status.
#[derive(Debug, PartialEq, Eq, Clone, Copy, Structural)]
pub struct ParseBikeStatusError;

impl BikeStatus {
    /// The text that names this status.
    pub fn as_str(&self) -> (r: &'static str)
        ensures
            r@ == status_text(*self),
    {
        match self {
            BikeStatus::Available => "available",
            BikeStatus::Rented => "rented",
            BikeStatus::UnderMaintenance => "under_maintenance",
        }
    }

    /// The text that names this status, as an owned string.
    pub fn to_string(&self) -> (r: String)
        ensures
            r@ == status_text(*self),
    {
        self.as_str().to_owned()
    }

    /// The status that `text` names; the names are case-sensitive.
    pub fn parse(text: &str) -> (r: Result<BikeStatus, ParseBikeStatusError>)
        ensures
            r == match status_named(text@) {
                Some(status) => Ok::<BikeStatus, ParseBikeStatusError>(status),
                None => Err(ParseBikeStatusError),
            },
    {
        let owned = text.to_owned();
        if owned == "available".to_owned() {
            Ok(BikeStatus::Available)
        } else if owned == "rented".to_owned() {
            Ok(BikeStatus::Rented)
        } else if owned == "under_maintenance".to_owned() {
            Ok(BikeStatus::UnderMaintenance)
        } else {
            Err(ParseBikeStatusError)
        }
    }
}

impl std::str::FromStr for BikeStatus {
    type Err = ParseBikeStatusError;

    fn from_str(text: &str) -> (r: Result<BikeStatus, ParseBikeStatusError>)
        ensures
            r == match status_named(text@) {
                Some(status) => Ok::<BikeStatus, ParseBikeStatusError>(status),
                None => Err(ParseBikeStatusError),
            },
    {
        BikeStatus::parse(text)
    }
}

/// The text of a status names that status and no other: reading back what
/// `to_string` wrote gives the status again.
pub proof fn lemma_status_text_round_trip(status: BikeStatus)
    ensures
        status_named(status_text(status)) == Some(status),
{
    reveal_strlit("available");
    reveal_strlit("rented");
    reveal_strlit("under_maintenance");
    assert("rented"@.len() != "available"@.len());
    assert("under_maintenance"@.len() != "available"@.len());
    assert("under_maintenance"@.len() != "rented"@.len());
}

/// A text that names a status is exactly that status's text.
pub proof fn lemma_status_named_exactly(text: Seq<char>, status: BikeStatus)
    requires
        status_named(text) == Some(status),
    ensures
        status_text(status) == text,
{
}

/// Two statuses with the same text are the same status.
pub proof fn lemma_status_text_injective(a: BikeStatus, b: BikeStatus)
    requires
        status_text(a) == status_text(b),
    ensures
        a == b,
{
    lemma_status_text_round_trip(a);
    lemma_status_text_round_trip(b);
}

/// The names of the statuses, as the database and the string forms spell
/// them: `available`, `rented` and `under_maintenance`, each naming its own
/// status.
pub proof fn lemma_status_names()
    ensures
        status_text(BikeStatus::Available) == "available"@,
        status_text(BikeStatus::Rented) == "rented"@,
        status_text(BikeStatus::UnderMaintenance) == "under_maintenance"@,
        status_named("available"@) == Some(BikeStatus::Available),
        status_named("rented"@) == Some(BikeStatus::Rented),
        status_named("under_maintenance"@) == Some(BikeStatus::UnderMaintenance),
{
    lemma_status_text_round_trip(BikeStatus::Available);
    lemma_status_text_round_trip(BikeStatus::Rented);
    lemma_status_text_round_trip(BikeStatus::UnderMaintenance);
}

/// An IP socket address, as `std::net::SocketAddr` holds it: the address's
/// bits, the port and, for IPv6, the flow label and scope.
#[derive(Debug, PartialEq, Eq, Clone, Copy, Structural)]
pub enum SocketAddress {
    V4 { ipv4: u32, port: u16 },
    V6 { ipv6: u128, port: u16, flowinfo: u32, scope_id: u32 },
}

/// The messages broadcast between the server and the bikes. Bike ids are
/// the 128-bit values of their UUIDs.
#[derive(Debug, PartialEq, Eq, Clone, Copy, Structural)]
pub enum BibeMsg {
    UnlockBike { bike_id: u128 },
    LockBike { bike_id: u128 },
    SwitchBikeOnline { socket_address: SocketAddress },
    SwitchBikeOffline { socket_address: SocketAddress },
}

} // verus!
