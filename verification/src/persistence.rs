//! The row that a database keeps for a service, and the conversions between
//! rows and services.

use vstd::prelude::*;

use crate::clock::{four_digit_year, rfc3339_instant, Timestamp};
use crate::model::{OnionService, OnionServiceView, ServiceStatus};

verus! {

/// One stored service, as plain column values.
#[derive(Debug, PartialEq, Eq)]
pub struct ServiceRecord {
    pub id: String,
    pub name: String,
    pub onion_address: String,
    pub target_addr: String,
    pub target_port: i32,
    pub onion_port: i32,
    pub status: String,
    pub persistent: bool,
    pub created_at: String,
}

/// The status that a stored status text stands for; an unknown text reads
/// as stopped.
pub open spec fn status_from_text(text: Seq<char>) -> ServiceStatus {
    if text == "running"@ {
        ServiceStatus::Running
    } else if text == "starting"@ {
        ServiceStatus::Starting
    } else if text == "error"@ {
        ServiceStatus::Error
    } else {
        ServiceStatus::Stopped
    }
}

/// The status that a stored status text stands for.
pub fn parse_status(text: &str) -> (r: ServiceStatus)
    ensures
        r == status_from_text(text@),
{
    let t = text.to_owned();
    if t.eq(&String::from_str("running")) {
        ServiceStatus::Running
    } else if t.eq(&String::from_str("starting")) {
        ServiceStatus::Starting
    } else if t.eq(&String::from_str("error")) {
        ServiceStatus::Error
    } else {
        ServiceStatus::Stopped
    }
}

/// The creation time of a stored service: the instant its text gives, when
/// the text reads as RFC 3339, else `fallback`.
pub open spec fn created_from_text(text: Seq<char>, fallback: Timestamp) -> (i64, u32) {
    match rfc3339_instant(text) {
        Some(p) => p,
        None => (fallback.spec_secs(), fallback.spec_nanos()),
    }
}

/// Whether `r` is the service read back from a row with columns `columns`:
/// the name, address and target as stored, the port cut to 16 bits, the
/// status its text stands for, and the stored creation time (or
/// `fallback`).
pub open spec fn read_back(
    columns: (Seq<char>, Seq<char>, Seq<char>, Seq<char>, i32, i32, Seq<char>, bool, Seq<char>),
    fallback: Timestamp,
    r: OnionServiceView,
) -> bool {
    &&& r.name == columns.1
    &&& r.onion_address == columns.2
    &&& r.target_addr == columns.3
    &&& r.target_port == #[verifier::truncate] (columns.4 as u16)
    &&& r.status == status_from_text(columns.6)
    &&& (r.created_at.spec_secs(), r.created_at.spec_nanos()) == created_from_text(columns.8, fallback)
}

/// The row that stores `service`.
pub open spec fn record_of(service: OnionServiceView) -> (Seq<char>, Seq<char>, Seq<char>, Seq<char>, i32, i32, Seq<char>, bool, Seq<char>) {
    (
        service.name,
        service.name,
        service.onion_address,
        service.target_addr,
        service.target_port as i32,
        0,
        service.status.spec_text(),
        true,
        service.created_at.text(),
    )
}

impl ServiceRecord {
    /// The columns of the row.
    pub open spec fn columns(&self) -> (Seq<char>, Seq<char>, Seq<char>, Seq<char>, i32, i32, Seq<char>, bool, Seq<char>) {
        (
            self.id@,
            self.name@,
            self.onion_address@,
            self.target_addr@,
            self.target_port,
            self.onion_port,
            self.status@,
            self.persistent,
            self.created_at@,
        )
    }

    /// The row that stores `service`; its id is the service's name.
    pub fn from_service(service: &OnionService) -> (r: ServiceRecord)
        ensures
            r.columns() == record_of(service@),
            r.id@ == service.name@,
            r.name@ == service.name@,
            r.onion_address@ == service.onion_address@,
            r.target_addr@ == service.target_addr@,
            r.target_port == service.target_port as i32,
            r.status@ == service.status.spec_text(),
            four_digit_year(service.created_at.spec_secs()) ==> rfc3339_instant(r.created_at@) == Some(
                (service.created_at.spec_secs(), service.created_at.spec_nanos()),
            ),
    {
        ServiceRecord {
            id: service.name.clone(),
            name: service.name.clone(),
            onion_address: service.onion_address.clone(),
            target_addr: service.target_addr.clone(),
            target_port: service.target_port as i32,
            onion_port: 0,
            status: service.status.to_string(),
            persistent: true,
            created_at: service.created_at.to_rfc3339(),
        }
    }

    /// The service that the row stores; a creation time that does not read
    /// as RFC 3339 becomes `fallback`.
    pub fn to_service_at(self, fallback: Timestamp) -> (r: OnionService)
        ensures
            r@.name == self.name@,
            r@.onion_address == self.onion_address@,
            r@.target_addr == self.target_addr@,
            r.target_port == #[verifier::truncate] (self.target_port as u16),
            r.status == status_from_text(self.status@),
            (r.created_at.spec_secs(), r.created_at.spec_nanos()) == created_from_text(self.created_at@, fallback),
            read_back(self.columns(), fallback, r@),
    {
        let status = parse_status(self.status.as_str());
        let created_at = match Timestamp::parse_rfc3339(self.created_at.as_str()) {
            Some(t) => t,
            None => fallback,
        };
        OnionService {
            name: self.name,
            onion_address: self.onion_address,
            target_addr: self.target_addr,
            target_port: #[verifier::truncate] (self.target_port as u16),
            status,
            created_at,
        }
    }

    /// The service that the row stores; a creation time that does not read
    /// as RFC 3339 becomes the current time.
    pub fn to_service(self) -> (r: OnionService)
        ensures
            r@.name == self.name@,
            r@.onion_address == self.onion_address@,
            r@.target_addr == self.target_addr@,
            r.target_port == #[verifier::truncate] (self.target_port as u16),
            r.status == status_from_text(self.status@),
            (r.created_at.spec_secs(), r.created_at.spec_nanos()) == created_from_text(self.created_at@, r.created_at),
    {
        self.to_service_at(Timestamp::now())
    }
}

/// A status survives being stored as text and read back.
pub proof fn lemma_status_text_roundtrip(status: ServiceStatus)
    ensures
        status_from_text(status.spec_text()) == status,
{
    reveal_strlit("stopped");
    reveal_strlit("starting");
    reveal_strlit("running");
    reveal_strlit("error");
    assert("stopped"@[0] != "running"@[0]);
    assert("stopped"@[2] != "starting"@[2]);
    assert("stopped"@[0] != "error"@[0]);
    assert("starting"@[0] != "running"@[0]);
    assert("error"@[0] != "running"@[0]);
    assert("error"@[0] != "starting"@[0]);
}

/// Storing a service and reading it back gives the same service: name,
/// address, target and port, status, and (in the years 0 to 9999, where the
/// stored text reads back as the instant it was written from) the creation
/// time.
pub proof fn lemma_record_roundtrip(service: OnionServiceView, stored_time: Seq<char>, fallback: Timestamp)
    requires
        four_digit_year(service.created_at.spec_secs()) ==> rfc3339_instant(stored_time) == Some(
            (service.created_at.spec_secs(), service.created_at.spec_nanos()),
        ),
    ensures
        status_from_text(record_of(service).6) == service.status,
        (#[verifier::truncate] (record_of(service).4 as u16)) == service.target_port,
        four_digit_year(service.created_at.spec_secs()) ==> created_from_text(stored_time, fallback) == (
            service.created_at.spec_secs(),
            service.created_at.spec_nanos(),
        ),
{
    lemma_status_text_roundtrip(service.status);
}

/// Storing a service and reading the row back gives the same service in
/// every field: name, onion address, target address, port and status, and,
/// in the years 0 to 9999 (where the stored text reads back as the instant
/// it was written from), the creation time.
pub proof fn lemma_store_then_read(service: OnionServiceView, fallback: Timestamp, r: OnionServiceView)
    requires
        read_back(record_of(service), fallback, r),
        four_digit_year(service.created_at.spec_secs()) ==> rfc3339_instant(record_of(service).8) == Some(
            (service.created_at.spec_secs(), service.created_at.spec_nanos()),
        ),
    ensures
        r.name == service.name,
        r.onion_address == service.onion_address,
        r.target_addr == service.target_addr,
        r.target_port == service.target_port,
        r.status == service.status,
        four_digit_year(service.created_at.spec_secs()) ==> r.created_at == service.created_at,
{
    lemma_status_text_roundtrip(service.status);
    Timestamp::lemma_same_instant(r.created_at, service.created_at);
}

} // verus!
