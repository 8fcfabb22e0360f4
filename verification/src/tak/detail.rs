//! The `detail` section of a marker, typed.

use vstd::prelude::*;
use crate::time::Timestamp;

verus! {

/// The `detail` section of a marker message. Producers leave many of its elements out.
#[derive(Clone, Debug, PartialEq)]
pub struct TakMarkerDetail {
    pub status: Status,
    pub link: Option<Link>,
    pub contact: Contact,
    pub remarks: Option<Remarks>,
    pub color: Option<Color>,
    pub precisionlocation: PrecisionLocation,
    pub usericon: Option<UserIcon>,
}

impl TakMarkerDetail {
    /// A detail with nothing but the defaults of its required elements.
    pub open spec fn is_default(&self) -> bool {
        &&& self.status.readiness
        &&& self.link is None
        &&& self.contact.is_default()
        &&& self.remarks is None
        &&& self.color is None
        &&& self.precisionlocation.is_default()
        &&& self.usericon is None
    }
}

impl Default for TakMarkerDetail {
    fn default() -> (d: TakMarkerDetail)
        ensures
            d.is_default(),
    {
        TakMarkerDetail {
            status: Status::default(),
            link: None,
            contact: Contact::default(),
            remarks: None,
            color: None,
            precisionlocation: PrecisionLocation::default(),
            usericon: None,
        }
    }
}

#[derive(Clone, Copy, Debug, PartialEq, Eq, Structural)]
pub struct Status {
    pub readiness: bool,
}

impl Default for Status {
    fn default() -> (s: Status)
        ensures
            s.readiness,
    {
        Status { readiness: true }
    }
}

#[derive(Clone, Debug, PartialEq)]
pub struct Link {
    pub uid: String,
    pub production_time: Timestamp,
    pub cot_type: String,
    pub parent_callsign: String,
    pub relation: String,
}

#[derive(Clone, Debug, PartialEq)]
pub struct Contact {
    pub callsign: String,
    pub email_address: Option<String>,
    pub endpoint: Option<String>,
    pub phone: Option<u32>,
    pub xmpp_username: Option<String>,
}

impl Contact {
    /// A contact of unknown call sign and nothing else.
    pub open spec fn is_default(&self) -> bool {
        &&& self.callsign@ == "???"@
        &&& self.email_address is None
        &&& self.endpoint is None
        &&& self.phone is None
        &&& self.xmpp_username is None
    }
}

impl Default for Contact {
    fn default() -> (c: Contact)
        ensures
            c.is_default(),
    {
        Contact {
            callsign: "???".to_owned(),
            email_address: None,
            endpoint: None,
            phone: None,
            xmpp_username: None,
        }
    }
}

#[derive(Clone, Debug, PartialEq)]
pub struct Remarks {
    pub source: Option<Vec<String>>,
}

#[derive(Clone, Copy, Debug, PartialEq, Eq, Structural)]
pub struct Color {
    pub argb: i32,
}

#[derive(Clone, Debug, PartialEq)]
pub struct PrecisionLocation {
    pub altsrc: String,
    pub geopointsrc: Option<String>,
    pub pi_file: Option<String>,
    pub pi_file_x: Option<String>,
    pub pi_file_y: Option<String>,
}

impl PrecisionLocation {
    /// A location of unknown altitude source and nothing else.
    pub open spec fn is_default(&self) -> bool {
        &&& self.altsrc@ == "???"@
        &&& self.geopointsrc is None
        &&& self.pi_file is None
        &&& self.pi_file_x is None
        &&& self.pi_file_y is None
    }
}

impl Default for PrecisionLocation {
    fn default() -> (p: PrecisionLocation)
        ensures
            p.is_default(),
    {
        PrecisionLocation {
            altsrc: "???".to_owned(),
            geopointsrc: None,
            pi_file: None,
            pi_file_x: None,
            pi_file_y: None,
        }
    }
}

#[derive(Clone, Debug, PartialEq)]
pub struct UserIcon {
    pub iconsetpath: String,
}

} // verus!
