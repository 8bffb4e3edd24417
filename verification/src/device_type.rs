//! The device type and its classification from the native category name.

use vstd::prelude::*;
use vstd::string::*;
use vstd::utf8::*;
use crate::text::text_view;

verus! {

/// The kind of device the system runs on.
#[derive(Debug, PartialOrd)]
#[non_exhaustive]
pub enum OhosDeviceType {
    Phone,
    Wearable,
    LiteWearable,
    Tablet,
    Tv,
    Car,
    SmartVision,
    /// Some other device type, with the category name as the native facility
    /// gave it.
    Other(&'static str),
    /// Determining the device type was not possible.
    Unknown,
}

/// What an [`OhosDeviceType`] says, with the text of `Other` as characters.
pub enum DeviceCategory {
    Phone,
    Wearable,
    LiteWearable,
    Tablet,
    Tv,
    Car,
    SmartVision,
    Other(Seq<char>),
    Unknown,
}

impl View for OhosDeviceType {
    type V = DeviceCategory;

    open spec fn view(&self) -> DeviceCategory {
        match self {
            OhosDeviceType::Phone => DeviceCategory::Phone,
            OhosDeviceType::Wearable => DeviceCategory::Wearable,
            OhosDeviceType::LiteWearable => DeviceCategory::LiteWearable,
            OhosDeviceType::Tablet => DeviceCategory::Tablet,
            OhosDeviceType::Tv => DeviceCategory::Tv,
            OhosDeviceType::Car => DeviceCategory::Car,
            OhosDeviceType::SmartVision => DeviceCategory::SmartVision,
            OhosDeviceType::Other(name) => DeviceCategory::Other(name@),
            OhosDeviceType::Unknown => DeviceCategory::Unknown,
        }
    }
}

/// Whether `name` is one of the category names of the classification table.
pub open spec fn is_known_name(name: Seq<char>) -> bool {
    ||| name == "phone"@
    ||| name == "default"@
    ||| name == "wearable"@
    ||| name == "liteWearable"@
    ||| name == "tablet"@
    ||| name == "tv"@
    ||| name == "car"@
    ||| name == "smartVision"@
}

/// The classification of a category name.
///
/// Names are matched exactly and case-sensitively. `"default"` is the
/// platform's second name for a phone. A name outside the table is kept as it
/// is, and no name at all means that the type is unknown.
pub open spec fn classify(name: Option<Seq<char>>) -> DeviceCategory {
    match name {
        None => DeviceCategory::Unknown,
        Some(name) => {
            if name == "phone"@ || name == "default"@ {
                DeviceCategory::Phone
            } else if name == "wearable"@ {
                DeviceCategory::Wearable
            } else if name == "liteWearable"@ {
                DeviceCategory::LiteWearable
            } else if name == "tablet"@ {
                DeviceCategory::Tablet
            } else if name == "tv"@ {
                DeviceCategory::Tv
            } else if name == "car"@ {
                DeviceCategory::Car
            } else if name == "smartVision"@ {
                DeviceCategory::SmartVision
            } else {
                DeviceCategory::Other(name)
            }
        },
    }
}

/// Whether two byte slices hold the same bytes.
fn same_bytes(a: &[u8], b: &[u8]) -> (same: bool)
    ensures
        same == (a@ == b@),
{
    if a.len() != b.len() {
        return false;
    }
    let mut i: usize = 0;
    while i < a.len()
        invariant
            i <= a@.len(),
            a@.len() == b@.len(),
            forall|j: int| 0 <= j < i ==> a@[j] == b@[j],
        decreases a@.len() - i,
    {
        if a[i] != b[i] {
            return false;
        }
        i += 1;
    }
    assert(a@ =~= b@);
    true
}

/// Whether two texts hold the same characters.
fn same_text(a: &str, b: &str) -> (same: bool)
    ensures
        same == (a@ == b@),
{
    let same = same_bytes(a.as_bytes(), b.as_bytes());
    proof {
        encode_utf8_decode_utf8(a@);
        encode_utf8_decode_utf8(b@);
    }
    same
}

impl Clone for OhosDeviceType {
    fn clone(&self) -> (copy: Self)
        ensures
            copy == *self,
    {
        match self {
            OhosDeviceType::Phone => OhosDeviceType::Phone,
            OhosDeviceType::Wearable => OhosDeviceType::Wearable,
            OhosDeviceType::LiteWearable => OhosDeviceType::LiteWearable,
            OhosDeviceType::Tablet => OhosDeviceType::Tablet,
            OhosDeviceType::Tv => OhosDeviceType::Tv,
            OhosDeviceType::Car => OhosDeviceType::Car,
            OhosDeviceType::SmartVision => OhosDeviceType::SmartVision,
            OhosDeviceType::Other(name) => OhosDeviceType::Other(*name),
            OhosDeviceType::Unknown => OhosDeviceType::Unknown,
        }
    }
}

impl PartialEq for OhosDeviceType {
    fn eq(&self, other: &Self) -> (same: bool) {
        match (self, other) {
            (OhosDeviceType::Phone, OhosDeviceType::Phone) => true,
            (OhosDeviceType::Wearable, OhosDeviceType::Wearable) => true,
            (OhosDeviceType::LiteWearable, OhosDeviceType::LiteWearable) => true,
            (OhosDeviceType::Tablet, OhosDeviceType::Tablet) => true,
            (OhosDeviceType::Tv, OhosDeviceType::Tv) => true,
            (OhosDeviceType::Car, OhosDeviceType::Car) => true,
            (OhosDeviceType::SmartVision, OhosDeviceType::SmartVision) => true,
            (OhosDeviceType::Other(a), OhosDeviceType::Other(b)) => same_text(a, b),
            (OhosDeviceType::Unknown, OhosDeviceType::Unknown) => true,
            _ => false,
        }
    }
}

impl vstd::std_specs::cmp::PartialEqSpecImpl for OhosDeviceType {
    open spec fn obeys_eq_spec() -> bool {
        true
    }

    /// Two device types are equal when they say the same: the same variant,
    /// and for `Other` the same characters.
    open spec fn eq_spec(&self, other: &Self) -> bool {
        self@ == other@
    }
}

impl OhosDeviceType {
    /// Classifies the category name that the native facility gave.
    pub fn from_name(name: Option<&'static str>) -> (device_type: OhosDeviceType)
        ensures
            device_type@ == classify(text_view(name)),
    {
        match name {
            None => OhosDeviceType::Unknown,
            Some(name) => {
                if same_text(name, "phone") || same_text(name, "default") {
                    OhosDeviceType::Phone
                } else if same_text(name, "wearable") {
                    OhosDeviceType::Wearable
                } else if same_text(name, "liteWearable") {
                    OhosDeviceType::LiteWearable
                } else if same_text(name, "tablet") {
                    OhosDeviceType::Tablet
                } else if same_text(name, "tv") {
                    OhosDeviceType::Tv
                } else if same_text(name, "car") {
                    OhosDeviceType::Car
                } else if same_text(name, "smartVision") {
                    OhosDeviceType::SmartVision
                } else {
                    OhosDeviceType::Other(name)
                }
            },
        }
    }
}

/// The names of the classification table differ from one another, as their
/// lengths show.
proof fn lemma_known_name_lengths()
    ensures
        "phone"@.len() == 5,
        "default"@.len() == 7,
        "wearable"@.len() == 8,
        "liteWearable"@.len() == 12,
        "tablet"@.len() == 6,
        "tv"@.len() == 2,
        "car"@.len() == 3,
        "smartVision"@.len() == 11,
{
    reveal_strlit("phone");
    reveal_strlit("default");
    reveal_strlit("wearable");
    reveal_strlit("liteWearable");
    reveal_strlit("tablet");
    reveal_strlit("tv");
    reveal_strlit("car");
    reveal_strlit("smartVision");
}

/// Classification is a total function that sends each input to one category:
/// no name to `Unknown`, each name of the table to its own category (with
/// `"phone"` and `"default"` both to `Phone`), and every other name to `Other`
/// with the name unchanged.
pub proof fn lemma_classify_cases(name: Option<Seq<char>>)
    ensures
        classify(name) is Unknown <==> name is None,
        classify(name) is Phone <==> name == Some("phone"@) || name == Some("default"@),
        classify(name) is Wearable <==> name == Some("wearable"@),
        classify(name) is LiteWearable <==> name == Some("liteWearable"@),
        classify(name) is Tablet <==> name == Some("tablet"@),
        classify(name) is Tv <==> name == Some("tv"@),
        classify(name) is Car <==> name == Some("car"@),
        classify(name) is SmartVision <==> name == Some("smartVision"@),
        classify(name) is Other <==> name is Some && !is_known_name(name.unwrap()),
        classify(name) matches DeviceCategory::Other(kept) ==> name == Some(kept),
{
    lemma_known_name_lengths();
}

} // verus!
