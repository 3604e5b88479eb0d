//! Time zones.
use vstd::prelude::*;

verus! {

/// Whether the IANA time zone database knows a zone of this name.
pub uninterp spec fn known_zone(name: Seq<char>) -> bool;

/// `<chrono_tz::Tz as FromStr>::from_str` accepts exactly the names of a table that is fixed
/// when the crate is built, so the outcome depends on the name alone; `UTC` is in the table.
#[verifier::external_body]
fn zone_is_known(name: &str) -> (r: bool)
    ensures
        r == known_zone(name@),
        name@ == "UTC"@ ==> r,
{
    name.parse::<chrono_tz::Tz>().is_ok()
}

/// A time zone of the IANA database, by its name.
#[derive(Debug)]
pub struct Zone {
    name: String,
}

impl View for Zone {
    type V = Seq<char>;

    closed spec fn view(&self) -> Seq<char> {
        self.name@
    }
}

impl Zone {
    #[verifier::type_invariant]
    closed spec fn inv(self) -> bool {
        known_zone(self.name@)
    }

    /// The zone of this name, if there is one.
    pub fn named(name: &str) -> (r: Option<Zone>)
        ensures
            match r {
                Some(zone) => known_zone(name@) && zone@ == name@,
                None => !known_zone(name@),
            },
    {
        if zone_is_known(name) {
            Some(Zone { name: name.to_string() })
        } else {
            None
        }
    }

    /// Coordinated universal time.
    pub fn utc() -> (zone: Zone)
        ensures
            zone@ == "UTC"@,
    {
        let name: &str = "UTC";
        let known = zone_is_known(name);
        assert(known);
        Zone { name: name.to_string() }
    }

    /// The IANA name of the zone.
    pub fn name(&self) -> (name: &str)
        ensures
            name@ == self@,
            known_zone(name@),
    {
        proof {
            use_type_invariant(self);
        }
        self.name.as_str()
    }
}

} // verus!
