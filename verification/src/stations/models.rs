//! Station records as the remote station service reports them.

use vstd::prelude::*;

verus! {

/// The body of a station search response.
#[derive(Debug)]
pub struct ApiResponse {
    pub payload: Vec<Station>,
}

/// One station: its identifier and its names.
#[derive(Debug)]
pub struct Station {
    pub id: StationId,
    pub names: StationNames,
}

/// The identifier of a station.
#[derive(Debug)]
pub struct StationId {
    /// The UIC code, in decimal.
    pub uic_code: String,
}

/// The names of a station.
#[derive(Debug)]
pub struct StationNames {
    /// The full display name.
    pub long: String,
}

/// A station as contracts see it: the code text and the display name.
pub struct StationView {
    pub uic_code: Seq<char>,
    pub long: Seq<char>,
}

impl View for Station {
    type V = StationView;

    open spec fn view(&self) -> StationView {
        StationView { uic_code: self.id.uic_code@, long: self.names.long@ }
    }
}

impl Station {
    /// Builds a station from a code text and a display name.
    pub fn new(uic_code: String, long: String) -> (r: Station)
        ensures
            r@ == (StationView { uic_code: uic_code@, long: long@ }),
    {
        Station { id: StationId { uic_code }, names: StationNames { long } }
    }

    /// A copy of this station.
    pub fn duplicate(&self) -> (r: Station)
        ensures
            r@ == self@,
    {
        Station::new(self.id.uic_code.clone(), self.names.long.clone())
    }
}

} // verus!
