//! A postal or GPS location, with four convenience constructors for
//! common address shapes and a builder covering every field.

use vstd::prelude::*;

verus! {

/// Mathematical model of a [`Location`].
#[verifier::ext_equal]
pub ghost struct LocationView {
    pub country: Seq<char>,
    pub state: Seq<char>,
    pub county: Seq<char>,
    pub city: Seq<char>,
    pub street: Seq<char>,
    pub building: Seq<char>,
    pub address: Seq<char>,
    pub suit: Seq<char>,
    pub postal_code: u32,
    pub gps_lat: Seq<char>,
    pub gps_long: Seq<char>,
}

/// The zero-value location: every text field empty, postal code zero.
pub open spec fn default_location() -> LocationView {
    LocationView {
        country: Seq::empty(),
        state: Seq::empty(),
        county: Seq::empty(),
        city: Seq::empty(),
        street: Seq::empty(),
        building: Seq::empty(),
        address: Seq::empty(),
        suit: Seq::empty(),
        postal_code: 0,
        gps_lat: Seq::empty(),
        gps_long: Seq::empty(),
    }
}

/// A place: postal subdivisions down to a suite number, plus GPS
/// coordinates kept as decimal-degree text.
#[derive(Debug, PartialEq, Eq)]
pub struct Location {
    country: String,
    state: String,
    county: String,
    city: String,
    street: String,
    building: String,
    address: String,
    suit: String,
    postal_code: u32,
    gps_lat: String,
    gps_long: String,
}

impl View for Location {
    type V = LocationView;

    closed spec fn view(&self) -> LocationView {
        LocationView {
            country: self.country@,
            state: self.state@,
            county: self.county@,
            city: self.city@,
            street: self.street@,
            building: self.building@,
            address: self.address@,
            suit: self.suit@,
            postal_code: self.postal_code,
            gps_lat: self.gps_lat@,
            gps_long: self.gps_long@,
        }
    }
}

impl Default for Location {
    /// The zero-value location.
    fn default() -> (r: Self)
        ensures
            r@ == default_location(),
    {
        Location {
            country: String::new(),
            state: String::new(),
            county: String::new(),
            city: String::new(),
            street: String::new(),
            building: String::new(),
            address: String::new(),
            suit: String::new(),
            postal_code: 0,
            gps_lat: String::new(),
            gps_long: String::new(),
        }
    }
}

impl Location {
    /// A plain street address; every other field stays at its zero value.
    pub fn new_street_addr(
        address: &str,
        street: &str,
        city: &str,
        state: &str,
        postal_code: u32,
    ) -> (r: Self)
        ensures
            r@ == (LocationView {
                address: address@,
                street: street@,
                city: city@,
                state: state@,
                postal_code: postal_code,
                ..default_location()
            }),
    {
        let mut r = Location::default();
        r.address = address.to_owned();
        r.street = street.to_owned();
        r.city = city.to_owned();
        r.state = state.to_owned();
        r.postal_code = postal_code;
        r
    }

    /// A street address with a suite and building; every other field
    /// stays at its zero value.
    pub fn new_apartment_address(
        address: &str,
        suit: &str,
        building: &str,
        street: &str,
        city: &str,
        state: &str,
        postal_code: u32,
    ) -> (r: Self)
        ensures
            r@ == (LocationView {
                address: address@,
                suit: suit@,
                building: building@,
                street: street@,
                city: city@,
                state: state@,
                postal_code: postal_code,
                ..default_location()
            }),
    {
        let mut r = Location::default();
        r.address = address.to_owned();
        r.suit = suit.to_owned();
        r.building = building.to_owned();
        r.street = street.to_owned();
        r.city = city.to_owned();
        r.state = state.to_owned();
        r.postal_code = postal_code;
        r
    }

    /// A business address: like the apartment form but with a country
    /// instead of a postal code, which stays zero.
    pub fn new_business_address(
        address: &str,
        suit: &str,
        building: &str,
        street: &str,
        city: &str,
        state: &str,
        country: &str,
    ) -> (r: Self)
        ensures
            r@ == (LocationView {
                address: address@,
                suit: suit@,
                building: building@,
                street: street@,
                city: city@,
                state: state@,
                country: country@,
                ..default_location()
            }),
    {
        let mut r = Location::default();
        r.address = address.to_owned();
        r.suit = suit.to_owned();
        r.building = building.to_owned();
        r.street = street.to_owned();
        r.city = city.to_owned();
        r.state = state.to_owned();
        r.country = country.to_owned();
        r
    }

    /// A location known only by its GPS coordinates; every other field
    /// stays at its zero value.
    pub fn new_gps(gps_lat: &str, gps_long: &str) -> (r: Self)
        ensures
            r@ == (LocationView { gps_lat: gps_lat@, gps_long: gps_long@, ..default_location() }),
    {
        let mut r = Location::default();
        r.gps_lat = gps_lat.to_owned();
        r.gps_long = gps_long.to_owned();
        r
    }
}

/// Model of a [`LocationBuilder`]'s accumulated state.
#[verifier::ext_equal]
pub ghost struct LocationBuilderView {
    pub country: Seq<char>,
    pub state: Seq<char>,
    pub county: Seq<char>,
    pub city: Seq<char>,
    pub street: Seq<char>,
    pub building: Seq<char>,
    pub address: Seq<char>,
    pub suit: Seq<char>,
    pub postal_code: u32,
    pub gps_lat: Seq<char>,
    pub gps_long: Seq<char>,
}

/// The freshly constructed builder: every field at its zero value.
pub open spec fn default_location_builder() -> LocationBuilderView {
    LocationBuilderView {
        country: Seq::empty(),
        state: Seq::empty(),
        county: Seq::empty(),
        city: Seq::empty(),
        street: Seq::empty(),
        building: Seq::empty(),
        address: Seq::empty(),
        suit: Seq::empty(),
        postal_code: 0,
        gps_lat: Seq::empty(),
        gps_long: Seq::empty(),
    }
}

impl LocationBuilderView {
    /// The builder after overwriting the country.
    pub open spec fn with_country(self, v: Seq<char>) -> Self {
        LocationBuilderView { country: v, ..self }
    }

    /// The builder after overwriting the state.
    pub open spec fn with_state(self, v: Seq<char>) -> Self {
        LocationBuilderView { state: v, ..self }
    }

    /// The builder after overwriting the county.
    pub open spec fn with_county(self, v: Seq<char>) -> Self {
        LocationBuilderView { county: v, ..self }
    }

    /// The builder after overwriting the city.
    pub open spec fn with_city(self, v: Seq<char>) -> Self {
        LocationBuilderView { city: v, ..self }
    }

    /// The builder after overwriting the street.
    pub open spec fn with_street(self, v: Seq<char>) -> Self {
        LocationBuilderView { street: v, ..self }
    }

    /// The builder after overwriting the building.
    pub open spec fn with_building(self, v: Seq<char>) -> Self {
        LocationBuilderView { building: v, ..self }
    }

    /// The builder after overwriting the address.
    pub open spec fn with_address(self, v: Seq<char>) -> Self {
        LocationBuilderView { address: v, ..self }
    }

    /// The builder after overwriting the suite.
    pub open spec fn with_suit(self, v: Seq<char>) -> Self {
        LocationBuilderView { suit: v, ..self }
    }

    /// The builder after overwriting the postal code.
    pub open spec fn with_postal_code(self, v: u32) -> Self {
        LocationBuilderView { postal_code: v, ..self }
    }

    /// The builder after overwriting the GPS latitude.
    pub open spec fn with_gps_lat(self, v: Seq<char>) -> Self {
        LocationBuilderView { gps_lat: v, ..self }
    }

    /// The builder after overwriting the GPS longitude.
    pub open spec fn with_gps_long(self, v: Seq<char>) -> Self {
        LocationBuilderView { gps_long: v, ..self }
    }

    /// The location that `build` produces from this builder state.
    pub open spec fn built(self) -> LocationView {
        LocationView {
            country: self.country,
            state: self.state,
            county: self.county,
            city: self.city,
            street: self.street,
            building: self.building,
            address: self.address,
            suit: self.suit,
            postal_code: self.postal_code,
            gps_lat: self.gps_lat,
            gps_long: self.gps_long,
        }
    }
}

/// Accumulates the fields of a [`Location`] through chained setters.
#[derive(Debug, PartialEq, Eq)]
pub struct LocationBuilder {
    country: String,
    state: String,
    county: String,
    city: String,
    street: String,
    building: String,
    address: String,
    suit: String,
    postal_code: u32,
    gps_lat: String,
    gps_long: String,
}

impl View for LocationBuilder {
    type V = LocationBuilderView;

    closed spec fn view(&self) -> LocationBuilderView {
        LocationBuilderView {
            country: self.country@,
            state: self.state@,
            county: self.county@,
            city: self.city@,
            street: self.street@,
            building: self.building@,
            address: self.address@,
            suit: self.suit@,
            postal_code: self.postal_code,
            gps_lat: self.gps_lat@,
            gps_long: self.gps_long@,
        }
    }
}

impl Default for LocationBuilder {
    /// The freshly constructed builder.
    fn default() -> (r: Self)
        ensures
            r@ == default_location_builder(),
    {
        LocationBuilder {
            country: String::new(),
            state: String::new(),
            county: String::new(),
            city: String::new(),
            street: String::new(),
            building: String::new(),
            address: String::new(),
            suit: String::new(),
            postal_code: 0,
            gps_lat: String::new(),
            gps_long: String::new(),
        }
    }
}

impl LocationBuilder {
    /// A builder with every field at its zero value.
    pub fn new() -> (r: Self)
        ensures
            r@ == default_location_builder(),
    {
        Self::default()
    }

    /// Overwrites the country.
    pub fn country(self, input: &str) -> (r: Self)
        ensures
            r@ == self@.with_country(input@),
    {
        let mut b = self;
        b.country = input.to_owned();
        b
    }

    /// Overwrites the state.
    pub fn state(self, input: &str) -> (r: Self)
        ensures
            r@ == self@.with_state(input@),
    {
        let mut b = self;
        b.state = input.to_owned();
        b
    }

    /// Overwrites the county.
    pub fn county(self, input: &str) -> (r: Self)
        ensures
            r@ == self@.with_county(input@),
    {
        let mut b = self;
        b.county = input.to_owned();
        b
    }

    /// Overwrites the city.
    pub fn city(self, input: &str) -> (r: Self)
        ensures
            r@ == self@.with_city(input@),
    {
        let mut b = self;
        b.city = input.to_owned();
        b
    }

    /// Overwrites the street.
    pub fn street(self, input: &str) -> (r: Self)
        ensures
            r@ == self@.with_street(input@),
    {
        let mut b = self;
        b.street = input.to_owned();
        b
    }

    /// Overwrites the building.
    pub fn building(self, input: &str) -> (r: Self)
        ensures
            r@ == self@.with_building(input@),
    {
        let mut b = self;
        b.building = input.to_owned();
        b
    }

    /// Overwrites the address.
    pub fn address(self, input: &str) -> (r: Self)
        ensures
            r@ == self@.with_address(input@),
    {
        let mut b = self;
        b.address = input.to_owned();
        b
    }

    /// Overwrites the suite.
    pub fn suit(self, input: &str) -> (r: Self)
        ensures
            r@ == self@.with_suit(input@),
    {
        let mut b = self;
        b.suit = input.to_owned();
        b
    }

    /// Overwrites the postal code.
    pub fn postal_code(self, input: u32) -> (r: Self)
        ensures
            r@ == self@.with_postal_code(input),
    {
        let mut b = self;
        b.postal_code = input;
        b
    }

    /// Overwrites the GPS latitude.
    pub fn gps_lat(self, input: &str) -> (r: Self)
        ensures
            r@ == self@.with_gps_lat(input@),
    {
        let mut b = self;
        b.gps_lat = input.to_owned();
        b
    }

    /// Overwrites the GPS longitude.
    pub fn gps_long(self, input: &str) -> (r: Self)
        ensures
            r@ == self@.with_gps_long(input@),
    {
        let mut b = self;
        b.gps_long = input.to_owned();
        b
    }

    /// Overwrites both GPS coordinates at once.
    pub fn gps(self, lat: &str, long: &str) -> (r: Self)
        ensures
            r@ == self@.with_gps_lat(lat@).with_gps_long(long@),
    {
        let mut b = self;
        b.gps_lat = lat.to_owned();
        b.gps_long = long.to_owned();
        b
    }

    /// Produces the location held by this builder.
    pub fn build(self) -> (r: Location)
        ensures
            r@ == self@.built(),
    {
        Location {
            country: self.country,
            state: self.state,
            county: self.county,
            city: self.city,
            street: self.street,
            building: self.building,
            address: self.address,
            suit: self.suit,
            postal_code: self.postal_code,
            gps_lat: self.gps_lat,
            gps_long: self.gps_long,
        }
    }
}

/// A freshly constructed builder, finalized without any setter calls,
/// yields exactly the default location.
pub proof fn lemma_location_builder_default()
    ensures
        default_location_builder().built() == default_location(),
{
}

/// Every text field of the default location is the empty string and
/// its postal code is zero.
pub proof fn lemma_default_location_empty()
    ensures
        default_location().country == Seq::<char>::empty(),
        default_location().state == Seq::<char>::empty(),
        default_location().county == Seq::<char>::empty(),
        default_location().city == Seq::<char>::empty(),
        default_location().street == Seq::<char>::empty(),
        default_location().building == Seq::<char>::empty(),
        default_location().address == Seq::<char>::empty(),
        default_location().suit == Seq::<char>::empty(),
        default_location().postal_code == 0,
        default_location().gps_lat == Seq::<char>::empty(),
        default_location().gps_long == Seq::<char>::empty(),
{
}

/// Calling a scalar setter twice retains only the last value.
pub proof fn lemma_location_setter_overwrites(
    b: LocationBuilderView,
    v1: Seq<char>,
    v2: Seq<char>,
    p1: u32,
    p2: u32,
)
    ensures
        b.with_country(v1).with_country(v2) == b.with_country(v2),
        b.with_state(v1).with_state(v2) == b.with_state(v2),
        b.with_county(v1).with_county(v2) == b.with_county(v2),
        b.with_city(v1).with_city(v2) == b.with_city(v2),
        b.with_street(v1).with_street(v2) == b.with_street(v2),
        b.with_building(v1).with_building(v2) == b.with_building(v2),
        b.with_address(v1).with_address(v2) == b.with_address(v2),
        b.with_suit(v1).with_suit(v2) == b.with_suit(v2),
        b.with_postal_code(p1).with_postal_code(p2) == b.with_postal_code(p2),
        b.with_gps_lat(v1).with_gps_lat(v2) == b.with_gps_lat(v2),
        b.with_gps_long(v1).with_gps_long(v2) == b.with_gps_long(v2),
{
}

/// Applying a location's field values through the builder setters and
/// then building reproduces the location.
pub proof fn lemma_location_round_trip(l: LocationView)
    ensures
        default_location_builder()
            .with_country(l.country)
            .with_state(l.state)
            .with_county(l.county)
            .with_city(l.city)
            .with_street(l.street)
            .with_building(l.building)
            .with_address(l.address)
            .with_suit(l.suit)
            .with_postal_code(l.postal_code)
            .with_gps_lat(l.gps_lat)
            .with_gps_long(l.gps_long)
            .built() == l,
{
    assert(default_location_builder()
        .with_country(l.country)
        .with_state(l.state)
        .with_county(l.county)
        .with_city(l.city)
        .with_street(l.street)
        .with_building(l.building)
        .with_address(l.address)
        .with_suit(l.suit)
        .with_postal_code(l.postal_code)
        .with_gps_lat(l.gps_lat)
        .with_gps_long(l.gps_long)
        .built() =~= l);
}

} // verus!
