//! An identity: a name, contact information and a location, bundled.
//! Used both for the CV's subject and for any institution.

use crate::contact::{default_contact, Contact, ContactView};
use crate::location::{default_location, Location, LocationView};
use crate::name::{default_name, Name, NameView};
use vstd::prelude::*;

verus! {

/// Mathematical model of an [`Identity`].
#[verifier::ext_equal]
pub ghost struct IdentityView {
    pub name: NameView,
    pub contact: ContactView,
    pub location: LocationView,
}

/// The zero-value identity: every part recursively default.
pub open spec fn default_identity() -> IdentityView {
    IdentityView {
        name: default_name(),
        contact: default_contact(),
        location: default_location(),
    }
}

/// A named party that can be reached and found somewhere: a person or
/// an institution.
#[derive(Debug, PartialEq, Eq)]
pub struct Identity {
    name: Name,
    contact: Contact,
    location: Location,
}

impl View for Identity {
    type V = IdentityView;

    closed spec fn view(&self) -> IdentityView {
        IdentityView { name: self.name@, contact: self.contact@, location: self.location@ }
    }
}

impl Default for Identity {
    /// The zero-value identity.
    fn default() -> (r: Self)
        ensures
            r@ == default_identity(),
    {
        Identity {
            name: Name::default(),
            contact: Contact::default(),
            location: Location::default(),
        }
    }
}

impl Identity {
    /// Bundles a name, a contact and a location into an identity.
    pub fn new(name: Name, contact: Contact, location: Location) -> (r: Self)
        ensures
            r@ == (IdentityView { name: name@, contact: contact@, location: location@ }),
    {
        Identity { name, contact, location }
    }
}

/// Model of an [`IdentityBuilder`]'s accumulated state.
#[verifier::ext_equal]
pub ghost struct IdentityBuilderView {
    pub name: NameView,
    pub contact: ContactView,
    pub location: LocationView,
}

/// The freshly constructed builder: every part recursively default.
pub open spec fn default_identity_builder() -> IdentityBuilderView {
    IdentityBuilderView {
        name: default_name(),
        contact: default_contact(),
        location: default_location(),
    }
}

impl IdentityBuilderView {
    /// The builder after overwriting the name.
    pub open spec fn with_name(self, v: NameView) -> Self {
        IdentityBuilderView { name: v, ..self }
    }

    /// The builder after overwriting the contact.
    pub open spec fn with_contact(self, v: ContactView) -> Self {
        IdentityBuilderView { contact: v, ..self }
    }

    /// The builder after overwriting the location.
    pub open spec fn with_location(self, v: LocationView) -> Self {
        IdentityBuilderView { location: v, ..self }
    }

    /// The identity that `build` produces from this builder state.
    pub open spec fn built(self) -> IdentityView {
        IdentityView { name: self.name, contact: self.contact, location: self.location }
    }
}

/// Accumulates the parts of an [`Identity`] through chained setters.
#[derive(Debug, PartialEq, Eq)]
pub struct IdentityBuilder {
    name: Name,
    contact: Contact,
    location: Location,
}

impl View for IdentityBuilder {
    type V = IdentityBuilderView;

    closed spec fn view(&self) -> IdentityBuilderView {
        IdentityBuilderView { name: self.name@, contact: self.contact@, location: self.location@ }
    }
}

impl Default for IdentityBuilder {
    /// The freshly constructed builder.
    fn default() -> (r: Self)
        ensures
            r@ == default_identity_builder(),
    {
        IdentityBuilder {
            name: Name::default(),
            contact: Contact::default(),
            location: Location::default(),
        }
    }
}

impl IdentityBuilder {
    /// A builder with every part at its zero value.
    pub fn new() -> (r: Self)
        ensures
            r@ == default_identity_builder(),
    {
        Self::default()
    }

    /// Overwrites the name.
    pub fn name(self, name: Name) -> (r: Self)
        ensures
            r@ == self@.with_name(name@),
    {
        let mut b = self;
        b.name = name;
        b
    }

    /// Overwrites the contact.
    pub fn contact(self, contact: Contact) -> (r: Self)
        ensures
            r@ == self@.with_contact(contact@),
    {
        let mut b = self;
        b.contact = contact;
        b
    }

    /// Overwrites the location.
    pub fn location(self, location: Location) -> (r: Self)
        ensures
            r@ == self@.with_location(location@),
    {
        let mut b = self;
        b.location = location;
        b
    }

    /// Produces the identity held by this builder.
    pub fn build(self) -> (r: Identity)
        ensures
            r@ == self@.built(),
    {
        Identity { name: self.name, contact: self.contact, location: self.location }
    }
}

/// A freshly constructed builder, finalized without any setter calls,
/// yields exactly the default identity.
pub proof fn lemma_identity_builder_default()
    ensures
        default_identity_builder().built() == default_identity(),
{
}

/// Every part of the default identity is itself the default of its type.
pub proof fn lemma_default_identity_parts_default()
    ensures
        default_identity().name == default_name(),
        default_identity().contact == default_contact(),
        default_identity().location == default_location(),
{
}

/// Calling a scalar setter twice retains only the last value.
pub proof fn lemma_identity_setter_overwrites(
    b: IdentityBuilderView,
    n1: NameView,
    n2: NameView,
    c1: ContactView,
    c2: ContactView,
    l1: LocationView,
    l2: LocationView,
)
    ensures
        b.with_name(n1).with_name(n2) == b.with_name(n2),
        b.with_contact(c1).with_contact(c2) == b.with_contact(c2),
        b.with_location(l1).with_location(l2) == b.with_location(l2),
{
}

/// Applying an identity's parts through the builder setters and then
/// building reproduces the identity.
pub proof fn lemma_identity_round_trip(i: IdentityView)
    ensures
        default_identity_builder()
            .with_name(i.name)
            .with_contact(i.contact)
            .with_location(i.location)
            .built() == i,
{
    assert(default_identity_builder()
        .with_name(i.name)
        .with_contact(i.contact)
        .with_location(i.location)
        .built() =~= i);
}

} // verus!
