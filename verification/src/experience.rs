//! A work-experience entry: the institution, the role held, a from/to
//! date pair, and a free-text description.

use crate::identity::{default_identity, Identity, IdentityView};
use vstd::prelude::*;

verus! {

/// Mathematical model of an [`Experience`].
#[verifier::ext_equal]
pub ghost struct ExperienceView {
    pub institution: IdentityView,
    pub role: Seq<char>,
    pub dates: (Seq<char>, Seq<char>),
    pub about: Seq<char>,
}

/// The zero-value experience entry.
pub open spec fn default_experience() -> ExperienceView {
    ExperienceView {
        institution: default_identity(),
        role: Seq::empty(),
        dates: (Seq::empty(), Seq::empty()),
        about: Seq::empty(),
    }
}

impl ExperienceView {
    /// The entry after overwriting the institution.
    pub open spec fn with_institution_set(self, v: IdentityView) -> Self {
        ExperienceView { institution: v, ..self }
    }

    /// The entry after overwriting the role.
    pub open spec fn with_role_set(self, v: Seq<char>) -> Self {
        ExperienceView { role: v, ..self }
    }

    /// The entry after overwriting the date pair.
    pub open spec fn with_dates_set(self, from: Seq<char>, to: Seq<char>) -> Self {
        ExperienceView { dates: (from, to), ..self }
    }

    /// The entry after overwriting the description.
    pub open spec fn with_about_set(self, v: Seq<char>) -> Self {
        ExperienceView { about: v, ..self }
    }
}

/// A role held at some institution.  Dates are kept as an ordered pair
/// of plain text, not validated as calendar values.
#[derive(Debug, PartialEq, Eq)]
pub struct Experience {
    institution: Identity,
    role: String,
    dates: (String, String),
    about: String,
}

impl View for Experience {
    type V = ExperienceView;

    closed spec fn view(&self) -> ExperienceView {
        ExperienceView {
            institution: self.institution@,
            role: self.role@,
            dates: (self.dates.0@, self.dates.1@),
            about: self.about@,
        }
    }
}

impl Default for Experience {
    /// The zero-value experience entry.
    fn default() -> (r: Self)
        ensures
            r@ == default_experience(),
    {
        Experience {
            institution: Identity::default(),
            role: String::new(),
            dates: (String::new(), String::new()),
            about: String::new(),
        }
    }
}

impl Experience {
    /// Constructs an experience entry from all its fields at once.
    pub fn new(institution: Identity, role: &str, from: &str, to: &str, about: &str) -> (r: Self)
        ensures
            r@ == (ExperienceView {
                institution: institution@,
                role: role@,
                dates: (from@, to@),
                about: about@,
            }),
    {
        Experience {
            institution,
            role: role.to_owned(),
            dates: (from.to_owned(), to.to_owned()),
            about: about.to_owned(),
        }
    }

    /// Overwrites the institution.
    pub fn set_institution(&mut self, institution: Identity)
        ensures
            final(self)@ == old(self)@.with_institution_set(institution@),
    {
        self.institution = institution;
    }

    /// Overwrites the role.
    pub fn set_role(&mut self, role: &str)
        ensures
            final(self)@ == old(self)@.with_role_set(role@),
    {
        self.role = role.to_owned();
    }

    /// Overwrites the date pair.
    pub fn set_dates(&mut self, from: &str, to: &str)
        ensures
            final(self)@ == old(self)@.with_dates_set(from@, to@),
    {
        self.dates = (from.to_owned(), to.to_owned());
    }

    /// Overwrites the description.
    pub fn set_about(&mut self, about: &str)
        ensures
            final(self)@ == old(self)@.with_about_set(about@),
    {
        self.about = about.to_owned();
    }
}

/// Model of an [`ExperienceBuilder`]'s accumulated state.
#[verifier::ext_equal]
pub ghost struct ExperienceBuilderView {
    pub institution: IdentityView,
    pub role: Seq<char>,
    pub dates: (Seq<char>, Seq<char>),
    pub about: Seq<char>,
}

/// The freshly constructed builder: every field at its zero value.
pub open spec fn default_experience_builder() -> ExperienceBuilderView {
    ExperienceBuilderView {
        institution: default_identity(),
        role: Seq::empty(),
        dates: (Seq::empty(), Seq::empty()),
        about: Seq::empty(),
    }
}

impl ExperienceBuilderView {
    /// The builder after overwriting the institution.
    pub open spec fn with_institution(self, v: IdentityView) -> Self {
        ExperienceBuilderView { institution: v, ..self }
    }

    /// The builder after overwriting the role.
    pub open spec fn with_role(self, v: Seq<char>) -> Self {
        ExperienceBuilderView { role: v, ..self }
    }

    /// The builder after overwriting the date pair.
    pub open spec fn with_dates(self, from: Seq<char>, to: Seq<char>) -> Self {
        ExperienceBuilderView { dates: (from, to), ..self }
    }

    /// The builder after overwriting the description.
    pub open spec fn with_about(self, v: Seq<char>) -> Self {
        ExperienceBuilderView { about: v, ..self }
    }

    /// The experience entry that `build` produces from this builder state.
    pub open spec fn built(self) -> ExperienceView {
        ExperienceView {
            institution: self.institution,
            role: self.role,
            dates: self.dates,
            about: self.about,
        }
    }
}

/// Accumulates the fields of an [`Experience`] through chained setters.
#[derive(Debug, PartialEq, Eq)]
pub struct ExperienceBuilder {
    institution: Identity,
    role: String,
    dates: (String, String),
    about: String,
}

impl View for ExperienceBuilder {
    type V = ExperienceBuilderView;

    closed spec fn view(&self) -> ExperienceBuilderView {
        ExperienceBuilderView {
            institution: self.institution@,
            role: self.role@,
            dates: (self.dates.0@, self.dates.1@),
            about: self.about@,
        }
    }
}

impl Default for ExperienceBuilder {
    /// The freshly constructed builder.
    fn default() -> (r: Self)
        ensures
            r@ == default_experience_builder(),
    {
        ExperienceBuilder {
            institution: Identity::default(),
            role: String::new(),
            dates: (String::new(), String::new()),
            about: String::new(),
        }
    }
}

impl ExperienceBuilder {
    /// A builder with every field at its zero value.
    pub fn new() -> (r: Self)
        ensures
            r@ == default_experience_builder(),
    {
        Self::default()
    }

    /// Overwrites the institution.
    pub fn institution(self, id: Identity) -> (r: Self)
        ensures
            r@ == self@.with_institution(id@),
    {
        let mut b = self;
        b.institution = id;
        b
    }

    /// Overwrites the role.
    pub fn role(self, role: &str) -> (r: Self)
        ensures
            r@ == self@.with_role(role@),
    {
        let mut b = self;
        b.role = role.to_owned();
        b
    }

    /// Overwrites the date pair.
    pub fn dates(self, from: &str, to: &str) -> (r: Self)
        ensures
            r@ == self@.with_dates(from@, to@),
    {
        let mut b = self;
        b.dates = (from.to_owned(), to.to_owned());
        b
    }

    /// Overwrites the description.
    pub fn about(self, about: &str) -> (r: Self)
        ensures
            r@ == self@.with_about(about@),
    {
        let mut b = self;
        b.about = about.to_owned();
        b
    }

    /// Produces the experience entry held by this builder.
    pub fn build(self) -> (r: Experience)
        ensures
            r@ == self@.built(),
    {
        Experience {
            institution: self.institution,
            role: self.role,
            dates: self.dates,
            about: self.about,
        }
    }
}

/// A freshly constructed builder, finalized without any setter calls,
/// yields exactly the default experience entry.
pub proof fn lemma_experience_builder_default()
    ensures
        default_experience_builder().built() == default_experience(),
{
}

/// The default entry's institution is the default identity and every
/// text field is the empty string.
pub proof fn lemma_default_experience_empty()
    ensures
        default_experience().institution == default_identity(),
        default_experience().role == Seq::<char>::empty(),
        default_experience().dates.0 == Seq::<char>::empty(),
        default_experience().dates.1 == Seq::<char>::empty(),
        default_experience().about == Seq::<char>::empty(),
{
}

/// Calling a scalar setter twice retains only the last value — on the
/// builder and on the entry's own mutators alike.
pub proof fn lemma_experience_setter_overwrites(
    b: ExperienceBuilderView,
    e: ExperienceView,
    i1: IdentityView,
    i2: IdentityView,
    v1: Seq<char>,
    v2: Seq<char>,
    w1: Seq<char>,
    w2: Seq<char>,
)
    ensures
        b.with_institution(i1).with_institution(i2) == b.with_institution(i2),
        b.with_role(v1).with_role(v2) == b.with_role(v2),
        b.with_dates(v1, w1).with_dates(v2, w2) == b.with_dates(v2, w2),
        b.with_about(v1).with_about(v2) == b.with_about(v2),
        e.with_institution_set(i1).with_institution_set(i2) == e.with_institution_set(i2),
        e.with_role_set(v1).with_role_set(v2) == e.with_role_set(v2),
        e.with_dates_set(v1, w1).with_dates_set(v2, w2) == e.with_dates_set(v2, w2),
        e.with_about_set(v1).with_about_set(v2) == e.with_about_set(v2),
{
}

/// Applying an experience entry's field values through the builder
/// setters and then building reproduces the entry.
pub proof fn lemma_experience_round_trip(e: ExperienceView)
    ensures
        default_experience_builder()
            .with_institution(e.institution)
            .with_role(e.role)
            .with_dates(e.dates.0, e.dates.1)
            .with_about(e.about)
            .built() == e,
{
    assert(default_experience_builder()
        .with_institution(e.institution)
        .with_role(e.role)
        .with_dates(e.dates.0, e.dates.1)
        .with_about(e.about)
        .built() =~= e);
}

} // verus!
