//! An education entry: the institution, a from/to date pair, the
//! subject, the certificate earned, and a free-text description.

use crate::identity::{default_identity, Identity, IdentityView};
use vstd::prelude::*;

verus! {

/// Mathematical model of an [`Education`].
#[verifier::ext_equal]
pub ghost struct EducationView {
    pub institution: IdentityView,
    pub dates: (Seq<char>, Seq<char>),
    pub subject: Seq<char>,
    pub certificate: Seq<char>,
    pub about: Seq<char>,
}

/// The zero-value education entry.
pub open spec fn default_education() -> EducationView {
    EducationView {
        institution: default_identity(),
        dates: (Seq::empty(), Seq::empty()),
        subject: Seq::empty(),
        certificate: Seq::empty(),
        about: Seq::empty(),
    }
}

impl EducationView {
    /// The entry after overwriting the date pair.
    pub open spec fn with_dates_set(self, from: Seq<char>, to: Seq<char>) -> Self {
        EducationView { dates: (from, to), ..self }
    }

    /// The entry after overwriting the subject.
    pub open spec fn with_subject_set(self, v: Seq<char>) -> Self {
        EducationView { subject: v, ..self }
    }

    /// The entry after overwriting the certificate.
    pub open spec fn with_certificate_set(self, v: Seq<char>) -> Self {
        EducationView { certificate: v, ..self }
    }

    /// The entry after overwriting the description.
    pub open spec fn with_about_set(self, v: Seq<char>) -> Self {
        EducationView { about: v, ..self }
    }
}

/// A course of study at some institution.  Dates are kept as an
/// ordered pair of plain text, not validated as calendar values.
#[derive(Debug, PartialEq, Eq)]
pub struct Education {
    institution: Identity,
    dates: (String, String),
    subject: String,
    certificate: String,
    about: String,
}

impl View for Education {
    type V = EducationView;

    closed spec fn view(&self) -> EducationView {
        EducationView {
            institution: self.institution@,
            dates: (self.dates.0@, self.dates.1@),
            subject: self.subject@,
            certificate: self.certificate@,
            about: self.about@,
        }
    }
}

impl Default for Education {
    /// The zero-value education entry.
    fn default() -> (r: Self)
        ensures
            r@ == default_education(),
    {
        Education {
            institution: Identity::default(),
            dates: (String::new(), String::new()),
            subject: String::new(),
            certificate: String::new(),
            about: String::new(),
        }
    }
}

impl Education {
    /// An empty education entry, to be filled through the mutators.
    pub fn new() -> (r: Self)
        ensures
            r@ == default_education(),
    {
        Self::default()
    }

    /// Overwrites the date pair.
    pub fn set_dates(&mut self, from: &str, to: &str)
        ensures
            final(self)@ == old(self)@.with_dates_set(from@, to@),
    {
        self.dates = (from.to_owned(), to.to_owned());
    }

    /// Overwrites the subject.
    pub fn set_subject(&mut self, subject: &str)
        ensures
            final(self)@ == old(self)@.with_subject_set(subject@),
    {
        self.subject = subject.to_owned();
    }

    /// Overwrites the certificate.
    pub fn set_certificate(&mut self, cert: &str)
        ensures
            final(self)@ == old(self)@.with_certificate_set(cert@),
    {
        self.certificate = cert.to_owned();
    }

    /// Overwrites the description.
    pub fn set_about(&mut self, about: &str)
        ensures
            final(self)@ == old(self)@.with_about_set(about@),
    {
        self.about = about.to_owned();
    }
}

/// Model of an [`EducationBuilder`]'s accumulated state.
#[verifier::ext_equal]
pub ghost struct EducationBuilderView {
    pub institution: IdentityView,
    pub dates: (Seq<char>, Seq<char>),
    pub subject: Seq<char>,
    pub certificate: Seq<char>,
    pub about: Seq<char>,
}

/// The freshly constructed builder: every field at its zero value.
pub open spec fn default_education_builder() -> EducationBuilderView {
    EducationBuilderView {
        institution: default_identity(),
        dates: (Seq::empty(), Seq::empty()),
        subject: Seq::empty(),
        certificate: Seq::empty(),
        about: Seq::empty(),
    }
}

impl EducationBuilderView {
    /// The builder after overwriting the institution.
    pub open spec fn with_institution(self, v: IdentityView) -> Self {
        EducationBuilderView { institution: v, ..self }
    }

    /// The builder after overwriting the date pair.
    pub open spec fn with_dates(self, from: Seq<char>, to: Seq<char>) -> Self {
        EducationBuilderView { dates: (from, to), ..self }
    }

    /// The builder after overwriting the subject.
    pub open spec fn with_subject(self, v: Seq<char>) -> Self {
        EducationBuilderView { subject: v, ..self }
    }

    /// The builder after overwriting the certificate.
    pub open spec fn with_certificate(self, v: Seq<char>) -> Self {
        EducationBuilderView { certificate: v, ..self }
    }

    /// The builder after overwriting the description.
    pub open spec fn with_about(self, v: Seq<char>) -> Self {
        EducationBuilderView { about: v, ..self }
    }

    /// The education entry that `build` produces from this builder state.
    pub open spec fn built(self) -> EducationView {
        EducationView {
            institution: self.institution,
            dates: self.dates,
            subject: self.subject,
            certificate: self.certificate,
            about: self.about,
        }
    }
}

/// Accumulates the fields of an [`Education`] through chained setters.
#[derive(Debug, PartialEq, Eq)]
pub struct EducationBuilder {
    institution: Identity,
    dates: (String, String),
    subject: String,
    certificate: String,
    about: String,
}

impl View for EducationBuilder {
    type V = EducationBuilderView;

    closed spec fn view(&self) -> EducationBuilderView {
        EducationBuilderView {
            institution: self.institution@,
            dates: (self.dates.0@, self.dates.1@),
            subject: self.subject@,
            certificate: self.certificate@,
            about: self.about@,
        }
    }
}

impl Default for EducationBuilder {
    /// The freshly constructed builder.
    fn default() -> (r: Self)
        ensures
            r@ == default_education_builder(),
    {
        EducationBuilder {
            institution: Identity::default(),
            dates: (String::new(), String::new()),
            subject: String::new(),
            certificate: String::new(),
            about: String::new(),
        }
    }
}

impl EducationBuilder {
    /// A builder with every field at its zero value.
    pub fn new() -> (r: Self)
        ensures
            r@ == default_education_builder(),
    {
        Self::default()
    }

    /// Overwrites the institution.
    pub fn institution(self, id: Identity) -> (r: Self)
        ensures
            r@ == self@.with_institution(id@),
    {
        let mut b = self;
        b.institution = id;
        b
    }

    /// Overwrites the date pair.
    pub fn dates(self, from: &str, to: &str) -> (r: Self)
        ensures
            r@ == self@.with_dates(from@, to@),
    {
        let mut b = self;
        b.dates = (from.to_owned(), to.to_owned());
        b
    }

    /// Overwrites the subject.
    pub fn subject(self, subject: &str) -> (r: Self)
        ensures
            r@ == self@.with_subject(subject@),
    {
        let mut b = self;
        b.subject = subject.to_owned();
        b
    }

    /// Overwrites the certificate.
    pub fn certificate(self, cert: &str) -> (r: Self)
        ensures
            r@ == self@.with_certificate(cert@),
    {
        let mut b = self;
        b.certificate = cert.to_owned();
        b
    }

    /// Overwrites the description.
    pub fn about(self, about: &str) -> (r: Self)
        ensures
            r@ == self@.with_about(about@),
    {
        let mut b = self;
        b.about = about.to_owned();
        b
    }

    /// Produces the education entry held by this builder.
    pub fn build(self) -> (r: Education)
        ensures
            r@ == self@.built(),
    {
        Education {
            institution: self.institution,
            dates: self.dates,
            subject: self.subject,
            certificate: self.certificate,
            about: self.about,
        }
    }
}

/// A freshly constructed builder, finalized without any setter calls,
/// yields exactly the default education entry.
pub proof fn lemma_education_builder_default()
    ensures
        default_education_builder().built() == default_education(),
{
}

/// The default entry's institution is the default identity and every
/// text field is the empty string.
pub proof fn lemma_default_education_empty()
    ensures
        default_education().institution == default_identity(),
        default_education().dates.0 == Seq::<char>::empty(),
        default_education().dates.1 == Seq::<char>::empty(),
        default_education().subject == Seq::<char>::empty(),
        default_education().certificate == Seq::<char>::empty(),
        default_education().about == Seq::<char>::empty(),
{
}

/// Calling a scalar setter twice retains only the last value — on the
/// builder and on the entry's own mutators alike.
pub proof fn lemma_education_setter_overwrites(
    b: EducationBuilderView,
    e: EducationView,
    i1: IdentityView,
    i2: IdentityView,
    v1: Seq<char>,
    v2: Seq<char>,
    w1: Seq<char>,
    w2: Seq<char>,
)
    ensures
        b.with_institution(i1).with_institution(i2) == b.with_institution(i2),
        b.with_dates(v1, w1).with_dates(v2, w2) == b.with_dates(v2, w2),
        b.with_subject(v1).with_subject(v2) == b.with_subject(v2),
        b.with_certificate(v1).with_certificate(v2) == b.with_certificate(v2),
        b.with_about(v1).with_about(v2) == b.with_about(v2),
        e.with_dates_set(v1, w1).with_dates_set(v2, w2) == e.with_dates_set(v2, w2),
        e.with_subject_set(v1).with_subject_set(v2) == e.with_subject_set(v2),
        e.with_certificate_set(v1).with_certificate_set(v2) == e.with_certificate_set(v2),
        e.with_about_set(v1).with_about_set(v2) == e.with_about_set(v2),
{
}

/// Applying an education entry's field values through the builder
/// setters and then building reproduces the entry.
pub proof fn lemma_education_round_trip(e: EducationView)
    ensures
        default_education_builder()
            .with_institution(e.institution)
            .with_dates(e.dates.0, e.dates.1)
            .with_subject(e.subject)
            .with_certificate(e.certificate)
            .with_about(e.about)
            .built() == e,
{
    assert(default_education_builder()
        .with_institution(e.institution)
        .with_dates(e.dates.0, e.dates.1)
        .with_subject(e.subject)
        .with_certificate(e.certificate)
        .with_about(e.about)
        .built() =~= e);
}

} // verus!
