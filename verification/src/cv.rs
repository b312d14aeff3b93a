//! The curriculum vitae itself: the subject's identity, a summary,
//! ordered lists of skills, experience and education, and a free-text
//! description.

use crate::education::{Education, EducationView};
use crate::experience::{Experience, ExperienceView};
use crate::identity::{default_identity, Identity, IdentityView};
use crate::skill::{Skill, SkillView};
use vstd::prelude::*;

verus! {

/// Model of a list of skills, in order.
pub open spec fn skills_view(v: Seq<Skill>) -> Seq<SkillView> {
    v.map_values(|s: Skill| s@)
}

/// Model of a list of experience entries, in order.
pub open spec fn experiences_view(v: Seq<Experience>) -> Seq<ExperienceView> {
    v.map_values(|e: Experience| e@)
}

/// Model of a list of education entries, in order.
pub open spec fn educations_view(v: Seq<Education>) -> Seq<EducationView> {
    v.map_values(|e: Education| e@)
}

/// Appending one skill to the list appends its model to the model.
proof fn lemma_skills_view_push(v: Seq<Skill>, s: Skill)
    ensures
        skills_view(v.push(s)) == skills_view(v).push(s@),
{
    assert(skills_view(v.push(s)) =~= skills_view(v).push(s@));
}

/// Appending one experience entry to the list appends its model to the
/// model.
proof fn lemma_experiences_view_push(v: Seq<Experience>, e: Experience)
    ensures
        experiences_view(v.push(e)) == experiences_view(v).push(e@),
{
    assert(experiences_view(v.push(e)) =~= experiences_view(v).push(e@));
}

/// Appending one education entry to the list appends its model to the
/// model.
proof fn lemma_educations_view_push(v: Seq<Education>, e: Education)
    ensures
        educations_view(v.push(e)) == educations_view(v).push(e@),
{
    assert(educations_view(v.push(e)) =~= educations_view(v).push(e@));
}

/// Mathematical model of a [`Cv`].
#[verifier::ext_equal]
pub ghost struct CvView {
    pub id: IdentityView,
    pub tldr: Seq<char>,
    pub skills: Seq<SkillView>,
    pub experience: Seq<ExperienceView>,
    pub education: Seq<EducationView>,
    pub about: Seq<char>,
}

/// The zero-value CV: default identity, empty text, empty lists.
pub open spec fn default_cv() -> CvView {
    CvView {
        id: default_identity(),
        tldr: Seq::empty(),
        skills: Seq::empty(),
        experience: Seq::empty(),
        education: Seq::empty(),
        about: Seq::empty(),
    }
}

/// A complete curriculum vitae for one person.
#[derive(Debug, PartialEq, Eq)]
pub struct Cv {
    id: Identity,
    tldr: String,
    skills: Vec<Skill>,
    experience: Vec<Experience>,
    education: Vec<Education>,
    about: String,
}

impl View for Cv {
    type V = CvView;

    closed spec fn view(&self) -> CvView {
        CvView {
            id: self.id@,
            tldr: self.tldr@,
            skills: skills_view(self.skills@),
            experience: experiences_view(self.experience@),
            education: educations_view(self.education@),
            about: self.about@,
        }
    }
}

impl Default for Cv {
    /// The zero-value CV.
    fn default() -> (r: Self)
        ensures
            r@ == default_cv(),
    {
        let r = Cv {
            id: Identity::default(),
            tldr: String::new(),
            skills: Vec::new(),
            experience: Vec::new(),
            education: Vec::new(),
            about: String::new(),
        };
        proof {
            assert(r@ =~= default_cv());
        }
        r
    }
}

impl Cv {
    /// Constructs a CV from all its parts at once; the given lists are
    /// taken over as they stand, in order.
    pub fn new(
        id: Identity,
        tldr: &str,
        skills: Vec<Skill>,
        experience: Vec<Experience>,
        education: Vec<Education>,
        about: &str,
    ) -> (r: Self)
        ensures
            r@ == (CvView {
                id: id@,
                tldr: tldr@,
                skills: skills_view(skills@),
                experience: experiences_view(experience@),
                education: educations_view(education@),
                about: about@,
            }),
    {
        Cv {
            id,
            tldr: tldr.to_owned(),
            skills,
            experience,
            education,
            about: about.to_owned(),
        }
    }
}

/// Model of a [`CvBuilder`]'s accumulated state.
#[verifier::ext_equal]
pub ghost struct CvBuilderView {
    pub id: IdentityView,
    pub tldr: Seq<char>,
    pub skills: Seq<SkillView>,
    pub experience: Seq<ExperienceView>,
    pub education: Seq<EducationView>,
    pub about: Seq<char>,
}

/// The freshly constructed builder: every field at its zero value.
pub open spec fn default_cv_builder() -> CvBuilderView {
    CvBuilderView {
        id: default_identity(),
        tldr: Seq::empty(),
        skills: Seq::empty(),
        experience: Seq::empty(),
        education: Seq::empty(),
        about: Seq::empty(),
    }
}

impl CvBuilderView {
    /// The builder after overwriting the subject's identity.
    pub open spec fn with_identity(self, v: IdentityView) -> Self {
        CvBuilderView { id: v, ..self }
    }

    /// The builder after overwriting the summary.
    pub open spec fn with_tldr(self, v: Seq<char>) -> Self {
        CvBuilderView { tldr: v, ..self }
    }

    /// The builder after appending one skill.
    pub open spec fn with_skill(self, v: SkillView) -> Self {
        CvBuilderView { skills: self.skills.push(v), ..self }
    }

    /// The builder after appending one experience entry.
    pub open spec fn with_experience(self, v: ExperienceView) -> Self {
        CvBuilderView { experience: self.experience.push(v), ..self }
    }

    /// The builder after appending one education entry.
    pub open spec fn with_education(self, v: EducationView) -> Self {
        CvBuilderView { education: self.education.push(v), ..self }
    }

    /// The builder after overwriting the description.
    pub open spec fn with_about(self, v: Seq<char>) -> Self {
        CvBuilderView { about: v, ..self }
    }

    /// The CV that `build` produces from this builder state.
    pub open spec fn built(self) -> CvView {
        CvView {
            id: self.id,
            tldr: self.tldr,
            skills: self.skills,
            experience: self.experience,
            education: self.education,
            about: self.about,
        }
    }
}

/// Accumulates the parts of a [`Cv`] through chained setters.
#[derive(Debug, PartialEq, Eq)]
pub struct CvBuilder {
    id: Identity,
    tldr: String,
    skills: Vec<Skill>,
    experience: Vec<Experience>,
    education: Vec<Education>,
    about: String,
}

impl View for CvBuilder {
    type V = CvBuilderView;

    closed spec fn view(&self) -> CvBuilderView {
        CvBuilderView {
            id: self.id@,
            tldr: self.tldr@,
            skills: skills_view(self.skills@),
            experience: experiences_view(self.experience@),
            education: educations_view(self.education@),
            about: self.about@,
        }
    }
}

impl Default for CvBuilder {
    /// The freshly constructed builder.
    fn default() -> (r: Self)
        ensures
            r@ == default_cv_builder(),
    {
        let r = CvBuilder {
            id: Identity::default(),
            tldr: String::new(),
            skills: Vec::new(),
            experience: Vec::new(),
            education: Vec::new(),
            about: String::new(),
        };
        proof {
            assert(r@ =~= default_cv_builder());
        }
        r
    }
}

impl CvBuilder {
    /// A builder with every field at its zero value.
    pub fn new() -> (r: Self)
        ensures
            r@ == default_cv_builder(),
    {
        Self::default()
    }

    /// Overwrites the subject's identity.
    pub fn identity(self, id: Identity) -> (r: Self)
        ensures
            r@ == self@.with_identity(id@),
    {
        let mut b = self;
        b.id = id;
        b
    }

    /// Overwrites the summary.
    pub fn tldr(self, tldr: &str) -> (r: Self)
        ensures
            r@ == self@.with_tldr(tldr@),
    {
        let mut b = self;
        b.tldr = tldr.to_owned();
        b
    }

    /// Appends one skill; earlier skills are kept in order.
    pub fn skill(self, skill: Skill) -> (r: Self)
        ensures
            r@ == self@.with_skill(skill@),
    {
        let mut b = self;
        proof {
            lemma_skills_view_push(b.skills@, skill);
        }
        b.skills.push(skill);
        b
    }

    /// Appends one experience entry; earlier entries are kept in order.
    pub fn experience(self, exp: Experience) -> (r: Self)
        ensures
            r@ == self@.with_experience(exp@),
    {
        let mut b = self;
        proof {
            lemma_experiences_view_push(b.experience@, exp);
        }
        b.experience.push(exp);
        b
    }

    /// Appends one education entry; earlier entries are kept in order.
    pub fn education(self, edu: Education) -> (r: Self)
        ensures
            r@ == self@.with_education(edu@),
    {
        let mut b = self;
        proof {
            lemma_educations_view_push(b.education@, edu);
        }
        b.education.push(edu);
        b
    }

    /// Overwrites the description.
    pub fn about(self, about: &str) -> (r: Self)
        ensures
            r@ == self@.with_about(about@),
    {
        let mut b = self;
        b.about = about.to_owned();
        b
    }

    /// Produces the CV held by this builder.
    pub fn build(self) -> (r: Cv)
        ensures
            r@ == self@.built(),
    {
        let r = Cv {
            id: self.id,
            tldr: self.tldr,
            skills: self.skills,
            experience: self.experience,
            education: self.education,
            about: self.about,
        };
        proof {
            assert(r@ =~= self@.built());
        }
        r
    }
}

/// A freshly constructed builder, finalized without any setter calls,
/// yields exactly the default CV.
pub proof fn lemma_cv_builder_default()
    ensures
        default_cv_builder().built() == default_cv(),
{
}

/// The default CV's identity is the default identity, its text fields
/// are empty and its lists are empty.
pub proof fn lemma_default_cv_empty()
    ensures
        default_cv().id == default_identity(),
        default_cv().tldr == Seq::<char>::empty(),
        default_cv().skills.len() == 0,
        default_cv().experience.len() == 0,
        default_cv().education.len() == 0,
        default_cv().about == Seq::<char>::empty(),
{
}

/// Calling a scalar setter twice retains only the last value.
pub proof fn lemma_cv_setter_overwrites(
    b: CvBuilderView,
    i1: IdentityView,
    i2: IdentityView,
    v1: Seq<char>,
    v2: Seq<char>,
)
    ensures
        b.with_identity(i1).with_identity(i2) == b.with_identity(i2),
        b.with_tldr(v1).with_tldr(v2) == b.with_tldr(v2),
        b.with_about(v1).with_about(v2) == b.with_about(v2),
{
}

/// A CV built from a fresh builder with exactly one skill appended has
/// that one skill and nothing in its experience and education lists.
pub proof fn lemma_cv_single_skill(i: IdentityView, s: SkillView)
    ensures
        default_cv_builder().with_identity(i).with_skill(s).built().skills == seq![s],
        default_cv_builder().with_identity(i).with_skill(s).built().experience
            == Seq::<ExperienceView>::empty(),
        default_cv_builder().with_identity(i).with_skill(s).built().education
            == Seq::<EducationView>::empty(),
{
    assert(default_cv_builder().with_identity(i).with_skill(s).built().skills =~= seq![s]);
}

/// The builder after one `skill` call per entry of `items`, in order.
pub open spec fn skills_applied(b: CvBuilderView, items: Seq<SkillView>) -> CvBuilderView
    decreases items.len(),
{
    if items.len() == 0 {
        b
    } else {
        skills_applied(b.with_skill(items[0]), items.drop_first())
    }
}

/// The builder after one `experience` call per entry of `items`, in order.
pub open spec fn experiences_applied(b: CvBuilderView, items: Seq<ExperienceView>) -> CvBuilderView
    decreases items.len(),
{
    if items.len() == 0 {
        b
    } else {
        experiences_applied(b.with_experience(items[0]), items.drop_first())
    }
}

/// The builder after one `education` call per entry of `items`, in order.
pub open spec fn educations_applied(b: CvBuilderView, items: Seq<EducationView>) -> CvBuilderView
    decreases items.len(),
{
    if items.len() == 0 {
        b
    } else {
        educations_applied(b.with_education(items[0]), items.drop_first())
    }
}

/// Repeated `skill` calls append exactly their entries, in order, and
/// touch nothing else.
pub proof fn lemma_skills_applied(b: CvBuilderView, items: Seq<SkillView>)
    ensures
        skills_applied(b, items).skills == b.skills + items,
        skills_applied(b, items).id == b.id,
        skills_applied(b, items).tldr == b.tldr,
        skills_applied(b, items).experience == b.experience,
        skills_applied(b, items).education == b.education,
        skills_applied(b, items).about == b.about,
    decreases items.len(),
{
    if items.len() == 0 {
        assert(b.skills + items =~= b.skills);
    } else {
        let b1 = b.with_skill(items[0]);
        lemma_skills_applied(b1, items.drop_first());
        assert(b1.skills + items.drop_first() =~= b.skills + items);
    }
}

/// Repeated `experience` calls append exactly their entries, in order,
/// and touch nothing else.
pub proof fn lemma_experiences_applied(b: CvBuilderView, items: Seq<ExperienceView>)
    ensures
        experiences_applied(b, items).experience == b.experience + items,
        experiences_applied(b, items).id == b.id,
        experiences_applied(b, items).tldr == b.tldr,
        experiences_applied(b, items).skills == b.skills,
        experiences_applied(b, items).education == b.education,
        experiences_applied(b, items).about == b.about,
    decreases items.len(),
{
    if items.len() == 0 {
        assert(b.experience + items =~= b.experience);
    } else {
        let b1 = b.with_experience(items[0]);
        lemma_experiences_applied(b1, items.drop_first());
        assert(b1.experience + items.drop_first() =~= b.experience + items);
    }
}

/// Repeated `education` calls append exactly their entries, in order,
/// and touch nothing else.
pub proof fn lemma_educations_applied(b: CvBuilderView, items: Seq<EducationView>)
    ensures
        educations_applied(b, items).education == b.education + items,
        educations_applied(b, items).id == b.id,
        educations_applied(b, items).tldr == b.tldr,
        educations_applied(b, items).skills == b.skills,
        educations_applied(b, items).experience == b.experience,
        educations_applied(b, items).about == b.about,
    decreases items.len(),
{
    if items.len() == 0 {
        assert(b.education + items =~= b.education);
    } else {
        let b1 = b.with_education(items[0]);
        lemma_educations_applied(b1, items.drop_first());
        assert(b1.education + items.drop_first() =~= b.education + items);
    }
}

/// Applying a CV's field values through the builder setters — one
/// appending call per list entry, in order — and then building
/// reproduces the CV.
pub proof fn lemma_cv_round_trip(c: CvView)
    ensures
        educations_applied(
            experiences_applied(
                skills_applied(
                    default_cv_builder().with_identity(c.id).with_tldr(c.tldr).with_about(c.about),
                    c.skills,
                ),
                c.experience,
            ),
            c.education,
        ).built() == c,
{
    let b0 = default_cv_builder().with_identity(c.id).with_tldr(c.tldr).with_about(c.about);
    let b1 = skills_applied(b0, c.skills);
    let b2 = experiences_applied(b1, c.experience);
    let b3 = educations_applied(b2, c.education);
    lemma_skills_applied(b0, c.skills);
    lemma_experiences_applied(b1, c.experience);
    lemma_educations_applied(b2, c.education);
    assert(b3.built() =~= c);
}

} // verus!
