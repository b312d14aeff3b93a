//! A plain value model of a curriculum vitae: identity, contact
//! information, location, skills, education, and work experience, each
//! with a companion builder for incremental, fluent construction.
//!
//! Every entity is an immutable-by-replacement value type with a
//! zero-value default; every operation is a field assignment or a field
//! append, stated exactly in the contracts over each type's view.

pub mod contact;
pub mod cv;
pub mod education;
pub mod experience;
pub mod identity;
pub mod location;
pub mod name;
pub mod skill;

pub use crate::contact::{Contact, ContactBuilder};
pub use crate::cv::{Cv, CvBuilder};
pub use crate::education::{Education, EducationBuilder};
pub use crate::experience::{Experience, ExperienceBuilder};
pub use crate::identity::{Identity, IdentityBuilder};
pub use crate::location::{Location, LocationBuilder};
pub use crate::name::{Name, NameBuilder};
pub use crate::skill::{Skill, SkillBuilder};
