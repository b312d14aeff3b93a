use cv_model::Contact;
use cv_model::ContactBuilder;
use cv_model::Cv;
use cv_model::CvBuilder;
use cv_model::Education;
use cv_model::EducationBuilder;
use cv_model::Experience;
use cv_model::ExperienceBuilder;
use cv_model::Location;
use cv_model::LocationBuilder;
use cv_model::Name;
use cv_model::NameBuilder;
use cv_model::Skill;
use cv_model::SkillBuilder;

// Compiles only when both arguments have the same type.
fn same_type<T>(_: &T, _: &T) -> bool {
    true
}

#[test]
fn it_works() {
    assert!(true)
}

#[test]
#[should_panic]
fn it_fails() {
    assert!(false)
}

#[test]
fn skill_builder_sanity() {
    let a = SkillBuilder::new().build();
    let x = Skill::default();
    assert!(same_type(&x, &a))
}

#[test]
fn name_builder_sanity() {
    let a = NameBuilder::new().build();
    let x = Name::default();
    assert!(same_type(&x, &a));
    assert_eq!(a, x)
}

#[test]
fn location_builder_sanity() {
    let a = LocationBuilder::new().build();
    let x = Location::default();
    assert!(same_type(&x, &a));
    assert_eq!(a, x)
}

#[test]
fn experience_builder_sanity() {
    let a = ExperienceBuilder::new().build();
    let x = Experience::default();
    assert!(same_type(&x, &a));
    assert_eq!(a, x)
}

#[test]
fn education_builder_sanity() {
    let a = EducationBuilder::new().build();
    let x = Education::default();
    assert!(same_type(&x, &a));
    assert_eq!(a, x)
}

#[test]
fn contact_builder_sanity() {
    let a = ContactBuilder::new().build();
    let x = Contact::default();
    assert!(same_type(&x, &a));
    assert_eq!(a, x)
}

#[test]
fn cv_builder_sanity() {
    let a = CvBuilder::new().build();
    let x = Cv::default();
    assert!(same_type(&x, &a));
    assert_eq!(a, x)
}
