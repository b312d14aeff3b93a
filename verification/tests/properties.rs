use cv_model::Contact;
use cv_model::ContactBuilder;
use cv_model::Cv;
use cv_model::CvBuilder;
use cv_model::Education;
use cv_model::EducationBuilder;
use cv_model::Experience;
use cv_model::ExperienceBuilder;
use cv_model::Identity;
use cv_model::IdentityBuilder;
use cv_model::Location;
use cv_model::LocationBuilder;
use cv_model::Name;
use cv_model::NameBuilder;
use cv_model::Skill;
use cv_model::SkillBuilder;

#[test]
fn skill_builder_default_value() {
    assert_eq!(SkillBuilder::new().build(), Skill::default());
}

#[test]
fn identity_builder_default_value() {
    assert_eq!(IdentityBuilder::new().build(), Identity::default());
}

#[test]
fn defaults_are_all_empty() {
    assert_eq!(Name::default(), Name::new("", "", "", "", "", ""));
    assert_eq!(Location::default(), Location::new_street_addr("", "", "", "", 0));
    assert_eq!(Location::default(), Location::new_gps("", ""));
    assert_eq!(Contact::default(), Contact::new());
    assert_eq!(
        Identity::default(),
        Identity::new(Name::default(), Contact::default(), Location::default())
    );
    assert_eq!(Education::default(), Education::new());
    assert_eq!(
        Experience::default(),
        Experience::new(Identity::default(), "", "", "", "")
    );
    assert_eq!(
        Cv::default(),
        Cv::new(Identity::default(), "", vec![], vec![], vec![], "")
    );
}

#[test]
fn contact_appends_in_order() {
    let mut c = Contact::new();
    c.add_phone("work", "555-1000");
    c.add_phone("home", "555-2000");
    let in_order = ContactBuilder::new()
        .phone("work", "555-1000")
        .phone("home", "555-2000")
        .build();
    let reversed = ContactBuilder::new()
        .phone("home", "555-2000")
        .phone("work", "555-1000")
        .build();
    let deduplicated = ContactBuilder::new().phone("work", "555-1000").build();
    assert_eq!(c, in_order);
    assert_ne!(c, reversed);
    assert_ne!(c, deduplicated);
}

#[test]
fn contact_mutators_touch_their_own_list() {
    let mut c = Contact::new();
    c.add_phone("work", "555-1000");
    c.add_email("work", "a@b.example");
    c.add_web("blog", "https://blog.example");
    let expected = ContactBuilder::new()
        .phone("work", "555-1000")
        .email("work", "a@b.example")
        .web("blog", "https://blog.example")
        .build();
    assert_eq!(c, expected);
    assert_ne!(c, ContactBuilder::new().chat("work", "555-1000").build());
}

#[test]
fn scalar_setter_overwrites() {
    let twice = ExperienceBuilder::new()
        .role("Engineer")
        .role("Senior Engineer")
        .build();
    let once = ExperienceBuilder::new().role("Senior Engineer").build();
    let first_only = ExperienceBuilder::new().role("Engineer").build();
    assert_eq!(twice, once);
    assert_ne!(twice, first_only);
}

#[test]
fn name_round_trip() {
    let literal = Name::new("Dr.", "Ada", "A.", "Lovelace", "", "Countess");
    let rebuilt = NameBuilder::new()
        .prefix("Dr.")
        .first("Ada")
        .middle("A.")
        .last("Lovelace")
        .alt("Countess")
        .build();
    assert_eq!(rebuilt, literal);
}

#[test]
fn builder_has_no_suffix_setter() {
    let with_suffix = Name::new("", "Ada", "", "Lovelace", "Jr.", "");
    let built = NameBuilder::new().first("Ada").last("Lovelace").build();
    assert_ne!(built, with_suffix);
    assert_eq!(built, Name::new("", "Ada", "", "Lovelace", "", ""));
}

#[test]
fn location_round_trip() {
    let literal = Location::new_apartment_address(
        "12 Main St",
        "4B",
        "North Tower",
        "Main St",
        "Springfield",
        "IL",
        62701,
    );
    let rebuilt = LocationBuilder::new()
        .address("12 Main St")
        .suit("4B")
        .building("North Tower")
        .street("Main St")
        .city("Springfield")
        .state("IL")
        .postal_code(62701)
        .build();
    assert_eq!(rebuilt, literal);
}

#[test]
fn business_address_has_country_not_postal_code() {
    let business = Location::new_business_address(
        "12 Main St",
        "4B",
        "North Tower",
        "Main St",
        "Springfield",
        "IL",
        "USA",
    );
    let rebuilt = LocationBuilder::new()
        .address("12 Main St")
        .suit("4B")
        .building("North Tower")
        .street("Main St")
        .city("Springfield")
        .state("IL")
        .country("USA")
        .build();
    assert_eq!(rebuilt, business);
}

#[test]
fn experience_round_trip() {
    let institution = IdentityBuilder::new()
        .name(NameBuilder::new().first("Acme").build())
        .build();
    let literal = Experience::new(
        IdentityBuilder::new()
            .name(NameBuilder::new().first("Acme").build())
            .build(),
        "Engineer",
        "2019",
        "2023",
        "Built things",
    );
    let rebuilt = ExperienceBuilder::new()
        .institution(institution)
        .role("Engineer")
        .dates("2019", "2023")
        .about("Built things")
        .build();
    assert_eq!(rebuilt, literal);
}

#[test]
fn experience_mutators_match_builder() {
    let mut e = Experience::new(Identity::default(), "", "", "", "");
    e.set_role("Engineer");
    e.set_dates("2019", "2023");
    e.set_about("Built things");
    e.set_institution(Identity::default());
    let expected = ExperienceBuilder::new()
        .role("Engineer")
        .dates("2019", "2023")
        .about("Built things")
        .build();
    assert_eq!(e, expected);
}

#[test]
fn education_mutators_match_builder() {
    let mut e = Education::new();
    e.set_dates("2015", "2019");
    e.set_subject("Mathematics");
    e.set_certificate("BSc");
    e.set_about("Dean's list");
    let expected = EducationBuilder::new()
        .dates("2015", "2019")
        .subject("Mathematics")
        .certificate("BSc")
        .about("Dean's list")
        .build();
    assert_eq!(e, expected);
}

#[test]
fn cv_with_one_skill_composition() {
    let built = CvBuilder::new()
        .skill(Skill::new("Rust", 5, 9001, "systems", "language"))
        .build();
    let expected = Cv::new(
        Identity::default(),
        "",
        vec![Skill::new("Rust", 5, 9001, "systems", "language")],
        vec![],
        vec![],
        "",
    );
    assert_eq!(built, expected);
    assert_ne!(built, Cv::default());
}

#[test]
fn cv_round_trip() {
    let id = IdentityBuilder::new()
        .name(NameBuilder::new().first("Ada").last("Lovelace").build())
        .build();
    let literal = Cv::new(
        IdentityBuilder::new()
            .name(NameBuilder::new().first("Ada").last("Lovelace").build())
            .build(),
        "Analyst",
        vec![Skill::new("Rust", 5, 9001, "systems", "language")],
        vec![Experience::new(Identity::default(), "Engineer", "2019", "2023", "")],
        vec![Education::new()],
        "About me",
    );
    let rebuilt = CvBuilder::new()
        .identity(id)
        .tldr("Analyst")
        .skill(Skill::new("Rust", 5, 9001, "systems", "language"))
        .experience(Experience::new(Identity::default(), "Engineer", "2019", "2023", ""))
        .education(Education::new())
        .about("About me")
        .build();
    assert_eq!(rebuilt, literal);
}

#[test]
fn gps_constructor_leaves_rest_default() {
    let gps = Location::new_gps("40.0", "-75.0");
    let expected = LocationBuilder::new().gps_lat("40.0").gps_long("-75.0").build();
    assert_eq!(gps, expected);
    assert_eq!(gps, LocationBuilder::new().gps("40.0", "-75.0").build());
    assert_ne!(gps, Location::default());
}

#[test]
fn skill_new_fills_both_category_lists() {
    let s = Skill::new("Rust", 5, 9001, "systems", "language");
    let expected = SkillBuilder::new()
        .skill("Rust")
        .exp(5)
        .rank(9001)
        .assign_category("systems")
        .assign_subcat("language")
        .build();
    assert_eq!(s, expected);
}

#[test]
fn skill_rename_overwrites_name() {
    let mut s = Skill::new("Rust", 5, 9001, "systems", "language");
    s.rename("Verus");
    assert_eq!(s, Skill::new("Verus", 5, 9001, "systems", "language"));
}

// `add_categories` keeps the compatible behaviour: both arguments land
// in `category`, in call order, and `sub_category` stays untouched.
#[test]
fn add_categories_regression_guard() {
    let mut s = Skill::default();
    s.add_categories("cat1", "sub1");
    let both_in_category = SkillBuilder::new()
        .assign_category("cat1")
        .assign_category("sub1")
        .build();
    let split_across_lists = SkillBuilder::new()
        .assign_category("cat1")
        .assign_subcat("sub1")
        .build();
    assert_eq!(s, both_in_category);
    assert_ne!(s, split_across_lists);
}

#[test]
fn add_subcategory_appends_to_category() {
    let mut s = Skill::default();
    s.add_subcategory("sub1");
    assert_eq!(s, SkillBuilder::new().assign_category("sub1").build());
    assert_ne!(s, SkillBuilder::new().assign_subcat("sub1").build());
}
