use authgate::event::EventCategory;

const ALL: [EventCategory; 16] = [
    EventCategory::BirthEarlyYears,
    EventCategory::FamilyRelationships,
    EventCategory::EducationLearning,
    EventCategory::CareerWork,
    EventCategory::ResidenceRelocation,
    EventCategory::HealthWellbeing,
    EventCategory::FinanceWealth,
    EventCategory::CityCommunity,
    EventCategory::CultureSpirituality,
    EventCategory::TravelAdventure,
    EventCategory::HobbySportLeisure,
    EventCategory::DigitalTech,
    EventCategory::EnvironmentNature,
    EventCategory::LaterLife,
    EventCategory::PassingCommemoration,
    EventCategory::Unknown,
];

#[test]
fn every_category_name_parses_back_to_itself() {
    for c in ALL {
        assert_eq!(EventCategory::parse_name(c.name()), Some(c));
    }
}

#[test]
fn names_are_the_exact_variant_spellings() {
    assert_eq!(EventCategory::BirthEarlyYears.name(), "BirthEarlyYears");
    assert_eq!(EventCategory::CareerWork.name(), "CareerWork");
    assert_eq!(EventCategory::Unknown.name(), "Unknown");
}

#[test]
fn unknown_spellings_do_not_parse() {
    assert_eq!(EventCategory::parse_name("careerwork"), None);
    assert_eq!(EventCategory::parse_name("CareerWork "), None);
    assert_eq!(EventCategory::parse_name(""), None);
    assert_eq!(EventCategory::parse_name("Retirement"), None);
}
