//! The fixed set of life-event categories.
//!
//! Categories travel as their exact variant names in storage, payloads and
//! the categorization prompt; [`EventCategory::name`] and
//! [`EventCategory::parse_name`] are verified inverses over that spelling.

use vstd::prelude::*;

verus! {

/// A life-event category.
#[derive(Debug, Clone, Copy, PartialEq, Eq, Structural)]
pub enum EventCategory {
    BirthEarlyYears,
    FamilyRelationships,
    EducationLearning,
    CareerWork,
    ResidenceRelocation,
    HealthWellbeing,
    FinanceWealth,
    CityCommunity,
    CultureSpirituality,
    TravelAdventure,
    HobbySportLeisure,
    DigitalTech,
    EnvironmentNature,
    LaterLife,
    PassingCommemoration,
    Unknown,
}

/// The exact name a category travels under.
pub open spec fn category_name(c: EventCategory) -> Seq<char> {
    match c {
        EventCategory::BirthEarlyYears => "BirthEarlyYears"@,
        EventCategory::FamilyRelationships => "FamilyRelationships"@,
        EventCategory::EducationLearning => "EducationLearning"@,
        EventCategory::CareerWork => "CareerWork"@,
        EventCategory::ResidenceRelocation => "ResidenceRelocation"@,
        EventCategory::HealthWellbeing => "HealthWellbeing"@,
        EventCategory::FinanceWealth => "FinanceWealth"@,
        EventCategory::CityCommunity => "CityCommunity"@,
        EventCategory::CultureSpirituality => "CultureSpirituality"@,
        EventCategory::TravelAdventure => "TravelAdventure"@,
        EventCategory::HobbySportLeisure => "HobbySportLeisure"@,
        EventCategory::DigitalTech => "DigitalTech"@,
        EventCategory::EnvironmentNature => "EnvironmentNature"@,
        EventCategory::LaterLife => "LaterLife"@,
        EventCategory::PassingCommemoration => "PassingCommemoration"@,
        EventCategory::Unknown => "Unknown"@,
    }
}

/// The category a name denotes, if any.
pub open spec fn category_of_name(s: Seq<char>) -> Option<EventCategory> {
    if s == "BirthEarlyYears"@ {
        Some(EventCategory::BirthEarlyYears)
    } else if s == "FamilyRelationships"@ {
        Some(EventCategory::FamilyRelationships)
    } else if s == "EducationLearning"@ {
        Some(EventCategory::EducationLearning)
    } else if s == "CareerWork"@ {
        Some(EventCategory::CareerWork)
    } else if s == "ResidenceRelocation"@ {
        Some(EventCategory::ResidenceRelocation)
    } else if s == "HealthWellbeing"@ {
        Some(EventCategory::HealthWellbeing)
    } else if s == "FinanceWealth"@ {
        Some(EventCategory::FinanceWealth)
    } else if s == "CityCommunity"@ {
        Some(EventCategory::CityCommunity)
    } else if s == "CultureSpirituality"@ {
        Some(EventCategory::CultureSpirituality)
    } else if s == "TravelAdventure"@ {
        Some(EventCategory::TravelAdventure)
    } else if s == "HobbySportLeisure"@ {
        Some(EventCategory::HobbySportLeisure)
    } else if s == "DigitalTech"@ {
        Some(EventCategory::DigitalTech)
    } else if s == "EnvironmentNature"@ {
        Some(EventCategory::EnvironmentNature)
    } else if s == "LaterLife"@ {
        Some(EventCategory::LaterLife)
    } else if s == "PassingCommemoration"@ {
        Some(EventCategory::PassingCommemoration)
    } else if s == "Unknown"@ {
        Some(EventCategory::Unknown)
    } else {
        None
    }
}

/// Whether two strings hold the same characters.
fn str_eq(a: &str, b: &str) -> (r: bool)
    ensures
        r == (a@ == b@),
{
    let alen = a.unicode_len();
    let blen = b.unicode_len();
    if alen != blen {
        proof {
            assert(a@ != b@) by {
                if a@ == b@ {
                    assert(a@.len() == b@.len());
                }
            }
        }
        return false;
    }
    let mut i: usize = 0;
    while i < alen
        invariant
            i <= alen,
            alen == a@.len(),
            alen == b@.len(),
            forall|j: int| 0 <= j < i ==> a@[j] == b@[j],
        decreases alen - i,
    {
        if a.get_char(i) != b.get_char(i) {
            proof {
                assert(a@ != b@) by {
                    if a@ == b@ {
                        assert(a@[i as int] == b@[i as int]);
                    }
                }
            }
            return false;
        }
        i += 1;
    }
    proof {
        assert(a@ =~= b@);
    }
    true
}

impl EventCategory {
    /// The exact name this category travels under.
    pub fn name(&self) -> (r: &'static str)
        ensures
            r@ == category_name(*self),
    {
        match self {
            EventCategory::BirthEarlyYears => "BirthEarlyYears",
            EventCategory::FamilyRelationships => "FamilyRelationships",
            EventCategory::EducationLearning => "EducationLearning",
            EventCategory::CareerWork => "CareerWork",
            EventCategory::ResidenceRelocation => "ResidenceRelocation",
            EventCategory::HealthWellbeing => "HealthWellbeing",
            EventCategory::FinanceWealth => "FinanceWealth",
            EventCategory::CityCommunity => "CityCommunity",
            EventCategory::CultureSpirituality => "CultureSpirituality",
            EventCategory::TravelAdventure => "TravelAdventure",
            EventCategory::HobbySportLeisure => "HobbySportLeisure",
            EventCategory::DigitalTech => "DigitalTech",
            EventCategory::EnvironmentNature => "EnvironmentNature",
            EventCategory::LaterLife => "LaterLife",
            EventCategory::PassingCommemoration => "PassingCommemoration",
            EventCategory::Unknown => "Unknown",
        }
    }

    /// The category a name denotes, if any; the exact inverse of
    /// [`EventCategory::name`].
    pub fn parse_name(s: &str) -> (r: Option<EventCategory>)
        ensures
            r == category_of_name(s@),
    {
        if str_eq(s, "BirthEarlyYears") {
            Some(EventCategory::BirthEarlyYears)
        } else if str_eq(s, "FamilyRelationships") {
            Some(EventCategory::FamilyRelationships)
        } else if str_eq(s, "EducationLearning") {
            Some(EventCategory::EducationLearning)
        } else if str_eq(s, "CareerWork") {
            Some(EventCategory::CareerWork)
        } else if str_eq(s, "ResidenceRelocation") {
            Some(EventCategory::ResidenceRelocation)
        } else if str_eq(s, "HealthWellbeing") {
            Some(EventCategory::HealthWellbeing)
        } else if str_eq(s, "FinanceWealth") {
            Some(EventCategory::FinanceWealth)
        } else if str_eq(s, "CityCommunity") {
            Some(EventCategory::CityCommunity)
        } else if str_eq(s, "CultureSpirituality") {
            Some(EventCategory::CultureSpirituality)
        } else if str_eq(s, "TravelAdventure") {
            Some(EventCategory::TravelAdventure)
        } else if str_eq(s, "HobbySportLeisure") {
            Some(EventCategory::HobbySportLeisure)
        } else if str_eq(s, "DigitalTech") {
            Some(EventCategory::DigitalTech)
        } else if str_eq(s, "EnvironmentNature") {
            Some(EventCategory::EnvironmentNature)
        } else if str_eq(s, "LaterLife") {
            Some(EventCategory::LaterLife)
        } else if str_eq(s, "PassingCommemoration") {
            Some(EventCategory::PassingCommemoration)
        } else if str_eq(s, "Unknown") {
            Some(EventCategory::Unknown)
        } else {
            None
        }
    }
}

/// Every category's name parses back to exactly that category: the two
/// spellings of a category are inverses.
pub proof fn lemma_category_name_round_trip(c: EventCategory)
    ensures
        category_of_name(category_name(c)) == Some(c),
{
    reveal_strlit("BirthEarlyYears");
    reveal_strlit("FamilyRelationships");
    reveal_strlit("EducationLearning");
    reveal_strlit("CareerWork");
    reveal_strlit("ResidenceRelocation");
    reveal_strlit("HealthWellbeing");
    reveal_strlit("FinanceWealth");
    reveal_strlit("CityCommunity");
    reveal_strlit("CultureSpirituality");
    reveal_strlit("TravelAdventure");
    reveal_strlit("HobbySportLeisure");
    reveal_strlit("DigitalTech");
    reveal_strlit("EnvironmentNature");
    reveal_strlit("LaterLife");
    reveal_strlit("PassingCommemoration");
    reveal_strlit("Unknown");
    assert("BirthEarlyYears"@.len() == 15);
    assert("FamilyRelationships"@.len() == 19);
    assert("EducationLearning"@.len() == 17);
    assert("CareerWork"@.len() == 10);
    assert("ResidenceRelocation"@.len() == 19);
    assert("HealthWellbeing"@.len() == 15);
    assert("FinanceWealth"@.len() == 13);
    assert("CityCommunity"@.len() == 13);
    assert("CultureSpirituality"@.len() == 19);
    assert("TravelAdventure"@.len() == 15);
    assert("HobbySportLeisure"@.len() == 17);
    assert("DigitalTech"@.len() == 11);
    assert("EnvironmentNature"@.len() == 17);
    assert("LaterLife"@.len() == 9);
    assert("PassingCommemoration"@.len() == 20);
    assert("Unknown"@.len() == 7);
    assert("BirthEarlyYears"@ != "HealthWellbeing"@) by {
        assert("BirthEarlyYears"@[0] == 'B' && "HealthWellbeing"@[0] == 'H');
    }
    assert("BirthEarlyYears"@ != "TravelAdventure"@) by {
        assert("BirthEarlyYears"@[0] == 'B' && "TravelAdventure"@[0] == 'T');
    }
    assert("HealthWellbeing"@ != "TravelAdventure"@) by {
        assert("HealthWellbeing"@[0] == 'H' && "TravelAdventure"@[0] == 'T');
    }
    assert("FamilyRelationships"@ != "ResidenceRelocation"@) by {
        assert("FamilyRelationships"@[0] == 'F' && "ResidenceRelocation"@[0] == 'R');
    }
    assert("FamilyRelationships"@ != "CultureSpirituality"@) by {
        assert("FamilyRelationships"@[0] == 'F' && "CultureSpirituality"@[0] == 'C');
    }
    assert("ResidenceRelocation"@ != "CultureSpirituality"@) by {
        assert("ResidenceRelocation"@[0] == 'R' && "CultureSpirituality"@[0] == 'C');
    }
    assert("EducationLearning"@ != "HobbySportLeisure"@) by {
        assert("EducationLearning"@[0] == 'E' && "HobbySportLeisure"@[0] == 'H');
    }
    assert("EducationLearning"@ != "EnvironmentNature"@) by {
        assert("EducationLearning"@[1] == 'd' && "EnvironmentNature"@[1] == 'n');
    }
    assert("HobbySportLeisure"@ != "EnvironmentNature"@) by {
        assert("HobbySportLeisure"@[0] == 'H' && "EnvironmentNature"@[0] == 'E');
    }
    assert("FinanceWealth"@ != "CityCommunity"@) by {
        assert("FinanceWealth"@[0] == 'F' && "CityCommunity"@[0] == 'C');
    }
}

} // verus!
