//! The closed set of services a session can ask the portal for.

use vstd::prelude::*;
use crate::text::text_eq;

verus! {

/// A service offered by the portal, with its display title and the text that
/// identifies it among the portal's selection controls.
#[derive(Debug, Clone, PartialEq, Eq)]
pub enum DMVService {
    /// First time application for a driver's license
    FirstTime { title: &'static str, selector: &'static str },
    /// Duplicate of an existing license
    Duplicate { title: &'static str, selector: &'static str },
    /// Renewal of an existing license
    Renewal { title: &'static str, selector: &'static str },
    /// Fee-related services
    Fees { title: &'static str, selector: &'static str },
    /// ID card services
    IdCard { title: &'static str, selector: &'static str },
    /// Knowledge and computer test services
    KnowledgeTest { title: &'static str, selector: &'static str },
    /// Legal presence verification for non-citizens
    LegalPresence { title: &'static str, selector: &'static str },
    /// Motorcycle skills test scheduling
    MotorcycleTest { title: &'static str, selector: &'static str },
    /// Non-CDL road test scheduling
    NonCdlRoadTest { title: &'static str, selector: &'static str },
    /// Permit services
    Permits { title: &'static str, selector: &'static str },
    /// Teen driver level 1 services
    TeenDriverLevel1 { title: &'static str, selector: &'static str },
    /// Teen driver level 2 services
    TeenDriverLevel2 { title: &'static str, selector: &'static str },
    /// Teen driver level 3 services
    TeenDriverLevel3 { title: &'static str, selector: &'static str },
}

impl DMVService {
    /// The position of the variant in the catalogue, from `0`.
    pub open spec fn variant_index(self) -> int {
        match self {
            DMVService::FirstTime { .. } => 0,
            DMVService::Duplicate { .. } => 1,
            DMVService::Renewal { .. } => 2,
            DMVService::Fees { .. } => 3,
            DMVService::IdCard { .. } => 4,
            DMVService::KnowledgeTest { .. } => 5,
            DMVService::LegalPresence { .. } => 6,
            DMVService::MotorcycleTest { .. } => 7,
            DMVService::NonCdlRoadTest { .. } => 8,
            DMVService::Permits { .. } => 9,
            DMVService::TeenDriverLevel1 { .. } => 10,
            DMVService::TeenDriverLevel2 { .. } => 11,
            DMVService::TeenDriverLevel3 { .. } => 12,
        }
    }

    /// The service's display title.
    pub open spec fn title_view(self) -> Seq<char> {
        match self {
            DMVService::FirstTime { title, .. } => title@,
            DMVService::Duplicate { title, .. } => title@,
            DMVService::Renewal { title, .. } => title@,
            DMVService::Fees { title, .. } => title@,
            DMVService::IdCard { title, .. } => title@,
            DMVService::KnowledgeTest { title, .. } => title@,
            DMVService::LegalPresence { title, .. } => title@,
            DMVService::MotorcycleTest { title, .. } => title@,
            DMVService::NonCdlRoadTest { title, .. } => title@,
            DMVService::Permits { title, .. } => title@,
            DMVService::TeenDriverLevel1 { title, .. } => title@,
            DMVService::TeenDriverLevel2 { title, .. } => title@,
            DMVService::TeenDriverLevel3 { title, .. } => title@,
        }
    }

    /// The service's selector text.
    pub open spec fn selector_view(self) -> Seq<char> {
        match self {
            DMVService::FirstTime { selector, .. } => selector@,
            DMVService::Duplicate { selector, .. } => selector@,
            DMVService::Renewal { selector, .. } => selector@,
            DMVService::Fees { selector, .. } => selector@,
            DMVService::IdCard { selector, .. } => selector@,
            DMVService::KnowledgeTest { selector, .. } => selector@,
            DMVService::LegalPresence { selector, .. } => selector@,
            DMVService::MotorcycleTest { selector, .. } => selector@,
            DMVService::NonCdlRoadTest { selector, .. } => selector@,
            DMVService::Permits { selector, .. } => selector@,
            DMVService::TeenDriverLevel1 { selector, .. } => selector@,
            DMVService::TeenDriverLevel2 { selector, .. } => selector@,
            DMVService::TeenDriverLevel3 { selector, .. } => selector@,
        }
    }

    /// Gets the title of the service.
    pub fn _title(&self) -> (r: &'static str)
        ensures
            r@ == self.title_view(),
    {
        match self {
            DMVService::FirstTime { title, .. } => title,
            DMVService::Duplicate { title, .. } => title,
            DMVService::Renewal { title, .. } => title,
            DMVService::Fees { title, .. } => title,
            DMVService::IdCard { title, .. } => title,
            DMVService::KnowledgeTest { title, .. } => title,
            DMVService::LegalPresence { title, .. } => title,
            DMVService::MotorcycleTest { title, .. } => title,
            DMVService::NonCdlRoadTest { title, .. } => title,
            DMVService::Permits { title, .. } => title,
            DMVService::TeenDriverLevel1 { title, .. } => title,
            DMVService::TeenDriverLevel2 { title, .. } => title,
            DMVService::TeenDriverLevel3 { title, .. } => title,
        }
    }

    /// Gets the selector string of the service.
    pub fn selector(&self) -> (r: &'static str)
        ensures
            r@ == self.selector_view(),
    {
        match self {
            DMVService::FirstTime { selector, .. } => selector,
            DMVService::Duplicate { selector, .. } => selector,
            DMVService::Renewal { selector, .. } => selector,
            DMVService::Fees { selector, .. } => selector,
            DMVService::IdCard { selector, .. } => selector,
            DMVService::KnowledgeTest { selector, .. } => selector,
            DMVService::LegalPresence { selector, .. } => selector,
            DMVService::MotorcycleTest { selector, .. } => selector,
            DMVService::NonCdlRoadTest { selector, .. } => selector,
            DMVService::Permits { selector, .. } => selector,
            DMVService::TeenDriverLevel1 { selector, .. } => selector,
            DMVService::TeenDriverLevel2 { selector, .. } => selector,
            DMVService::TeenDriverLevel3 { selector, .. } => selector,
        }
    }
}

/// The catalogue entry for a display title: the variant's position and its selector.
pub open spec fn catalog_entry(title: Seq<char>) -> Option<(int, Seq<char>)> {
    if title == "Driver License - First Time"@ {
        Some((0, "New driver over 18"@))
    } else if title == "Driver License Duplicate"@ {
        Some((1, "Replace lost or stolen license"@))
    } else if title == "Driver License Renewal"@ {
        Some((2, "Renew an existing license"@))
    } else if title == "Fees"@ {
        Some((3, "License reinstatement appointment"@))
    } else if title == "ID Card"@ {
        Some((4, "State ID card"@))
    } else if title == "Knowledge/Computer Test"@ {
        Some((5, "Written, traffic signs"@))
    } else if title == "Legal Presence"@ {
        Some((6, "For non-citizens to prove"@))
    } else if title == "Motorcycle Skills Test"@ {
        Some((7, "Schedule a motorcycle driving skills test"@))
    } else if title == "Non-CDL Road Test"@ {
        Some((8, "Schedule a driving skills test"@))
    } else if title == "Permits"@ {
        Some((9, "Adult permit"@))
    } else if title == "Teen Driver Level 1"@ {
        Some((10, "Limited learner permit"@))
    } else if title == "Teen Driver Level 2"@ {
        Some((11, "Limited provisional license"@))
    } else if title == "Teen Driver Level 3"@ {
        Some((12, "Full provisional license"@))
    } else {
        None
    }
}

/// The error for a title that names no service.
#[derive(Debug)]
pub struct ServiceNotFoundError {
    pub title: String,
}

impl ServiceNotFoundError {
    /// The error's description.
    pub fn message(&self) -> (r: String)
        ensures
            r@ == "Service with title '"@ + self.title@ + "' not found"@,
    {
        String::from_str("Service with title '").concat(self.title.as_str()).concat("' not found")
    }
}

/// Matches a service title to a `DMVService` variant.
pub fn get_service_by_title(title: &str) -> (r: Result<DMVService, ServiceNotFoundError>)
    ensures
        match r {
            Ok(s) => catalog_entry(title@) == Some((s.variant_index(), s.selector_view()))
                && s.title_view() == title@,
            Err(e) => catalog_entry(title@) is None && e.title@ == title@,
        },
{
    if text_eq(title, "Driver License - First Time") {
        Ok(DMVService::FirstTime { title: "Driver License - First Time", selector: "New driver over 18" })
    } else if text_eq(title, "Driver License Duplicate") {
        Ok(DMVService::Duplicate { title: "Driver License Duplicate", selector: "Replace lost or stolen license" })
    } else if text_eq(title, "Driver License Renewal") {
        Ok(DMVService::Renewal { title: "Driver License Renewal", selector: "Renew an existing license" })
    } else if text_eq(title, "Fees") {
        Ok(DMVService::Fees { title: "Fees", selector: "License reinstatement appointment" })
    } else if text_eq(title, "ID Card") {
        Ok(DMVService::IdCard { title: "ID Card", selector: "State ID card" })
    } else if text_eq(title, "Knowledge/Computer Test") {
        Ok(DMVService::KnowledgeTest { title: "Knowledge/Computer Test", selector: "Written, traffic signs" })
    } else if text_eq(title, "Legal Presence") {
        Ok(DMVService::LegalPresence { title: "Legal Presence", selector: "For non-citizens to prove" })
    } else if text_eq(title, "Motorcycle Skills Test") {
        Ok(DMVService::MotorcycleTest { title: "Motorcycle Skills Test", selector: "Schedule a motorcycle driving skills test" })
    } else if text_eq(title, "Non-CDL Road Test") {
        Ok(DMVService::NonCdlRoadTest { title: "Non-CDL Road Test", selector: "Schedule a driving skills test" })
    } else if text_eq(title, "Permits") {
        Ok(DMVService::Permits { title: "Permits", selector: "Adult permit" })
    } else if text_eq(title, "Teen Driver Level 1") {
        Ok(DMVService::TeenDriverLevel1 { title: "Teen Driver Level 1", selector: "Limited learner permit" })
    } else if text_eq(title, "Teen Driver Level 2") {
        Ok(DMVService::TeenDriverLevel2 { title: "Teen Driver Level 2", selector: "Limited provisional license" })
    } else if text_eq(title, "Teen Driver Level 3") {
        Ok(DMVService::TeenDriverLevel3 { title: "Teen Driver Level 3", selector: "Full provisional license" })
    } else {
        Err(ServiceNotFoundError { title: String::from_str(title) })
    }
}

} // verus!
