//! Impact events: the record and its rules.

use vstd::prelude::*;
use crate::text::utf8_len;
use crate::waqf_types::{view_of, views_of};

verus! {

/// What kind of impact an event records.
#[derive(Clone, Copy, Debug, PartialEq, Eq, Structural)]
pub enum ImpactEventType {
    Distribution,
    MilestoneCompleted,
    BeneficiaryHelped,
    ProjectCompleted,
    FundsDeployed,
    EmergencyResponse,
    InvestmentReturn,
}

/// How far the verification of an event has come.
#[derive(Clone, Copy, Debug, PartialEq, Eq, Structural)]
pub enum VerificationStatus {
    Pending,
    Verified,
    Rejected,
}

/// A point on the globe, in millionths of a degree.
#[derive(Clone, Copy, Debug, PartialEq, Eq, Structural)]
pub struct Coordinates {
    pub lat: i64,
    pub lng: i64,
}

/// Where an event took place.
#[derive(Debug, Clone, PartialEq)]
pub struct ImpactEventLocation {
    pub country: String,
    pub city: Option<String>,
    pub region: Option<String>,
    pub coordinates: Option<Coordinates>,
}

/// Mathematical model of [`ImpactEventLocation`].
pub ghost struct ImpactEventLocationView {
    pub country: Seq<char>,
    pub city: Option<Seq<char>>,
    pub region: Option<Seq<char>>,
    pub coordinates: Option<Coordinates>,
}

impl View for ImpactEventLocation {
    type V = ImpactEventLocationView;

    open spec fn view(&self) -> ImpactEventLocationView {
        ImpactEventLocationView {
            country: self.country@,
            city: view_of(self.city),
            region: view_of(self.region),
            coordinates: self.coordinates,
        }
    }
}

/// What a beneficiary said.
#[derive(Debug, Clone, PartialEq)]
pub struct BeneficiaryTestimonial {
    pub name: String,
    pub quote: String,
    pub photo: Option<String>,
    pub date: Option<String>,
}

/// Mathematical model of [`BeneficiaryTestimonial`].
pub ghost struct BeneficiaryTestimonialView {
    pub name: Seq<char>,
    pub quote: Seq<char>,
    pub photo: Option<Seq<char>>,
    pub date: Option<Seq<char>>,
}

impl View for BeneficiaryTestimonial {
    type V = BeneficiaryTestimonialView;

    open spec fn view(&self) -> BeneficiaryTestimonialView {
        BeneficiaryTestimonialView {
            name: self.name@,
            quote: self.quote@,
            photo: view_of(self.photo),
            date: view_of(self.date),
        }
    }
}

/// Pictures, films and testimonials of an event.
#[derive(Debug, Clone, PartialEq)]
pub struct ImpactEventMedia {
    pub photos: Vec<String>,
    pub videos: Vec<String>,
    pub testimonials: Vec<BeneficiaryTestimonial>,
}

/// Mathematical model of [`ImpactEventMedia`].
pub ghost struct ImpactEventMediaView {
    pub photos: Seq<Seq<char>>,
    pub videos: Seq<Seq<char>>,
    pub testimonials: Seq<BeneficiaryTestimonialView>,
}

impl View for ImpactEventMedia {
    type V = ImpactEventMediaView;

    open spec fn view(&self) -> ImpactEventMediaView {
        ImpactEventMediaView {
            photos: views_of(self.photos@),
            videos: views_of(self.videos@),
            testimonials: views_of(self.testimonials@),
        }
    }
}

/// Who verified an event, when and with what result.
#[derive(Debug, Clone, PartialEq)]
pub struct ImpactEventVerification {
    pub verified_by: String,
    pub verification_date: String,
    pub proof_documents: Vec<String>,
    pub status: VerificationStatus,
    pub notes: Option<String>,
}

/// Mathematical model of [`ImpactEventVerification`].
pub ghost struct ImpactEventVerificationView {
    pub verified_by: Seq<char>,
    pub verification_date: Seq<char>,
    pub proof_documents: Seq<Seq<char>>,
    pub status: VerificationStatus,
    pub notes: Option<Seq<char>>,
}

impl View for ImpactEventVerification {
    type V = ImpactEventVerificationView;

    open spec fn view(&self) -> ImpactEventVerificationView {
        ImpactEventVerificationView {
            verified_by: self.verified_by@,
            verification_date: self.verification_date@,
            proof_documents: views_of(self.proof_documents@),
            status: self.status,
            notes: view_of(self.notes),
        }
    }
}

/// A record of what a waqf achieved for a cause.
#[derive(Debug, Clone, PartialEq)]
pub struct ImpactEvent {
    pub id: String,
    pub waqf_id: String,
    pub waqf_name: String,
    pub cause_id: String,
    pub cause_name: String,
    pub timestamp: String,
    pub event_type: ImpactEventType,
    /// Amount that the event moved, fixed-point.
    pub amount: i64,
    pub currency: String,
    pub beneficiary_count: u32,
    pub projects_completed: Option<u32>,
    pub location: ImpactEventLocation,
    pub media: ImpactEventMedia,
    pub verification: ImpactEventVerification,
    pub description: String,
    pub title: String,
    pub created_by: String,
    pub created_at: String,
    pub updated_at: Option<String>,
    pub is_public: bool,
    pub is_featured: bool,
}

/// Mathematical model of [`ImpactEvent`].
pub ghost struct ImpactEventView {
    pub id: Seq<char>,
    pub waqf_id: Seq<char>,
    pub waqf_name: Seq<char>,
    pub cause_id: Seq<char>,
    pub cause_name: Seq<char>,
    pub timestamp: Seq<char>,
    pub event_type: ImpactEventType,
    pub amount: i64,
    pub currency: Seq<char>,
    pub beneficiary_count: u32,
    pub projects_completed: Option<u32>,
    pub location: ImpactEventLocationView,
    pub media: ImpactEventMediaView,
    pub verification: ImpactEventVerificationView,
    pub description: Seq<char>,
    pub title: Seq<char>,
    pub created_by: Seq<char>,
    pub created_at: Seq<char>,
    pub updated_at: Option<Seq<char>>,
    pub is_public: bool,
    pub is_featured: bool,
}

impl View for ImpactEvent {
    type V = ImpactEventView;

    open spec fn view(&self) -> ImpactEventView {
        ImpactEventView {
            id: self.id@,
            waqf_id: self.waqf_id@,
            waqf_name: self.waqf_name@,
            cause_id: self.cause_id@,
            cause_name: self.cause_name@,
            timestamp: self.timestamp@,
            event_type: self.event_type,
            amount: self.amount,
            currency: self.currency@,
            beneficiary_count: self.beneficiary_count,
            projects_completed: self.projects_completed,
            location: self.location@,
            media: self.media@,
            verification: self.verification@,
            description: self.description@,
            title: self.title@,
            created_by: self.created_by@,
            created_at: self.created_at@,
            updated_at: view_of(self.updated_at),
            is_public: self.is_public,
            is_featured: self.is_featured,
        }
    }
}

/// Why an impact event was rejected.
#[derive(Clone, Copy, Debug, PartialEq, Eq, Structural)]
pub enum ImpactEventError {
    IdRequired,
    WaqfIdRequired,
    CauseIdRequired,
    TitleTooShort,
    DescriptionTooShort,
    NegativeAmount,
    InvalidCurrency,
    CountryRequired,
}

impl ImpactEventError {
    /// The message that describes the error.
    pub open spec fn text(self) -> Seq<char> {
        match self {
            ImpactEventError::IdRequired => "Impact event ID is required"@,
            ImpactEventError::WaqfIdRequired => "Waqf ID is required"@,
            ImpactEventError::CauseIdRequired => "Cause ID is required"@,
            ImpactEventError::TitleTooShort => "Title must be at least 5 characters"@,
            ImpactEventError::DescriptionTooShort => "Description must be at least 10 characters"@,
            ImpactEventError::NegativeAmount => "Amount must be non-negative"@,
            ImpactEventError::InvalidCurrency => "Currency must be a 3-letter code"@,
            ImpactEventError::CountryRequired => "Country is required"@,
        }
    }

    /// Describes the error in words.
    pub fn message(&self) -> (s: &'static str)
        ensures
            s@ == self.text(),
    {
        match self {
            ImpactEventError::IdRequired => "Impact event ID is required",
            ImpactEventError::WaqfIdRequired => "Waqf ID is required",
            ImpactEventError::CauseIdRequired => "Cause ID is required",
            ImpactEventError::TitleTooShort => "Title must be at least 5 characters",
            ImpactEventError::DescriptionTooShort => "Description must be at least 10 characters",
            ImpactEventError::NegativeAmount => "Amount must be non-negative",
            ImpactEventError::InvalidCurrency => "Currency must be a 3-letter code",
            ImpactEventError::CountryRequired => "Country is required",
        }
    }
}

/// The first rule that an impact event violates, if any: it names itself, a
/// waqf and a cause; its title is at least 5 bytes long and its description
/// 10; its amount is not negative; its currency is 3 bytes long; and it
/// names a country.
pub open spec fn impact_event_error(e: ImpactEventView) -> Option<ImpactEventError> {
    if e.id.len() == 0 {
        Some(ImpactEventError::IdRequired)
    } else if e.waqf_id.len() == 0 {
        Some(ImpactEventError::WaqfIdRequired)
    } else if e.cause_id.len() == 0 {
        Some(ImpactEventError::CauseIdRequired)
    } else if utf8_len(e.title) < 5 {
        Some(ImpactEventError::TitleTooShort)
    } else if utf8_len(e.description) < 10 {
        Some(ImpactEventError::DescriptionTooShort)
    } else if e.amount < 0 {
        Some(ImpactEventError::NegativeAmount)
    } else if utf8_len(e.currency) != 3 {
        Some(ImpactEventError::InvalidCurrency)
    } else if e.location.country.len() == 0 {
        Some(ImpactEventError::CountryRequired)
    } else {
        None
    }
}

/// Whether the outcome of a check is the one its rules prescribe: success
/// where no rule is violated, else the error of the first violated rule.
pub open spec fn event_verdict_is(r: Result<(), ImpactEventError>, verdict: Option<ImpactEventError>) -> bool {
    match verdict {
        None => r is Ok,
        Some(e) => r == Err::<(), ImpactEventError>(e),
    }
}

impl ImpactEvent {
    /// Validates the event.
    pub fn validate(&self) -> (r: Result<(), ImpactEventError>)
        ensures
            event_verdict_is(r, impact_event_error(self@)),
    {
        if self.id.as_str().is_empty() {
            return Err(ImpactEventError::IdRequired);
        }
        if self.waqf_id.as_str().is_empty() {
            return Err(ImpactEventError::WaqfIdRequired);
        }
        if self.cause_id.as_str().is_empty() {
            return Err(ImpactEventError::CauseIdRequired);
        }
        if self.title.as_str().len() < 5 {
            return Err(ImpactEventError::TitleTooShort);
        }
        if self.description.as_str().len() < 10 {
            return Err(ImpactEventError::DescriptionTooShort);
        }
        if self.amount < 0 {
            return Err(ImpactEventError::NegativeAmount);
        }
        if self.currency.as_str().len() != 3 {
            return Err(ImpactEventError::InvalidCurrency);
        }
        if self.location.country.as_str().is_empty() {
            return Err(ImpactEventError::CountryRequired);
        }
        Ok(())
    }
}

} // verus!
