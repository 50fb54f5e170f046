use waqf_satellite::allocation_hooks::{
    AllocationError, assert_allocation_deletion, assert_allocation_operations,
    validate_allocation_data,
};
use waqf_satellite::category_hooks::{
    assert_category_deletion, assert_category_operations, assert_subcategory_deletion,
    assert_subcategory_operations, Category, CategoryError, Subcategory, validate_category_data,
    validate_subcategory_data, validate_waqf_type,
};
use waqf_satellite::cause_hooks::{
    assert_cause_deletion, assert_cause_operations, Cause, CauseError, is_valid_image_url,
    validate_cause_category_ids, validate_cause_data, validate_cause_status,
    validate_cause_status_rules,
};
use waqf_satellite::impact_event_hooks::{
    assert_impact_event_deletion, assert_impact_event_operations, has_funds_without_beneficiaries,
    validate_impact_event_data,
};
use waqf_satellite::impact_event_types::{
    Coordinates, ImpactEvent, ImpactEventError, ImpactEventLocation, ImpactEventMedia,
    ImpactEventType, ImpactEventVerification, VerificationStatus,
};
use waqf_satellite::text::is_valid_hex_color;
use waqf_satellite::waqf_types::AllocationData;

const UNIT: i64 = 1_000_000;

fn category() -> Category {
    Category {
        id: "education".to_string(),
        name: "Education".to_string(),
        description: "Schools, teachers and books".to_string(),
        icon: "book".to_string(),
        color: Some("#1A2b3C".to_string()),
        is_active: true,
        sort_order: 1,
        associated_waqf_types: vec!["permanent".to_string(), "temporary_revolving".to_string()],
        created_at: "2024-01-01".to_string(),
        updated_at: "2024-01-02".to_string(),
    }
}

fn subcategory() -> Subcategory {
    Subcategory {
        id: "primary".to_string(),
        category_id: "education".to_string(),
        name: "Primary schools".to_string(),
        description: "Schools for the youngest".to_string(),
        icon: "pencil".to_string(),
        examples: vec!["Village school".to_string()],
        is_active: true,
        sort_order: 1,
        created_at: "2024-01-01".to_string(),
        updated_at: "2024-01-02".to_string(),
    }
}

fn cause() -> Cause {
    Cause {
        id: "water".to_string(),
        name: "Clean water".to_string(),
        description: "Wells for villages".to_string(),
        icon: "drop".to_string(),
        cover_image: Some("https://cdn.example.org/wells.PNG".to_string()),
        category_id: "permanent".to_string(),
        subcategory_id: "wells".to_string(),
        category: None,
        is_active: true,
        status: "approved".to_string(),
        sort_order: 0,
        followers: 12,
        funds_raised: 0,
        target_amount: Some(5000 * UNIT),
        primary_currency: Some("NGN".to_string()),
        exchange_rate_to_usd: None,
        impact_score: Some(100 * UNIT),
        created_at: "2024-01-01".to_string(),
        updated_at: "2024-01-02".to_string(),
    }
}

fn allocation(amount: i64, rationale: &str) -> AllocationData {
    AllocationData {
        id: "alloc-1".to_string(),
        waqf_id: "waqf-1".to_string(),
        cause_id: "water".to_string(),
        amount,
        rationale: rationale.to_string(),
        allocated_at: "2024-03-01".to_string(),
    }
}

fn event() -> ImpactEvent {
    ImpactEvent {
        id: "ev-1".to_string(),
        waqf_id: "waqf-1".to_string(),
        waqf_name: "Water wells".to_string(),
        cause_id: "water".to_string(),
        cause_name: "Clean water".to_string(),
        timestamp: "2024-03-01".to_string(),
        event_type: ImpactEventType::ProjectCompleted,
        amount: 250 * UNIT,
        currency: "USD".to_string(),
        beneficiary_count: 40,
        projects_completed: Some(1),
        location: ImpactEventLocation {
            country: "Nigeria".to_string(),
            city: Some("Kano".to_string()),
            region: None,
            coordinates: Some(Coordinates { lat: 12_002_200, lng: 8_592_000 }),
        },
        media: ImpactEventMedia { photos: vec![], videos: vec![], testimonials: vec![] },
        verification: ImpactEventVerification {
            verified_by: "auditor".to_string(),
            verification_date: "2024-03-02".to_string(),
            proof_documents: vec![],
            status: VerificationStatus::Verified,
            notes: None,
        },
        description: "A well was dug".to_string(),
        title: "First well".to_string(),
        created_by: "manager".to_string(),
        created_at: "2024-03-01".to_string(),
        updated_at: None,
        is_public: true,
        is_featured: false,
    }
}

#[test]
fn hex_colours() {
    for good in ["#000000", "#FFFFFF", "#a1B2c3"] {
        assert!(is_valid_hex_color(good), "{}", good);
    }
    for bad in ["", "#", "000000", "#12345", "#1234567", "#12345g", "#\u{e9}\u{e9}\u{e9}", " #123456"] {
        assert!(!is_valid_hex_color(bad), "{}", bad);
    }
}

#[test]
fn category_rules() {
    assert_eq!(validate_category_data(&category()), Ok(()));
    assert_eq!(assert_category_operations(&category()), Ok(()));
    let mut c = category();
    c.id = " ".to_string();
    assert_eq!(validate_category_data(&c), Err(CategoryError::CategoryIdRequired));
    c.id = "i".repeat(101);
    assert_eq!(validate_category_data(&c), Err(CategoryError::CategoryIdTooLong));
    c = category();
    c.name = String::new();
    assert_eq!(validate_category_data(&c), Err(CategoryError::CategoryNameRequired));
    c.name = "n".repeat(201);
    assert_eq!(validate_category_data(&c), Err(CategoryError::CategoryNameTooLong));
    c = category();
    c.description = "\n".to_string();
    assert_eq!(validate_category_data(&c), Err(CategoryError::CategoryDescriptionRequired));
    c.description = "d".repeat(1001);
    assert_eq!(validate_category_data(&c), Err(CategoryError::CategoryDescriptionTooLong));
    c = category();
    c.icon = String::new();
    assert_eq!(validate_category_data(&c), Err(CategoryError::CategoryIconRequired));
    c = category();
    c.color = Some("blue".to_string());
    assert_eq!(validate_category_data(&c), Err(CategoryError::InvalidColor));
    c.color = Some(String::new());
    assert_eq!(validate_category_data(&c), Ok(()));
    c.color = None;
    assert_eq!(validate_category_data(&c), Ok(()));
    c.associated_waqf_types = vec![];
    assert_eq!(validate_category_data(&c), Err(CategoryError::WaqfTypeRequired));
    c.associated_waqf_types =
        vec!["permanent".to_string(), "hybrid".to_string(), "other".to_string()];
    let e = validate_category_data(&c).unwrap_err();
    assert_eq!(e, CategoryError::InvalidWaqfType("hybrid".to_string()));
    assert_eq!(
        e.message(),
        "Invalid waqf type 'hybrid'. Valid types: permanent, temporary_consumable, temporary_revolving"
    );
    assert!(validate_waqf_type(&"temporary_consumable".to_string()).is_ok());
    c = category();
    c.created_at = String::new();
    assert_eq!(validate_category_data(&c), Err(CategoryError::CreatedAtRequired));
    c = category();
    c.updated_at = " ".to_string();
    assert_eq!(validate_category_data(&c), Err(CategoryError::UpdatedAtRequired));
    assert_eq!(assert_category_deletion(None), Err(CategoryError::NoCurrentDocument));
    assert_eq!(assert_category_deletion(Some(&category())), Ok(()));
}

#[test]
fn subcategory_rules() {
    assert_eq!(validate_subcategory_data(&subcategory()), Ok(()));
    assert_eq!(assert_subcategory_operations(&subcategory()), Ok(()));
    let mut s = subcategory();
    s.id = String::new();
    assert_eq!(validate_subcategory_data(&s), Err(CategoryError::SubcategoryIdRequired));
    s.id = "i".repeat(101);
    assert_eq!(validate_subcategory_data(&s), Err(CategoryError::SubcategoryIdTooLong));
    s = subcategory();
    s.category_id = " ".to_string();
    assert_eq!(validate_subcategory_data(&s), Err(CategoryError::ParentRequired));
    s = subcategory();
    s.name = String::new();
    assert_eq!(validate_subcategory_data(&s), Err(CategoryError::SubcategoryNameRequired));
    s.name = "n".repeat(201);
    assert_eq!(validate_subcategory_data(&s), Err(CategoryError::SubcategoryNameTooLong));
    s = subcategory();
    s.description = String::new();
    assert_eq!(validate_subcategory_data(&s), Err(CategoryError::SubcategoryDescriptionRequired));
    s.description = "d".repeat(1001);
    assert_eq!(validate_subcategory_data(&s), Err(CategoryError::SubcategoryDescriptionTooLong));
    s = subcategory();
    s.icon = String::new();
    assert_eq!(validate_subcategory_data(&s), Err(CategoryError::SubcategoryIconRequired));
    s = subcategory();
    s.examples = vec!["short".to_string(), "e".repeat(201)];
    assert_eq!(validate_subcategory_data(&s), Err(CategoryError::ExampleTooLong));
    s.examples = vec!["e".repeat(200)];
    assert_eq!(validate_subcategory_data(&s), Ok(()));
    s.updated_at = String::new();
    assert_eq!(validate_subcategory_data(&s), Err(CategoryError::UpdatedAtRequired));
    assert_eq!(assert_subcategory_deletion(None), Err(CategoryError::NoCurrentDocument));
    assert_eq!(assert_subcategory_deletion(Some(&subcategory())), Ok(()));
}

#[test]
fn image_addresses() {
    for good in [
        "http://example.org/a.jpg",
        "https://example.org/pictures/well.JPEG",
        "https://example.org/a.webp",
        "https://i.IMGUR.com/abc",
        "https://bucket.s3.amazonaws.com/key",
        "https://lh3.googleusercontent.com/x",
        "https://res.cloudinary.com/x/y",
        "http://x.svg",
    ] {
        assert!(is_valid_image_url(good), "{}", good);
    }
    for bad in [
        "",
        "ftp://example.org/a.jpg",
        "https://example.org/a.pdf",
        "example.org/a.png",
        "HTTPS://example.org/a.png",
        "https://example.org/a.png?size=2",
    ] {
        assert!(!is_valid_image_url(bad), "{}", bad);
    }
    let long = format!("https://example.org/{}.png", "a".repeat(2048));
    assert!(!is_valid_image_url(&long));
}

#[test]
fn cause_rules() {
    assert_eq!(validate_cause_data(&cause()), Ok(()));
    assert_eq!(assert_cause_operations(&cause()), Ok(()));
    let mut c = cause();
    c.id = String::new();
    assert_eq!(validate_cause_data(&c), Err(CauseError::IdRequired));
    c = cause();
    c.name = " ".to_string();
    assert_eq!(validate_cause_data(&c), Err(CauseError::NameRequired));
    c.name = "n".repeat(201);
    assert_eq!(validate_cause_data(&c), Err(CauseError::NameTooLong));
    c = cause();
    c.description = String::new();
    assert_eq!(validate_cause_data(&c), Err(CauseError::DescriptionRequired));
    c.description = "d".repeat(5001);
    assert_eq!(validate_cause_data(&c), Err(CauseError::DescriptionTooLong));
    c = cause();
    c.category_id = String::new();
    assert_eq!(validate_cause_data(&c), Err(CauseError::CategoryIdRequired));
    c = cause();
    c.subcategory_id = " ".to_string();
    assert_eq!(validate_cause_data(&c), Err(CauseError::SubcategoryIdRequired));
    c = cause();
    c.icon = String::new();
    assert_eq!(validate_cause_data(&c), Err(CauseError::IconRequired));
    c = cause();
    c.funds_raised = -1;
    assert_eq!(validate_cause_data(&c), Err(CauseError::NegativeFunds));
    c = cause();
    c.target_amount = Some(0);
    assert_eq!(validate_cause_data(&c), Err(CauseError::TargetNotPositive));
    c = cause();
    c.impact_score = Some(100 * UNIT + 1);
    assert_eq!(validate_cause_data(&c), Err(CauseError::ImpactScoreOutOfRange));
    c.impact_score = Some(-1);
    assert_eq!(validate_cause_data(&c), Err(CauseError::ImpactScoreOutOfRange));
    c = cause();
    c.status = "draft".to_string();
    let e = validate_cause_data(&c).unwrap_err();
    assert_eq!(e, CauseError::InvalidStatus("draft".to_string()));
    assert_eq!(
        e.message(),
        "Invalid cause status 'draft'. Valid statuses: pending, approved, rejected"
    );
    assert!(validate_cause_status("pending").is_ok());
    c = cause();
    c.cover_image = Some("wells.png".to_string());
    assert_eq!(validate_cause_data(&c), Err(CauseError::InvalidCoverImage));
    c.cover_image = Some(String::new());
    assert_eq!(validate_cause_data(&c), Ok(()));
    c.created_at = String::new();
    assert_eq!(validate_cause_data(&c), Err(CauseError::CreatedAtRequired));
    c = cause();
    c.updated_at = String::new();
    assert_eq!(validate_cause_data(&c), Err(CauseError::UpdatedAtRequired));
}

#[test]
fn cause_activity_and_categories() {
    let mut c = cause();
    c.status = "pending".to_string();
    assert_eq!(validate_cause_status_rules(&c), Err(CauseError::PendingActive));
    assert_eq!(assert_cause_operations(&c), Err(CauseError::PendingActive));
    c.is_active = false;
    assert_eq!(validate_cause_status_rules(&c), Ok(()));
    c.status = "rejected".to_string();
    assert_eq!(validate_cause_status_rules(&c), Ok(()));
    c.is_active = true;
    assert_eq!(validate_cause_status_rules(&c), Err(CauseError::RejectedActive));
    c.status = "draft".to_string();
    assert_eq!(validate_cause_status_rules(&c), Err(CauseError::UnknownStatus("draft".to_string())));
    assert_eq!(
        validate_cause_category_ids("hybrid", "x"),
        Err(CauseError::InvalidMainCategory("hybrid".to_string()))
    );
    assert_eq!(validate_cause_category_ids("permanent", ""), Err(CauseError::SubcategoryEmpty));
    assert_eq!(validate_cause_category_ids("temporary_time_bound", "x"), Ok(()));
    let mut other = cause();
    other.category_id = "education".to_string();
    assert_eq!(
        assert_cause_operations(&other),
        Err(CauseError::InvalidMainCategory("education".to_string()))
    );
}

#[test]
fn cause_deletion() {
    let mut c = cause();
    assert_eq!(assert_cause_deletion(None), Err(CauseError::NoCurrentDocument));
    assert_eq!(assert_cause_deletion(Some(&c)), Err(CauseError::ActiveDeletion));
    c.is_active = false;
    assert_eq!(assert_cause_deletion(Some(&c)), Ok(()));
    c.funds_raised = 1;
    assert_eq!(assert_cause_deletion(Some(&c)), Err(CauseError::FundedDeletion));
}

#[test]
fn allocation_rules() {
    let good = allocation(250 * UNIT, "Quarterly distribution to the wells");
    assert_eq!(validate_allocation_data(&good), Ok(()));
    assert_eq!(assert_allocation_operations(&good), Ok(()));
    assert_eq!(assert_allocation_deletion(), Ok(()));
    let mut a = good.clone();
    a.id = String::new();
    assert_eq!(validate_allocation_data(&a), Err(AllocationError::IdEmpty));
    a = good.clone();
    a.waqf_id = " ".to_string();
    assert_eq!(validate_allocation_data(&a), Err(AllocationError::WaqfIdEmpty));
    a = good.clone();
    a.cause_id = String::new();
    assert_eq!(validate_allocation_data(&a), Err(AllocationError::CauseIdEmpty));
    assert_eq!(
        validate_allocation_data(&allocation(9_999, "Quarterly distribution")),
        Err(AllocationError::AmountTooLow)
    );
    assert_eq!(validate_allocation_data(&allocation(10_000, "Quarterly distribution")), Ok(()));
    assert_eq!(
        validate_allocation_data(&allocation(10_000_000 * UNIT + 1, "Quarterly distribution")),
        Err(AllocationError::AmountTooHigh)
    );
    assert_eq!(
        validate_allocation_data(&allocation(UNIT, "   ")),
        Err(AllocationError::RationaleEmpty)
    );
    assert_eq!(
        validate_allocation_data(&allocation(UNIT, "  four ")),
        Err(AllocationError::RationaleTooShort)
    );
    assert_eq!(
        validate_allocation_data(&allocation(UNIT, &"r".repeat(501))),
        Err(AllocationError::RationaleTooLong)
    );
    a = good.clone();
    a.allocated_at = String::new();
    assert_eq!(validate_allocation_data(&a), Err(AllocationError::TimestampEmpty));
    for (rationale, word) in [
        ("This is a TEST entry", "test"),
        ("Dummy fake data", "dummy"),
        ("FAKE payment xxx", "fake"),
        ("placeholder XXX", "xxx"),
        ("The latest figures", "test"),
    ] {
        let e = validate_allocation_data(&allocation(UNIT, rationale)).unwrap_err();
        assert_eq!(e, AllocationError::SuspiciousRationale(word.to_string()), "{}", rationale);
    }
    assert_eq!(
        AllocationError::SuspiciousRationale("fake".to_string()).message(),
        "Allocation rationale contains suspicious content: fake"
    );
}

#[test]
fn impact_event_rules() {
    assert_eq!(event().validate(), Ok(()));
    assert_eq!(validate_impact_event_data(&event()), Ok(()));
    assert_eq!(assert_impact_event_operations(&event()), Ok(()));
    assert_eq!(assert_impact_event_deletion(), Ok(()));
    let mut e = event();
    e.id = String::new();
    assert_eq!(e.validate(), Err(ImpactEventError::IdRequired));
    e = event();
    e.waqf_id = String::new();
    assert_eq!(e.validate(), Err(ImpactEventError::WaqfIdRequired));
    e = event();
    e.cause_id = String::new();
    assert_eq!(e.validate(), Err(ImpactEventError::CauseIdRequired));
    e = event();
    e.title = "Well".to_string();
    assert_eq!(e.validate(), Err(ImpactEventError::TitleTooShort));
    e = event();
    e.description = "Too short".to_string();
    assert_eq!(e.validate(), Err(ImpactEventError::DescriptionTooShort));
    e = event();
    e.amount = -1;
    assert_eq!(e.validate(), Err(ImpactEventError::NegativeAmount));
    e.amount = 0;
    assert_eq!(e.validate(), Ok(()));
    e.currency = "US".to_string();
    assert_eq!(e.validate(), Err(ImpactEventError::InvalidCurrency));
    e.currency = "\u{20a6}".to_string();
    assert_eq!(e.validate(), Ok(()));
    e.location.country = String::new();
    assert_eq!(e.validate(), Err(ImpactEventError::CountryRequired));
    assert_eq!(ImpactEventError::InvalidCurrency.message(), "Currency must be a 3-letter code");
    let mut idle = event();
    assert!(!has_funds_without_beneficiaries(&idle));
    idle.beneficiary_count = 0;
    assert!(has_funds_without_beneficiaries(&idle));
    idle.amount = 0;
    assert!(!has_funds_without_beneficiaries(&idle));
}
