//! Health records: the enumerations used to validate stored text values, and
//! the plain records exchanged with the front end.
use vstd::prelude::*;

verus! {

/// Overall condition noted at a health check.
#[derive(Debug, Clone, Copy, PartialEq, Eq, Structural)]
pub enum HealthCondition {
    Excellent,
    Good,
    Fair,
    Poor,
}

impl HealthCondition {
    /// The value stored in the `condition` column.
    pub fn as_str(&self) -> (r: &'static str)
        ensures
            r@ == match *self {
                HealthCondition::Excellent => "excellent"@,
                HealthCondition::Good => "good"@,
                HealthCondition::Fair => "fair"@,
                HealthCondition::Poor => "poor"@,
            },
    {
        match self {
            HealthCondition::Excellent => "excellent",
            HealthCondition::Good => "good",
            HealthCondition::Fair => "fair",
            HealthCondition::Poor => "poor",
        }
    }
}

/// Progress of a treatment.
#[derive(Debug, Clone, Copy, PartialEq, Eq, Structural)]
pub enum TreatmentStatus {
    Ongoing,
    Completed,
    Discontinued,
}

impl TreatmentStatus {
    /// The value stored in the `status` column of a treatment.
    pub fn as_str(&self) -> (r: &'static str)
        ensures
            r@ == match *self {
                TreatmentStatus::Ongoing => "ongoing"@,
                TreatmentStatus::Completed => "completed"@,
                TreatmentStatus::Discontinued => "discontinued"@,
            },
    {
        match self {
            TreatmentStatus::Ongoing => "ongoing",
            TreatmentStatus::Completed => "completed",
            TreatmentStatus::Discontinued => "discontinued",
        }
    }
}

/// State of a health reminder.
#[derive(Debug, Clone, Copy, PartialEq, Eq, Structural)]
pub enum ReminderStatus {
    Pending,
    Completed,
    Dismissed,
    Postponed,
}

impl ReminderStatus {
    /// The value stored in the `status` column of a reminder.
    pub fn as_str(&self) -> (r: &'static str)
        ensures
            r@ == match *self {
                ReminderStatus::Pending => "pending"@,
                ReminderStatus::Completed => "completed"@,
                ReminderStatus::Dismissed => "dismissed"@,
                ReminderStatus::Postponed => "postponed"@,
            },
    {
        match self {
            ReminderStatus::Pending => "pending",
            ReminderStatus::Completed => "completed",
            ReminderStatus::Dismissed => "dismissed",
            ReminderStatus::Postponed => "postponed",
        }
    }
}

/// Urgency of a health reminder.
#[derive(Debug, Clone, Copy, PartialEq, Eq, Structural)]
pub enum ReminderPriority {
    Low,
    Medium,
    High,
}

impl ReminderPriority {
    /// The value stored in the `priority` column of a reminder.
    pub fn as_str(&self) -> (r: &'static str)
        ensures
            r@ == match *self {
                ReminderPriority::Low => "low"@,
                ReminderPriority::Medium => "medium"@,
                ReminderPriority::High => "high"@,
            },
    {
        match self {
            ReminderPriority::Low => "low",
            ReminderPriority::Medium => "medium",
            ReminderPriority::High => "high",
        }
    }
}

/// What a health reminder is about.
#[derive(Debug, Clone, Copy, PartialEq, Eq, Structural)]
pub enum ReminderType {
    Vaccination,
    HealthCheck,
    TreatmentFollowUp,
    General,
}

impl ReminderType {
    /// The value stored in the `reminder_type` column.
    pub fn as_str(&self) -> (r: &'static str)
        ensures
            r@ == match *self {
                ReminderType::Vaccination => "vaccination"@,
                ReminderType::HealthCheck => "health_check"@,
                ReminderType::TreatmentFollowUp => "treatment_followup"@,
                ReminderType::General => "general"@,
            },
    {
        match self {
            ReminderType::Vaccination => "vaccination",
            ReminderType::HealthCheck => "health_check",
            ReminderType::TreatmentFollowUp => "treatment_followup",
            ReminderType::General => "general",
        }
    }
}

/// A new kind of vaccine.
#[derive(Debug, Clone)]
pub struct VaccineTypeInput {
    pub name: String,
    pub description: Option<String>,
    pub recommended_age_days: Option<i64>,
    pub frequency_days: Option<i64>,
}

/// Partial update of a vaccination; absent fields keep their value.
#[derive(Debug, Clone)]
pub struct VaccinationUpdate {
    pub id: i64,
    pub vaccination_date: Option<String>,
    pub next_due_date: Option<String>,
    pub batch_number: Option<String>,
    pub manufacturer: Option<String>,
    pub veterinarian: Option<String>,
    pub dosage: Option<String>,
    pub administration_route: Option<String>,
    pub injection_site: Option<String>,
    pub adverse_reactions: Option<String>,
    pub notes: Option<String>,
}

/// A new kind of disease.
#[derive(Debug, Clone)]
pub struct DiseaseTypeInput {
    pub name: String,
    pub description: Option<String>,
    pub symptoms: Option<String>,
    pub treatment_recommendations: Option<String>,
}

/// A new kind of medication.
#[derive(Debug, Clone)]
pub struct MedicationTypeInput {
    pub name: String,
    pub description: Option<String>,
    pub dosage_form: Option<String>,
    pub standard_dosage: Option<String>,
    pub contraindications: Option<String>,
}

/// A new health reminder.
#[derive(Debug, Clone)]
pub struct HealthReminderInput {
    pub pigeon_id: i64,
    pub reminder_type: String,
    pub title: String,
    pub description: Option<String>,
    pub due_date: String,
    pub due_time: Option<String>,
    pub priority: String,
    pub is_recurring: bool,
    pub recurrence_pattern: Option<String>,
    pub recurrence_interval: i32,
    pub recurrence_end_date: Option<String>,
    pub notes: Option<String>,
}

/// Partial update of a health reminder.
#[derive(Debug, Clone)]
pub struct HealthReminderUpdate {
    pub id: i64,
    pub reminder_type: Option<String>,
    pub title: Option<String>,
    pub description: Option<String>,
    pub due_date: Option<String>,
    pub due_time: Option<String>,
    pub priority: Option<String>,
    pub status: Option<String>,
    pub is_recurring: bool,
    pub recurrence_pattern: Option<String>,
    pub recurrence_interval: i32,
    pub recurrence_end_date: Option<String>,
    pub notification_sent: bool,
    pub completed_at: Option<String>,
    pub notes: Option<String>,
}

/// One line of the vaccination schedule report.
#[derive(Debug, Clone)]
pub struct VaccinationSchedule {
    pub pigeon_id: i64,
    pub ring_number: String,
    pub pigeon_name: Option<String>,
    pub vaccine_name: String,
    pub vaccination_date: Option<String>,
    pub next_due_date: Option<String>,
    pub status: String,
    pub days_until_due: i32,
}

/// One line of the treatment history report.
#[derive(Debug, Clone)]
pub struct TreatmentHistory {
    pub pigeon_id: i64,
    pub ring_number: String,
    pub pigeon_name: Option<String>,
    pub disease_name: Option<String>,
    pub medication_name: Option<String>,
    pub diagnosis_date: Option<String>,
    pub start_date: Option<String>,
    pub end_date: Option<String>,
    pub status: String,
    pub treatment_duration_days: i32,
}

/// Counts shown on the health dashboard.
#[derive(Debug, Clone)]
pub struct HealthSummary {
    pub total_pigeons: i32,
    pub healthy_pigeons: i32,
    pub sick_pigeons: i32,
    pub vaccinations_due_this_week: i32,
    pub overdue_vaccinations: i32,
    pub ongoing_treatments: i32,
    pub pending_reminders: i32,
    pub recent_health_checks: i32,
}

/// Counts shown on the reduced health dashboard.
#[derive(Debug, Clone)]
pub struct SimpleHealthSummary {
    pub total_pigeons: i64,
    pub healthy_pigeons: i64,
    pub total_vaccinations: i64,
    pub recent_health_checks: i64,
}

} // verus!
