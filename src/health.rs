use vstd::prelude::*;

verus! {

/// Health condition of an animal. Every status can follow every other one.
#[derive(Clone, Copy, Debug, PartialEq, Eq, Structural)]
pub enum HealthStatus {
    Healthy,
    Sick,
    Critical,
    Recovering,
}

/// The text that names a status, as it is written into an animal's health notes.
pub open spec fn status_text(s: HealthStatus) -> Seq<char> {
    match s {
        HealthStatus::Healthy => "Healthy"@,
        HealthStatus::Sick => "Sick"@,
        HealthStatus::Critical => "Critical"@,
        HealthStatus::Recovering => "Recovering"@,
    }
}

/// A move into any status but `Healthy` raises a health alert.
pub open spec fn status_raises_alert(s: HealthStatus) -> bool {
    s != HealthStatus::Healthy
}

impl HealthStatus {
    /// The display text of the status.
    pub fn to_string(&self) -> (r: String)
        ensures
            r@ == status_text(*self),
    {
        match self {
            HealthStatus::Healthy => "Healthy".to_owned(),
            HealthStatus::Sick => "Sick".to_owned(),
            HealthStatus::Critical => "Critical".to_owned(),
            HealthStatus::Recovering => "Recovering".to_owned(),
        }
    }

    /// Whether moving an animal into this status raises a health alert.
    pub fn raises_alert(&self) -> (r: bool)
        ensures
            r == status_raises_alert(*self),
    {
        match self {
            HealthStatus::Healthy => false,
            _ => true,
        }
    }
}

impl Default for HealthStatus {
    fn default() -> (r: Self)
        ensures
            r == HealthStatus::Healthy,
    {
        HealthStatus::Healthy
    }
}

} // verus!
