//! A livestock registry: animal records with breeding links, pedigree
//! resolution, a health-status machine that raises alerts, a medication
//! ledger and an append-only event log. Beside it stand a small message
//! board and the growth stages of a crop.

pub mod crop;
pub mod health;
pub mod laws;
pub mod messages;
pub mod records;
pub mod registry;

pub use crop::GrowthStage;
pub use health::HealthStatus;
pub use messages::{Message, MessageBoard, MessagePayload};
pub use records::{Event, EventLog, HealthAlert, Livestock, LivestockView, Medication, ParentIds};
pub use registry::LivestockManagementSystem;
