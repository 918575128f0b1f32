//! Classification of Bitcoin output scripts by spending template, commitment
//! verification for script-hash templates, and a two-tier liftability probe
//! that decides whether an executable script is expressible as a Miniscript
//! policy, reported with a fixed exit-code contract.

pub mod classify;
pub mod commit;
pub mod digest;
pub mod engine;
pub mod hexstr;
pub mod probe;
pub mod report;

pub use classify::TemplateKind;
pub use classify::classify_script_pubkey;
pub use probe::ParseOutcome;
pub use probe::PolicyText;
pub use probe::probe;
pub use report::Report;
pub use report::run;
