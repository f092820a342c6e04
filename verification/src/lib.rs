//! Verified core of a side-by-side performance tester for two desktop applications:
//! which applications to launch, how shortcut paths resolve, how sampled process
//! metrics are recorded, and how the report texts and report files are laid out.

pub mod text;
pub mod metrics_collector;
pub mod process_manager;
pub mod app_selection;
pub mod report_generator;
