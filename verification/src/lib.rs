//! Core of a water-temperature monitor.
//!
//! A polling loop samples a temperature sensor once a second.  This crate
//! holds the verified state machines that the loop consults: threshold
//! crossing detection with a sticky back-to-normal flag, a bounded sampling
//! window that estimates a cooling rate, an at-most-once-per-episode
//! notification gate, and the decision and classification logic of the
//! report pipeline.  Reading the sensor device and performing the outbound
//! network calls are left to the surrounding program.
//!
//! Temperatures are carried as integer millidegrees Celsius, the native
//! unit of the sensor device (it reports thousandths of a degree), so all
//! comparisons and differences are exact.

mod data_collection;
mod helpers;
mod loggings;
mod notification;
mod sampling;
mod sensor;
mod text;
mod threshold;

pub use data_collection::CollectionDecision;
pub use data_collection::DataCollectionError;
pub use data_collection::HTTP_CREATED;
pub use data_collection::HTTP_OK;
pub use data_collection::classify_collection_response;
pub use data_collection::decide_collection;
pub use data_collection::format_u16;

pub use helpers::generate_file_name_with_now_time;
pub use helpers::log_file_name;

pub use loggings::LogLevel;
pub use loggings::LogPolicy;
pub use loggings::format_log_line;
pub use loggings::init_logs;

pub use notification::NotificationGate;
pub use notification::lemma_no_realert_before_normal;

pub use sampling::CoolingRate;
pub use sampling::SamplingWindow;
pub use sampling::lemma_capacity_never_exceeded;
pub use sampling::lemma_flushed_window_not_ready;
pub use sampling::sampling_eligible;
pub use sampling::should_collect_for_sampling;

pub use sensor::DEFAULT_THRESHOLD_MILLIDEGREES;
pub use sensor::SAMPLING_SIZE;
pub use sensor::WaterTemperatureSensor;

pub use text::get_phone_numbers;
pub use text::is_space;
pub use text::lemma_split_commas_len;
pub use text::lemma_split_first_comma;
pub use text::lemma_split_no_comma;
pub use text::spec_fields;
pub use text::split_commas;
pub use text::trim_back;
pub use text::trim_front;
pub use text::trim_spaces;

pub use threshold::ThresholdTracker;
pub use threshold::lemma_back_to_normal_only_on_transition;
pub use threshold::lemma_back_to_normal_sticky;
