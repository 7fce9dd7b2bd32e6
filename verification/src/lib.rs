//! The verified core of Karma: frame preparation and scheduling, word packs and OCR text,
//! recognition policy, the IPC protocol, model contracts, evidence sealing, console
//! authentication and process disposition.

pub mod domain;
pub mod text;
pub mod ipc;
pub mod frame;
pub mod preparation;
pub mod scheduler;
pub mod mailbox;
pub mod manifest;
pub mod word_pack;
pub mod ocr_text;
pub mod observation;
pub mod health;
pub mod recognition;
pub mod disposition;
pub mod startup;
pub mod ocr_contract;
pub mod ocr_profile;
pub mod evidence;
pub mod word_pack_document;
pub mod assets;
pub mod engines;
pub mod console;
pub mod benchmark;
pub mod ctc;
pub mod detection_mask;
pub mod image_manifest;
pub mod agent;
pub mod watchdog;
pub mod image_session;
pub mod reference_tensor;
pub mod ocr_pass;
pub mod ocr_manifest;
pub mod service_console;
