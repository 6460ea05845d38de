//! Verified core of a suite of small contracting tools: document format
//! routing and CSV handling, contract clause risk scoring, action-item mining,
//! e-mail drafting, screen-region and window-list parsing, spreadsheet
//! filtering, signature-label detection and the bookkeeping helpers that
//! accompany them.
use vstd::prelude::*;

pub mod text;
pub mod calendar;
pub mod pattern;
pub mod docconv;
pub mod clauseguard;
pub mod actionminer;
pub mod screenreader;
pub mod mailcraft;
pub mod sheetwise;
pub mod mousecontrol;
pub mod sigstamp;
pub mod propbuilder;
pub mod receipts;
pub mod invoicer;
pub mod davalive;
pub mod hoags_core;

verus! {

} // verus!
