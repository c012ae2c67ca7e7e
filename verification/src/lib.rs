//! Extraction of structured calendar-event records from loosely formatted
//! text lines, such as `- [ ] (21 Nov) (5:30PM-10PM) (713 Music Hall,
//! Houston) Pierce the Veil & Dayseeker`.
//!
//! The crate recognizes lines of that shape, splits them into four raw text
//! fields (date, time, place, title), normalizes the human-written date and
//! time fields, and builds an immutable event record. The date and time
//! grammars are implemented and verified here; turning a canonical
//! `"D Mon YYYY"` or `"H:MM AM|PM"` string into calendar values is delegated
//! to chrono behind a small trusted interface.

pub mod calendar;
pub mod dates;
pub mod model;
pub mod parsing;
pub mod textscan;
pub mod times;
