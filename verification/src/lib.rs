//! Core of a multi-tab browser shell: resolving typed text into a
//! destination address, keeping the ordered set of open tabs with an
//! active-tab index, and driving the suggestion list shown while a new
//! tab is being composed.

pub mod controller;
pub mod search;
pub mod tabs;
pub mod uri;
