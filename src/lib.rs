//! The core of a terminal pager: the viewport over a text, the cursor with
//! its sticky column, the incremental search state, and the two-mode state
//! machine that turns keys into new state and screen updates.
pub mod lines;
pub mod pager;
pub mod search;
pub mod viewport;
