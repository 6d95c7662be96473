//! A small task tracker: an insertion-ordered collection of tasks whose
//! status moves from todo to in progress to done.
//!
//! The collection logic is verified; reading and writing the backing file is
//! left to the caller, which hands the library plain values.
mod clock;
mod laws;
mod parse;
mod status;
mod task;

pub use clock::Timestamp;
pub use laws::{
    lemma_add_keeps_order, lemma_added_ids_count_up, lemma_clear_then_add,
    lemma_delete_removes_matches, lemma_listing_keeps_status, lemma_marked_done_is_listed,
    numbered_in_order,
};
pub use parse::{all_digits, digits_value, is_digit, option_string_to_i8, parsed_i8, unsigned_part};
pub use status::TaskStatus;
pub use task::{
    decimal, digit_char, digits, has_next_id, line_of, lines_of, marked, next_id, of_status,
    padded, set_name, set_status, texts, with_id, without_id, Task, TaskError, Tasks, NAME_WIDTH,
};
