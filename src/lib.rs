//! Transaction records handed to consumers under single ownership, the text
//! each consumer reports, and a checker that rejects any use of a record after
//! its ownership has been transferred away.
pub mod consumers;
pub mod record;
pub mod text;
pub mod transfer;
