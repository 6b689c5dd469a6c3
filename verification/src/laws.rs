//! What holds of the policies as a whole.
pub mod administration;
pub mod budget;
pub mod plain_values;
pub mod reading;
pub mod requests;
pub mod valuation;
