//! The data of books and of the application in the database.
pub mod book_search_result;
pub mod cushion_types;
pub mod prefixed_deserializer;
pub mod query;
pub mod record_sql;
pub mod schema;
pub mod util;
